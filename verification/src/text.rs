//! Verified helpers for building and inspecting strings, stated over
//! `Seq<char>` views.

use vstd::prelude::*;

verus! {

use vstd::string::StringExecFns;
use vstd::string::StrSliceExecFns;
use vstd::assert_seqs_equal;

/// The characters of the Unicode `White_Space` property, the set that
/// `char::is_whitespace` recognises.
pub open spec fn is_space(c: char) -> bool {
    c == ' ' || c == '\t' || c == '\n' || c == '\u{b}' || c == '\u{c}' || c == '\r' || c
        == '\u{85}' || c == '\u{a0}' || c == '\u{1680}' || ('\u{2000}' <= c && c <= '\u{200a}') || c
        == '\u{2028}' || c == '\u{2029}' || c == '\u{202f}' || c == '\u{205f}' || c == '\u{3000}'
}

pub fn is_space_char(c: char) -> (b: bool)
    ensures
        b == is_space(c),
{
    c == ' ' || c == '\t' || c == '\n' || c == '\u{b}' || c == '\u{c}' || c == '\r' || c == '\u{85}'
        || c == '\u{a0}' || c == '\u{1680}' || ('\u{2000}' <= c && c <= '\u{200a}') || c
        == '\u{2028}' || c == '\u{2029}' || c == '\u{202f}' || c == '\u{205f}' || c == '\u{3000}'
}

/// `s` with its leading whitespace removed.
pub open spec fn trim_start_spec(s: Seq<char>) -> Seq<char>
    decreases s.len(),
{
    if s.len() > 0 && is_space(s[0]) {
        trim_start_spec(s.drop_first())
    } else {
        s
    }
}

/// `s` with its trailing whitespace removed.
pub open spec fn trim_end_spec(s: Seq<char>) -> Seq<char>
    decreases s.len(),
{
    if s.len() > 0 && is_space(s.last()) {
        trim_end_spec(s.drop_last())
    } else {
        s
    }
}

/// `s` with whitespace removed from both ends, as `str::trim` does.
pub open spec fn trim_spec(s: Seq<char>) -> Seq<char> {
    trim_end_spec(trim_start_spec(s))
}

proof fn lemma_trim_start_range(s: Seq<char>, i: int)
    requires
        0 <= i <= s.len(),
        forall|k: int| 0 <= k < i ==> is_space(s[k]),
        i < s.len() ==> !is_space(s[i]),
    ensures
        trim_start_spec(s) == s.subrange(i, s.len() as int),
    decreases i,
{
    if i == 0 {
        if s.len() > 0 && is_space(s[0]) {
            assert(false);
        }
        assert(s.subrange(0, s.len() as int) =~= s);
    } else {
        let t = s.drop_first();
        assert(trim_start_spec(s) == trim_start_spec(t));
        assert(forall|k: int| 0 <= k < i - 1 ==> is_space(#[trigger] t[k]));
        lemma_trim_start_range(t, i - 1);
        assert(t.subrange(i - 1, t.len() as int) =~= s.subrange(i, s.len() as int));
    }
}

proof fn lemma_trim_end_range(s: Seq<char>, j: int)
    requires
        0 <= j <= s.len(),
        forall|k: int| j <= k < s.len() ==> is_space(s[k]),
        j > 0 ==> !is_space(s[j - 1]),
    ensures
        trim_end_spec(s) == s.subrange(0, j),
    decreases s.len() - j,
{
    if j == s.len() {
        if s.len() > 0 && is_space(s.last()) {
            assert(false);
        }
        assert(s.subrange(0, s.len() as int) =~= s);
    } else {
        let t = s.drop_last();
        assert(is_space(s.last()));
        assert(trim_end_spec(s) == trim_end_spec(t));
        lemma_trim_end_range(t, j);
        assert(t.subrange(0, j) =~= s.subrange(0, j));
    }
}

/// `str::trim`, proved against `trim_spec`.
pub fn trim(s: &str) -> (r: &str)
    ensures
        r@ == trim_spec(s@),
{
    let n = s.unicode_len();
    let mut i: usize = 0;
    while i < n && is_space_char(s.get_char(i))
        invariant
            0 <= i <= n,
            n == s@.len(),
            forall|k: int| 0 <= k < i ==> is_space(s@[k]),
        decreases n - i,
    {
        i = i + 1;
    }
    let mut j: usize = n;
    while j > i && is_space_char(s.get_char(j - 1))
        invariant
            i <= j <= n,
            n == s@.len(),
            forall|k: int| 0 <= k < i ==> is_space(s@[k]),
            i < n ==> !is_space(s@[i as int]),
            forall|k: int| j <= k < n ==> is_space(s@[k]),
        decreases j,
    {
        j = j - 1;
    }
    proof {
        lemma_trim_start_range(s@, i as int);
        let t = s@.subrange(i as int, s@.len() as int);
        if j > i {
            lemma_trim_end_range(t, j - i);
        } else {
            lemma_trim_end_range(t, 0);
        }
        assert(t.subrange(0, j - i) =~= s@.subrange(i as int, j as int));
    }
    s.substring_char(i, j)
}

/// The decimal digit character for `d` in `0 ..= 9`.
pub open spec fn dec_digit(d: int) -> char {
    if d == 0 {
        '0'
    } else if d == 1 {
        '1'
    } else if d == 2 {
        '2'
    } else if d == 3 {
        '3'
    } else if d == 4 {
        '4'
    } else if d == 5 {
        '5'
    } else if d == 6 {
        '6'
    } else if d == 7 {
        '7'
    } else if d == 8 {
        '8'
    } else {
        '9'
    }
}

/// The decimal rendering of a non-negative integer, most significant digit
/// first, with no leading zeros (a lone `0` for zero).
pub open spec fn dec_spec(n: int) -> Seq<char>
    decreases n,
{
    if n < 10 {
        seq![dec_digit(n)]
    } else {
        dec_spec(n / 10) + seq![dec_digit(n % 10)]
    }
}

/// Relies on `String::push`: appends exactly one character.
#[verifier::external_body]
pub fn push_char(s: &mut String, c: char)
    ensures
        final(s)@ == old(s)@ + seq![c],
{
    s.push(c);
}

fn dec_digit_char(d: u64) -> (c: char)
    requires
        d < 10,
    ensures
        c == dec_digit(d as int),
{
    if d == 0 {
        '0'
    } else if d == 1 {
        '1'
    } else if d == 2 {
        '2'
    } else if d == 3 {
        '3'
    } else if d == 4 {
        '4'
    } else if d == 5 {
        '5'
    } else if d == 6 {
        '6'
    } else if d == 7 {
        '7'
    } else if d == 8 {
        '8'
    } else {
        '9'
    }
}

/// Renders `n` in decimal, proved against `dec_spec`.
pub fn u64_to_string(n: u64) -> (r: String)
    ensures
        r@ == dec_spec(n as int),
    decreases n,
{
    if n < 10 {
        let mut s = String::new();
        push_char(&mut s, dec_digit_char(n));
        assert(s@ =~= dec_spec(n as int));
        s
    } else {
        let mut s = u64_to_string(n / 10);
        push_char(&mut s, dec_digit_char(n % 10));
        s
    }
}

/// Character-sequence equality of two string slices.
pub fn str_eq(a: &str, b: &str) -> (r: bool)
    ensures
        r == (a@ == b@),
{
    let x: String = a.to_owned();
    let y: String = b.to_owned();
    x == y
}

/// `p` is a prefix of `s`.
pub open spec fn has_prefix(s: Seq<char>, p: Seq<char>) -> bool {
    p.len() <= s.len() && s.subrange(0, p.len() as int) == p
}

pub fn starts_with(s: &str, p: &str) -> (r: bool)
    ensures
        r == has_prefix(s@, p@),
{
    let n = s.unicode_len();
    let m = p.unicode_len();
    if m > n {
        false
    } else {
        str_eq(s.substring_char(0, m), p)
    }
}

/// `p` occurs in `s` starting at index `i`.
pub open spec fn occurs_at(s: Seq<char>, p: Seq<char>, i: int) -> bool {
    0 <= i && i + p.len() <= s.len() && s.subrange(i, i + p.len()) == p
}

/// `p` occurs somewhere in `s`.
pub open spec fn contains_seq(s: Seq<char>, p: Seq<char>) -> bool {
    exists|i: int| occurs_at(s, p, i)
}

/// The index of the first occurrence of `p` in `s`, if any.
pub fn find_sub(s: &str, p: &str) -> (r: Option<usize>)
    ensures
        match r {
            Some(i) => occurs_at(s@, p@, i as int) && forall|j: int|
                0 <= j < i ==> !occurs_at(s@, p@, j),
            None => !contains_seq(s@, p@),
        },
{
    let n = s.unicode_len();
    let m = p.unicode_len();
    if m > n {
        assert(forall|i: int| !occurs_at(s@, p@, i));
        return None;
    }
    if m == 0 {
        assert(s@.subrange(0, 0) =~= p@);
        return Some(0);
    }
    let mut i: usize = 0;
    while i <= n - m
        invariant
            1 <= m <= n,
            n == s@.len(),
            m == p@.len(),
            0 <= i <= n - m + 1,
            forall|j: int| 0 <= j < i ==> !occurs_at(s@, p@, j),
        decreases n - i,
    {
        if str_eq(s.substring_char(i, i + m), p) {
            return Some(i);
        }
        i = i + 1;
    }
    assert(forall|j: int| occurs_at(s@, p@, j) ==> 0 <= j <= n - m);
    None
}

pub fn contains_sub(s: &str, p: &str) -> (r: bool)
    ensures
        r == contains_seq(s@, p@),
{
    find_sub(s, p).is_some()
}

/// Appends `part` to `out`; a convenience over `String::append`.
pub fn push_str(out: &mut String, part: &str)
    ensures
        final(out)@ == old(out)@ + part@,
{
    out.append(part);
}

/// The character sequences of a list of strings.
pub open spec fn views_of(names: Seq<String>) -> Seq<Seq<char>> {
    names.map_values(|n: String| n@)
}

/// A comma-separated, double-quoted rendering of a list of names:
/// `["a", "b"]`, written without escaping.
pub open spec fn quoted_list_spec(names: Seq<Seq<char>>) -> Seq<char> {
    "["@ + quoted_items_spec(names) + "]"@
}

pub open spec fn quoted_items_spec(names: Seq<Seq<char>>) -> Seq<char>
    decreases names.len(),
{
    if names.len() == 0 {
        Seq::<char>::empty()
    } else if names.len() == 1 {
        "\""@ + names[0] + "\""@
    } else {
        quoted_items_spec(names.drop_last()) + ", \""@ + names.last() + "\""@
    }
}

/// Renders `names` as `["a", "b"]`, proved against `quoted_list_spec`.
pub fn quoted_list(names: &Vec<String>) -> (r: String)
    ensures
        r@ == quoted_list_spec(views_of(names@)),
{
    let ghost m = views_of(names@);
    let mut out = String::new();
    push_str(&mut out, "[");
    let n = names.len();
    let mut i: usize = 0;
    while i < n
        invariant
            0 <= i <= n,
            n == names@.len(),
            m == views_of(names@),
            out@ == "["@ + quoted_items_spec(m.take(i as int)),
        decreases n - i,
    {
        if i > 0 {
            push_str(&mut out, ", \"");
        } else {
            push_str(&mut out, "\"");
        }
        push_str(&mut out, names[i].as_str());
        push_str(&mut out, "\"");
        proof {
            let t = m.take(i + 1);
            assert(m[i as int] == names@[i as int]@);
            assert(t.len() == i + 1);
            assert(t.last() == m[i as int]);
            assert(t.drop_last() =~= m.take(i as int));
            if i == 0 {
                assert(quoted_items_spec(m.take(0)) == Seq::<char>::empty());
                assert(t[0] == m[0]);
                assert(quoted_items_spec(t) == "\""@ + t[0] + "\""@);
                assert_seqs_equal!(out@ == "["@ + quoted_items_spec(t));
            } else {
                assert(quoted_items_spec(t) == quoted_items_spec(m.take(i as int)) + ", \""@
                    + m[i as int] + "\""@);
                assert_seqs_equal!(out@ == "["@ + quoted_items_spec(t));
            }
        }
        i = i + 1;
    }
    push_str(&mut out, "]");
    proof {
        assert(m.take(n as int) =~= m);
        assert(out@ =~= quoted_list_spec(m));
    }
    out
}

/// The parts joined with a single space between neighbours.
pub open spec fn join_space_spec(parts: Seq<Seq<char>>) -> Seq<char>
    decreases parts.len(),
{
    if parts.len() == 0 {
        Seq::<char>::empty()
    } else if parts.len() == 1 {
        parts[0]
    } else {
        join_space_spec(parts.drop_last()) + " "@ + parts.last()
    }
}

/// Joins `parts` with spaces, proved against `join_space_spec`.
pub fn join_space(parts: &Vec<String>) -> (r: String)
    ensures
        r@ == join_space_spec(views_of(parts@)),
{
    let ghost m = views_of(parts@);
    let mut out = String::new();
    let n = parts.len();
    let mut i: usize = 0;
    while i < n
        invariant
            0 <= i <= n,
            n == parts@.len(),
            m == views_of(parts@),
            out@ == join_space_spec(m.take(i as int)),
        decreases n - i,
    {
        if i > 0 {
            push_str(&mut out, " ");
        }
        push_str(&mut out, parts[i].as_str());
        proof {
            let t = m.take(i + 1);
            assert(m[i as int] == parts@[i as int]@);
            assert(t.last() == m[i as int]);
            assert(t.drop_last() =~= m.take(i as int));
            if i == 0 {
                assert(t[0] == m[0]);
                assert(join_space_spec(t) == t[0]);
                assert_seqs_equal!(out@ == join_space_spec(t));
            } else {
                assert(join_space_spec(t) == join_space_spec(m.take(i as int)) + " "@
                    + m[i as int]);
                assert_seqs_equal!(out@ == join_space_spec(t));
            }
        }
        i = i + 1;
    }
    proof {
        assert(m.take(n as int) =~= m);
    }
    out
}

/// Whatever stands between `pre` and `post` occurs in the concatenation.
pub proof fn lemma_contains_concat_middle(pre: Seq<char>, mid: Seq<char>, post: Seq<char>)
    ensures
        contains_seq(pre + mid + post, mid),
{
    let s = pre + mid + post;
    assert(s.subrange(pre.len() as int, pre.len() + mid.len() as int) =~= mid);
    assert(occurs_at(s, mid, pre.len() as int));
}

/// An occurrence survives extending the string on the right.
pub proof fn lemma_contains_extend_right(s: Seq<char>, t: Seq<char>, p: Seq<char>)
    requires
        contains_seq(s, p),
    ensures
        contains_seq(s + t, p),
{
    let i = choose|i: int| occurs_at(s, p, i);
    assert((s + t).subrange(i, i + p.len() as int) =~= s.subrange(i, i + p.len() as int));
    assert(occurs_at(s + t, p, i));
}

/// An occurrence survives extending the string on the left.
pub proof fn lemma_contains_extend_left(s: Seq<char>, t: Seq<char>, p: Seq<char>)
    requires
        contains_seq(t, p),
    ensures
        contains_seq(s + t, p),
{
    let i = choose|i: int| occurs_at(t, p, i);
    assert((s + t).subrange(s.len() + i, s.len() + i + p.len() as int) =~= t.subrange(
        i,
        i + p.len() as int,
    ));
    assert(occurs_at(s + t, p, s.len() + i));
}

/// Every name of the list occurs in its quoted rendering.
pub proof fn lemma_quoted_items_contain(names: Seq<Seq<char>>, i: int)
    requires
        0 <= i < names.len(),
    ensures
        contains_seq(quoted_items_spec(names), names[i]),
    decreases names.len(),
{
    if names.len() == 1 {
        lemma_contains_concat_middle("\""@, names[0], "\""@);
    } else if i == names.len() - 1 {
        lemma_contains_concat_middle(quoted_items_spec(names.drop_last()) + ", \""@, names[i], "\""@);
        assert(quoted_items_spec(names.drop_last()) + ", \""@ + names[i] + "\""@
            =~= (quoted_items_spec(names.drop_last()) + ", \""@) + names[i] + "\""@);
    } else {
        lemma_quoted_items_contain(names.drop_last(), i);
        assert(names.drop_last()[i] == names[i]);
        lemma_contains_extend_right(
            quoted_items_spec(names.drop_last()),
            ", \""@ + names.last() + "\""@,
            names[i],
        );
        assert(quoted_items_spec(names.drop_last()) + ", \""@ + names.last() + "\""@
            =~= quoted_items_spec(names.drop_last()) + (", \""@ + names.last() + "\""@));
    }
}

/// Every name of the list occurs in `quoted_list_spec(names)`.
pub proof fn lemma_quoted_list_contains(names: Seq<Seq<char>>, i: int)
    requires
        0 <= i < names.len(),
    ensures
        contains_seq(quoted_list_spec(names), names[i]),
{
    lemma_quoted_items_contain(names, i);
    lemma_contains_extend_left("["@, quoted_items_spec(names), names[i]);
    lemma_contains_extend_right("["@ + quoted_items_spec(names), "]"@, names[i]);
}

/// `p` is a suffix of `s`.
pub open spec fn has_suffix(s: Seq<char>, p: Seq<char>) -> bool {
    p.len() <= s.len() && s.subrange(s.len() - p.len(), s.len() as int) == p
}

pub fn ends_with(s: &str, p: &str) -> (r: bool)
    ensures
        r == has_suffix(s@, p@),
{
    let n = s.unicode_len();
    let m = p.unicode_len();
    if m > n {
        false
    } else {
        str_eq(s.substring_char(n - m, n), p)
    }
}

// ---------------------------------------------------------------------------
// Decimal digit strings
// ---------------------------------------------------------------------------

pub open spec fn is_digit(c: char) -> bool {
    '0' <= c && c <= '9'
}

pub open spec fn digit_of(c: char) -> int {
    c as int - '0' as int
}

pub open spec fn all_digits(s: Seq<char>) -> bool {
    forall|i: int| 0 <= i < s.len() ==> is_digit(s[i])
}

/// The numeric value of a digit string, most significant digit first.
pub open spec fn digits_val(s: Seq<char>) -> int
    decreases s.len(),
{
    if s.len() == 0 {
        0
    } else {
        digits_val(s.drop_last()) * 10 + digit_of(s.last())
    }
}

/// The value of a digit string is non-negative and no prefix exceeds it.
pub proof fn lemma_digits_val_prefix(s: Seq<char>, i: int)
    requires
        all_digits(s),
        0 <= i <= s.len(),
    ensures
        0 <= digits_val(s.take(i)) <= digits_val(s),
    decreases s.len() - i,
{
    if i == s.len() {
        assert(s.take(i) =~= s);
        lemma_digits_val_nonneg(s);
    } else {
        lemma_digits_val_prefix(s, i + 1);
        let t = s.take(i + 1);
        assert(t.drop_last() =~= s.take(i));
        assert(t.last() == s[i]);
        assert(digits_val(t) == digits_val(s.take(i)) * 10 + digit_of(s[i]));
        lemma_digits_val_nonneg(s.take(i));
    }
}

pub proof fn lemma_digits_val_nonneg(s: Seq<char>)
    requires
        all_digits(s),
    ensures
        digits_val(s) >= 0,
    decreases s.len(),
{
    if s.len() > 0 {
        assert(all_digits(s.drop_last()));
        lemma_digits_val_nonneg(s.drop_last());
        assert(is_digit(s.last()));
    }
}

// ---------------------------------------------------------------------------
// Splitting
// ---------------------------------------------------------------------------

/// The index of the first occurrence of `c` in `s`, or `s.len()` when absent.
pub open spec fn idx_of(s: Seq<char>, c: char) -> int
    decreases s.len(),
{
    if s.len() == 0 {
        0
    } else if s[0] == c {
        0
    } else {
        1 + idx_of(s.drop_first(), c)
    }
}

pub proof fn lemma_idx_of_characterization(s: Seq<char>, c: char, k: int)
    requires
        0 <= k <= s.len(),
        forall|j: int| 0 <= j < k ==> s[j] != c,
        k < s.len() ==> s[k] == c,
    ensures
        idx_of(s, c) == k,
    decreases k,
{
    if s.len() == 0 {
    } else if k == 0 {
    } else {
        let t = s.drop_first();
        assert(forall|j: int| 0 <= j < k - 1 ==> #[trigger] t[j] != c);
        lemma_idx_of_characterization(t, c, k - 1);
    }
}

pub proof fn lemma_idx_of_bounds(s: Seq<char>, c: char)
    ensures
        0 <= idx_of(s, c) <= s.len(),
        idx_of(s, c) < s.len() ==> s[idx_of(s, c)] == c,
        forall|j: int| 0 <= j < idx_of(s, c) ==> s[j] != c,
    decreases s.len(),
{
    if s.len() == 0 {
    } else if s[0] == c {
    } else {
        lemma_idx_of_bounds(s.drop_first(), c);
        let t = s.drop_first();
        assert forall|j: int| 0 <= j < idx_of(s, c) implies s[j] != c by {
            if j >= 1 {
                assert(s[j] == t[j - 1]);
            }
        }
    }
}

/// Finds the first occurrence of the character `c`, or `s`'s length.
pub fn find_char(s: &str, c: char) -> (k: usize)
    ensures
        k == idx_of(s@, c),
{
    let n = s.unicode_len();
    let mut k: usize = 0;
    while k < n && s.get_char(k) != c
        invariant
            0 <= k <= n,
            n == s@.len(),
            forall|j: int| 0 <= j < k ==> s@[j] != c,
        decreases n - k,
    {
        k = k + 1;
    }
    proof {
        lemma_idx_of_characterization(s@, c, k as int);
    }
    k
}

/// `s` split on every occurrence of `sep`; empty parts are kept, and a string
/// without the separator is one part.
pub open spec fn split_char_spec(s: Seq<char>, sep: char) -> Seq<Seq<char>>
    decreases s.len(),
{
    let k = idx_of(s, sep);
    if 0 <= k < s.len() {
        seq![s.take(k)] + split_char_spec(s.skip(k + 1), sep)
    } else {
        seq![s]
    }
}

/// Splits on a separator character, proved against `split_char_spec`.
pub fn split_on(s: &str, sep: char) -> (r: Vec<String>)
    ensures
        views_of(r@) == split_char_spec(s@, sep),
    decreases s@.len(),
{
    let n = s.unicode_len();
    let k = find_char(s, sep);
    proof {
        lemma_idx_of_bounds(s@, sep);
    }
    if k == n {
        let mut out: Vec<String> = Vec::new();
        out.push(s.to_owned());
        proof {
            assert(views_of(out@) =~= split_char_spec(s@, sep));
        }
        out
    } else {
        let head = s.substring_char(0, k).to_owned();
        let mut rest = split_on(s.substring_char(k + 1, n), sep);
        let ghost r0 = rest@;
        let ghost h0 = head@;
        let mut out: Vec<String> = Vec::new();
        out.push(head);
        out.append(&mut rest);
        proof {
            assert(s@.subrange(k as int + 1, n as int) =~= s@.skip(k as int + 1));
            let target = split_char_spec(s@, sep);
            assert(target == seq![s@.take(k as int)] + split_char_spec(s@.skip(k as int + 1), sep));
            assert(views_of(out@).len() == target.len());
            assert forall|i: int| 0 <= i < target.len() implies views_of(out@)[i] == target[i] by {
                if i == 0 {
                    assert(out@[0]@ == h0);
                    assert(h0 =~= s@.take(k as int));
                } else {
                    assert(out@[i] == r0[i - 1]);
                    assert(views_of(r0)[i - 1] == r0[i - 1]@);
                }
            }
            assert(views_of(out@) =~= target);
        }
        out
    }
}

/// The length of the leading run of non-whitespace characters.
pub open spec fn nonspace_len(s: Seq<char>) -> nat
    decreases s.len(),
{
    if s.len() == 0 || is_space(s[0]) {
        0
    } else {
        1 + nonspace_len(s.drop_first())
    }
}

pub proof fn lemma_nonspace_len_characterization(s: Seq<char>, k: int)
    requires
        0 <= k <= s.len(),
        forall|j: int| 0 <= j < k ==> !is_space(s[j]),
        k < s.len() ==> is_space(s[k]),
    ensures
        nonspace_len(s) == k,
    decreases k,
{
    if s.len() == 0 {
    } else if k == 0 {
    } else {
        let t = s.drop_first();
        assert(forall|j: int| 0 <= j < k - 1 ==> !is_space(#[trigger] t[j]));
        lemma_nonspace_len_characterization(t, k - 1);
    }
}

pub proof fn lemma_nonspace_len_bounds(s: Seq<char>)
    ensures
        nonspace_len(s) <= s.len(),
    decreases s.len(),
{
    if s.len() > 0 && !is_space(s[0]) {
        lemma_nonspace_len_bounds(s.drop_first());
    }
}

/// `s` split on runs of whitespace, as `str::split_whitespace` does: no empty
/// parts, and leading or trailing whitespace is ignored.
pub open spec fn split_ws_spec(s: Seq<char>) -> Seq<Seq<char>>
    decreases s.len(),
{
    if s.len() == 0 {
        Seq::<Seq<char>>::empty()
    } else if is_space(s[0]) {
        split_ws_spec(s.drop_first())
    } else {
        let k = nonspace_len(s) as int;
        if 1 <= k <= s.len() {
            seq![s.take(k)] + split_ws_spec(s.skip(k))
        } else {
            Seq::<Seq<char>>::empty()
        }
    }
}

/// Splits on whitespace, proved against `split_ws_spec`.
pub fn split_ws(s: &str) -> (r: Vec<String>)
    ensures
        views_of(r@) == split_ws_spec(s@),
    decreases s@.len(),
{
    let n = s.unicode_len();
    if n == 0 {
        let out: Vec<String> = Vec::new();
        proof {
            assert(views_of(out@) =~= split_ws_spec(s@));
        }
        return out;
    }
    if is_space_char(s.get_char(0)) {
        let r = split_ws(s.substring_char(1, n));
        proof {
            assert(s@.subrange(1, n as int) =~= s@.drop_first());
        }
        return r;
    }
    let mut k: usize = 1;
    while k < n && !is_space_char(s.get_char(k))
        invariant
            1 <= k <= n,
            n == s@.len(),
            !is_space(s@[0]),
            forall|j: int| 0 <= j < k ==> !is_space(s@[j]),
        decreases n - k,
    {
        k = k + 1;
    }
    proof {
        lemma_nonspace_len_characterization(s@, k as int);
    }
    let head = s.substring_char(0, k).to_owned();
    let mut rest = split_ws(s.substring_char(k, n));
    let ghost r0 = rest@;
    let ghost h0 = head@;
    let mut out: Vec<String> = Vec::new();
    out.push(head);
    out.append(&mut rest);
    proof {
        assert(s@.subrange(k as int, n as int) =~= s@.skip(k as int));
        let target = split_ws_spec(s@);
        assert(target == seq![s@.take(k as int)] + split_ws_spec(s@.skip(k as int)));
        assert(views_of(out@).len() == target.len());
        assert forall|i: int| 0 <= i < target.len() implies views_of(out@)[i] == target[i] by {
            if i == 0 {
                assert(out@[0]@ == h0);
                assert(h0 =~= s@.take(k as int));
            } else {
                assert(out@[i] == r0[i - 1]);
                assert(views_of(r0)[i - 1] == r0[i - 1]@);
            }
        }
        assert(views_of(out@) =~= target);
    }
    out
}

/// The index of the first occurrence of `p` in `s`, or `-1` when `p` does not
/// occur.
pub open spec fn find_idx(s: Seq<char>, p: Seq<char>) -> int
    decreases s.len(),
{
    if p.len() > s.len() {
        -1
    } else if s.take(p.len() as int) == p {
        0
    } else if s.len() == 0 {
        -1
    } else {
        let r = find_idx(s.drop_first(), p);
        if r < 0 {
            -1
        } else {
            1 + r
        }
    }
}

proof fn lemma_occurs_drop_first(s: Seq<char>, p: Seq<char>, j: int)
    requires
        0 <= j,
        s.len() > 0,
    ensures
        occurs_at(s, p, j + 1) == occurs_at(s.drop_first(), p, j),
{
    let t = s.drop_first();
    if j + 1 + p.len() <= s.len() {
        assert(s.subrange(j + 1, j + 1 + p.len() as int) =~= t.subrange(j, j + p.len() as int));
    }
}

/// The first occurrence characterizes `find_idx`.
pub proof fn lemma_find_idx_some(s: Seq<char>, p: Seq<char>, k: int)
    requires
        occurs_at(s, p, k),
        forall|j: int| 0 <= j < k ==> !occurs_at(s, p, j),
    ensures
        find_idx(s, p) == k,
    decreases k,
{
    if k == 0 {
        assert(s.take(p.len() as int) == p);
    } else {
        assert(!occurs_at(s, p, 0));
        assert(s.take(p.len() as int) != p) by {
            if s.take(p.len() as int) == p {
                assert(occurs_at(s, p, 0));
            }
        }
        let t = s.drop_first();
        lemma_occurs_drop_first(s, p, k - 1);
        assert forall|j: int| 0 <= j < k - 1 implies !occurs_at(t, p, j) by {
            lemma_occurs_drop_first(s, p, j);
        }
        lemma_find_idx_some(t, p, k - 1);
    }
}

/// Absence characterizes `find_idx`.
pub proof fn lemma_find_idx_none(s: Seq<char>, p: Seq<char>)
    requires
        !contains_seq(s, p),
    ensures
        find_idx(s, p) == -1,
    decreases s.len(),
{
    if p.len() > s.len() {
    } else {
        assert(s.take(p.len() as int) != p) by {
            if s.take(p.len() as int) == p {
                assert(occurs_at(s, p, 0));
            }
        }
        if s.len() > 0 {
            let t = s.drop_first();
            assert(!contains_seq(t, p)) by {
                if contains_seq(t, p) {
                    let j = choose|j: int| occurs_at(t, p, j);
                    lemma_occurs_drop_first(s, p, j);
                    assert(occurs_at(s, p, j + 1));
                }
            }
            lemma_find_idx_none(t, p);
        }
    }
}

/// The index of the last space in `s`, or `-1` when there is none.
pub open spec fn rfind_space(s: Seq<char>) -> int
    decreases s.len(),
{
    if s.len() == 0 {
        -1
    } else if s.last() == ' ' {
        s.len() - 1
    } else {
        rfind_space(s.drop_last())
    }
}

pub proof fn lemma_rfind_space_characterization(s: Seq<char>, k: int)
    requires
        -1 <= k < s.len(),
        k >= 0 ==> s[k] == ' ',
        forall|j: int| k < j < s.len() ==> s[j] != ' ',
    ensures
        rfind_space(s) == k,
    decreases s.len(),
{
    if s.len() == 0 {
    } else if k == s.len() - 1 {
    } else {
        assert(s.last() != ' ');
        let t = s.drop_last();
        assert(forall|j: int| k < j < t.len() ==> #[trigger] t[j] != ' ');
        lemma_rfind_space_characterization(t, k);
    }
}

/// `str::trim_end`, proved against `trim_end_spec`.
pub fn trim_end(s: &str) -> (r: &str)
    ensures
        r@ == trim_end_spec(s@),
{
    let n = s.unicode_len();
    let mut j: usize = n;
    while j > 0 && is_space_char(s.get_char(j - 1))
        invariant
            0 <= j <= n,
            n == s@.len(),
            forall|k: int| j <= k < n ==> is_space(s@[k]),
        decreases j,
    {
        j = j - 1;
    }
    proof {
        lemma_trim_end_range(s@, j as int);
    }
    s.substring_char(0, j)
}

/// The decimal rendering of a signed integer.
pub open spec fn dec_i64_spec(n: int) -> Seq<char> {
    if n < 0 {
        "-"@ + dec_spec(-n)
    } else {
        dec_spec(n)
    }
}

/// Renders `n` in signed decimal, proved against `dec_i64_spec`.
pub fn i64_to_string(n: i64) -> (r: String)
    ensures
        r@ == dec_i64_spec(n as int),
{
    if n >= 0 {
        u64_to_string(n as u64)
    } else {
        let mag: u64 = if n == -9223372036854775807i64 - 1 {
            9223372036854775808u64
        } else {
            (-n) as u64
        };
        let mut out = String::new();
        push_str(&mut out, "-");
        let digits = u64_to_string(mag);
        push_str(&mut out, digits.as_str());
        out
    }
}

/// `s` with every trailing `c` removed.
pub open spec fn trim_trailing_spec(s: Seq<char>, c: char) -> Seq<char>
    decreases s.len(),
{
    if s.len() > 0 && s.last() == c {
        trim_trailing_spec(s.drop_last(), c)
    } else {
        s
    }
}

proof fn lemma_trim_trailing_range(s: Seq<char>, c: char, j: int)
    requires
        0 <= j <= s.len(),
        forall|k: int| j <= k < s.len() ==> s[k] == c,
        j > 0 ==> s[j - 1] != c,
    ensures
        trim_trailing_spec(s, c) == s.subrange(0, j),
    decreases s.len() - j,
{
    if j == s.len() {
        if s.len() > 0 && s.last() == c {
            assert(false);
        }
        assert(s.subrange(0, s.len() as int) =~= s);
    } else {
        let t = s.drop_last();
        lemma_trim_trailing_range(t, c, j);
        assert(t.subrange(0, j) =~= s.subrange(0, j));
    }
}

/// Removes every trailing `c`, as `str::trim_end_matches` does for a single
/// character pattern.
pub fn trim_trailing(s: &str, c: char) -> (r: &str)
    ensures
        r@ == trim_trailing_spec(s@, c),
{
    let n = s.unicode_len();
    let mut j: usize = n;
    while j > 0 && s.get_char(j - 1) == c
        invariant
            0 <= j <= n,
            n == s@.len(),
            forall|k: int| j <= k < n ==> s@[k] == c,
        decreases j,
    {
        j = j - 1;
    }
    proof {
        lemma_trim_trailing_range(s@, c, j as int);
    }
    s.substring_char(0, j)
}

/// The parts joined with a newline between neighbours.
pub open spec fn join_lines_spec(parts: Seq<Seq<char>>) -> Seq<char>
    decreases parts.len(),
{
    if parts.len() == 0 {
        Seq::<char>::empty()
    } else if parts.len() == 1 {
        parts[0]
    } else {
        join_lines_spec(parts.drop_last()) + "\n"@ + parts.last()
    }
}

/// Joins `parts` with newlines, proved against `join_lines_spec`.
pub fn join_lines(parts: &Vec<String>) -> (r: String)
    ensures
        r@ == join_lines_spec(views_of(parts@)),
{
    let ghost m = views_of(parts@);
    let mut out = String::new();
    let n = parts.len();
    let mut i: usize = 0;
    while i < n
        invariant
            0 <= i <= n,
            n == parts@.len(),
            m == views_of(parts@),
            out@ == join_lines_spec(m.take(i as int)),
        decreases n - i,
    {
        if i > 0 {
            push_str(&mut out, "\n");
        }
        push_str(&mut out, parts[i].as_str());
        proof {
            let t = m.take(i + 1);
            assert(m[i as int] == parts@[i as int]@);
            assert(t.last() == m[i as int]);
            assert(t.drop_last() =~= m.take(i as int));
            if i == 0 {
                assert(t[0] == m[0]);
                assert(join_lines_spec(t) == t[0]);
                assert_seqs_equal!(out@ == join_lines_spec(t));
            } else {
                assert(join_lines_spec(t) == join_lines_spec(m.take(i as int)) + "\n"@
                    + m[i as int]);
                assert_seqs_equal!(out@ == join_lines_spec(t));
            }
        }
        i = i + 1;
    }
    proof {
        assert(m.take(n as int) =~= m);
    }
    out
}

} // verus!






