//! The RSS/Atom feed reader: configured feeds with a description for the
//! agent loop, and a tolerant parser that pulls titles, links, dates and
//! descriptions out of RSS 2.0 `<item>` or Atom `<entry>` blocks.
//!
//! Fetching the feed over HTTP is the embedding application's work; the
//! parsing and all decisions are verified here.

use vstd::prelude::*;

verus! {

use vstd::string::StringExecFns;
use vstd::string::StrSliceExecFns;
use crate::text::{
    contains_seq, contains_sub, ends_with, find_char, find_idx, find_sub, has_prefix, has_suffix,
    idx_of, lemma_find_idx_none, lemma_find_idx_some, lemma_idx_of_bounds,
    lemma_rfind_space_characterization, push_str, quoted_list, quoted_list_spec, rfind_space,
    starts_with, str_eq, trim, trim_spec, views_of,
};

/// One configured feed.
pub struct RssFeedEntry {
    pub name: String,
    pub url: String,
    pub notes: Option<String>,
    pub max_items: Option<usize>,
}

pub struct RssFeedConfig {
    pub enabled: bool,
    pub timeout_secs: u64,
    pub connect_timeout_secs: u64,
    pub max_items: usize,
    pub feeds: Vec<RssFeedEntry>,
}

/// One parsed feed item.
pub struct RssItem {
    pub title: String,
    pub link: String,
    pub pub_date: String,
    pub description: String,
}

// ---------------------------------------------------------------------------
// Description and feed resolution
// ---------------------------------------------------------------------------

pub open spec fn rss_description_base() -> Seq<char> {
    "Fetch and read RSS/Atom feeds. Returns recent items with titles, links, dates, and descriptions."@
}

pub open spec fn feed_entry_desc(feed: RssFeedEntry) -> Seq<char> {
    "\n- \""@ + feed.name@ + "\" ("@ + feed.url@ + ")"@ + (match feed.notes {
        Some(n) => " — "@ + n@,
        None => Seq::<char>::empty(),
    })
}

pub open spec fn feeds_desc(feeds: Seq<RssFeedEntry>) -> Seq<char>
    decreases feeds.len(),
{
    if feeds.len() == 0 {
        Seq::<char>::empty()
    } else {
        feeds_desc(feeds.drop_last()) + feed_entry_desc(feeds.last())
    }
}

/// The whole description: the preamble alone when no feed is configured, else
/// the preamble, a header, and one line per feed.
pub open spec fn rss_description_spec(config: RssFeedConfig) -> Seq<char> {
    if config.feeds@.len() == 0 {
        rss_description_base()
    } else {
        rss_description_base() + " Available feeds:"@ + feeds_desc(config.feeds@)
    }
}

/// The names of the configured feeds, in order.
pub open spec fn feed_names(feeds: Seq<RssFeedEntry>) -> Seq<Seq<char>> {
    feeds.map_values(|f: RssFeedEntry| f.name@)
}

pub open spec fn has_feed(feeds: Seq<RssFeedEntry>, name: Seq<char>) -> bool {
    exists|i: int| 0 <= i < feeds.len() && feeds[i].name@ == name
}

pub open spec fn is_first_feed(feeds: Seq<RssFeedEntry>, name: Seq<char>, i: int) -> bool {
    &&& 0 <= i < feeds.len()
    &&& feeds[i].name@ == name
    &&& forall|j: int| 0 <= j < i ==> feeds[j].name@ != name
}

/// The message reported for an unknown feed name; it enumerates the
/// configured names.
pub open spec fn unknown_feed_msg(name: Seq<char>, feeds: Seq<RssFeedEntry>) -> Seq<char> {
    "Unknown feed '"@ + name + "'. Available feeds: "@ + quoted_list_spec(feed_names(feeds))
}

/// The feed reader tool: configuration plus its description.
pub struct RssFeedTool {
    pub config: RssFeedConfig,
    pub description: String,
}

impl RssFeedTool {
    pub fn new(config: RssFeedConfig) -> (r: RssFeedTool)
        ensures
            r.config == config,
            r.description@ == rss_description_spec(config),
    {
        let description = Self::build_description(&config);
        RssFeedTool { config, description }
    }

    pub fn build_description(config: &RssFeedConfig) -> (r: String)
        ensures
            r@ == rss_description_spec(*config),
    {
        let mut desc = String::new();
        push_str(
            &mut desc,
            "Fetch and read RSS/Atom feeds. Returns recent items with titles, links, dates, and descriptions.",
        );
        if config.feeds.len() == 0 {
            return desc;
        }
        push_str(&mut desc, " Available feeds:");
        let ghost before = desc@;
        let n = config.feeds.len();
        let mut i: usize = 0;
        while i < n
            invariant
                0 <= i <= n,
                n == config.feeds@.len(),
                desc@ == before + feeds_desc(config.feeds@.take(i as int)),
            decreases n - i,
        {
            let feed = &config.feeds[i];
            push_str(&mut desc, "\n- \"");
            push_str(&mut desc, feed.name.as_str());
            push_str(&mut desc, "\" (");
            push_str(&mut desc, feed.url.as_str());
            push_str(&mut desc, ")");
            match &feed.notes {
                Some(notes) => {
                    push_str(&mut desc, " — ");
                    push_str(&mut desc, notes.as_str());
                },
                None => {},
            }
            proof {
                let t = config.feeds@.take(i + 1);
                assert(t.last() == config.feeds@[i as int]);
                assert(t.drop_last() =~= config.feeds@.take(i as int));
                assert(feeds_desc(t) == feeds_desc(t.drop_last()) + feed_entry_desc(t.last()));
                assert(desc@ =~= before + feeds_desc(t));
            }
            i = i + 1;
        }
        proof {
            assert(config.feeds@.take(n as int) =~= config.feeds@);
        }
        desc
    }

    pub fn name(&self) -> (r: &str)
        ensures
            r@ == "rss_feed"@,
    {
        "rss_feed"
    }

    pub fn description(&self) -> (r: &str)
        ensures
            r@ == self.description@,
    {
        self.description.as_str()
    }

    /// Looks the feed name up in the configuration; an unknown name is
    /// answered with the enumerating message.
    pub fn resolve_feed(&self, name: &str) -> (r: Result<usize, String>)
        ensures
            match r {
                Ok(i) => is_first_feed(self.config.feeds@, name@, i as int),
                Err(e) => !has_feed(self.config.feeds@, name@) && e@ == unknown_feed_msg(
                    name@,
                    self.config.feeds@,
                ),
            },
    {
        let n = self.config.feeds.len();
        let mut i: usize = 0;
        while i < n
            invariant
                0 <= i <= n,
                n == self.config.feeds@.len(),
                forall|j: int| 0 <= j < i ==> self.config.feeds@[j].name@ != name@,
            decreases n - i,
        {
            if str_eq(self.config.feeds[i].name.as_str(), name) {
                return Ok(i);
            }
            i = i + 1;
        }
        let mut names: Vec<String> = Vec::new();
        let mut k: usize = 0;
        while k < n
            invariant
                0 <= k <= n,
                n == self.config.feeds@.len(),
                names@.len() == k,
                forall|j: int| 0 <= j < k ==> names@[j]@ == self.config.feeds@[j].name@,
            decreases n - k,
        {
            names.push(self.config.feeds[k].name.clone());
            k = k + 1;
        }
        let mut msg = String::new();
        push_str(&mut msg, "Unknown feed '");
        push_str(&mut msg, name);
        push_str(&mut msg, "'. Available feeds: ");
        let quoted = quoted_list(&names);
        push_str(&mut msg, quoted.as_str());
        proof {
            let a = views_of(names@);
            let b = feed_names(self.config.feeds@);
            assert(forall|j: int| 0 <= j < n ==> a[j] == b[j]);
            assert(a =~= b);
            assert(msg@ =~= unknown_feed_msg(name@, self.config.feeds@));
        }
        Err(msg)
    }

    /// The three-level item cap: the caller's request, else the feed's own
    /// cap, else the global one, clamped to `1 ..= 50`.
    pub fn resolve_max_items(requested: Option<u64>, feed_max: Option<usize>, global_max: usize) -> (r:
        usize)
        ensures
            r as int == resolve_max_spec(requested, feed_max, global_max as int),
    {
        match requested {
            Some(v) => {
                if v < 1 {
                    1
                } else if v > 50 {
                    50
                } else {
                    v as usize
                }
            },
            None => {
                let base = match feed_max {
                    Some(m) => m,
                    None => global_max,
                };
                if base < 1 {
                    1
                } else if base > 50 {
                    50
                } else {
                    base
                }
            },
        }
    }
}

pub open spec fn clamp_1_50(v: int) -> int {
    if v < 1 {
        1
    } else if v > 50 {
        50
    } else {
        v
    }
}

pub open spec fn resolve_max_spec(requested: Option<u64>, feed_max: Option<usize>, global_max: int) -> int {
    match requested {
        Some(v) => clamp_1_50(v as int),
        None => match feed_max {
            Some(m) => clamp_1_50(m as int),
            None => clamp_1_50(global_max),
        },
    }
}

// ---------------------------------------------------------------------------
// Text cleanup
// ---------------------------------------------------------------------------

/// The CDATA unwrapping: a trimmed `<![CDATA[...]]>` envelope is removed, any
/// other text is merely trimmed.
pub open spec fn strip_cdata_spec(s: Seq<char>) -> Seq<char> {
    let t = trim_spec(s);
    let open = "<![CDATA["@;
    let close = "]]>"@;
    let inner = t.skip(open.len() as int);
    if has_prefix(t, open) && has_suffix(inner, close) {
        inner.take(inner.len() - close.len())
    } else {
        t
    }
}

/// Unwraps a CDATA section, proved against `strip_cdata_spec`.
pub fn strip_cdata(s: &str) -> (r: String)
    ensures
        r@ == strip_cdata_spec(s@),
{
    let t = trim(s);
    let n = t.unicode_len();
    let open = "<![CDATA[";
    let plen = open.unicode_len();
    if starts_with(t, open) {
        let inner = t.substring_char(plen, n);
        if ends_with(inner, "]]>") {
            let close_len = "]]>".unicode_len();
            let m = inner.unicode_len();
            let r = inner.substring_char(0, m - close_len);
            proof {
                assert(inner@ =~= trim_spec(s@).skip("<![CDATA["@.len() as int));
                assert(r@ =~= inner@.take(inner@.len() - "]]>"@.len()));
            }
            return r.to_owned();
        }
        proof {
            assert(inner@ =~= trim_spec(s@).skip("<![CDATA["@.len() as int));
        }
        return t.to_owned();
    }
    t.to_owned()
}

/// The truncation rule: trimmed text short enough passes through; longer text
/// is cut at the last space before the limit (or hard at the limit when there
/// is none) and given a `...` ellipsis.
pub open spec fn truncate_spec(s: Seq<char>, max_len: int) -> Seq<char> {
    let t = trim_spec(s);
    if t.len() <= max_len {
        t
    } else {
        let w = t.take(max_len);
        let p = rfind_space(w);
        let cut = if p >= 0 {
            p
        } else {
            max_len
        };
        t.take(cut) + "..."@
    }
}

/// Truncates a description for display, proved against `truncate_spec`.
pub fn truncate_description(s: &str, max_len: usize) -> (r: String)
    ensures
        r@ == truncate_spec(s@, max_len as int),
{
    let t = trim(s);
    let n = t.unicode_len();
    if n <= max_len {
        return t.to_owned();
    }
    let mut cut: usize = max_len;
    let mut j: usize = max_len;
    let mut found = false;
    while j > 0 && !found
        invariant
            0 <= j <= max_len,
            max_len < n,
            n == t@.len(),
            !found ==> forall|k: int| j <= k < max_len ==> t@[k] != ' ',
            found ==> j < max_len && t@[j as int] == ' ' && forall|k: int|
                j < k < max_len ==> t@[k] != ' ',
            found ==> cut == j,
            !found ==> cut == max_len,
        decreases j + (if found { 0int } else { 1int }),
    {
        if t.get_char(j - 1) == ' ' {
            found = true;
            cut = j - 1;
            j = j - 1;
        } else {
            j = j - 1;
        }
    }
    proof {
        let w = t@.take(max_len as int);
        if found {
            assert(w[cut as int] == t@[cut as int]);
            assert(forall|k: int| cut < k < w.len() ==> w[k] == t@[k]);
            lemma_rfind_space_characterization(w, cut as int);
        } else {
            assert(forall|k: int| 0 <= k < w.len() ==> w[k] == t@[k]);
            lemma_rfind_space_characterization(w, -1);
        }
    }
    let head = t.substring_char(0, cut);
    let mut out = head.to_owned();
    push_str(&mut out, "...");
    proof {
        assert(out@ =~= truncate_spec(s@, max_len as int));
    }
    out
}

// ---------------------------------------------------------------------------
// Tag extraction
// ---------------------------------------------------------------------------

/// The content between an opening tag (attributes allowed) and its closing
/// tag: the text of the original's scan, `None` when any delimiter is
/// missing.
pub open spec fn extract_tag_spec(xml: Seq<char>, tag: Seq<char>) -> Option<Seq<char>> {
    let open = "<"@ + tag;
    let close = "</"@ + tag + ">"@;
    let s0 = find_idx(xml, open);
    if s0 < 0 {
        None
    } else {
        let after = s0 + open.len();
        let rest = xml.skip(after);
        let g = idx_of(rest, '>');
        if g == rest.len() {
            None
        } else {
            let content = rest.skip(g + 1);
            let c = find_idx(content, close);
            if c < 0 {
                None
            } else {
                Some(content.take(c))
            }
        }
    }
}

/// Extracts a tag's content, proved against `extract_tag_spec`.
pub fn extract_tag_content(xml: &str, tag: &str) -> (r: Option<String>)
    ensures
        match r {
            Some(content) => extract_tag_spec(xml@, tag@) matches Some(c) && c == content@,
            None => extract_tag_spec(xml@, tag@) is None,
        },
{
    let mut open = String::new();
    push_str(&mut open, "<");
    push_str(&mut open, tag);
    let mut close = String::new();
    push_str(&mut close, "</");
    push_str(&mut close, tag);
    push_str(&mut close, ">");
    let n = xml.unicode_len();
    let s0 = match find_sub(xml, open.as_str()) {
        None => {
            proof {
                lemma_find_idx_none(xml@, "<"@ + tag@);
            }
            return None;
        },
        Some(i) => {
            proof {
                lemma_find_idx_some(xml@, "<"@ + tag@, i as int);
            }
            i
        },
    };
    let open_len = open.as_str().unicode_len();
    let after = s0 + open_len;
    let rest = xml.substring_char(after, n);
    proof {
        assert(rest@ =~= xml@.skip(after as int));
    }
    let g = find_char(rest, '>');
    proof {
        lemma_idx_of_bounds(rest@, '>');
    }
    let rest_len = rest.unicode_len();
    if g == rest_len {
        return None;
    }
    let content = rest.substring_char(g + 1, rest_len);
    proof {
        assert(content@ =~= rest@.skip(g + 1));
    }
    let c = match find_sub(content, close.as_str()) {
        None => {
            proof {
                lemma_find_idx_none(content@, "</"@ + tag@ + ">"@);
            }
            return None;
        },
        Some(i) => {
            proof {
                lemma_find_idx_some(content@, "</"@ + tag@ + ">"@, i as int);
            }
            i
        },
    };
    let out = content.substring_char(0, c);
    Some(out.to_owned())
}

// ---------------------------------------------------------------------------
// Item parsing
// ---------------------------------------------------------------------------

/// What stripping HTML tags leaves of a text: the result of removing every
/// `<...>` span, as the tag-stripping expression computes it.
pub uninterp spec fn tags_stripped(s: Seq<char>) -> Seq<char>;

/// Relies on `regex::Regex::replace_all` with the pattern `<[^>]+>`: removing
/// the tag spans of a text depends on its characters alone.
#[verifier::external_body]
pub fn strip_tags(content: &str) -> (r: String)
    ensures
        r@ == tags_stripped(content@),
{
    let re = regex::Regex::new(r"<[^>]+>").unwrap();
    re.replace_all(content, "").to_string()
}

/// The inner texts of the RSS 2.0 `<item>` blocks of a document, in order.
pub uninterp spec fn rss_item_blocks(xml: Seq<char>) -> Seq<Seq<char>>;

/// Relies on `regex::Regex::captures_iter` with `(?s)<item[^>]*>(.*?)</item>`:
/// the sequence of inner captures depends on the document alone.
#[verifier::external_body]
fn item_blocks(xml: &str) -> (r: Vec<String>)
    ensures
        views_of(r@) == rss_item_blocks(xml@),
{
    let re = regex::Regex::new(r"(?s)<item[^>]*>(.*?)</item>").unwrap();
    re.captures_iter(xml).map(|c| c[1].to_string()).collect()
}

/// The inner texts of the Atom `<entry>` blocks of a document, in order.
pub uninterp spec fn atom_entry_blocks(xml: Seq<char>) -> Seq<Seq<char>>;

/// Relies on `regex::Regex::captures_iter` with `(?s)<entry[^>]*>(.*?)</entry>`:
/// the sequence of inner captures depends on the document alone.
#[verifier::external_body]
fn entry_blocks(xml: &str) -> (r: Vec<String>)
    ensures
        views_of(r@) == atom_entry_blocks(xml@),
{
    let re = regex::Regex::new(r"(?s)<entry[^>]*>(.*?)</entry>").unwrap();
    re.captures_iter(xml).map(|c| c[1].to_string()).collect()
}

pub open spec fn pair_views(ms: Seq<(String, String)>) -> Seq<(Seq<char>, Seq<char>)> {
    ms.map_values(|p: (String, String)| (p.0@, p.1@))
}

/// The `<link ... href="...">` matches of an Atom entry: each match's `href`
/// capture paired with the whole matched text, in order.
pub uninterp spec fn atom_link_matches(block: Seq<char>) -> Seq<(Seq<char>, Seq<char>)>;

/// Relies on `regex::Regex::captures_iter` with the Atom link pattern
/// `<link[^>]*\bhref="([^"]+)"[^>]*/?\s*>`: the matches depend on the block
/// alone.
#[verifier::external_body]
fn atom_link_captures(block: &str) -> (r: Vec<(String, String)>)
    ensures
        pair_views(r@) == atom_link_matches(block@),
{
    let re = regex::Regex::new(r#"<link[^>]*\bhref="([^"]+)"[^>]*/?\s*>"#).unwrap();
    re.captures_iter(block).map(|c| (c[1].to_string(), c[0].to_string())).collect()
}

/// The `href` of the first link marked `rel="alternate"`, if any.
pub open spec fn first_alternate(ms: Seq<(Seq<char>, Seq<char>)>) -> Option<Seq<char>>
    decreases ms.len(),
{
    if ms.len() == 0 {
        None
    } else if contains_seq(ms[0].1, "rel=\"alternate\""@) {
        Some(ms[0].0)
    } else {
        first_alternate(ms.drop_first())
    }
}

/// The link an Atom entry resolves to: the first `rel="alternate"` link,
/// else the first link, else nothing.
pub open spec fn pick_atom_link(ms: Seq<(Seq<char>, Seq<char>)>) -> Option<Seq<char>> {
    match first_alternate(ms) {
        Some(h) => Some(h),
        None => if ms.len() > 0 {
            Some(ms[0].0)
        } else {
            None
        },
    }
}

/// Picks an Atom entry's link, proved against `pick_atom_link`.
pub fn extract_atom_link(block: &str) -> (r: Option<String>)
    ensures
        match r {
            Some(h) => pick_atom_link(atom_link_matches(block@)) matches Some(x) && x == h@,
            None => pick_atom_link(atom_link_matches(block@)) is None,
        },
{
    let caps = atom_link_captures(block);
    let ghost m = atom_link_matches(block@);
    proof {
        assert(m.skip(0) =~= m);
    }
    let n = caps.len();
    let mut i: usize = 0;
    while i < n
        invariant
            0 <= i <= n,
            n == caps@.len(),
            m == atom_link_matches(block@),
            m == pair_views(caps@),
            first_alternate(m) == first_alternate(m.skip(i as int)),
        decreases n - i,
    {
        proof {
            assert(m[i as int] == (caps@[i as int].0@, caps@[i as int].1@));
            assert(m.skip(i as int)[0] == m[i as int]);
        }
        if contains_sub(caps[i].1.as_str(), "rel=\"alternate\"") {
            proof {
                assert(first_alternate(m.skip(i as int)) == Some(m[i as int].0));
            }
            return Some(caps[i].0.clone());
        }
        proof {
            assert(m.skip(i as int).drop_first() =~= m.skip(i + 1));
        }
        i = i + 1;
    }
    proof {
        assert(m.skip(n as int).len() == 0);
    }
    if caps.len() > 0 {
        proof {
            assert(m[0] == (caps@[0].0@, caps@[0].1@));
        }
        Some(caps[0].0.clone())
    } else {
        None
    }
}

pub open spec fn item_title_spec(block: Seq<char>) -> Seq<char> {
    match extract_tag_spec(block, "title"@) {
        None => Seq::<char>::empty(),
        Some(t) => tags_stripped(strip_cdata_spec(t)),
    }
}

pub open spec fn item_link_spec(block: Seq<char>) -> Seq<char> {
    match extract_tag_spec(block, "link"@) {
        None => Seq::<char>::empty(),
        Some(t) => trim_spec(strip_cdata_spec(t)),
    }
}

pub open spec fn item_date_spec(block: Seq<char>) -> Seq<char> {
    match extract_tag_spec(block, "pubDate"@) {
        Some(t) => trim_spec(t),
        None => match extract_tag_spec(block, "dc:date"@) {
            Some(t) => trim_spec(t),
            None => Seq::<char>::empty(),
        },
    }
}

pub open spec fn item_desc_spec(block: Seq<char>) -> Seq<char> {
    match extract_tag_spec(block, "description"@) {
        None => Seq::<char>::empty(),
        Some(t) => truncate_spec(tags_stripped(strip_cdata_spec(t)), 200),
    }
}

/// The four fields of an item parsed from an RSS 2.0 `<item>` block.
pub open spec fn parsed_item_matches(item: RssItem, block: Seq<char>) -> bool {
    &&& item.title@ == item_title_spec(block)
    &&& item.link@ == item_link_spec(block)
    &&& item.pub_date@ == item_date_spec(block)
    &&& item.description@ == item_desc_spec(block)
}

fn opt_strip_cdata_tags(content: Option<String>) -> (r: String)
    ensures
        match content {
            None => r@ == Seq::<char>::empty(),
            Some(t) => r@ == tags_stripped(strip_cdata_spec(t@)),
        },
{
    match content {
        None => String::new(),
        Some(t) => {
            let unwrapped = strip_cdata(t.as_str());
            strip_tags(unwrapped.as_str())
        },
    }
}

/// Parses one RSS 2.0 `<item>` block: title and description are unwrapped
/// from CDATA, stripped of tags (the description also truncated for
/// display), link and date trimmed; a missing tag leaves its field empty.
pub fn parse_item_block(block: &str) -> (r: RssItem)
    ensures
        parsed_item_matches(r, block@),
{
    let title = opt_strip_cdata_tags(extract_tag_content(block, "title"));
    let link = match extract_tag_content(block, "link") {
        None => String::new(),
        Some(t) => {
            let unwrapped = strip_cdata(t.as_str());
            trim(unwrapped.as_str()).to_owned()
        },
    };
    let pub_date = match extract_tag_content(block, "pubDate") {
        Some(t) => trim(t.as_str()).to_owned(),
        None => match extract_tag_content(block, "dc:date") {
            Some(t) => trim(t.as_str()).to_owned(),
            None => String::new(),
        },
    };
    let description = match extract_tag_content(block, "description") {
        None => String::new(),
        Some(t) => {
            let unwrapped = strip_cdata(t.as_str());
            let stripped = strip_tags(unwrapped.as_str());
            truncate_description(stripped.as_str(), 200)
        },
    };
    RssItem { title, link, pub_date, description }
}

pub open spec fn entry_link_spec(block: Seq<char>) -> Seq<char> {
    match pick_atom_link(atom_link_matches(block)) {
        None => Seq::<char>::empty(),
        Some(h) => h,
    }
}

pub open spec fn entry_date_spec(block: Seq<char>) -> Seq<char> {
    match extract_tag_spec(block, "updated"@) {
        Some(t) => trim_spec(t),
        None => match extract_tag_spec(block, "published"@) {
            Some(t) => trim_spec(t),
            None => Seq::<char>::empty(),
        },
    }
}

pub open spec fn entry_desc_spec(block: Seq<char>) -> Seq<char> {
    match extract_tag_spec(block, "summary"@) {
        Some(t) => truncate_spec(tags_stripped(strip_cdata_spec(t)), 200),
        None => match extract_tag_spec(block, "content"@) {
            Some(t) => truncate_spec(tags_stripped(strip_cdata_spec(t)), 200),
            None => Seq::<char>::empty(),
        },
    }
}

/// The four fields of an item parsed from an Atom `<entry>` block.
pub open spec fn parsed_entry_matches(item: RssItem, block: Seq<char>) -> bool {
    &&& item.title@ == item_title_spec(block)
    &&& item.link@ == entry_link_spec(block)
    &&& item.pub_date@ == entry_date_spec(block)
    &&& item.description@ == entry_desc_spec(block)
}

fn truncated_clean(t: String) -> (r: String)
    ensures
        r@ == truncate_spec(tags_stripped(strip_cdata_spec(t@)), 200),
{
    let unwrapped = strip_cdata(t.as_str());
    let stripped = strip_tags(unwrapped.as_str());
    truncate_description(stripped.as_str(), 200)
}

/// Parses one Atom `<entry>` block: the link comes from the entry's
/// `<link href=...>` elements (preferring `rel="alternate"`), the date from
/// `<updated>` or `<published>`, the description from `<summary>` or
/// `<content>`.
pub fn parse_atom_entry_block(block: &str) -> (r: RssItem)
    ensures
        parsed_entry_matches(r, block@),
{
    let title = opt_strip_cdata_tags(extract_tag_content(block, "title"));
    let link = match extract_atom_link(block) {
        None => String::new(),
        Some(h) => h,
    };
    let pub_date = match extract_tag_content(block, "updated") {
        Some(t) => trim(t.as_str()).to_owned(),
        None => match extract_tag_content(block, "published") {
            Some(t) => trim(t.as_str()).to_owned(),
            None => String::new(),
        },
    };
    let description = match extract_tag_content(block, "summary") {
        Some(t) => truncated_clean(t),
        None => match extract_tag_content(block, "content") {
            Some(t) => truncated_clean(t),
            None => String::new(),
        },
    };
    RssItem { title, link, pub_date, description }
}

pub open spec fn min_len(cap: int, len: int) -> int {
    if cap < len {
        cap
    } else {
        len
    }
}

/// Parses the items of a feed document: RSS 2.0 `<item>` blocks when there
/// are any, else Atom `<entry>` blocks, each parsed in order, at most
/// `max_items` of them.
pub fn parse_rss_items(xml: &str, max_items: usize) -> (r: Vec<RssItem>)
    ensures
        ({
            let ib = rss_item_blocks(xml@);
            let eb = atom_entry_blocks(xml@);
            if ib.len() > 0 {
                &&& r@.len() == min_len(max_items as int, ib.len() as int)
                &&& forall|i: int| 0 <= i < r@.len() ==> parsed_item_matches(#[trigger] r@[i], ib[i])
            } else {
                &&& r@.len() == min_len(max_items as int, eb.len() as int)
                &&& forall|i: int| 0 <= i < r@.len() ==> parsed_entry_matches(#[trigger] r@[i], eb[i])
            }
        }),
{
    let items = item_blocks(xml);
    if items.len() > 0 {
        let count = if max_items < items.len() {
            max_items
        } else {
            items.len()
        };
        let mut out: Vec<RssItem> = Vec::new();
        let mut i: usize = 0;
        while i < count
            invariant
                0 <= i <= count,
                count <= items@.len(),
                views_of(items@) == rss_item_blocks(xml@),
                out@.len() == i,
                forall|j: int|
                    0 <= j < i ==> parsed_item_matches(#[trigger] out@[j], rss_item_blocks(xml@)[j]),
            decreases count - i,
        {
            proof {
                assert(views_of(items@)[i as int] == items@[i as int]@);
            }
            out.push(parse_item_block(items[i].as_str()));
            i = i + 1;
        }
        out
    } else {
        let entries = entry_blocks(xml);
        let count = if max_items < entries.len() {
            max_items
        } else {
            entries.len()
        };
        let mut out: Vec<RssItem> = Vec::new();
        let mut i: usize = 0;
        while i < count
            invariant
                0 <= i <= count,
                count <= entries@.len(),
                views_of(entries@) == atom_entry_blocks(xml@),
                out@.len() == i,
                forall|j: int|
                    0 <= j < i ==> parsed_entry_matches(
                        #[trigger] out@[j],
                        atom_entry_blocks(xml@)[j],
                    ),
            decreases count - i,
        {
            proof {
                assert(views_of(entries@)[i as int] == entries@[i as int]@);
            }
            out.push(parse_atom_entry_block(entries[i].as_str()));
            i = i + 1;
        }
        out
    }
}

// ---------------------------------------------------------------------------
// Feed output
// ---------------------------------------------------------------------------

/// One item's lines in the rendered feed: its one-based index and title,
/// then an indented link, date and description line for each non-empty
/// field.
pub open spec fn item_lines(item: RssItem, idx: int) -> Seq<char> {
    crate::text::dec_spec(idx) + ". "@ + item.title@ + "\n"@ + (if item.link@.len() > 0 {
        "   Link: "@ + item.link@ + "\n"@
    } else {
        Seq::<char>::empty()
    }) + (if item.pub_date@.len() > 0 {
        "   Date: "@ + item.pub_date@ + "\n"@
    } else {
        Seq::<char>::empty()
    }) + (if item.description@.len() > 0 {
        "   "@ + item.description@ + "\n"@
    } else {
        Seq::<char>::empty()
    })
}

pub open spec fn items_lines(items: Seq<RssItem>) -> Seq<char>
    decreases items.len(),
{
    if items.len() == 0 {
        Seq::<char>::empty()
    } else {
        items_lines(items.drop_last()) + item_lines(items.last(), items.len() as int)
    }
}

/// The rendered feed: a header naming the feed and when it was fetched, then
/// the numbered items, with trailing whitespace removed.
pub open spec fn feed_output_spec(
    name: Seq<char>,
    url: Seq<char>,
    fetched_at: Seq<char>,
    items: Seq<RssItem>,
) -> Seq<char> {
    crate::text::trim_end_spec(
        "Feed: "@ + name + " ("@ + url + ")\n"@ + "Fetched at: "@ + fetched_at + " UTC\n\n"@
            + items_lines(items),
    )
}

pub open spec fn feed_no_items_msg(name: Seq<char>) -> Seq<char> {
    "Feed '"@ + name + "' returned no items."@
}

pub open spec fn feed_http_error_msg(name: Seq<char>, status: Seq<char>) -> Seq<char> {
    "Feed '"@ + name + "' returned HTTP "@ + status
}

#[verifier::rlimit(60)]
fn push_item_lines(out: &mut String, item: &RssItem, idx: u64)
    ensures
        final(out)@ == old(out)@ + item_lines(*item, idx as int),
{
    let digits = crate::text::u64_to_string(idx);
    push_str(out, digits.as_str());
    push_str(out, ". ");
    push_str(out, item.title.as_str());
    push_str(out, "\n");
    if item.link.as_str().unicode_len() > 0 {
        push_str(out, "   Link: ");
        push_str(out, item.link.as_str());
        push_str(out, "\n");
    }
    if item.pub_date.as_str().unicode_len() > 0 {
        push_str(out, "   Date: ");
        push_str(out, item.pub_date.as_str());
        push_str(out, "\n");
    }
    if item.description.as_str().unicode_len() > 0 {
        push_str(out, "   ");
        push_str(out, item.description.as_str());
        push_str(out, "\n");
    }
    proof {
        assert(final(out)@ =~= old(out)@ + item_lines(*item, idx as int));
    }
}

impl RssFeedTool {
    /// Renders fetched items for the agent loop; `fetched_at` is the caller's
    /// formatted fetch time.
    pub fn feed_output(name: &str, url: &str, fetched_at: &str, items: &Vec<RssItem>) -> (r:
        String)
        ensures
            r@ == feed_output_spec(name@, url@, fetched_at@, items@),
    {
        let mut out = String::new();
        push_str(&mut out, "Feed: ");
        push_str(&mut out, name);
        push_str(&mut out, " (");
        push_str(&mut out, url);
        push_str(&mut out, ")\n");
        push_str(&mut out, "Fetched at: ");
        push_str(&mut out, fetched_at);
        push_str(&mut out, " UTC\n\n");
        let ghost before = out@;
        let n = items.len();
        let mut i: usize = 0;
        while i < n
            invariant
                0 <= i <= n,
                n == items@.len(),
                out@ == before + items_lines(items@.take(i as int)),
            decreases n - i,
        {
            push_item_lines(&mut out, &items[i], (i as u64) + 1);
            proof {
                let t = items@.take(i + 1);
                assert(t.last() == items@[i as int]);
                assert(t.drop_last() =~= items@.take(i as int));
                assert(items_lines(t) == items_lines(t.drop_last()) + item_lines(
                    t.last(),
                    t.len() as int,
                ));
                assert(out@ =~= before + items_lines(t));
            }
            i = i + 1;
        }
        proof {
            assert(items@.take(n as int) =~= items@);
        }
        crate::text::trim_end(out.as_str()).to_owned()
    }

    pub fn feed_no_items_message(name: &str) -> (r: String)
        ensures
            r@ == feed_no_items_msg(name@),
    {
        let mut msg = String::new();
        push_str(&mut msg, "Feed '");
        push_str(&mut msg, name);
        push_str(&mut msg, "' returned no items.");
        msg
    }

    pub fn feed_http_error_message(name: &str, status: &str) -> (r: String)
        ensures
            r@ == feed_http_error_msg(name@, status@),
    {
        let mut msg = String::new();
        push_str(&mut msg, "Feed '");
        push_str(&mut msg, name);
        push_str(&mut msg, "' returned HTTP ");
        push_str(&mut msg, status);
        msg
    }
}

} // verus!


