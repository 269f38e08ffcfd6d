use zeroclaw_tools::rss::{
    parse_rss_items, strip_cdata, strip_tags, truncate_description, RssFeedConfig, RssFeedEntry,
    RssFeedTool, RssItem,
};

fn test_config() -> RssFeedConfig {
    RssFeedConfig {
        enabled: true,
        timeout_secs: 30,
        connect_timeout_secs: 10,
        max_items: 10,
        feeds: vec![
            RssFeedEntry {
                name: "lmstudio".to_string(),
                url: "https://lmstudio.ai/rss.xml".to_string(),
                notes: Some("LM Studio blog posts".to_string()),
                max_items: None,
            },
            RssFeedEntry {
                name: "rust_blog".to_string(),
                url: "https://blog.rust-lang.org/feed.xml".to_string(),
                notes: None,
                max_items: Some(5),
            },
        ],
    }
}

#[test]
fn rss_feed_tool_name() {
    let tool = RssFeedTool::new(test_config());
    assert_eq!(tool.name(), "rss_feed");
}

#[test]
fn description_lists_feeds_with_notes() {
    let tool = RssFeedTool::new(test_config());
    let desc = tool.description();
    assert!(desc.contains("\"lmstudio\""));
    assert!(desc.contains("https://lmstudio.ai/rss.xml"));
    assert!(desc.contains("LM Studio blog posts"));
    assert!(desc.contains("\"rust_blog\""));
    assert!(desc.contains("https://blog.rust-lang.org/feed.xml"));
}

#[test]
fn description_omits_notes_when_none() {
    let tool = RssFeedTool::new(test_config());
    let desc = tool.description();
    let rust_line = desc.lines().find(|l| l.contains("\"rust_blog\"")).unwrap();
    assert!(!rust_line.contains(" — "));
}

#[test]
fn resolve_unknown_feed() {
    let tool = RssFeedTool::new(test_config());
    let err = tool.resolve_feed("nonexistent").unwrap_err();
    assert!(err.contains("Unknown feed 'nonexistent'"));
    assert!(err.contains("lmstudio"));
    assert!(err.contains("rust_blog"));
}

#[test]
fn parse_rss2_xml() {
    let xml = r#"<?xml version="1.0" encoding="UTF-8"?>
<rss version="2.0">
  <channel>
    <title>Test Feed</title>
    <item>
      <title>First Post</title>
      <link>https://example.com/first</link>
      <pubDate>Mon, 01 Jan 2024 00:00:00 GMT</pubDate>
      <description>This is the first post description.</description>
    </item>
    <item>
      <title>Second Post</title>
      <link>https://example.com/second</link>
      <pubDate>Tue, 02 Jan 2024 00:00:00 GMT</pubDate>
      <description>This is the second post.</description>
    </item>
  </channel>
</rss>"#;

    let items = parse_rss_items(xml, 10);
    assert_eq!(items.len(), 2);
    assert_eq!(items[0].title, "First Post");
    assert_eq!(items[0].link, "https://example.com/first");
    assert!(items[0].pub_date.contains("01 Jan 2024"));
    assert_eq!(items[0].description, "This is the first post description.");
    assert_eq!(items[1].title, "Second Post");
}

#[test]
fn parse_atom_xml() {
    let xml = r#"<?xml version="1.0" encoding="UTF-8"?>
<feed xmlns="http://www.w3.org/2005/Atom">
  <title>Test Atom Feed</title>
  <entry>
    <title>Atom Entry One</title>
    <link href="https://example.com/atom-one" rel="alternate" />
    <updated>2024-01-15T10:00:00Z</updated>
    <summary>Summary of atom entry one.</summary>
  </entry>
  <entry>
    <title>Atom Entry Two</title>
    <link href="https://example.com/atom-two" />
    <published>2024-01-16T10:00:00Z</published>
    <content type="html">Content of atom entry two.</content>
  </entry>
</feed>"#;

    let items = parse_rss_items(xml, 10);
    assert_eq!(items.len(), 2);
    assert_eq!(items[0].title, "Atom Entry One");
    assert_eq!(items[0].link, "https://example.com/atom-one");
    assert!(items[0].pub_date.contains("2024-01-15"));
    assert_eq!(items[0].description, "Summary of atom entry one.");
    assert_eq!(items[1].title, "Atom Entry Two");
    assert_eq!(items[1].link, "https://example.com/atom-two");
    assert_eq!(items[1].description, "Content of atom entry two.");
}

#[test]
fn parse_empty_feed() {
    let xml = r#"<?xml version="1.0"?><rss><channel><title>Empty</title></channel></rss>"#;
    let items = parse_rss_items(xml, 10);
    assert!(items.is_empty());
}

#[test]
fn max_items_limits_results() {
    let xml = r#"<rss><channel>
        <item><title>A</title><link>https://a.com</link></item>
        <item><title>B</title><link>https://b.com</link></item>
        <item><title>C</title><link>https://c.com</link></item>
        <item><title>D</title><link>https://d.com</link></item>
    </channel></rss>"#;
    let items = parse_rss_items(xml, 2);
    assert_eq!(items.len(), 2);
    assert_eq!(items[0].title, "A");
    assert_eq!(items[1].title, "B");
}

#[test]
fn strip_cdata_unwraps() {
    assert_eq!(strip_cdata("<![CDATA[Hello World]]>"), "Hello World");
    assert_eq!(strip_cdata("plain text"), "plain text");
    assert_eq!(strip_cdata("  <![CDATA[trimmed]]>  "), "trimmed");
}

#[test]
fn strip_tags_removes_html() {
    assert_eq!(strip_tags("<p>Hello <b>World</b></p>"), "Hello World");
    assert_eq!(strip_tags("no tags"), "no tags");
}

#[test]
fn truncation_at_200_chars() {
    let long_text = "a ".repeat(150); // 300 chars
    let truncated = truncate_description(&long_text, 200);
    assert!(truncated.len() <= 204); // 200 + "..."
    assert!(truncated.ends_with("..."));
}

#[test]
fn truncation_preserves_short_text() {
    let short = "Short description.";
    assert_eq!(truncate_description(short, 200), short);
}

#[test]
fn parse_cdata_in_rss_items() {
    let xml = r#"<rss><channel>
        <item>
            <title><![CDATA[CDATA Title]]></title>
            <link>https://example.com</link>
            <description><![CDATA[<p>HTML inside CDATA</p>]]></description>
        </item>
    </channel></rss>"#;
    let items = parse_rss_items(xml, 10);
    assert_eq!(items.len(), 1);
    assert_eq!(items[0].title, "CDATA Title");
    assert_eq!(items[0].description, "HTML inside CDATA");
}

#[test]
fn resolve_max_items_applies_three_levels() {
    assert_eq!(RssFeedTool::resolve_max_items(Some(7), Some(3), 10), 7);
    assert_eq!(RssFeedTool::resolve_max_items(Some(500), Some(3), 10), 50);
    assert_eq!(RssFeedTool::resolve_max_items(Some(0), Some(3), 10), 1);
    assert_eq!(RssFeedTool::resolve_max_items(None, Some(3), 10), 3);
    assert_eq!(RssFeedTool::resolve_max_items(None, None, 10), 10);
    assert_eq!(RssFeedTool::resolve_max_items(None, None, 0), 1);
}

#[test]
fn feed_output_numbers_items_and_skips_empty_fields() {
    let items = vec![
        RssItem {
            title: "First".to_string(),
            link: "https://a.example".to_string(),
            pub_date: "Mon, 01 Jan 2024 00:00:00 GMT".to_string(),
            description: "A post.".to_string(),
        },
        RssItem {
            title: "Second".to_string(),
            link: String::new(),
            pub_date: String::new(),
            description: String::new(),
        },
    ];
    let out = RssFeedTool::feed_output("blog", "https://a.example/feed", "2024-01-02 03:04:05", &items);
    assert_eq!(
        out,
        "Feed: blog (https://a.example/feed)\nFetched at: 2024-01-02 03:04:05 UTC\n\n1. First\n   Link: https://a.example\n   Date: Mon, 01 Jan 2024 00:00:00 GMT\n   A post.\n2. Second"
    );
}

#[test]
fn feed_messages_are_exact() {
    assert_eq!(
        RssFeedTool::feed_no_items_message("blog"),
        "Feed 'blog' returned no items."
    );
    assert_eq!(
        RssFeedTool::feed_http_error_message("blog", "404 Not Found"),
        "Feed 'blog' returned HTTP 404 Not Found"
    );
}
