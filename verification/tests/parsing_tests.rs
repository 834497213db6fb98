use rustboot::markdown::{analyze_markdown, extract_headers, extract_links};

#[test]
fn test_analyze_markdown() {
    let content = r#"
# Title

Some text with a [link](https://example.com).

## Subtitle

```rust
let code = "example";
```

Another [link](https://example.org).
"#;
    let stats = analyze_markdown(content);
    assert!(stats.lines > 0);
    assert!(stats.words > 0);
    assert_eq!(stats.headers, 2);
    assert_eq!(stats.code_blocks, 1);
    assert_eq!(stats.links, 2);
}

#[test]
fn test_extract_links() {
    let content = "Check [this](https://example.com) and [that](https://example.org).";
    let links = extract_links(content);
    assert_eq!(links.len(), 2);
    assert_eq!(links[0], ("this".to_string(), "https://example.com".to_string()));
    assert_eq!(links[1], ("that".to_string(), "https://example.org".to_string()));
}

#[test]
fn test_extract_headers() {
    let content = r#"
# H1 Title
## H2 Subtitle
### H3 Section
"#;
    let headers = extract_headers(content);
    assert_eq!(headers.len(), 3);
    assert_eq!(headers[0], (1, "H1 Title".to_string()));
    assert_eq!(headers[1], (2, "H2 Subtitle".to_string()));
    assert_eq!(headers[2], (3, "H3 Section".to_string()));
}

#[test]
fn markdown_exact_counts() {
    let stats = analyze_markdown("a b\n\n# h\n```\nx\n```");
    assert_eq!(stats.lines, 6);
    assert_eq!(stats.words, 7);
    assert_eq!(stats.headers, 1);
    assert_eq!(stats.code_blocks, 1);
    assert_eq!(stats.links, 0);
}

#[test]
fn markdown_empty_input() {
    let stats = analyze_markdown("");
    assert_eq!(stats.lines, 0);
    assert_eq!(stats.words, 0);
    assert!(extract_links("").is_empty());
    assert!(extract_headers("").is_empty());
}

#[test]
fn unclosed_link_runs_to_the_end() {
    assert_eq!(
        extract_links("see [this](nowhere"),
        vec![("this".to_string(), "nowhere".to_string())]
    );
    assert!(extract_links("[](x) [y]()").is_empty());
    assert_eq!(extract_links("[a](b)[c](d)").len(), 2);
}

#[test]
fn header_character_right_after_the_hashes_is_skipped() {
    assert_eq!(extract_headers("#Title"), vec![(1, "itle".to_string())]);
    assert_eq!(extract_headers("  ##   Spaced  "), vec![(2, "Spaced".to_string())]);
    assert!(extract_headers("####### too deep").is_empty());
    assert!(extract_headers("### ").is_empty());
}
