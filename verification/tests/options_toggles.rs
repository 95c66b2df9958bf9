use count_md::count_with_options;
use count_md::Options;
use count_md::Toggle;

fn only(t: Toggle) -> Options {
    Options::empty().enable(t)
}

#[test]
fn inline_code_enabled() {
    let result = count_with_options("This is `code`.", only(Toggle::InlineCode));
    assert_eq!(result, 3);
}

#[test]
fn inline_code_disabled() {
    let result = count_with_options("This is `code`.", Options::empty());
    assert_eq!(result, 2);
}

#[test]
fn block_code_enabled() {
    let result = count_with_options(
        "This is code:

```rust
fn main() { }
```
",
        only(Toggle::BlockCode),
    );
    assert_eq!(result, 5);
}

#[test]
fn block_code_disabled() {
    let result = count_with_options(
        "This is code:

    ```rust
    fn main() { }
    ```
    ",
        Options::empty(),
    );
    assert_eq!(result, 3);
}

#[test]
fn tables_enabled() {
    let result = count_with_options(
        r#"Some text

| thead 1 | thead 2 |
| ------- | ------- |
| foo     | bar     |
| baz     | quux    |

More stuff"#,
        only(Toggle::Tables),
    );

    assert_eq!(result, 12);
}

#[test]
fn tables_disabled() {
    let result = count_with_options(
        r#"Some text

| thead 1 | thead 2 |
| ------- | ------- |
| foo     | bar     |
| baz     | quux    |

More stuff"#,
        Options::empty(),
    );

    assert_eq!(result, 4);
}

#[test]
fn footnotes_enabled() {
    let result = count_with_options(
        "Some text.[^fn]\n\n[^fn]: Footnote definition text!",
        only(Toggle::Footnotes),
    );
    assert_eq!(result, 5);
}

#[test]
fn footnotes_disabled() {
    let result = count_with_options(
        "Some text.[^fn]\n\n[^fn]: Footnote definition text!",
        Options::empty(),
    );
    assert_eq!(result, 2);
}

#[test]
fn block_html_enabled() {
    let result = count_with_options(
        "Some text.\n\n<div>Block HTML content.\n\nWith newlines!</div>\n\nMore text.",
        only(Toggle::BlockHtml),
    );
    assert_eq!(result, 9);
}

#[test]
fn block_html_disabled() {
    // The blank line ends the `<div>` HTML block, so "With newlines!" reaches
    // the engine as paragraph text and always counts; only the three words
    // inside the HTML block itself are dropped.
    let result = count_with_options(
        "Some text.\n\n<div>Block HTML content.\n\nWith newlines!</div>\n\nMore text.",
        Options::empty(),
    );
    assert_eq!(result, 6);
}

#[test]
fn blockquotes_enabled() {
    let result = count_with_options(
        "Text.\n\n> Blockquote text.\n\nMore text.",
        only(Toggle::Blockquotes),
    );
    assert_eq!(result, 5);
}

#[test]
fn blockquotes_disabled() {
    let result = count_with_options(
        "Text.\n\n> Blockquote text.\n\nMore text.",
        Options::empty(),
    );
    assert_eq!(result, 3);
}

#[test]
fn metadata_enabled() {
    let result = count_with_options(
        "---\ntitle: What a Cool Thing\n---\n\nNeato!",
        only(Toggle::Metadata),
    );
    assert_eq!(result, 6);
}

#[test]
fn metadata_disabled() {
    let result = count_with_options(
        "---\ntitle: What a Cool Thing\n---\n\nNeato!",
        Options::empty(),
    );
    assert_eq!(result, 1);
}

#[test]
fn headings_enabled() {
    let result = count_with_options(
        "# H1\n\n## H2\n\n### H3\n\n#### H4\n\n##### H5\n\n###### H6\n\nwhoa",
        only(Toggle::Headings),
    );
    assert_eq!(result, 7);
}

#[test]
fn headings_disabled() {
    let result = count_with_options(
        "# H1\n\n## H2\n\n### H3\n\n#### H4\n\n##### H5\n\n###### H6\n\nwhoa",
        Options::empty(),
    );
    assert_eq!(result, 1);
}

#[test]
fn empty_has_no_toggle_enabled() {
    let empty = Options::empty();
    assert!(!empty.contains(Toggle::InlineCode));
    assert!(!empty.contains(Toggle::BlockCode));
    assert!(!empty.contains(Toggle::Tables));
    assert!(!empty.contains(Toggle::Footnotes));
    assert!(!empty.contains(Toggle::BlockHtml));
    assert!(!empty.contains(Toggle::Blockquotes));
    assert!(!empty.contains(Toggle::Metadata));
    assert!(!empty.contains(Toggle::Headings));
}

#[test]
fn enable_sets_exactly_one_toggle() {
    let opts = only(Toggle::Tables);
    assert!(opts.contains(Toggle::Tables));
    assert!(!opts.contains(Toggle::InlineCode));
    assert!(!opts.contains(Toggle::BlockCode));
    assert!(!opts.contains(Toggle::Footnotes));
    assert!(!opts.contains(Toggle::BlockHtml));
    assert!(!opts.contains(Toggle::Blockquotes));
    assert!(!opts.contains(Toggle::Metadata));
    assert!(!opts.contains(Toggle::Headings));
}

#[test]
fn default_preset_matches_spec() {
    let default = Options::default();
    assert!(default.contains(Toggle::InlineCode));
    assert!(!default.contains(Toggle::BlockCode));
    assert!(default.contains(Toggle::Tables));
    assert!(default.contains(Toggle::Footnotes));
    assert!(default.contains(Toggle::BlockHtml));
    assert!(!default.contains(Toggle::Blockquotes));
    assert!(!default.contains(Toggle::Metadata));
    assert!(default.contains(Toggle::Headings));
}

#[test]
fn from_flags_all_overrides_the_rest() {
    let opts = Options::from_flags(true, false, false, false, false, false, false, false, false);
    assert_eq!(opts, Options::all());
}

#[test]
fn from_flags_takes_each_flag() {
    let opts = Options::from_flags(false, true, false, true, false, true, false, true, false);
    assert!(opts.contains(Toggle::Metadata));
    assert!(!opts.contains(Toggle::Blockquotes));
    assert!(opts.contains(Toggle::Headings));
    assert!(!opts.contains(Toggle::Footnotes));
    assert!(opts.contains(Toggle::Tables));
    assert!(!opts.contains(Toggle::InlineCode));
    assert!(opts.contains(Toggle::BlockCode));
    assert!(!opts.contains(Toggle::BlockHtml));
}
