use count_md::count;

#[test]
fn includes_basic_text() {
    let result = count("Hello, world!");
    assert_eq!(result, 2);
}

#[test]
fn includes_heading_1() {
    let result = count("# Heading 1");
    assert_eq!(result, 2);
}

#[test]
fn includes_heading_2() {
    let result = count("## Heading 2 – More Heading");
    assert_eq!(result, 4);
}

#[test]
fn includes_inline_code() {
    let result = count("This is `code`.");
    assert_eq!(result, 3);
}

#[test]
fn excludes_code_blocks() {
    let result = count(
        "This is code:

```rust
fn main() {}
```",
    );
    assert_eq!(result, 3);
}

#[test]
fn excludes_inline_html_tags() {
    let result = count("This is how we say <em>Hello, world</em>");
    assert_eq!(result, 7);
}

#[test]
fn excludes_block_html_tags() {
    let result = count(
        "<h1>Heading</h1>

<h2>Heading 2</h2>

<ul>
  <li>List item</li>
  <li>List item</li>
  <li>List item</li>
</ul>",
    );
    assert_eq!(result, 9);
}

#[test]
fn excludes_footnote_references() {
    let result = count(
        "This is a paragraph.[^fn]

[^fn]: And a definition!",
    );
    assert_eq!(result, 7);
}

#[test]
fn excludes_rules() {
    let result = count("Hello…\n\n---\n\n…world!");
    assert_eq!(result, 2);
}

#[test]
fn excludes_metadata() {
    let result = count("---\ntitle: What a Cool Thing\n---\n\nNeato!");
    assert_eq!(result, 1);
}

#[test]
fn excludes_blockquotes() {
    let result = count("Not a quote\n\n> This is a blockquote\n\nNot again");
    assert_eq!(result, 5);
}

#[test]
fn includes_tables() {
    let result = count(
        r#"Some text

| thead 1 | thead 2 |
| ------- | ------- |
| foo     | bar     |
| baz     | quux    |

More stuff"#,
    );

    assert_eq!(result, 12);
}

#[test]
fn includes_footnotes() {
    let result = count(
        r#"This is some text.[^fn-def]

[^fn-def]: It defines a footnote.

Yay!"#,
    );

    assert_eq!(result, 9);
}

#[test]
fn handles_footnotes_with_continued_content() {
    let result = count(
        r#"This is some text.[^fn-def]

[^fn-def]: It defines a footnote.

    This paragraph continues the footnote!"#,
    );

    assert_eq!(result, 13);
}

#[test]
fn empty_input_counts_zero() {
    assert_eq!(count(""), 0);
}

#[test]
fn counts_unicode_words() {
    assert_eq!(count("The fox jumped 32.3 feet, really"), 6);
}
