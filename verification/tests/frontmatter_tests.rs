use tama::frontmatter::{extract_body, split_frontmatter, FrontmatterError};

#[test]
fn frontmatter_splits_correctly() {
    let src = "---\nfoo: bar\n---\n\nbody here";
    let (yaml, body) = split_frontmatter(src).unwrap();
    assert_eq!(yaml, "foo: bar");
    assert_eq!(body, "body here");
}

#[test]
fn frontmatter_no_leading_dashes_fails() {
    assert!(split_frontmatter("no frontmatter here").is_err());
}

#[test]
fn frontmatter_no_closing_dashes_fails() {
    assert!(split_frontmatter("---\nfoo: bar\n").is_err());
}

#[test]
fn frontmatter_body_trimmed_leading_newline() {
    let src = "---\nk: v\n---\n\n\nActual body";
    let (_, body) = split_frontmatter(src).unwrap();
    assert_eq!(body, "Actual body");
}

#[test]
fn extract_body_after_frontmatter() {
    let md = "---\nname: s\n---\n\nThis is the body.\n";
    assert_eq!(extract_body(md), "This is the body.\n");
}

#[test]
fn extract_body_no_frontmatter_returns_whole() {
    let md = "no frontmatter here";
    assert_eq!(extract_body(md), "no frontmatter here");
}

#[test]
fn extract_body_empty_body() {
    let md = "---\nname: s\n---\n";
    assert_eq!(extract_body(md), "");
}

#[test]
fn extract_body_leading_newlines_stripped() {
    let md = "---\nk: v\n---\n\n\nActual content";
    assert_eq!(extract_body(md), "Actual content");
}

#[test]
fn frontmatter_errors_name_what_is_missing() {
    assert_eq!(split_frontmatter("plain"), Err(FrontmatterError::MissingOpening));
    assert_eq!(split_frontmatter("---\nk: v\n"), Err(FrontmatterError::MissingClosing));
    assert!(FrontmatterError::MissingOpening.message().contains("---"));
}

#[test]
fn frontmatter_leading_whitespace_is_skipped() {
    let (yaml, body) = split_frontmatter("  \n---\na: 1\n---\nb").unwrap();
    assert_eq!(yaml, "a: 1");
    assert_eq!(body, "b");
}
