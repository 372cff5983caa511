use openai_wire::content::Content;
use openai_wire::role::Role;

#[test]
fn test_content_text() {
    let content = Content::text("hello".to_string());
    assert_eq!(content.as_text(), Some("hello"));
    assert_eq!(content.as_image(), None);
}

#[test]
fn test_content_image() {
    let content = Content::image("data".to_string(), "image/png".to_string());
    assert_eq!(content.as_text(), None);
    assert_eq!(content.as_image(), Some(("data", "image/png")));
}

#[test]
fn test_content_annotations() {
    let content = Content::text("hello".to_string())
        .with_audience(vec![Role::User])
        .with_priority(500);
    assert_eq!(content.audience(), Some(&vec![Role::User]));
    assert_eq!(content.priority(), Some(500));
}

#[test]
fn test_unannotated() {
    let content = Content::text("hello".to_string())
        .with_audience(vec![Role::User])
        .with_priority(500);
    let unannotated = content.unannotated();
    assert_eq!(unannotated.audience(), None);
    assert_eq!(unannotated.priority(), None);
}

#[test]
fn test_annotation_merge_keeps_other_field() {
    let content = Content::text("hello".to_string())
        .with_priority(250)
        .with_audience(vec![Role::Assistant]);
    assert_eq!(content.priority(), Some(250));
    assert_eq!(content.audience(), Some(&vec![Role::Assistant]));
    let replaced = content.with_audience(vec![Role::User]);
    assert_eq!(replaced.audience(), Some(&vec![Role::User]));
    assert_eq!(replaced.priority(), Some(250));
}
