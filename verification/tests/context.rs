use std::sync::Arc;
use ursix::context::InputContext;

#[test]
fn test_input_context_new() {
    let ctx = InputContext::new("test content");
    assert_eq!(ctx.content(), "test content");
}

#[test]
fn test_input_context_default() {
    let ctx = InputContext::default();
    assert!(ctx.content().is_empty());
    assert!(ctx.is_empty());
}

#[test]
fn test_input_context_is_empty() {
    let empty = InputContext::new("");
    assert!(empty.is_empty());

    let whitespace = InputContext::new("  \n\t  ");
    assert!(whitespace.is_empty());

    let content = InputContext::new("hello");
    assert!(!content.is_empty());
}

#[test]
fn test_input_context_content_method() {
    let ctx = InputContext::new("fn main() {}");
    assert_eq!(ctx.content(), "fn main() {}");

    let ctx2 = InputContext::new("");
    assert_eq!(ctx2.content(), "");
}

#[test]
fn test_input_context_clone_shares_content() {
    let ctx1 = InputContext::new("shared content");
    let ctx2 = ctx1.clone();

    assert!(Arc::ptr_eq(ctx1.content_arc(), ctx2.content_arc()));
    assert_eq!(ctx1.content(), ctx2.content());
}
