use cmark_render::error::{ErrorKind, Fatal};
use cmark_render::math::render_math;

#[test]
fn inline_math_is_mathml() {
    let markup = render_math("x^2", false).unwrap();
    println!("{}", markup);
    assert!(markup.contains("<math"));
    assert!(markup.contains("</math>"));
    assert!(markup.contains("<msup>"));
    assert_ne!(markup, "x^2");
}

#[test]
fn display_math_differs_from_inline() {
    let inline = render_math("\\sum_{i=0}^n i", false).unwrap();
    let display = render_math("\\sum_{i=0}^n i", true).unwrap();
    assert_ne!(inline, display);
    assert!(display.contains("display=\"block\""));
    assert!(!inline.contains("display=\"block\""));
}

#[test]
fn same_expression_renders_the_same() {
    assert_eq!(render_math("a+b", true).unwrap(), render_math("a+b", true).unwrap());
}

#[test]
fn invalid_math_cannot_be_rendered() {
    match render_math("\\frac{1}{", false) {
        Err(Fatal::CannotRenderMath(detail)) => assert!(!detail.is_empty()),
        other => panic!("unexpected: {:?}", other),
    }
    let failure = render_math("\\notacommand", true).unwrap_err();
    assert_eq!(failure.kind(), ErrorKind::CannotRenderMath);
    assert!(failure.message().starts_with("cannot render math: "));
}

#[test]
fn links_in_math_are_not_trusted() {
    let markup = render_math("\\href{https://example.com/}{x}", false).unwrap();
    println!("{}", markup);
    assert!(!markup.contains("href=\"https://example.com/\""));
    assert!(!markup.contains("<a "));
}

#[test]
fn empty_math_is_rendered() {
    let markup = render_math("", false).unwrap();
    assert!(markup.contains("<math"));
}
