use cmark_render::error::{ErrorKind, Fatal};
use pyo3::exceptions::PyValueError;

#[test]
fn each_failure_has_its_kind() {
    assert_eq!(Fatal::UnknownLanguage(String::from("x")).kind(), ErrorKind::UnknownLanguage);
    assert_eq!(Fatal::CannotHighlight(String::from("x")).kind(), ErrorKind::CannotHighlight);
    assert_eq!(Fatal::CannotRenderMath(String::from("x")).kind(), ErrorKind::CannotRenderMath);
    assert_eq!(Fatal::CannotConfigMath(String::from("x")).kind(), ErrorKind::CannotConfigMath);
    assert_eq!(Fatal::UnknownTheme(String::from("x")).kind(), ErrorKind::UnknownTheme);
    assert_eq!(Fatal::MissingTheme(String::from("x")).kind(), ErrorKind::MissingTheme);
    assert_eq!(Fatal::CannotGetCss(String::from("x")).kind(), ErrorKind::CannotGetCss);
    assert_eq!(
        Fatal::BadCallback(PyValueError::new_err("boom")).kind(),
        ErrorKind::BadCallback
    );
}

#[test]
fn each_failure_has_its_message() {
    assert_eq!(
        Fatal::UnknownLanguage(String::from("klingon")).message(),
        "unknown language: klingon"
    );
    assert_eq!(
        Fatal::CannotHighlight(String::from("bad state")).message(),
        "cannot highlight code: bad state"
    );
    assert_eq!(
        Fatal::CannotRenderMath(String::from("parse error")).message(),
        "cannot render math: parse error"
    );
    assert_eq!(
        Fatal::CannotConfigMath(String::from("clash")).message(),
        "cannot configure the math engine: clash"
    );
    assert_eq!(Fatal::UnknownTheme(String::from("neon")).message(), "unknown theme: neon");
    assert_eq!(
        Fatal::MissingTheme(String::from("Neon (dark)")).message(),
        "theme missing from the theme set: Neon (dark)"
    );
    assert_eq!(
        Fatal::CannotGetCss(String::from("no scopes")).message(),
        "cannot generate CSS: no scopes"
    );
    assert_eq!(
        Fatal::BadCallback(PyValueError::new_err("boom")).message(),
        "a user callback failed"
    );
}

#[test]
fn a_python_error_becomes_a_bad_callback() {
    match Fatal::from(PyValueError::new_err("boom")) {
        Fatal::BadCallback(cause) => assert!(cause.to_string().contains("boom")),
        other => panic!("unexpected: {:?}", other),
    }
}
