//! The failures that end the rendering of a document.

use vstd::prelude::*;
use vstd::string::StringExecFns;
use pyo3::PyErr;
use crate::text::{occurs_in, lemma_occurs_in_middle};

verus! {

/// `pyo3::PyErr`: an exception raised on the Python side. Nothing is read
/// from it here; it is carried to the caller.
#[verifier::external_type_specification]
#[verifier::external_body]
pub struct ExPyErr(pyo3::PyErr);

/// The kinds of failure, for callers that branch on them.
#[derive(Clone, Copy, Debug, PartialEq, Eq, Structural)]
pub enum ErrorKind {
    UnknownLanguage,
    CannotHighlight,
    CannotRenderMath,
    CannotConfigMath,
    UnknownTheme,
    MissingTheme,
    CannotGetCss,
    BadCallback,
}

/// A failure. None is recovered from: the document that met it yields no
/// HTML.
#[derive(Debug)]
pub enum Fatal {
    /// The language token of a code block answers to no grammar.
    UnknownLanguage(String),
    /// The highlighter gave up on a line; holds its diagnostic.
    CannotHighlight(String),
    /// The math engine rejected an expression; holds its diagnostic.
    CannotRenderMath(String),
    /// The math engine's settings could not be built; holds the diagnostic.
    CannotConfigMath(String),
    /// The public theme name is not in the alias table.
    UnknownTheme(String),
    /// The alias table names a theme that the theme set does not hold; holds
    /// that theme's name.
    MissingTheme(String),
    /// The stylesheet could not be put together; holds the diagnostic.
    CannotGetCss(String),
    /// A callback raised, or returned something that is no string.
    BadCallback(PyErr),
}

/// A failure as contracts speak of it.
pub enum Failure {
    UnknownLanguage(Seq<char>),
    CannotHighlight(Seq<char>),
    CannotRenderMath(Seq<char>),
    CannotConfigMath(Seq<char>),
    UnknownTheme(Seq<char>),
    MissingTheme(Seq<char>),
    CannotGetCss(Seq<char>),
    BadCallback(PyErr),
}

impl View for Fatal {
    type V = Failure;

    open spec fn view(&self) -> Failure {
        match self {
            Fatal::UnknownLanguage(s) => Failure::UnknownLanguage(s@),
            Fatal::CannotHighlight(s) => Failure::CannotHighlight(s@),
            Fatal::CannotRenderMath(s) => Failure::CannotRenderMath(s@),
            Fatal::CannotConfigMath(s) => Failure::CannotConfigMath(s@),
            Fatal::UnknownTheme(s) => Failure::UnknownTheme(s@),
            Fatal::MissingTheme(s) => Failure::MissingTheme(s@),
            Fatal::CannotGetCss(s) => Failure::CannotGetCss(s@),
            Fatal::BadCallback(e) => Failure::BadCallback(*e),
        }
    }
}

impl Failure {
    /// The kind of this failure.
    pub open spec fn kind(self) -> ErrorKind {
        match self {
            Failure::UnknownLanguage(_) => ErrorKind::UnknownLanguage,
            Failure::CannotHighlight(_) => ErrorKind::CannotHighlight,
            Failure::CannotRenderMath(_) => ErrorKind::CannotRenderMath,
            Failure::CannotConfigMath(_) => ErrorKind::CannotConfigMath,
            Failure::UnknownTheme(_) => ErrorKind::UnknownTheme,
            Failure::MissingTheme(_) => ErrorKind::MissingTheme,
            Failure::CannotGetCss(_) => ErrorKind::CannotGetCss,
            Failure::BadCallback(_) => ErrorKind::BadCallback,
        }
    }

    /// The summary shown to a person: a fixed phrase for the kind, followed
    /// by the identifier or diagnostic where the failure holds one.
    pub open spec fn message(self) -> Seq<char> {
        match self {
            Failure::UnknownLanguage(token) => "unknown language: "@ + token,
            Failure::CannotHighlight(detail) => "cannot highlight code: "@ + detail,
            Failure::CannotRenderMath(detail) => "cannot render math: "@ + detail,
            Failure::CannotConfigMath(detail) => "cannot configure the math engine: "@ + detail,
            Failure::UnknownTheme(name) => "unknown theme: "@ + name,
            Failure::MissingTheme(name) => "theme missing from the theme set: "@ + name,
            Failure::CannotGetCss(detail) => "cannot generate CSS: "@ + detail,
            Failure::BadCallback(_) => "a user callback failed"@,
        }
    }
}

impl From<PyErr> for Fatal {
    /// What a callback raised, as the failure of the callback.
    fn from(error: PyErr) -> (failure: Fatal) {
        Fatal::BadCallback(error)
    }
}

impl vstd::std_specs::convert::FromSpecImpl<PyErr> for Fatal {
    open spec fn obeys_from_spec() -> bool {
        true
    }

    open spec fn from_spec(error: PyErr) -> Fatal {
        Fatal::BadCallback(error)
    }
}

impl Fatal {
    /// The kind of this failure.
    pub fn kind(&self) -> (kind: ErrorKind)
        ensures
            kind == self@.kind(),
    {
        match self {
            Fatal::UnknownLanguage(_) => ErrorKind::UnknownLanguage,
            Fatal::CannotHighlight(_) => ErrorKind::CannotHighlight,
            Fatal::CannotRenderMath(_) => ErrorKind::CannotRenderMath,
            Fatal::CannotConfigMath(_) => ErrorKind::CannotConfigMath,
            Fatal::UnknownTheme(_) => ErrorKind::UnknownTheme,
            Fatal::MissingTheme(_) => ErrorKind::MissingTheme,
            Fatal::CannotGetCss(_) => ErrorKind::CannotGetCss,
            Fatal::BadCallback(_) => ErrorKind::BadCallback,
        }
    }

    /// The summary shown to a person.
    pub fn message(&self) -> (text: String)
        ensures
            text@ == self@.message(),
    {
        match self {
            Fatal::UnknownLanguage(token) => String::from_str("unknown language: ").concat(
                token.as_str(),
            ),
            Fatal::CannotHighlight(detail) => String::from_str("cannot highlight code: ").concat(
                detail.as_str(),
            ),
            Fatal::CannotRenderMath(detail) => String::from_str("cannot render math: ").concat(
                detail.as_str(),
            ),
            Fatal::CannotConfigMath(detail) => String::from_str(
                "cannot configure the math engine: ",
            ).concat(detail.as_str()),
            Fatal::UnknownTheme(name) => String::from_str("unknown theme: ").concat(name.as_str()),
            Fatal::MissingTheme(name) => String::from_str(
                "theme missing from the theme set: ",
            ).concat(name.as_str()),
            Fatal::CannotGetCss(detail) => String::from_str("cannot generate CSS: ").concat(
                detail.as_str(),
            ),
            Fatal::BadCallback(_) => String::from_str("a user callback failed"),
        }
    }
}

/// The message of a failure over a language token or a theme name holds that
/// identifier.
pub proof fn lemma_message_names_identifier(failure: Failure)
    ensures
        failure matches Failure::UnknownLanguage(token) ==> occurs_in(token, failure.message()),
        failure matches Failure::UnknownTheme(name) ==> occurs_in(name, failure.message()),
        failure matches Failure::MissingTheme(name) ==> occurs_in(name, failure.message()),
{
    match failure {
        Failure::UnknownLanguage(token) => {
            lemma_occurs_in_middle("unknown language: "@, token, Seq::empty());
            assert("unknown language: "@ + token + Seq::<char>::empty() =~= failure.message());
        },
        Failure::UnknownTheme(name) => {
            lemma_occurs_in_middle("unknown theme: "@, name, Seq::empty());
            assert("unknown theme: "@ + name + Seq::<char>::empty() =~= failure.message());
        },
        Failure::MissingTheme(name) => {
            lemma_occurs_in_middle("theme missing from the theme set: "@, name, Seq::empty());
            assert("theme missing from the theme set: "@ + name + Seq::<char>::empty()
                =~= failure.message());
        },
        _ => {},
    }
}

} // verus!
