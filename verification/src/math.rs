//! The math engine: LaTeX rendered to MathML.

use vstd::prelude::*;
use katex::opts::OptsBuilderError;
use katex::{Opts, OutputType};
use crate::error::{ErrorKind, Fatal};

verus! {

/// `katex::Opts`: the settings of one render.
#[verifier::external_type_specification]
#[verifier::external_body]
pub struct ExOpts(katex::Opts);

/// `katex::opts::OptsBuilderError`: why settings could not be built.
#[verifier::external_type_specification]
#[verifier::external_body]
pub struct ExOptsBuilderError(katex::opts::OptsBuilderError);

/// `katex::Error`: why an expression could not be rendered.
#[verifier::external_type_specification]
#[verifier::external_body]
pub struct ExKatexError(katex::Error);

/// The settings for MathML output with `trust` and the display mode as given,
/// or `None` where they cannot be built.
pub uninterp spec fn settings_for(trust: bool, display: bool) -> Option<Opts>;

/// The markup of an expression under given settings, or `None` where the
/// engine rejects it.
pub uninterp spec fn rendered_with(expression: Seq<char>, settings: Opts) -> Option<Seq<char>>;

/// `Opts::builder` with the output type MathML, and `trust` and the display
/// mode as given, then `build`. The result is named `settings_for`.
#[verifier::external_body]
fn math_settings(trust: bool, display: bool) -> (settings: Result<Opts, OptsBuilderError>)
    ensures
        match settings {
            Ok(built) => settings_for(trust, display) == Some(built),
            Err(_) => settings_for(trust, display) is None,
        },
{
    Opts::builder().output_type(OutputType::Mathml).trust(trust).display_mode(display).build()
}

/// `katex::render_with_opts`: the markup of `expression` under `settings`.
/// The result is named `rendered_with`.
#[verifier::external_body]
fn math_markup(expression: &str, settings: &Opts) -> (markup: Result<String, katex::Error>)
    ensures
        match markup {
            Ok(text) => rendered_with(expression@, *settings) == Some(text@),
            Err(_) => rendered_with(expression@, *settings) is None,
        },
{
    katex::render_with_opts(expression, settings)
}

/// The text of an `OptsBuilderError`, by its `Display`. Nothing is claimed of
/// it.
#[verifier::external_body]
fn settings_error_text(error: &OptsBuilderError) -> String {
    error.to_string()
}

/// The text of a `katex::Error`, by its `Display`. Nothing is claimed of it.
#[verifier::external_body]
fn math_error_text(error: &katex::Error) -> String {
    error.to_string()
}

/// Whether expressions are trusted to run macros that reach outside them,
/// such as those that read files. They never are.
pub const TRUST: bool = false;

/// What rendering math gives: the markup of the expression under the settings
/// for the display mode, with trust off, or the kind of the failure. The
/// settings are built first, so where they cannot be built the expression is
/// never looked at.
pub open spec fn math_rendered(expression: Seq<char>, display: bool) -> Result<
    Seq<char>,
    ErrorKind,
> {
    match settings_for(TRUST, display) {
        None => Err(ErrorKind::CannotConfigMath),
        Some(settings) => match rendered_with(expression, settings) {
            Some(markup) => Ok(markup),
            None => Err(ErrorKind::CannotRenderMath),
        },
    }
}

/// Renders a LaTeX expression to MathML, inline or on a line of its own.
/// Macros that would reach outside the expression are off. On failure no
/// markup is returned.
pub fn render_math(expression: &str, display: bool) -> (outcome: Result<String, Fatal>)
    ensures
        match outcome {
            Ok(markup) => math_rendered(expression@, display) == Ok::<Seq<char>, ErrorKind>(
                markup@,
            ),
            Err(failure) => math_rendered(expression@, display) == Err::<Seq<char>, ErrorKind>(
                failure@.kind(),
            ),
        },
{
    let settings = match math_settings(TRUST, display) {
        Ok(settings) => settings,
        Err(error) => {
            return Err(Fatal::CannotConfigMath(settings_error_text(&error)));
        },
    };
    match math_markup(expression, &settings) {
        Ok(markup) => Ok(markup),
        Err(error) => Err(Fatal::CannotRenderMath(math_error_text(&error))),
    }
}

} // verus!
