//! The boundary with pulldown-cmark: its tokenizer, its events and its HTML
//! serializer. Events are opaque here; the transformer sees of each only what
//! `classify` tells.

use vstd::prelude::*;
use pulldown_cmark::{CodeBlockKind, Event, Options, Parser, Tag, TagEnd};

verus! {

/// `pulldown_cmark::Event`: one structural event of a document.
#[verifier::external_type_specification]
#[verifier::external_body]
pub struct ExEvent<'a>(pulldown_cmark::Event<'a>);

/// `pulldown_cmark::DefaultBrokenLinkCallback`: the callback type of a parser
/// that was given none.
#[verifier::external_type_specification]
#[verifier::external_body]
pub struct ExDefaultBrokenLinkCallback(pulldown_cmark::DefaultBrokenLinkCallback);

/// `pulldown_cmark::Parser`: the tokenizer, an iterator over the events of one
/// document.
#[verifier::external_type_specification]
#[verifier::external_body]
#[verifier::reject_recursive_types(F)]
pub struct ExParser<'input, F>(pulldown_cmark::Parser<'input, F>);

/// What the transformer tells apart in an event.
pub enum Token {
    /// The start of a fenced code block, with its language token.
    FencedStart(Seq<char>),
    /// A run of text.
    Text(Seq<char>),
    /// The end of a code block.
    CodeBlockEnd,
    /// Math set within a line.
    InlineMath(Seq<char>),
    /// Math set on a line of its own.
    DisplayMath(Seq<char>),
    /// Ready-made HTML.
    Html(Seq<char>),
    /// Any other event.
    Other,
}

/// `Token`, as `classify` hands it out: the spans borrow from the event.
#[derive(Clone, Copy, Debug)]
pub enum EventKind<'e> {
    FencedStart(&'e str),
    Text(&'e str),
    CodeBlockEnd,
    InlineMath(&'e str),
    DisplayMath(&'e str),
    Html(&'e str),
    Other,
}

impl<'e> View for EventKind<'e> {
    type V = Token;

    open spec fn view(&self) -> Token {
        match self {
            EventKind::FencedStart(s) => Token::FencedStart(s@),
            EventKind::Text(s) => Token::Text(s@),
            EventKind::CodeBlockEnd => Token::CodeBlockEnd,
            EventKind::InlineMath(s) => Token::InlineMath(s@),
            EventKind::DisplayMath(s) => Token::DisplayMath(s@),
            EventKind::Html(s) => Token::Html(s@),
            EventKind::Other => Token::Other,
        }
    }
}

/// The events that a parser has yet to yield, in order.
pub uninterp spec fn pending(parser: Parser<'_>) -> Seq<Event<'_>>;

/// What `classify` tells of an event.
pub uninterp spec fn token_of(event: Event<'_>) -> Token;

/// The events of a document: what a parser made from `text` with the
/// extension bits `flags` yields.
pub uninterp spec fn parsed(text: Seq<char>, flags: u32) -> Seq<Event<'static>>;

/// The event that stands for ready-made HTML.
pub uninterp spec fn html_event_of(markup: Seq<char>) -> Event<'static>;

/// The HTML that the serializer writes for a sequence of events.
pub uninterp spec fn html_of(events: Seq<Event<'_>>) -> Seq<char>;

/// `Parser::new_ext`, with the options made by `Options::from_bits_truncate`
/// from `flags`: a parser over `text`. Its events are named `parsed`.
#[verifier::external_body]
pub(crate) fn new_parser<'a>(text: &'a str, flags: u32) -> (parser: Parser<'a>)
    ensures
        pending(parser) == parsed(text@, flags),
{
    Parser::new_ext(text, Options::from_bits_truncate(flags))
}

/// `Iterator::next` on a `Parser`: hands out the first pending event and
/// leaves the rest pending; `None`, with nothing changed, once none is left.
#[verifier::external_body]
pub(crate) fn next_event<'a>(parser: &mut Parser<'a>) -> (event: Option<Event<'a>>)
    ensures
        pending(*old(parser)).len() == 0 ==> event is None && pending(*final(parser)) == pending(
            *old(parser),
        ),
        pending(*old(parser)).len() > 0 ==> event == Some(pending(*old(parser))[0]) && pending(
            *final(parser),
        ) == pending(*old(parser)).drop_first(),
{
    parser.next()
}

/// Tells the variants of `Event` apart, lending out the span of those that the
/// transformer reads. The result is named `token_of`.
#[verifier::external_body]
pub(crate) fn classify<'e>(event: &'e Event<'_>) -> (kind: EventKind<'e>)
    ensures
        kind@ == token_of(*event),
{
    match event {
        Event::Start(Tag::CodeBlock(CodeBlockKind::Fenced(language))) => {
            EventKind::FencedStart(language)
        },
        Event::Text(text) => EventKind::Text(text),
        Event::End(TagEnd::CodeBlock) => EventKind::CodeBlockEnd,
        Event::InlineMath(math) => EventKind::InlineMath(math),
        Event::DisplayMath(math) => EventKind::DisplayMath(math),
        Event::Html(html) => EventKind::Html(html),
        _ => EventKind::Other,
    }
}

/// `Event::Html` around `markup`: an event that the serializer writes out as
/// it is. The result is named `html_event_of`, and `classify` tells of it
/// that it holds the markup as HTML.
#[verifier::external_body]
pub(crate) fn html_event<'a>(markup: String) -> (event: Event<'a>)
    ensures
        event == html_event_of(markup@),
        token_of(event) == Token::Html(markup@),
{
    Event::Html(markup.into())
}

/// `pulldown_cmark::html::push_html`: appends to `out` the HTML of `events`,
/// named `html_of`.
#[verifier::external_body]
pub(crate) fn push_events(out: &mut String, events: Vec<Event<'_>>)
    ensures
        final(out)@ == old(out)@ + html_of(events@),
{
    pulldown_cmark::html::push_html(out, events.into_iter())
}

} // verus!
