//! The event transformer: it pulls events from the tokenizer, lets most of
//! them through, and puts one HTML event in the place of each fenced code
//! block and each math expression that a renderer is set for.

use vstd::prelude::*;
use vstd::string::StringExecFns;
use pulldown_cmark::{Event, Parser};
use pyo3::{PyErr, PyObject, Python};
use crate::error::{ErrorKind, Failure, Fatal};
use crate::highlight::Catalog;
use crate::markdown::{
    classify, html_event, html_event_of, next_event, pending, token_of, EventKind, Token,
};
use crate::math::{math_rendered, render_math};
use crate::options::{PyOptions, RenderMode};

verus! {

/// Where the transformer stands between two events.
#[derive(Debug)]
pub enum State {
    /// Outside any intercepted code block.
    Default,
    /// Inside a fenced code block, with the text gathered so far and the
    /// block's language token.
    CodeBlock { buffer: String, language: String },
}

/// `State` as contracts speak of it.
pub enum StateView {
    Default,
    CodeBlock { buffer: Seq<char>, language: Seq<char> },
}

impl View for State {
    type V = StateView;

    open spec fn view(&self) -> StateView {
        match self {
            State::Default => StateView::Default,
            State::CodeBlock { buffer, language } => StateView::CodeBlock {
                buffer: buffer@,
                language: language@,
            },
        }
    }
}

/// What one event makes the transformer do.
#[derive(Debug)]
pub enum Action {
    /// The event is swallowed.
    Suppress,
    /// The event goes out as it came.
    Forward,
    /// A code block is complete: its text and language go to the renderer.
    RenderCode { buffer: String, language: String },
    /// A math expression goes to the renderer.
    RenderMath { expression: String, display: bool },
}

/// `Action` as contracts speak of it.
pub enum Step {
    Suppress,
    Forward,
    RenderCode { buffer: Seq<char>, language: Seq<char> },
    RenderMath { expression: Seq<char>, display: bool },
}

impl View for Action {
    type V = Step;

    open spec fn view(&self) -> Step {
        match self {
            Action::Suppress => Step::Suppress,
            Action::Forward => Step::Forward,
            Action::RenderCode { buffer, language } => Step::RenderCode {
                buffer: buffer@,
                language: language@,
            },
            Action::RenderMath { expression, display } => Step::RenderMath {
                expression: expression@,
                display: *display,
            },
        }
    }
}

/// The transition table: the state after one event and what the event makes
/// the transformer do. `code` and `math` say whether code blocks and math are
/// intercepted.
///
/// Inside a code block, text is gathered, the end of the block hands the
/// gathered text to the renderer, and anything else is swallowed. Outside,
/// the start of a fenced block opens one, math goes to the renderer, and
/// anything else is forwarded.
pub open spec fn transition(state: StateView, token: Token, code: bool, math: bool) -> (
    StateView,
    Step,
) {
    match state {
        StateView::CodeBlock { buffer, language } => match token {
            Token::CodeBlockEnd => (StateView::Default, Step::RenderCode { buffer, language }),
            Token::Text(text) => (
                StateView::CodeBlock { buffer: buffer + text, language },
                Step::Suppress,
            ),
            _ => (state, Step::Suppress),
        },
        StateView::Default => match token {
            Token::InlineMath(expression) if math => (
                StateView::Default,
                Step::RenderMath { expression, display: false },
            ),
            Token::DisplayMath(expression) if math => (
                StateView::Default,
                Step::RenderMath { expression, display: true },
            ),
            Token::FencedStart(language) if code => (
                StateView::CodeBlock { buffer: Seq::empty(), language },
                Step::Suppress,
            ),
            _ => (StateView::Default, Step::Forward),
        },
    }
}

/// Takes one event: moves `state` on and says what to do with the event.
pub fn advance(state: &mut State, kind: EventKind<'_>, code: bool, math: bool) -> (action: Action)
    ensures
        (final(state)@, action@) == transition(old(state)@, kind@, code, math),
{
    let mut previous = State::Default;
    std::mem::swap(state, &mut previous);
    match previous {
        State::CodeBlock { buffer, language } => match kind {
            EventKind::CodeBlockEnd => Action::RenderCode { buffer, language },
            EventKind::Text(text) => {
                let mut buffer = buffer;
                buffer.append(text);
                *state = State::CodeBlock { buffer, language };
                Action::Suppress
            },
            _ => {
                *state = State::CodeBlock { buffer, language };
                Action::Suppress
            },
        },
        State::Default => match kind {
            EventKind::InlineMath(expression) => {
                if math {
                    Action::RenderMath { expression: expression.to_owned(), display: false }
                } else {
                    Action::Forward
                }
            },
            EventKind::DisplayMath(expression) => {
                if math {
                    Action::RenderMath { expression: expression.to_owned(), display: true }
                } else {
                    Action::Forward
                }
            },
            EventKind::FencedStart(language) => {
                if code {
                    *state = State::CodeBlock {
                        buffer: String::new(),
                        language: language.to_owned(),
                    };
                    Action::Suppress
                } else {
                    Action::Forward
                }
            },
            _ => Action::Forward,
        },
    }
}

/// What the transformer hands out for one place of its output.
pub enum Emission<'a> {
    /// An input event, as it came.
    Forward(Event<'a>),
    /// What the code renderer makes of a block's text and language token.
    Code { buffer: Seq<char>, language: Seq<char> },
    /// What the math renderer makes of an expression.
    Math { expression: Seq<char>, display: bool },
}

/// The output of the transformer over `events`, started in `state`, place by
/// place: forwarded events stay in their order, and each intercepted span
/// gives a single place, where the span stood. A code block still open when
/// the events run out is flushed as the last place.
pub open spec fn plan<'a>(events: Seq<Event<'a>>, state: StateView, code: bool, math: bool) -> Seq<
    Emission<'a>,
>
    decreases events.len(),
{
    if events.len() == 0 {
        match state {
            StateView::Default => Seq::empty(),
            StateView::CodeBlock { buffer, language } => seq![Emission::Code { buffer, language }],
        }
    } else {
        let (next, step) = transition(state, token_of(events[0]), code, math);
        let rest = plan(events.drop_first(), next, code, math);
        match step {
            Step::Suppress => rest,
            Step::Forward => seq![Emission::Forward(events[0])] + rest,
            Step::RenderCode { buffer, language } => seq![Emission::Code { buffer, language }]
                + rest,
            Step::RenderMath { expression, display } => seq![
                Emission::Math { expression, display },
            ] + rest,
        }
    }
}

/// How many events one pull takes from `events`: up to and with the first
/// that is not swallowed, or all of them where each is swallowed.
pub open spec fn pulled(events: Seq<Event<'_>>, state: StateView, code: bool, math: bool) -> nat
    decreases events.len(),
{
    if events.len() == 0 {
        0
    } else {
        let (next, step) = transition(state, token_of(events[0]), code, math);
        if step is Suppress {
            1 + pulled(events.drop_first(), next, code, math)
        } else {
            1
        }
    }
}

/// No event opens a fenced code block or holds math.
pub open spec fn is_plain(events: Seq<Event<'_>>) -> bool {
    forall|i: int|
        0 <= i < events.len() ==> !(#[trigger] token_of(events[i]) is FencedStart) && !(token_of(
            events[i],
        ) is InlineMath) && !(token_of(events[i]) is DisplayMath)
}

/// Each event forwarded, in order.
pub open spec fn forwarded<'a>(events: Seq<Event<'a>>) -> Seq<Emission<'a>> {
    events.map_values(|event: Event<'a>| Emission::Forward(event))
}

/// What a callback's return gives: an HTML event, whatever it holds, or the
/// failure of the callback.
pub open spec fn called_back(outcome: Result<Event<'_>, Fatal>) -> bool {
    match outcome {
        Ok(event) => exists|markup: Seq<char>| event == #[trigger] html_event_of(markup),
        Err(failure) => failure@ is BadCallback,
    }
}

/// What a built-in engine's result gives: an HTML event that holds the
/// engine's markup, or a failure of the engine's kind.
pub open spec fn built_in(
    expected: Result<Seq<char>, ErrorKind>,
    outcome: Result<Event<'_>, Fatal>,
) -> bool {
    match outcome {
        Ok(event) => expected matches Ok(markup) && event == html_event_of(markup),
        Err(failure) => expected == Err::<Seq<char>, ErrorKind>(failure@.kind()),
    }
}

/// Whether `outcome` is what a pull may hand out for `emission`: a forwarded
/// event is handed out itself; code and math go to the callback where the
/// options hold one, else to the built-in engine.
pub open spec fn rendered_as<'a>(
    options: &PyOptions,
    catalog: &Catalog,
    emission: Emission<'a>,
    outcome: Result<Event<'a>, Fatal>,
) -> bool {
    match emission {
        Emission::Forward(event) => outcome == Ok::<Event<'a>, Fatal>(event),
        Emission::Code { buffer, language } => if options.callbacks.code is Some {
            called_back(outcome)
        } else {
            built_in(catalog.highlighted(buffer, language), outcome)
        },
        Emission::Math { expression, display } => if options.callbacks.math is Some {
            called_back(outcome)
        } else {
            built_in(math_rendered(expression, display), outcome)
        },
    }
}

/// `Py::call1` on the code callback with `(buffer, language)`, then
/// `Py::extract` of a `String` from what it returned, both inside
/// `Python::with_gil`. The callback decides what comes back: nothing is
/// claimed of it.
#[verifier::external_body]
fn call_code(callback: &PyObject, buffer: &str, language: &str) -> Result<String, PyErr> {
    Python::with_gil(|py| callback.call1(py, (buffer, language))?.extract::<String>(py))
}

/// `Py::call1` on the math callback with `(expression, display)`, then
/// `Py::extract` of a `String` from what it returned, both inside
/// `Python::with_gil`. The callback decides what comes back: nothing is
/// claimed of it.
#[verifier::external_body]
fn call_math(callback: &PyObject, expression: &str, display: bool) -> Result<String, PyErr> {
    Python::with_gil(|py| callback.call1(py, (expression, display))?.extract::<String>(py))
}

/// Turns what a callback returned into the transformer's output: its string
/// becomes an HTML event, its failure becomes `BadCallback`.
pub fn callback_outcome<'a>(returned: Result<String, PyErr>) -> (outcome: Result<Event<'a>, Fatal>)
    ensures
        match returned {
            Ok(markup) => outcome matches Ok(event) && event == html_event_of(markup@) && token_of(
                event,
            ) == Token::Html(markup@),
            Err(error) => outcome matches Err(failure) && failure@ == Failure::BadCallback(error),
        },
{
    match returned {
        Ok(markup) => Ok(html_event(markup)),
        Err(error) => Err(Fatal::from(error)),
    }
}

/// Turns the result of a built-in engine into the transformer's output: its
/// markup becomes an HTML event, its failure stays as it is.
pub fn engine_outcome<'a>(rendered: Result<String, Fatal>) -> (outcome: Result<Event<'a>, Fatal>)
    ensures
        match rendered {
            Ok(markup) => outcome matches Ok(event) && event == html_event_of(markup@) && token_of(
                event,
            ) == Token::Html(markup@),
            Err(failure) => outcome == Err::<Event<'a>, Fatal>(failure),
        },
{
    match rendered {
        Ok(markup) => Ok(html_event(markup)),
        Err(failure) => Err(failure),
    }
}

/// The transformer over one document's events.
pub struct EventIter<'p, 'c> {
    state: State,
    parser: Parser<'p>,
    options: &'c PyOptions,
    catalog: &'c Catalog,
}

impl<'p, 'c> EventIter<'p, 'c> {
    /// The events that the tokenizer has yet to yield.
    pub closed spec fn pending(&self) -> Seq<Event<'p>> {
        pending(self.parser)
    }

    /// Where the transformer stands.
    pub closed spec fn state(&self) -> StateView {
        self.state@
    }

    /// The options that the transformer was made with.
    pub closed spec fn options(&self) -> &'c PyOptions {
        self.options
    }

    /// The catalog that the transformer was made with.
    pub closed spec fn catalog(&self) -> &'c Catalog {
        self.catalog
    }

    /// Code blocks are intercepted.
    pub open spec fn intercepts_code(&self) -> bool {
        self.options().code_mode_of() != RenderMode::Disabled
    }

    /// Math is intercepted.
    pub open spec fn intercepts_math(&self) -> bool {
        self.options().math_mode_of() != RenderMode::Disabled
    }

    /// What is still to come out, place by place.
    pub open spec fn plan(&self) -> Seq<Emission<'p>> {
        plan(self.pending(), self.state(), self.intercepts_code(), self.intercepts_math())
    }

    /// A transformer over the events of `parser`, outside any code block.
    pub fn new(parser: Parser<'p>, options: &'c PyOptions, catalog: &'c Catalog) -> (iter: Self)
        ensures
            iter.pending() == pending(parser),
            iter.state() is Default,
            iter.options() == options,
            iter.catalog() == catalog,
    {
        EventIter { state: State::Default, parser, options, catalog }
    }

    /// Renders a math expression: by the callback where there is one, else
    /// by the math engine.
    fn math(&self, expression: &str, display: bool) -> (outcome: Result<Event<'p>, Fatal>)
        ensures
            rendered_as(
                self.options(),
                self.catalog(),
                Emission::Math { expression: expression@, display },
                outcome,
            ),
    {
        match &self.options.callbacks.math {
            Some(callback) => callback_outcome(call_math(callback, expression, display)),
            None => engine_outcome(render_math(expression, display)),
        }
    }

    /// Renders a code block: by the callback where there is one, else by
    /// the highlight engine.
    fn code(&self, buffer: &str, language: &str) -> (outcome: Result<Event<'p>, Fatal>)
        ensures
            rendered_as(
                self.options(),
                self.catalog(),
                Emission::Code { buffer: buffer@, language: language@ },
                outcome,
            ),
    {
        match &self.options.callbacks.code {
            Some(callback) => callback_outcome(call_code(callback, buffer, language)),
            None => engine_outcome(self.catalog.highlight(buffer, language)),
        }
    }

    /// Pulls the next event of the output. Input events are taken one by one
    /// until one is forwarded or a span is complete; a code block that the
    /// end of the input leaves open is flushed before `None` is returned. A
    /// renderer's failure comes out in the place of its event.
    pub fn next(&mut self) -> (item: Option<Result<Event<'p>, Fatal>>)
        ensures
            final(self).options() == old(self).options(),
            final(self).catalog() == old(self).catalog(),
            final(self).state() is Default,
            final(self).pending() == old(self).pending().skip(
                pulled(
                    old(self).pending(),
                    old(self).state(),
                    old(self).intercepts_code(),
                    old(self).intercepts_math(),
                ) as int,
            ),
            match item {
                None => old(self).plan().len() == 0,
                Some(outcome) => old(self).plan().len() > 0 && rendered_as(
                    old(self).options(),
                    old(self).catalog(),
                    old(self).plan()[0],
                    outcome,
                ) && final(self).plan() == old(self).plan().drop_first(),
            },
    {
        let code = self.options.code_mode() != RenderMode::Disabled;
        let math = self.options.math_mode() != RenderMode::Disabled;
        let ghost taken: int = 0;
        proof {
            assert(self.pending().skip(0) =~= self.pending());
        }
        loop
            invariant
                self.options() == old(self).options(),
                self.catalog() == old(self).catalog(),
                code == self.intercepts_code(),
                math == self.intercepts_math(),
                0 <= taken <= old(self).pending().len(),
                self.pending() == old(self).pending().skip(taken),
                plan(self.pending(), self.state(), code, math) == old(self).plan(),
                pulled(old(self).pending(), old(self).state(), code, math) == taken + pulled(
                    self.pending(),
                    self.state(),
                    code,
                    math,
                ),
            decreases self.pending().len(),
        {
            let ghost before = self.pending();
            let event = match next_event(&mut self.parser) {
                Some(event) => event,
                None => {
                    let mut previous = State::Default;
                    std::mem::swap(&mut self.state, &mut previous);
                    proof {
                        assert(before.skip(0) =~= before);
                    }
                    match previous {
                        State::CodeBlock { buffer, language } => {
                            let outcome = self.code(buffer.as_str(), language.as_str());
                            proof {
                                let flushed: Seq<Emission<'p>> = seq![
                                    Emission::Code {
                                        buffer: buffer@,
                                        language: language@,
                                    },
                                ];
                                assert(old(self).plan() == flushed);
                                assert(flushed.drop_first() =~= Seq::<Emission<'p>>::empty());
                            }
                            return Some(outcome);
                        },
                        State::Default => {
                            return None;
                        },
                    }
                },
            };
            let kind = classify(&event);
            let action = advance(&mut self.state, kind, code, math);
            proof {
                taken = taken + 1;
                assert(before.drop_first() =~= old(self).pending().skip(taken));
                let rest = plan(self.pending(), self.state(), code, math);
                match action@ {
                    Step::Suppress => {},
                    Step::Forward => {
                        let head: Seq<Emission<'p>> = seq![Emission::Forward(event)];
                        assert((head + rest)[0] == Emission::Forward(event));
                        assert((head + rest).drop_first() =~= rest);
                    },
                    Step::RenderCode { buffer, language } => {
                        let head: Seq<Emission<'p>> = seq![Emission::Code { buffer, language }];
                        assert((head + rest)[0] == Emission::Code { buffer, language });
                        assert((head + rest).drop_first() =~= rest);
                    },
                    Step::RenderMath { expression, display } => {
                        let head: Seq<Emission<'p>> = seq![Emission::Math { expression, display }];
                        assert((head + rest)[0] == Emission::Math { expression, display });
                        assert((head + rest).drop_first() =~= rest);
                    },
                }
            }
            match action {
                Action::Suppress => {},
                Action::Forward => {
                    return Some(Ok(event));
                },
                Action::RenderCode { buffer, language } => {
                    return Some(self.code(buffer.as_str(), language.as_str()));
                },
                Action::RenderMath { expression, display } => {
                    return Some(self.math(expression.as_str(), display));
                },
            }
        }
    }

    /// Pulls until the output ends, gathering the events, or stops at the
    /// first failure and returns it.
    pub fn drain(&mut self) -> (outcome: Result<Vec<Event<'p>>, Fatal>)
        ensures
            final(self).options() == old(self).options(),
            final(self).catalog() == old(self).catalog(),
            match outcome {
                Ok(events) => events@.len() == old(self).plan().len() && renders(
                    old(self).options(),
                    old(self).catalog(),
                    old(self).plan(),
                    events@,
                ),
                Err(failure) => exists|done: Seq<Event<'p>>|
                    stops_at(
                        old(self).options(),
                        old(self).catalog(),
                        old(self).plan(),
                        done,
                        failure,
                    ),
            },
    {
        let mut events: Vec<Event<'p>> = Vec::new();
        proof {
            assert(self.plan().skip(0) =~= self.plan());
        }
        loop
            invariant
                self.options() == old(self).options(),
                self.catalog() == old(self).catalog(),
                events@.len() <= old(self).plan().len(),
                self.plan() == old(self).plan().skip(events@.len() as int),
                renders(old(self).options(), old(self).catalog(), old(self).plan(), events@),
            decreases self.plan().len(),
        {
            let ghost ahead = self.plan();
            let ghost done = events@;
            match self.next() {
                None => {
                    return Ok(events);
                },
                Some(Ok(event)) => {
                    events.push(event);
                    proof {
                        assert(ahead[0] == old(self).plan()[done.len() as int]);
                        assert(ahead.drop_first() =~= old(self).plan().skip(done.len() as int + 1));
                    }
                },
                Some(Err(failure)) => {
                    proof {
                        assert(ahead[0] == old(self).plan()[done.len() as int]);
                        assert(stops_at(
                            old(self).options(),
                            old(self).catalog(),
                            old(self).plan(),
                            done,
                            failure,
                        ));
                    }
                    return Err(failure);
                },
            }
        }
    }
}

/// `out` is what the renderers made of the first places of `plan`, each
/// place rendered without failure.
pub open spec fn renders<'a>(
    options: &PyOptions,
    catalog: &Catalog,
    plan: Seq<Emission<'a>>,
    out: Seq<Event<'a>>,
) -> bool {
    out.len() <= plan.len() && forall|i: int|
        0 <= i < out.len() ==> rendered_as(
            options,
            catalog,
            #[trigger] plan[i],
            Ok::<Event<'a>, Fatal>(out[i]),
        )
}

/// The output stopped with `failure`: the places before it were rendered as
/// `done`, and `failure` is what the renderer made of the next place.
pub open spec fn stops_at<'a>(
    options: &PyOptions,
    catalog: &Catalog,
    plan: Seq<Emission<'a>>,
    done: Seq<Event<'a>>,
    failure: Fatal,
) -> bool {
    renders(options, catalog, plan, done) && done.len() < plan.len() && rendered_as(
        options,
        catalog,
        plan[done.len() as int],
        Err::<Event<'a>, Fatal>(failure),
    )
}

/// The state that `events` leave the transformer in, started in `state`.
pub open spec fn state_after(
    events: Seq<Event<'_>>,
    state: StateView,
    code: bool,
    math: bool,
) -> StateView
    decreases events.len(),
{
    if events.len() == 0 {
        state
    } else {
        state_after(
            events.drop_first(),
            transition(state, token_of(events[0]), code, math).0,
            code,
            math,
        )
    }
}

/// Pass-through: where no event opens a fenced code block or holds math, every
/// event is forwarded, in order, whatever is intercepted.
pub proof fn lemma_plain_is_forwarded(events: Seq<Event<'_>>, code: bool, math: bool)
    requires
        is_plain(events),
    ensures
        plan(events, StateView::Default, code, math) == forwarded(events),
    decreases events.len(),
{
    if events.len() == 0 {
        assert(forwarded(events) =~= Seq::empty());
    } else {
        let rest = events.drop_first();
        assert(!(token_of(events[0]) is FencedStart));
        assert forall|i: int| 0 <= i < rest.len() implies !(#[trigger] token_of(rest[i])
            is FencedStart) && !(token_of(rest[i]) is InlineMath) && !(token_of(rest[i])
            is DisplayMath) by {
            assert(rest[i] == events[i + 1]);
        }
        lemma_plain_is_forwarded(rest, code, math);
        assert(seq![Emission::Forward(events[0])] + forwarded(rest) =~= forwarded(events));
    }
}

/// With nothing intercepted, every event is forwarded, in order.
pub proof fn lemma_disabled_is_forwarded(events: Seq<Event<'_>>)
    ensures
        plan(events, StateView::Default, false, false) == forwarded(events),
    decreases events.len(),
{
    if events.len() == 0 {
        assert(forwarded(events) =~= Seq::empty());
    } else {
        let rest = events.drop_first();
        lemma_disabled_is_forwarded(rest);
        assert(seq![Emission::Forward(events[0])] + forwarded(rest) =~= forwarded(events));
    }
}

/// Where every place is a forwarded event, what comes out is the input.
pub proof fn lemma_forwarded_renders_itself<'a>(
    options: &PyOptions,
    catalog: &Catalog,
    events: Seq<Event<'a>>,
    out: Seq<Event<'a>>,
)
    requires
        out.len() == events.len(),
        renders(options, catalog, forwarded(events), out),
    ensures
        out == events,
{
    assert forall|i: int| 0 <= i < out.len() implies out[i] == events[i] by {
        assert(forwarded(events)[i] == Emission::Forward(events[i]));
    }
    assert(out =~= events);
}

/// Order: the output over a run of events that ends outside any code block,
/// followed by more events, is the output over the run followed by the
/// output over the rest.
pub proof fn lemma_plan_concat<'a>(
    first: Seq<Event<'a>>,
    second: Seq<Event<'a>>,
    state: StateView,
    code: bool,
    math: bool,
)
    requires
        state_after(first, state, code, math) is Default,
    ensures
        plan(first + second, state, code, math) == plan(first, state, code, math) + plan(
            second,
            StateView::Default,
            code,
            math,
        ),
    decreases first.len(),
{
    if first.len() == 0 {
        assert(first + second =~= second);
        assert(plan(first, state, code, math) + plan(second, StateView::Default, code, math)
            =~= plan(second, StateView::Default, code, math));
    } else {
        let next = transition(state, token_of(first[0]), code, math).0;
        assert((first + second)[0] == first[0]);
        assert((first + second).drop_first() =~= first.drop_first() + second);
        lemma_plan_concat(first.drop_first(), second, next, code, math);
        assert(plan(first + second, state, code, math) =~= plan(first, state, code, math) + plan(
            second,
            StateView::Default,
            code,
            math,
        ));
    }
}

} // verus!
