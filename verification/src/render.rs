//! Rendering whole documents: one, and a batch of them.

use vstd::prelude::*;
use pulldown_cmark::Event;
use crate::error::Fatal;
use crate::highlight::Catalog;
use crate::iter::{
    is_plain, lemma_forwarded_renders_itself, lemma_plain_is_forwarded, plan, rendered_as,
    renders, stops_at, Emission, EventIter, StateView,
};
use crate::markdown::{html_of, new_parser, parsed, push_events};
use crate::options::{PyOptions, RenderMode};

verus! {

/// The output that a document's events call for under `options`, place by
/// place.
pub open spec fn document_plan(text: Seq<char>, options: &PyOptions) -> Seq<Emission<'static>> {
    plan(
        parsed(text, options.flags),
        StateView::Default,
        options.code_mode_of() != RenderMode::Disabled,
        options.math_mode_of() != RenderMode::Disabled,
    )
}

/// Whether `outcome` is a render of the document `text`: the HTML of the
/// events that the renderers made of every place of its plan, or the failure
/// at the first place that a renderer failed on.
pub open spec fn document_rendered(
    text: Seq<char>,
    options: &PyOptions,
    catalog: &Catalog,
    outcome: Result<String, Fatal>,
) -> bool {
    match outcome {
        Ok(html) => exists|out: Seq<Event<'static>>|
            out.len() == document_plan(text, options).len() && #[trigger] renders(
                options,
                catalog,
                document_plan(text, options),
                out,
            ) && html@ == html_of(out),
        Err(failure) => exists|done: Seq<Event<'static>>| #[trigger]
            stops_at(options, catalog, document_plan(text, options), done, failure),
    }
}

/// Renders one document to HTML. A document's own tokenizer and transformer
/// do the work; the first failure of a renderer ends it, and no HTML is
/// returned then.
pub fn render_document(text: &str, options: &PyOptions, catalog: &Catalog) -> (outcome: Result<
    String,
    Fatal,
>)
    ensures
        document_rendered(text@, options, catalog, outcome),
        is_plain(parsed(text@, options.flags)) ==> (outcome matches Ok(html) && html@ == html_of(
            parsed(text@, options.flags),
        )),
{
    let parser = new_parser(text, options.flags);
    let mut iter = EventIter::new(parser, options, catalog);
    assert(iter.plan() == document_plan(text@, options));
    let outcome = match iter.drain() {
        Ok(out) => {
            let mut html = String::new();
            push_events(&mut html, out);
            assert(html@ =~= html_of(out@));
            Ok(html)
        },
        Err(failure) => Err(failure),
    };
    proof {
        if is_plain(parsed(text@, options.flags)) {
            lemma_plain_document(text@, options, catalog, outcome);
        }
    }
    outcome
}

/// Pass-through: a document whose events open no fenced code block and hold
/// no math renders to the HTML of its events, so two sets of options under
/// which it has the same events give the same HTML, whatever they intercept.
pub proof fn lemma_plain_document_renders_alike(
    text: Seq<char>,
    first: &PyOptions,
    second: &PyOptions,
    catalog: &Catalog,
    one: Result<String, Fatal>,
    other: Result<String, Fatal>,
)
    requires
        parsed(text, first.flags) == parsed(text, second.flags),
        is_plain(parsed(text, first.flags)),
        document_rendered(text, first, catalog, one),
        document_rendered(text, second, catalog, other),
    ensures
        one matches Ok(html) && html@ == html_of(parsed(text, first.flags)),
        other matches Ok(html) && html@ == html_of(parsed(text, first.flags)),
{
    lemma_plain_document(text, first, catalog, one);
    lemma_plain_document(text, second, catalog, other);
}

/// A render of a document whose events open no fenced code block and hold no
/// math is the HTML of its events.
pub proof fn lemma_plain_document(
    text: Seq<char>,
    options: &PyOptions,
    catalog: &Catalog,
    outcome: Result<String, Fatal>,
)
    requires
        is_plain(parsed(text, options.flags)),
        document_rendered(text, options, catalog, outcome),
    ensures
        outcome matches Ok(html) && html@ == html_of(parsed(text, options.flags)),
{
    let events = parsed(text, options.flags);
    let places = document_plan(text, options);
    lemma_plain_is_forwarded(
        events,
        options.code_mode_of() != RenderMode::Disabled,
        options.math_mode_of() != RenderMode::Disabled,
    );
    match outcome {
        Ok(html) => {
            let out = choose|out: Seq<Event<'static>>|
                out.len() == places.len() && #[trigger] renders(options, catalog, places, out)
                    && html@ == html_of(out);
            lemma_forwarded_renders_itself(options, catalog, events, out);
        },
        Err(failure) => {
            let done = choose|done: Seq<Event<'static>>|
                stops_at(options, catalog, places, done, failure);
            assert(places[done.len() as int] == Emission::Forward(events[done.len() as int]));
        },
    }
}

/// No callback is set: code and math go to the built-in engines or pass
/// through.
pub open spec fn engines_only(options: &PyOptions) -> bool {
    options.callbacks.code is None && options.callbacks.math is None
}

/// Whether two results agree: both are the same text, or both are failures
/// of the same kind.
pub open spec fn agree(one: Result<String, Fatal>, other: Result<String, Fatal>) -> bool {
    match (one, other) {
        (Ok(a), Ok(b)) => a@ == b@,
        (Err(a), Err(b)) => a@.kind() == b@.kind(),
        _ => false,
    }
}

/// With no callback set, a place of the output has one outcome: the same
/// event, or a failure of the same kind.
proof fn lemma_place_is_determined<'a>(
    options: &PyOptions,
    catalog: &Catalog,
    emission: Emission<'a>,
    one: Result<Event<'a>, Fatal>,
    other: Result<Event<'a>, Fatal>,
)
    requires
        engines_only(options),
        rendered_as(options, catalog, emission, one),
        rendered_as(options, catalog, emission, other),
    ensures
        match (one, other) {
            (Ok(a), Ok(b)) => a == b,
            (Err(a), Err(b)) => a@.kind() == b@.kind(),
            _ => false,
        },
{
}

/// With no callback set, rendering is a function of the document: two
/// renders of one document under the same options agree. So a page of a
/// batch is the page that the document gives when rendered alone, whatever
/// order the batch was worked in.
pub proof fn lemma_engines_render_alike(
    text: Seq<char>,
    options: &PyOptions,
    catalog: &Catalog,
    one: Result<String, Fatal>,
    other: Result<String, Fatal>,
)
    requires
        engines_only(options),
        document_rendered(text, options, catalog, one),
        document_rendered(text, options, catalog, other),
    ensures
        agree(one, other),
{
    let places = document_plan(text, options);
    match (one, other) {
        (Ok(a), Ok(b)) => {
            let first = choose|out: Seq<Event<'static>>|
                out.len() == places.len() && #[trigger] renders(options, catalog, places, out)
                    && a@ == html_of(out);
            let second = choose|out: Seq<Event<'static>>|
                out.len() == places.len() && #[trigger] renders(options, catalog, places, out)
                    && b@ == html_of(out);
            assert forall|i: int| 0 <= i < first.len() implies first[i] == second[i] by {
                lemma_place_is_determined(
                    options,
                    catalog,
                    places[i],
                    Ok::<Event<'static>, Fatal>(first[i]),
                    Ok::<Event<'static>, Fatal>(second[i]),
                );
            }
            assert(first =~= second);
        },
        (Err(a), Err(b)) => {
            let first = choose|done: Seq<Event<'static>>|
                stops_at(options, catalog, places, done, a);
            let second = choose|done: Seq<Event<'static>>|
                stops_at(options, catalog, places, done, b);
            if first.len() < second.len() {
                lemma_place_is_determined(
                    options,
                    catalog,
                    places[first.len() as int],
                    Err::<Event<'static>, Fatal>(a),
                    Ok::<Event<'static>, Fatal>(second[first.len() as int]),
                );
            } else if second.len() < first.len() {
                lemma_place_is_determined(
                    options,
                    catalog,
                    places[second.len() as int],
                    Ok::<Event<'static>, Fatal>(first[second.len() as int]),
                    Err::<Event<'static>, Fatal>(b),
                );
            } else {
                lemma_place_is_determined(
                    options,
                    catalog,
                    places[first.len() as int],
                    Err::<Event<'static>, Fatal>(a),
                    Err::<Event<'static>, Fatal>(b),
                );
            }
        },
        (Ok(a), Err(b)) => {
            let first = choose|out: Seq<Event<'static>>|
                out.len() == places.len() && #[trigger] renders(options, catalog, places, out)
                    && a@ == html_of(out);
            let second = choose|done: Seq<Event<'static>>|
                stops_at(options, catalog, places, done, b);
            lemma_place_is_determined(
                options,
                catalog,
                places[second.len() as int],
                Ok::<Event<'static>, Fatal>(first[second.len() as int]),
                Err::<Event<'static>, Fatal>(b),
            );
        },
        (Err(a), Ok(b)) => {
            let first = choose|done: Seq<Event<'static>>|
                stops_at(options, catalog, places, done, a);
            let second = choose|out: Seq<Event<'static>>|
                out.len() == places.len() && #[trigger] renders(options, catalog, places, out)
                    && b@ == html_of(out);
            lemma_place_is_determined(
                options,
                catalog,
                places[first.len() as int],
                Err::<Event<'static>, Fatal>(a),
                Ok::<Event<'static>, Fatal>(second[first.len() as int]),
            );
        },
    }
}

/// Whether `pages` are renders of the first documents of `markdown`, page
/// `i` of document `i`.
pub open spec fn pages_rendered(
    markdown: Seq<String>,
    options: &PyOptions,
    catalog: &Catalog,
    pages: Seq<String>,
) -> bool {
    pages.len() <= markdown.len() && forall|i: int|
        0 <= i < pages.len() ==> document_rendered(
            markdown[i]@,
            options,
            catalog,
            Ok::<String, Fatal>(#[trigger] pages[i]),
        )
}

/// Whether `outcome` is a render of the batch `markdown`: a page for each
/// document, in the order of the documents; or the failure of the first
/// document that fails, the documents before it having rendered.
pub open spec fn batch_rendered(
    markdown: Seq<String>,
    options: &PyOptions,
    catalog: &Catalog,
    outcome: Result<Vec<String>, Fatal>,
) -> bool {
    match outcome {
        Ok(pages) => pages@.len() == markdown.len() && pages_rendered(
            markdown,
            options,
            catalog,
            pages@,
        ),
        Err(failure) => exists|before: Seq<String>| #[trigger]
            pages_rendered(markdown, options, catalog, before) && before.len() < markdown.len()
                && document_rendered(
                markdown[before.len() as int]@,
                options,
                catalog,
                Err::<String, Fatal>(failure),
            ),
    }
}

/// Renders a batch. The pages come back in the order of the documents, one
/// for each; or, where a document fails, the failure of the first that does,
/// and no page at all.
pub fn render(markdown: &Vec<String>, options: &PyOptions, catalog: &Catalog) -> (outcome: Result<
    Vec<String>,
    Fatal,
>)
    ensures
        batch_rendered(markdown@, options, catalog, outcome),
{
    let mut pages: Vec<String> = Vec::new();
    let mut i: usize = 0;
    while i < markdown.len()
        invariant
            i <= markdown.len(),
            pages@.len() == i,
            pages_rendered(markdown@, options, catalog, pages@),
        decreases markdown.len() - i,
    {
        match render_document(markdown[i].as_str(), options, catalog) {
            Ok(page) => {
                pages.push(page);
            },
            Err(failure) => {
                return Err(failure);
            },
        }
        i = i + 1;
    }
    Ok(pages)
}

/// The place of the first failure among `results`, or `None` where all
/// succeeded.
pub open spec fn first_failure(results: Seq<Result<String, Fatal>>) -> Option<int>
    decreases results.len(),
{
    if results.len() == 0 {
        None
    } else if results[0] is Err {
        Some(0)
    } else {
        match first_failure(results.drop_first()) {
            Some(k) => Some(k + 1),
            None => None,
        }
    }
}

/// Puts the results of a batch together, whatever order they were computed
/// in: every page in its place where all succeeded, else the failure that
/// stands first in the batch.
pub fn collect_results(results: Vec<Result<String, Fatal>>) -> (outcome: Result<Vec<String>, Fatal>)
    ensures
        match outcome {
            Ok(pages) => first_failure(results@) is None && pages@.len() == results@.len()
                && forall|i: int|
                0 <= i < pages@.len() ==> results@[i] == Ok::<String, Fatal>(#[trigger] pages@[i]),
            Err(failure) => first_failure(results@) matches Some(k) && results@[k] == Err::<
                String,
                Fatal,
            >(failure),
        },
{
    let mut slots = results;
    let ghost all = slots@;
    let mut pages: Vec<String> = Vec::new();
    let mut i: usize = 0;
    proof {
        assert(all.skip(0) =~= all);
    }
    while i < slots.len()
        invariant
            i <= slots.len(),
            all == results@,
            slots@.len() == all.len(),
            pages@.len() == i,
            forall|j: int| 0 <= j < i ==> all[j] == Ok::<String, Fatal>(#[trigger] pages@[j]),
            forall|j: int| i <= j < all.len() ==> slots@[j] == all[j],
            first_failure(all) == shifted(first_failure(all.skip(i as int)), i as int),
        decreases slots.len() - i,
    {
        let mut result: Result<String, Fatal> = Ok(String::new());
        std::mem::swap(&mut result, &mut slots[i]);
        proof {
            let rest = all.skip(i as int);
            assert(rest[0] == all[i as int]);
            assert(result == all[i as int]);
            assert(rest.drop_first() =~= all.skip(i + 1));
        }
        match result {
            Ok(page) => {
                pages.push(page);
            },
            Err(failure) => {
                assert(first_failure(all.skip(i as int)) == Some(0int));
                assert(first_failure(all) == Some(i as int));
                return Err(failure);
            },
        }
        i = i + 1;
    }
    proof {
        assert(all.skip(all.len() as int) =~= Seq::<Result<String, Fatal>>::empty());
    }
    Ok(pages)
}

/// The first failure is a failure, and every result before it is a success;
/// where there is none, every result is a success.
pub proof fn lemma_first_failure(results: Seq<Result<String, Fatal>>)
    ensures
        match first_failure(results) {
            Some(k) => 0 <= k < results.len() && results[k] is Err && forall|i: int|
                0 <= i < k ==> (#[trigger] results[i]) is Ok,
            None => forall|i: int| 0 <= i < results.len() ==> (#[trigger] results[i]) is Ok,
        },
    decreases results.len(),
{
    if results.len() > 0 && results[0] is Ok {
        let rest = results.drop_first();
        lemma_first_failure(rest);
        match first_failure(rest) {
            Some(k) => {
                assert(results[k + 1] == rest[k]);
                assert forall|i: int| 0 <= i < k + 1 implies (#[trigger] results[i]) is Ok by {
                    if i > 0 {
                        assert(results[i] == rest[i - 1]);
                    }
                }
            },
            None => {
                assert forall|i: int| 0 <= i < results.len() implies (#[trigger] results[i])
                    is Ok by {
                    if i > 0 {
                        assert(results[i] == rest[i - 1]);
                    }
                }
            },
        }
    }
}

/// With no callback set, a batch gives what its documents give one by one,
/// whatever order they are worked in: where `singles` holds a render of each
/// document, the pages of the batch are those renders, each in its place; and
/// where the batch fails, it fails as the first of the singles that failed.
pub proof fn lemma_batch_is_its_singles(
    markdown: Seq<String>,
    options: &PyOptions,
    catalog: &Catalog,
    outcome: Result<Vec<String>, Fatal>,
    singles: Seq<Result<String, Fatal>>,
)
    requires
        engines_only(options),
        batch_rendered(markdown, options, catalog, outcome),
        singles.len() == markdown.len(),
        forall|i: int|
            0 <= i < singles.len() ==> document_rendered(
                markdown[i]@,
                options,
                catalog,
                #[trigger] singles[i],
            ),
    ensures
        match outcome {
            Ok(pages) => first_failure(singles) is None && pages@.len() == singles.len()
                && forall|i: int|
                0 <= i < singles.len() ==> agree(
                    #[trigger] singles[i],
                    Ok::<String, Fatal>(pages@[i]),
                ),
            Err(failure) => first_failure(singles) matches Some(k) && agree(
                singles[k],
                Err::<String, Fatal>(failure),
            ),
        },
{
    lemma_first_failure(singles);
    match outcome {
        Ok(pages) => {
            assert forall|i: int| 0 <= i < singles.len() implies agree(
                #[trigger] singles[i],
                Ok::<String, Fatal>(pages@[i]),
            ) by {
                lemma_engines_render_alike(
                    markdown[i]@,
                    options,
                    catalog,
                    singles[i],
                    Ok::<String, Fatal>(pages@[i]),
                );
            }
            if first_failure(singles) is Some {
                let k = first_failure(singles)->0;
                assert(agree(singles[k], Ok::<String, Fatal>(pages@[k])));
            }
        },
        Err(failure) => {
            let before = choose|before: Seq<String>| #[trigger]
                pages_rendered(markdown, options, catalog, before) && before.len()
                    < markdown.len() && document_rendered(
                    markdown[before.len() as int]@,
                    options,
                    catalog,
                    Err::<String, Fatal>(failure),
                );
            let m = before.len() as int;
            lemma_engines_render_alike(
                markdown[m]@,
                options,
                catalog,
                singles[m],
                Err::<String, Fatal>(failure),
            );
            assert forall|i: int| 0 <= i < m implies (#[trigger] singles[i]) is Ok by {
                lemma_engines_render_alike(
                    markdown[i]@,
                    options,
                    catalog,
                    singles[i],
                    Ok::<String, Fatal>(before[i]),
                );
            }
            match first_failure(singles) {
                Some(k) => {
                    if k < m {
                        assert(singles[k] is Ok);
                    } else if k > m {
                        assert(singles[m] is Ok);
                    }
                },
                None => {
                    assert(singles[m] is Ok);
                },
            }
        },
    }
}

/// A place counted from `by` places further on.
pub open spec fn shifted(place: Option<int>, by: int) -> Option<int> {
    match place {
        Some(k) => Some(k + by),
        None => None,
    }
}

} // verus!
