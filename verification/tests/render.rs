use cmark_render::error::{ErrorKind, Fatal};
use cmark_render::highlight::Catalog;
use cmark_render::options::{PyOptions, Switches};
use cmark_render::render::{collect_results, render, render_document};
use pulldown_cmark::{html::push_html, Options, Parser};
use pyo3::types::{PyAnyMethods, PyModule};
use pyo3::{PyObject, Python};

fn switches(tables: bool) -> Switches {
    Switches {
        tables,
        footnotes: false,
        strikethrough: false,
        tasklists: false,
        smart_punctuation: false,
        heading_attributes: false,
        yaml_style_metadata_blocks: false,
        pluses_delimited_metadata_blocks: false,
        old_footnotes: false,
        gfm: false,
        definition_list: false,
        superscript: false,
        subscript: false,
        wikilinks: false,
    }
}

fn code_callback() -> PyObject {
    Python::with_gil(|py| {
        let module = PyModule::from_code(
            py,
            c"def code(buffer, language):
    if 'boom' in buffer:
        raise RuntimeError('no')
    return '<pre class=\"' + language + '\">' + buffer.upper() + '</pre>'
",
            c"render_callbacks.py",
            c"render_callbacks",
        )
        .unwrap();
        module.getattr("code").unwrap().unbind()
    })
}

fn with_code_callback() -> PyOptions {
    let mut options = PyOptions::default();
    options.callbacks.code = Some(code_callback());
    options
}

fn reference(text: &str, options: Options) -> String {
    let mut html = String::new();
    push_html(&mut html, Parser::new_ext(text, options));
    html
}

const PLAIN: &str = "Title\n=====\n\n* alpha\n* beta\n\nA paragraph with *emphasis* & `code`.\n";

#[test]
fn plain_documents_render_the_same_whatever_is_on() {
    let catalog = Catalog::load();
    let expected = "<h1>Title</h1>\n<ul>\n<li>alpha</li>\n<li>beta</li>\n</ul>\n<p>A paragraph with <em>emphasis</em> &amp; <code>code</code>.</p>\n";
    assert_eq!(reference(PLAIN, Options::empty()), expected);
    assert_eq!(render_document(PLAIN, &PyOptions::default(), &catalog).unwrap(), expected);
    assert_eq!(
        render_document(PLAIN, &PyOptions::builtin(switches(false), true, false), &catalog).unwrap(),
        expected
    );
    assert_eq!(
        render_document(PLAIN, &PyOptions::builtin(switches(false), false, true), &catalog).unwrap(),
        expected
    );
    assert_eq!(
        render_document(PLAIN, &PyOptions::builtin(switches(false), true, true), &catalog).unwrap(),
        expected
    );
    assert_eq!(render_document(PLAIN, &with_code_callback(), &catalog).unwrap(), expected);
}

#[test]
fn switches_reach_the_tokenizer() {
    let catalog = Catalog::load();
    let text = "| a | b |\n|---|---|\n| 1 | 2 |\n";
    let off = render_document(text, &PyOptions::builtin(switches(false), false, false), &catalog).unwrap();
    let on = render_document(text, &PyOptions::builtin(switches(true), false, false), &catalog).unwrap();
    assert_eq!(off, reference(text, Options::empty()));
    assert_eq!(on, reference(text, Options::ENABLE_TABLES));
    assert!(on.contains("<table>"));
    assert!(!off.contains("<table>"));
}

#[test]
fn empty_document_renders_to_nothing() {
    let catalog = Catalog::load();
    assert_eq!(render_document("", &PyOptions::default(), &catalog).unwrap(), "");
    assert_eq!(
        render_document("", &PyOptions::builtin(switches(false), true, true), &catalog).unwrap(),
        ""
    );
}

#[test]
fn python_block_is_highlighted() {
    let catalog = Catalog::load();
    let options = PyOptions::builtin(switches(false), true, false);
    let html = render_document("```python\nprint(1)\n```", &options, &catalog).unwrap();
    assert!(html.starts_with("<pre><code class=\"language-python\">"));
    assert!(html.trim_end().ends_with("</code></pre>"));
    assert!(html.contains("<span class=\""));
    assert!(html.contains("print"));
    assert!(html.contains("1"));
    assert_eq!(html, catalog.highlight("print(1)\n", "python").unwrap());
}

#[test]
fn block_without_language_is_a_plain_block() {
    let catalog = Catalog::load();
    let options = PyOptions::builtin(switches(false), true, false);
    let html = render_document("```\n<b> & \"q\"\n```\n", &options, &catalog).unwrap();
    assert_eq!(html, "<pre><code>&lt;b&gt; &amp; &quot;q&quot;\n</code></pre>");
}

#[test]
fn inline_math_is_rendered_to_mathml() {
    let catalog = Catalog::load();
    let options = PyOptions::builtin(switches(false), false, true);
    let html = render_document("$x^2$", &options, &catalog).unwrap();
    assert!(html.contains("<math"));
    assert!(html.contains("</math>"));
    assert!(!html.contains("$x^2$"));
    assert!(!html.contains("$"));
    assert!(html.contains("<msup>"));
    assert_eq!(html.matches("<math").count(), 1);
}

#[test]
fn invalid_math_fails_the_document() {
    let catalog = Catalog::load();
    let options = PyOptions::builtin(switches(false), false, true);
    match render_document("fine\n\n$\\notacommand$\n", &options, &catalog) {
        Err(Fatal::CannotRenderMath(_)) => {}
        other => panic!("unexpected: {:?}", other),
    }
}

#[test]
fn unknown_language_fails_the_document() {
    let catalog = Catalog::load();
    let options = PyOptions::builtin(switches(false), true, false);
    match render_document("```klingon\nx\n```\n", &options, &catalog) {
        Err(Fatal::UnknownLanguage(token)) => assert_eq!(token, "klingon"),
        other => panic!("unexpected: {:?}", other),
    }
}

#[test]
fn callback_output_is_written_as_it_is() {
    let catalog = Catalog::load();
    let html = render_document("a\n\n```py\nx < y\n```\n\nb\n", &with_code_callback(), &catalog).unwrap();
    assert_eq!(html, "<p>a</p>\n<pre class=\"py\">X < Y\n</pre>\n<p>b</p>\n");
}

#[test]
fn raising_callback_gives_bad_callback_and_no_html() {
    let catalog = Catalog::load();
    let outcome = render_document("fine\n\n```\nboom\n```\n", &with_code_callback(), &catalog);
    match outcome {
        Err(failure) => {
            assert_eq!(failure.kind(), ErrorKind::BadCallback);
            assert_eq!(failure.message(), "a user callback failed");
        }
        Ok(html) => panic!("rendered: {}", html),
    }
}

#[test]
fn batch_pages_are_the_single_renders() {
    let catalog = Catalog::load();
    let options = PyOptions::builtin(switches(true), true, true);
    let docs = vec![
        String::from("# one\n"),
        String::from("```rs\nfn f() {}\n```\n"),
        String::from(""),
        String::from("$a+b$ and text\n"),
        String::from("# one\n"),
    ];
    let pages = render(&docs, &options, &catalog).unwrap();
    assert_eq!(pages.len(), docs.len());
    for (doc, page) in docs.iter().zip(pages.iter()) {
        assert_eq!(&render_document(doc, &options, &catalog).unwrap(), page);
    }
    assert_eq!(pages[0], "<h1>one</h1>\n");
    assert_eq!(pages[2], "");
    assert_eq!(pages[0], pages[4]);
}

#[test]
fn empty_batch_gives_no_page() {
    let catalog = Catalog::load();
    assert_eq!(render(&vec![], &PyOptions::default(), &catalog).unwrap(), Vec::<String>::new());
}

#[test]
fn batch_fails_with_the_first_failure() {
    let catalog = Catalog::load();
    let options = PyOptions::builtin(switches(false), true, true);
    let docs = vec![
        String::from("fine\n"),
        String::from("```klingon\nx\n```\n"),
        String::from("$\\notacommand$\n"),
    ];
    match render(&docs, &options, &catalog) {
        Err(Fatal::UnknownLanguage(token)) => assert_eq!(token, "klingon"),
        other => panic!("unexpected: {:?}", other),
    }
    let docs = vec![
        String::from("$\\notacommand$\n"),
        String::from("```klingon\nx\n```\n"),
        String::from("fine\n"),
    ];
    assert_eq!(render(&docs, &options, &catalog).unwrap_err().kind(), ErrorKind::CannotRenderMath);
}

#[test]
fn collected_results_keep_their_places() {
    let results = vec![Ok(String::from("a")), Ok(String::from("b")), Ok(String::from("c"))];
    assert_eq!(collect_results(results).unwrap(), vec!["a", "b", "c"]);
    assert_eq!(collect_results(vec![]).unwrap(), Vec::<String>::new());
}

#[test]
fn collected_results_fail_with_the_first_failure() {
    let results = vec![
        Ok(String::from("a")),
        Err(Fatal::UnknownTheme(String::from("first"))),
        Ok(String::from("c")),
        Err(Fatal::UnknownLanguage(String::from("second"))),
    ];
    match collect_results(results) {
        Err(Fatal::UnknownTheme(name)) => assert_eq!(name, "first"),
        other => panic!("unexpected: {:?}", other),
    }
    let results = vec![Err(Fatal::CannotGetCss(String::from("only")))];
    assert_eq!(collect_results(results).unwrap_err().kind(), ErrorKind::CannotGetCss);
}
