use cmark_render::error::{ErrorKind, Fatal};
use cmark_render::escape::unescape_html;
use cmark_render::highlight::{lowercase, Catalog, PyHighlightOptions};

#[test]
fn empty_language_gives_the_plain_block() {
    let catalog = Catalog::load();
    let html = catalog.highlight("a < b && c\n", "").unwrap();
    assert_eq!(html, "<pre><code>a &lt; b &amp;&amp; c\n</code></pre>");
    assert!(!html.contains("class"));
}

#[test]
fn empty_language_round_trip() {
    let catalog = Catalog::load();
    let code = "let s = \"<tag> & more\";\n";
    let html = catalog.highlight(code, "").unwrap();
    let inner = html
        .strip_prefix("<pre><code>")
        .and_then(|rest| rest.strip_suffix("</code></pre>"))
        .unwrap();
    assert_eq!(unescape_html(inner), code);
}

#[test]
fn known_language_is_wrapped_in_its_shell() {
    let catalog = Catalog::load();
    let html = catalog.highlight("print(1)\n", "python").unwrap();
    println!("{}", html);
    assert!(html.starts_with("<pre><code class=\"language-python\">"));
    assert!(html.ends_with("</code></pre>"));
    assert!(html.contains("<span class=\""));
    assert!(html.contains("print"));
    assert_ne!(html, "print(1)\n");
}

#[test]
fn highlighted_text_is_the_code() {
    let catalog = Catalog::load();
    let code = "fn main() {\n    let x = 1 < 2;\n}";
    let html = catalog.highlight(code, "rs").unwrap();
    let inner = html
        .strip_prefix("<pre><code class=\"language-rs\">")
        .and_then(|rest| rest.strip_suffix("</code></pre>"))
        .unwrap();
    let mut text = String::new();
    let mut in_tag = false;
    for c in inner.chars() {
        if c == '<' {
            in_tag = true;
        } else if c == '>' {
            in_tag = false;
        } else if !in_tag {
            text.push(c);
        }
    }
    assert_eq!(unescape_html(&text), code);
}

#[test]
fn tokens_match_letter_for_letter() {
    let catalog = Catalog::load();
    assert!(catalog.find("Python").is_some());
    assert!(catalog.find("python").is_some());
    assert!(catalog.find("py").is_some());
    assert_eq!(catalog.find("Python"), catalog.find("py"));
    assert_eq!(catalog.find("python"), catalog.find("py"));
    assert!(catalog.find("PYTHON").is_none());
    assert!(catalog.find("PY").is_none());
    assert!(catalog.find("no-such-language").is_none());
}

#[test]
fn found_grammar_answers_to_the_token() {
    let catalog = Catalog::load();
    let index = catalog.find("rs").unwrap();
    assert!(index < catalog.len());
    let grammar = catalog.grammar(index);
    assert_eq!(grammar.name, "Rust");
    assert!(grammar.aliases.iter().any(|alias| alias == "rs"));
    assert_eq!(grammar.aliases.last().unwrap(), "rust");
}

#[test]
fn unknown_language_is_named() {
    let catalog = Catalog::load();
    match catalog.highlight("x", "no-such-language") {
        Err(Fatal::UnknownLanguage(token)) => assert_eq!(token, "no-such-language"),
        other => panic!("unexpected: {:?}", other),
    }
    let failure = catalog.highlight("x", "PYTHON").unwrap_err();
    assert_eq!(failure.kind(), ErrorKind::UnknownLanguage);
    assert!(failure.message().contains("PYTHON"));
}

#[test]
fn lowercase_touches_ascii_capitals_only() {
    assert_eq!(lowercase("Plain Text"), "plain text");
    assert_eq!(lowercase("C++ \u{c9}Z[@`{"), "c++ \u{c9}z[@`{");
    assert_eq!(lowercase(""), "");
}

#[test]
fn highlight_options_hold_what_they_are_given() {
    let options = PyHighlightOptions::new(
        Some(String::from("monokai")),
        true,
        Some(String::from("tok-")),
        Some(String::from("highlight")),
        None,
        None,
        Some(String::from("inline")),
        Some(vec![1, 3]),
        Some(1),
        Some(2),
        None,
        false,
        None,
        None,
        None,
        true,
        Some(String::from("main.py")),
        false,
    );
    assert_eq!(options.style.as_deref(), Some("monokai"));
    assert!(options.noclasses);
    assert_eq!(options.classprefix.as_deref(), Some("tok-"));
    assert_eq!(options.cssclass.as_deref(), Some("highlight"));
    assert_eq!(options.cssstyles, None);
    assert_eq!(options.prestyles, None);
    assert_eq!(options.linenos.as_deref(), Some("inline"));
    assert_eq!(options.hl_lines, Some(vec![1, 3]));
    assert_eq!(options.linenostart, Some(1));
    assert_eq!(options.linenostep, Some(2));
    assert_eq!(options.linenospecial, None);
    assert!(!options.nobackground);
    assert_eq!(options.lineseparator, None);
    assert_eq!(options.lineanchors, None);
    assert_eq!(options.linespans, None);
    assert!(options.anchorlinenos);
    assert_eq!(options.filename.as_deref(), Some("main.py"));
    assert!(!options.wrapcode);
}

#[test]
fn highlight_options_default_to_nothing() {
    let options = PyHighlightOptions::default();
    assert_eq!(options.style, None);
    assert!(!options.noclasses);
    assert_eq!(options.classprefix, None);
    assert_eq!(options.cssclass, None);
    assert_eq!(options.cssstyles, None);
    assert_eq!(options.prestyles, None);
    assert_eq!(options.linenos, None);
    assert_eq!(options.hl_lines, None);
    assert_eq!(options.linenostart, None);
    assert_eq!(options.linenostep, None);
    assert_eq!(options.linenospecial, None);
    assert!(!options.nobackground);
    assert_eq!(options.lineseparator, None);
    assert_eq!(options.lineanchors, None);
    assert_eq!(options.linespans, None);
    assert!(!options.anchorlinenos);
    assert_eq!(options.filename, None);
    assert!(!options.wrapcode);
}
