use cmark_render::options::{
    lower_flags, PyOptions, RenderMode, Switches, DEFINITION_LIST, FOOTNOTES, GFM,
    HEADING_ATTRIBUTES, MATH, OLD_FOOTNOTES, PLUSES_DELIMITED_METADATA_BLOCKS, SMART_PUNCTUATION,
    STRIKETHROUGH, SUBSCRIPT, SUPERSCRIPT, TABLES, TASKLISTS, WIKILINKS,
    YAML_STYLE_METADATA_BLOCKS,
};
use pulldown_cmark::Options;
use pyo3::{PyObject, Python};

fn no_switches() -> Switches {
    Switches {
        tables: false,
        footnotes: false,
        strikethrough: false,
        tasklists: false,
        smart_punctuation: false,
        heading_attributes: false,
        yaml_style_metadata_blocks: false,
        pluses_delimited_metadata_blocks: false,
        old_footnotes: false,
        gfm: false,
        definition_list: false,
        superscript: false,
        subscript: false,
        wikilinks: false,
    }
}

fn callable() -> PyObject {
    Python::with_gil(|py| py.eval(c"lambda a, b: 'x'", None, None).unwrap().unbind())
}

#[test]
fn bits_are_those_of_the_tokenizer() {
    assert_eq!(TABLES, Options::ENABLE_TABLES.bits());
    assert_eq!(FOOTNOTES, Options::ENABLE_FOOTNOTES.bits());
    assert_eq!(STRIKETHROUGH, Options::ENABLE_STRIKETHROUGH.bits());
    assert_eq!(TASKLISTS, Options::ENABLE_TASKLISTS.bits());
    assert_eq!(SMART_PUNCTUATION, Options::ENABLE_SMART_PUNCTUATION.bits());
    assert_eq!(HEADING_ATTRIBUTES, Options::ENABLE_HEADING_ATTRIBUTES.bits());
    assert_eq!(YAML_STYLE_METADATA_BLOCKS, Options::ENABLE_YAML_STYLE_METADATA_BLOCKS.bits());
    assert_eq!(
        PLUSES_DELIMITED_METADATA_BLOCKS,
        Options::ENABLE_PLUSES_DELIMITED_METADATA_BLOCKS.bits()
    );
    assert_eq!(OLD_FOOTNOTES, Options::ENABLE_OLD_FOOTNOTES.bits());
    assert_eq!(MATH, Options::ENABLE_MATH.bits());
    assert_eq!(GFM, Options::ENABLE_GFM.bits());
    assert_eq!(DEFINITION_LIST, Options::ENABLE_DEFINITION_LIST.bits());
    assert_eq!(SUPERSCRIPT, Options::ENABLE_SUPERSCRIPT.bits());
    assert_eq!(SUBSCRIPT, Options::ENABLE_SUBSCRIPT.bits());
    assert_eq!(WIKILINKS, Options::ENABLE_WIKILINKS.bits());
}

#[test]
fn no_switch_gives_no_bit() {
    assert_eq!(lower_flags(no_switches(), false), 0);
}

#[test]
fn each_switch_gives_its_bits() {
    let mut s = no_switches();
    s.tables = true;
    assert_eq!(lower_flags(s, false), 0x2);
    let mut s = no_switches();
    s.footnotes = true;
    assert_eq!(lower_flags(s, false), 0x4);
    let mut s = no_switches();
    s.strikethrough = true;
    assert_eq!(lower_flags(s, false), 0x8);
    let mut s = no_switches();
    s.tasklists = true;
    assert_eq!(lower_flags(s, false), 0x10);
    let mut s = no_switches();
    s.smart_punctuation = true;
    assert_eq!(lower_flags(s, false), 0x20);
    let mut s = no_switches();
    s.heading_attributes = true;
    assert_eq!(lower_flags(s, false), 0x40);
    let mut s = no_switches();
    s.yaml_style_metadata_blocks = true;
    assert_eq!(lower_flags(s, false), 0x80);
    let mut s = no_switches();
    s.pluses_delimited_metadata_blocks = true;
    assert_eq!(lower_flags(s, false), 0x100);
    let mut s = no_switches();
    s.old_footnotes = true;
    assert_eq!(lower_flags(s, false), 0x204);
    let mut s = no_switches();
    s.gfm = true;
    assert_eq!(lower_flags(s, false), 0x800);
    let mut s = no_switches();
    s.definition_list = true;
    assert_eq!(lower_flags(s, false), 0x1000);
    let mut s = no_switches();
    s.superscript = true;
    assert_eq!(lower_flags(s, false), 0x2000);
    let mut s = no_switches();
    s.subscript = true;
    assert_eq!(lower_flags(s, false), 0x4000);
    let mut s = no_switches();
    s.wikilinks = true;
    assert_eq!(lower_flags(s, false), 0x8000);
    assert_eq!(lower_flags(no_switches(), true), 0x400);
}

#[test]
fn old_footnotes_bring_footnotes() {
    let mut s = no_switches();
    s.old_footnotes = true;
    let bits = lower_flags(s, false);
    assert_eq!(bits & FOOTNOTES, FOOTNOTES);
    assert_eq!(bits & OLD_FOOTNOTES, OLD_FOOTNOTES);
    s.footnotes = true;
    assert_eq!(lower_flags(s, false), bits);
    let options = Options::from_bits_truncate(bits);
    assert!(options.contains(Options::ENABLE_FOOTNOTES));
    assert!(options.contains(Options::ENABLE_OLD_FOOTNOTES));
}

#[test]
fn all_switches_give_all_bits() {
    let s = Switches {
        tables: true,
        footnotes: true,
        strikethrough: true,
        tasklists: true,
        smart_punctuation: true,
        heading_attributes: true,
        yaml_style_metadata_blocks: true,
        pluses_delimited_metadata_blocks: true,
        old_footnotes: true,
        gfm: true,
        definition_list: true,
        superscript: true,
        subscript: true,
        wikilinks: true,
    };
    assert_eq!(lower_flags(s, true), 0xfffe);
    assert_eq!(Options::from_bits(lower_flags(s, true)), Some(Options::all()));
}

#[test]
fn callback_options_intercept_what_has_a_callback() {
    let options = PyOptions::new(
        true, false, true, false, false, false, false, false, false, false, false, false, false,
        false, None, Some(callable()),
    );
    assert_eq!(options.flags, TABLES | STRIKETHROUGH);
    assert!(options.callbacks.math.is_none());
    assert!(options.callbacks.code.is_some());
    assert!(!options.highlight);
    assert!(!options.math);
    assert_eq!(options.code_mode(), RenderMode::Callback);
    assert_eq!(options.math_mode(), RenderMode::Disabled);

    let options = PyOptions::new(
        false, false, false, false, false, false, false, false, false, false, false, false, false,
        true, Some(callable()), None,
    );
    assert_eq!(options.flags, WIKILINKS | MATH);
    assert_eq!(options.code_mode(), RenderMode::Disabled);
    assert_eq!(options.math_mode(), RenderMode::Callback);
}

#[test]
fn absent_callbacks_intercept_nothing() {
    let options = PyOptions::new(
        true, true, true, true, true, true, true, true, true, true, true, true, true, true, None,
        None,
    );
    assert_eq!(options.flags, 0xfffe & !MATH);
    assert_eq!(options.code_mode(), RenderMode::Disabled);
    assert_eq!(options.math_mode(), RenderMode::Disabled);
}

#[test]
fn builtin_options_follow_their_toggles() {
    let mut s = no_switches();
    s.tables = true;
    let options = PyOptions::builtin(s, true, false);
    assert_eq!(options.flags, TABLES);
    assert_eq!(options.code_mode(), RenderMode::Highlight);
    assert_eq!(options.math_mode(), RenderMode::Disabled);
    let options = PyOptions::builtin(s, false, true);
    assert_eq!(options.flags, TABLES | MATH);
    assert_eq!(options.code_mode(), RenderMode::Disabled);
    assert_eq!(options.math_mode(), RenderMode::Math);
    let options = PyOptions::builtin(no_switches(), true, true);
    assert_eq!(options.flags, MATH);
    assert!(options.callbacks.code.is_none());
    assert!(options.callbacks.math.is_none());
    assert_eq!(options.code_mode(), RenderMode::Highlight);
    assert_eq!(options.math_mode(), RenderMode::Math);
}

#[test]
fn a_callback_takes_the_place_of_the_engine() {
    let mut options = PyOptions::builtin(no_switches(), true, true);
    options.callbacks.code = Some(callable());
    assert_eq!(options.code_mode(), RenderMode::Callback);
    assert_eq!(options.math_mode(), RenderMode::Math);
}

#[test]
fn default_options_are_all_off() {
    let options = PyOptions::default();
    assert_eq!(options.flags, 0);
    assert!(options.callbacks.math.is_none());
    assert!(options.callbacks.code.is_none());
    assert!(!options.highlight);
    assert!(!options.math);
    assert_eq!(options.code_mode(), RenderMode::Disabled);
    assert_eq!(options.math_mode(), RenderMode::Disabled);
}
