//! What a caller configures: the tokenizer's extensions, and who renders code
//! blocks and math.

use vstd::prelude::*;
use pyo3::PyObject;

verus! {

/// `pyo3::Py`: an owned reference to an object on the Python side.
#[verifier::external_type_specification]
#[verifier::external_body]
#[verifier::reject_recursive_types(T)]
pub struct ExPy<T>(pyo3::Py<T>);

/// `pyo3::PyAny`: the type of an object of which nothing more is known.
#[verifier::external_type_specification]
#[verifier::external_body]
pub struct ExPyAny(pyo3::PyAny);

/// Tables.
pub const TABLES: u32 = 0x2;

/// Footnotes in the newer syntax.
pub const FOOTNOTES: u32 = 0x4;

/// `~~struck~~` text.
pub const STRIKETHROUGH: u32 = 0x8;

/// Task lists.
pub const TASKLISTS: u32 = 0x10;

/// Curly quotes and punctuation ligatures.
pub const SMART_PUNCTUATION: u32 = 0x20;

/// Identifiers and classes on headings.
pub const HEADING_ATTRIBUTES: u32 = 0x40;

/// Front matter between `---` lines is skipped.
pub const YAML_STYLE_METADATA_BLOCKS: u32 = 0x80;

/// Front matter between `+++` lines is skipped.
pub const PLUSES_DELIMITED_METADATA_BLOCKS: u32 = 0x100;

/// Footnotes in the older syntax. The bits hold those of `FOOTNOTES`.
pub const OLD_FOOTNOTES: u32 = 0x204;

/// Inline and display math.
pub const MATH: u32 = 0x400;

/// Block quotes tagged as notes, tips and warnings.
pub const GFM: u32 = 0x800;

/// Definition lists.
pub const DEFINITION_LIST: u32 = 0x1000;

/// `^superscript^`.
pub const SUPERSCRIPT: u32 = 0x2000;

/// `~subscript~`.
pub const SUBSCRIPT: u32 = 0x4000;

/// `[[wikilinks]]`.
pub const WIKILINKS: u32 = 0x8000;

/// The named switches of the tokenizer.
#[derive(Clone, Copy, Debug, PartialEq, Eq, Structural)]
pub struct Switches {
    pub tables: bool,
    pub footnotes: bool,
    pub strikethrough: bool,
    pub tasklists: bool,
    pub smart_punctuation: bool,
    pub heading_attributes: bool,
    pub yaml_style_metadata_blocks: bool,
    pub pluses_delimited_metadata_blocks: bool,
    pub old_footnotes: bool,
    pub gfm: bool,
    pub definition_list: bool,
    pub superscript: bool,
    pub subscript: bool,
    pub wikilinks: bool,
}

/// `bits`, with those of `flag` added where `on`.
#[verifier::opaque]
pub open spec fn with_flag(bits: u32, on: bool, flag: u32) -> u32 {
    if on {
        bits | flag
    } else {
        bits
    }
}

/// The extension bits for a set of switches and for math being rendered.
pub open spec fn flag_bits(switches: Switches, math: bool) -> u32 {
    let bits = with_flag(0, switches.tables, TABLES);
    let bits = with_flag(bits, switches.footnotes, FOOTNOTES);
    let bits = with_flag(bits, switches.strikethrough, STRIKETHROUGH);
    let bits = with_flag(bits, switches.tasklists, TASKLISTS);
    let bits = with_flag(bits, switches.smart_punctuation, SMART_PUNCTUATION);
    let bits = with_flag(bits, switches.heading_attributes, HEADING_ATTRIBUTES);
    let bits = with_flag(bits, switches.yaml_style_metadata_blocks, YAML_STYLE_METADATA_BLOCKS);
    let bits = with_flag(
        bits,
        switches.pluses_delimited_metadata_blocks,
        PLUSES_DELIMITED_METADATA_BLOCKS,
    );
    let bits = with_flag(bits, switches.old_footnotes, OLD_FOOTNOTES);
    let bits = with_flag(bits, switches.gfm, GFM);
    let bits = with_flag(bits, switches.definition_list, DEFINITION_LIST);
    let bits = with_flag(bits, switches.superscript, SUPERSCRIPT);
    let bits = with_flag(bits, switches.subscript, SUBSCRIPT);
    let bits = with_flag(bits, switches.wikilinks, WIKILINKS);
    with_flag(bits, math, MATH)
}

/// All bits of `flag` are set in `bits`.
pub open spec fn has_flag(bits: u32, flag: u32) -> bool {
    bits & flag == flag
}

/// `bits`, with those of `flag` added where `on`.
fn add_flag(bits: u32, on: bool, flag: u32) -> (out: u32)
    ensures
        out == with_flag(bits, on, flag),
{
    reveal(with_flag);
    if on {
        bits | flag
    } else {
        bits
    }
}

/// Lowers the switches into the tokenizer's extension bits.
pub fn lower_flags(switches: Switches, math: bool) -> (bits: u32)
    ensures
        bits == flag_bits(switches, math),
{
    let bits = add_flag(0, switches.tables, TABLES);
    let bits = add_flag(bits, switches.footnotes, FOOTNOTES);
    let bits = add_flag(bits, switches.strikethrough, STRIKETHROUGH);
    let bits = add_flag(bits, switches.tasklists, TASKLISTS);
    let bits = add_flag(bits, switches.smart_punctuation, SMART_PUNCTUATION);
    let bits = add_flag(bits, switches.heading_attributes, HEADING_ATTRIBUTES);
    let bits = add_flag(bits, switches.yaml_style_metadata_blocks, YAML_STYLE_METADATA_BLOCKS);
    let bits = add_flag(
        bits,
        switches.pluses_delimited_metadata_blocks,
        PLUSES_DELIMITED_METADATA_BLOCKS,
    );
    let bits = add_flag(bits, switches.old_footnotes, OLD_FOOTNOTES);
    let bits = add_flag(bits, switches.gfm, GFM);
    let bits = add_flag(bits, switches.definition_list, DEFINITION_LIST);
    let bits = add_flag(bits, switches.superscript, SUPERSCRIPT);
    let bits = add_flag(bits, switches.subscript, SUBSCRIPT);
    let bits = add_flag(bits, switches.wikilinks, WIKILINKS);
    add_flag(bits, math, MATH)
}

/// The bits of `flag` where `on`, none otherwise.
#[verifier::opaque]
pub open spec fn bit(on: bool, flag: u32) -> u32 {
    if on {
        flag
    } else {
        0
    }
}

/// Adding a flag where a switch is on is a bitwise or with the flag or with
/// nothing.
proof fn lemma_with_flag(bits: u32, on: bool, flag: u32)
    ensures
        with_flag(bits, on, flag) == bits | bit(on, flag),
{
    reveal(with_flag);
    reveal(bit);
    assert(bits | 0 == bits) by (bit_vector);
}

/// Reading back the first five switches.
proof fn lemma_read_back_1(
    tables: bool,
    footnotes: bool,
    strikethrough: bool,
    tasklists: bool,
    smart_punctuation: bool,
    after: u32,
)
    requires
        after == 0u32
            | bit(tables, TABLES)
            | bit(footnotes, FOOTNOTES)
            | bit(strikethrough, STRIKETHROUGH)
            | bit(tasklists, TASKLISTS)
            | bit(smart_punctuation, SMART_PUNCTUATION),
    ensures
        has_flag(after, TABLES) == tables,
        has_flag(after, FOOTNOTES) == footnotes,
        has_flag(after, STRIKETHROUGH) == strikethrough,
        has_flag(after, TASKLISTS) == tasklists,
        has_flag(after, SMART_PUNCTUATION) == smart_punctuation,
        after & !0x3eu32 == 0,
{
    reveal(bit);
    assert({
        &&& (after & 0x2 == 0x2) == tables
        &&& (after & 0x4 == 0x4) == footnotes
        &&& (after & 0x8 == 0x8) == strikethrough
        &&& (after & 0x10 == 0x10) == tasklists
        &&& (after & 0x20 == 0x20) == smart_punctuation
        &&& after & !0x3eu32 == 0
    }) by (bit_vector)
        requires
            after == 0u32
                | (if tables {
                    0x2u32
                } else {
                    0u32
                })
                | (if footnotes {
                    0x4u32
                } else {
                    0u32
                })
                | (if strikethrough {
                    0x8u32
                } else {
                    0u32
                })
                | (if tasklists {
                    0x10u32
                } else {
                    0u32
                })
                | (if smart_punctuation {
                    0x20u32
                } else {
                    0u32
                }),
    ;
}

/// Reading back the next five switches, once the first five are lowered.
proof fn lemma_read_back_2(
    before: u32,
    heading_attributes: bool,
    yaml_style_metadata_blocks: bool,
    pluses_delimited_metadata_blocks: bool,
    old_footnotes: bool,
    gfm: bool,
    after: u32,
)
    requires
        before & !0x3eu32 == 0,
        after == before
            | bit(heading_attributes, HEADING_ATTRIBUTES)
            | bit(yaml_style_metadata_blocks, YAML_STYLE_METADATA_BLOCKS)
            | bit(pluses_delimited_metadata_blocks, PLUSES_DELIMITED_METADATA_BLOCKS)
            | bit(old_footnotes, OLD_FOOTNOTES)
            | bit(gfm, GFM),
    ensures
        has_flag(after, TABLES) == has_flag(before, TABLES),
        has_flag(after, FOOTNOTES) == (has_flag(before, FOOTNOTES) || old_footnotes),
        has_flag(after, STRIKETHROUGH) == has_flag(before, STRIKETHROUGH),
        has_flag(after, TASKLISTS) == has_flag(before, TASKLISTS),
        has_flag(after, SMART_PUNCTUATION) == has_flag(before, SMART_PUNCTUATION),
        has_flag(after, HEADING_ATTRIBUTES) == heading_attributes,
        has_flag(after, YAML_STYLE_METADATA_BLOCKS) == yaml_style_metadata_blocks,
        has_flag(after, PLUSES_DELIMITED_METADATA_BLOCKS) == pluses_delimited_metadata_blocks,
        has_flag(after, OLD_FOOTNOTES) == old_footnotes,
        has_flag(after, GFM) == gfm,
        after & !0xbfeu32 == 0,
{
    reveal(bit);
    assert({
        &&& (after & 0x2 == 0x2) == (before & 0x2 == 0x2)
        &&& (after & 0x4 == 0x4) == ((before & 0x4 == 0x4) || old_footnotes)
        &&& (after & 0x8 == 0x8) == (before & 0x8 == 0x8)
        &&& (after & 0x10 == 0x10) == (before & 0x10 == 0x10)
        &&& (after & 0x20 == 0x20) == (before & 0x20 == 0x20)
        &&& (after & 0x40 == 0x40) == heading_attributes
        &&& (after & 0x80 == 0x80) == yaml_style_metadata_blocks
        &&& (after & 0x100 == 0x100) == pluses_delimited_metadata_blocks
        &&& (after & 0x204 == 0x204) == old_footnotes
        &&& (after & 0x800 == 0x800) == gfm
        &&& after & !0xbfeu32 == 0
    }) by (bit_vector)
        requires
            before & !0x3eu32 == 0,
            after == before
                | (if heading_attributes {
                    0x40u32
                } else {
                    0u32
                })
                | (if yaml_style_metadata_blocks {
                    0x80u32
                } else {
                    0u32
                })
                | (if pluses_delimited_metadata_blocks {
                    0x100u32
                } else {
                    0u32
                })
                | (if old_footnotes {
                    0x204u32
                } else {
                    0u32
                })
                | (if gfm {
                    0x800u32
                } else {
                    0u32
                }),
    ;
}

/// Reading back the last five switches, once the first ten are lowered.
proof fn lemma_read_back_3(
    before: u32,
    definition_list: bool,
    superscript: bool,
    subscript: bool,
    wikilinks: bool,
    math: bool,
    after: u32,
)
    requires
        before & !0xbfeu32 == 0,
        after == before
            | bit(definition_list, DEFINITION_LIST)
            | bit(superscript, SUPERSCRIPT)
            | bit(subscript, SUBSCRIPT)
            | bit(wikilinks, WIKILINKS)
            | bit(math, MATH),
    ensures
        has_flag(after, TABLES) == has_flag(before, TABLES),
        has_flag(after, FOOTNOTES) == has_flag(before, FOOTNOTES),
        has_flag(after, STRIKETHROUGH) == has_flag(before, STRIKETHROUGH),
        has_flag(after, TASKLISTS) == has_flag(before, TASKLISTS),
        has_flag(after, SMART_PUNCTUATION) == has_flag(before, SMART_PUNCTUATION),
        has_flag(after, HEADING_ATTRIBUTES) == has_flag(before, HEADING_ATTRIBUTES),
        has_flag(after, YAML_STYLE_METADATA_BLOCKS)
            == has_flag(before, YAML_STYLE_METADATA_BLOCKS),
        has_flag(after, PLUSES_DELIMITED_METADATA_BLOCKS)
            == has_flag(before, PLUSES_DELIMITED_METADATA_BLOCKS),
        has_flag(after, OLD_FOOTNOTES) == has_flag(before, OLD_FOOTNOTES),
        has_flag(after, GFM) == has_flag(before, GFM),
        has_flag(after, DEFINITION_LIST) == definition_list,
        has_flag(after, SUPERSCRIPT) == superscript,
        has_flag(after, SUBSCRIPT) == subscript,
        has_flag(after, WIKILINKS) == wikilinks,
        has_flag(after, MATH) == math,
        after & !0xfffeu32 == 0,
{
    reveal(bit);
    assert({
        &&& (after & 0x2 == 0x2) == (before & 0x2 == 0x2)
        &&& (after & 0x4 == 0x4) == (before & 0x4 == 0x4)
        &&& (after & 0x8 == 0x8) == (before & 0x8 == 0x8)
        &&& (after & 0x10 == 0x10) == (before & 0x10 == 0x10)
        &&& (after & 0x20 == 0x20) == (before & 0x20 == 0x20)
        &&& (after & 0x40 == 0x40) == (before & 0x40 == 0x40)
        &&& (after & 0x80 == 0x80) == (before & 0x80 == 0x80)
        &&& (after & 0x100 == 0x100) == (before & 0x100 == 0x100)
        &&& (after & 0x204 == 0x204) == (before & 0x204 == 0x204)
        &&& (after & 0x800 == 0x800) == (before & 0x800 == 0x800)
        &&& (after & 0x1000 == 0x1000) == definition_list
        &&& (after & 0x2000 == 0x2000) == superscript
        &&& (after & 0x4000 == 0x4000) == subscript
        &&& (after & 0x8000 == 0x8000) == wikilinks
        &&& (after & 0x400 == 0x400) == math
        &&& after & !0xfffeu32 == 0
    }) by (bit_vector)
        requires
            before & !0xbfeu32 == 0,
            after == before
                | (if definition_list {
                    0x1000u32
                } else {
                    0u32
                })
                | (if superscript {
                    0x2000u32
                } else {
                    0u32
                })
                | (if subscript {
                    0x4000u32
                } else {
                    0u32
                })
                | (if wikilinks {
                    0x8000u32
                } else {
                    0u32
                })
                | (if math {
                    0x400u32
                } else {
                    0u32
                }),
    ;
}

/// The lowered bits are the bitwise or of the flags whose switches are on.
proof fn lemma_flag_bits_as_or(switches: Switches, math: bool)
    ensures
        flag_bits(switches, math) == 0u32
            | bit(switches.tables, TABLES)
            | bit(switches.footnotes, FOOTNOTES)
            | bit(switches.strikethrough, STRIKETHROUGH)
            | bit(switches.tasklists, TASKLISTS)
            | bit(switches.smart_punctuation, SMART_PUNCTUATION)
            | bit(switches.heading_attributes, HEADING_ATTRIBUTES)
            | bit(switches.yaml_style_metadata_blocks, YAML_STYLE_METADATA_BLOCKS)
            | bit(switches.pluses_delimited_metadata_blocks, PLUSES_DELIMITED_METADATA_BLOCKS)
            | bit(switches.old_footnotes, OLD_FOOTNOTES)
            | bit(switches.gfm, GFM)
            | bit(switches.definition_list, DEFINITION_LIST)
            | bit(switches.superscript, SUPERSCRIPT)
            | bit(switches.subscript, SUBSCRIPT)
            | bit(switches.wikilinks, WIKILINKS)
            | bit(math, MATH),
{
    let b1 = with_flag(0, switches.tables, TABLES);
    let b2 = with_flag(b1, switches.footnotes, FOOTNOTES);
    let b3 = with_flag(b2, switches.strikethrough, STRIKETHROUGH);
    let b4 = with_flag(b3, switches.tasklists, TASKLISTS);
    let b5 = with_flag(b4, switches.smart_punctuation, SMART_PUNCTUATION);
    let b6 = with_flag(b5, switches.heading_attributes, HEADING_ATTRIBUTES);
    let b7 = with_flag(b6, switches.yaml_style_metadata_blocks, YAML_STYLE_METADATA_BLOCKS);
    let b8 = with_flag(
        b7,
        switches.pluses_delimited_metadata_blocks,
        PLUSES_DELIMITED_METADATA_BLOCKS,
    );
    let b9 = with_flag(b8, switches.old_footnotes, OLD_FOOTNOTES);
    let b10 = with_flag(b9, switches.gfm, GFM);
    let b11 = with_flag(b10, switches.definition_list, DEFINITION_LIST);
    let b12 = with_flag(b11, switches.superscript, SUPERSCRIPT);
    let b13 = with_flag(b12, switches.subscript, SUBSCRIPT);
    let b14 = with_flag(b13, switches.wikilinks, WIKILINKS);
    lemma_with_flag(0, switches.tables, TABLES);
    lemma_with_flag(b1, switches.footnotes, FOOTNOTES);
    lemma_with_flag(b2, switches.strikethrough, STRIKETHROUGH);
    lemma_with_flag(b3, switches.tasklists, TASKLISTS);
    lemma_with_flag(b4, switches.smart_punctuation, SMART_PUNCTUATION);
    lemma_with_flag(b5, switches.heading_attributes, HEADING_ATTRIBUTES);
    lemma_with_flag(b6, switches.yaml_style_metadata_blocks, YAML_STYLE_METADATA_BLOCKS);
    lemma_with_flag(
        b7,
        switches.pluses_delimited_metadata_blocks,
        PLUSES_DELIMITED_METADATA_BLOCKS,
    );
    lemma_with_flag(b8, switches.old_footnotes, OLD_FOOTNOTES);
    lemma_with_flag(b9, switches.gfm, GFM);
    lemma_with_flag(b10, switches.definition_list, DEFINITION_LIST);
    lemma_with_flag(b11, switches.superscript, SUPERSCRIPT);
    lemma_with_flag(b12, switches.subscript, SUBSCRIPT);
    lemma_with_flag(b13, switches.wikilinks, WIKILINKS);
    lemma_with_flag(b14, math, MATH);
}

/// A bit is set in the lowered bits exactly where its switch is on; the bit
/// of the newer footnotes is also set by the switch of the older ones, and no
/// bit outside the fifteen is ever set.
pub proof fn lemma_flag_bits(switches: Switches, math: bool)
    ensures
        has_flag(flag_bits(switches, math), TABLES) <==> switches.tables,
        has_flag(flag_bits(switches, math), FOOTNOTES)
            <==> switches.footnotes || switches.old_footnotes,
        has_flag(flag_bits(switches, math), STRIKETHROUGH) <==> switches.strikethrough,
        has_flag(flag_bits(switches, math), TASKLISTS) <==> switches.tasklists,
        has_flag(flag_bits(switches, math), SMART_PUNCTUATION) <==> switches.smart_punctuation,
        has_flag(flag_bits(switches, math), HEADING_ATTRIBUTES) <==> switches.heading_attributes,
        has_flag(flag_bits(switches, math), YAML_STYLE_METADATA_BLOCKS)
            <==> switches.yaml_style_metadata_blocks,
        has_flag(flag_bits(switches, math), PLUSES_DELIMITED_METADATA_BLOCKS)
            <==> switches.pluses_delimited_metadata_blocks,
        has_flag(flag_bits(switches, math), OLD_FOOTNOTES) <==> switches.old_footnotes,
        has_flag(flag_bits(switches, math), GFM) <==> switches.gfm,
        has_flag(flag_bits(switches, math), DEFINITION_LIST) <==> switches.definition_list,
        has_flag(flag_bits(switches, math), SUPERSCRIPT) <==> switches.superscript,
        has_flag(flag_bits(switches, math), SUBSCRIPT) <==> switches.subscript,
        has_flag(flag_bits(switches, math), WIKILINKS) <==> switches.wikilinks,
        has_flag(flag_bits(switches, math), MATH) <==> math,
        flag_bits(switches, math) & !0xfffeu32 == 0,
{
    lemma_flag_bits_as_or(switches, math);
    let first = 0u32
        | bit(switches.tables, TABLES)
        | bit(switches.footnotes, FOOTNOTES)
        | bit(switches.strikethrough, STRIKETHROUGH)
        | bit(switches.tasklists, TASKLISTS)
        | bit(switches.smart_punctuation, SMART_PUNCTUATION);
    let second = first
        | bit(switches.heading_attributes, HEADING_ATTRIBUTES)
        | bit(switches.yaml_style_metadata_blocks, YAML_STYLE_METADATA_BLOCKS)
        | bit(switches.pluses_delimited_metadata_blocks, PLUSES_DELIMITED_METADATA_BLOCKS)
        | bit(switches.old_footnotes, OLD_FOOTNOTES)
        | bit(switches.gfm, GFM);
    let third = second
        | bit(switches.definition_list, DEFINITION_LIST)
        | bit(switches.superscript, SUPERSCRIPT)
        | bit(switches.subscript, SUBSCRIPT)
        | bit(switches.wikilinks, WIKILINKS)
        | bit(math, MATH);
    lemma_read_back_1(
        switches.tables,
        switches.footnotes,
        switches.strikethrough,
        switches.tasklists,
        switches.smart_punctuation,
        first,
    );
    lemma_read_back_2(
        first,
        switches.heading_attributes,
        switches.yaml_style_metadata_blocks,
        switches.pluses_delimited_metadata_blocks,
        switches.old_footnotes,
        switches.gfm,
        second,
    );
    lemma_read_back_3(
        second,
        switches.definition_list,
        switches.superscript,
        switches.subscript,
        switches.wikilinks,
        math,
        third,
    );
}

/// The two functions that a caller may supply in place of the built-in
/// engines. Where one is absent, its construct is left to the built-in engine
/// or passed through.
pub struct Callbacks {
    /// Called with a math expression and whether it is set on a line of its
    /// own; returns HTML.
    pub math: Option<PyObject>,
    /// Called with the text of a code block and its language token; returns
    /// HTML.
    pub code: Option<PyObject>,
}

impl Default for Callbacks {
    /// No callback.
    fn default() -> (callbacks: Self)
        ensures
            callbacks.math is None,
            callbacks.code is None,
    {
        Callbacks { math: None, code: None }
    }
}

/// Who renders one construct, code blocks or math: nobody, one of the two
/// built-in engines, or a callback.
#[derive(Clone, Copy, Debug, PartialEq, Eq, Structural)]
pub enum RenderMode {
    /// The construct's events pass through untouched.
    Disabled,
    /// The highlight engine renders code blocks.
    Highlight,
    /// The math engine renders math.
    Math,
    /// The caller's function renders the construct.
    Callback,
}

/// The configuration of a render: the tokenizer's extension bits, the toggles
/// of the built-in engines, and the callbacks.
pub struct PyOptions {
    /// The extension bits handed to the tokenizer.
    pub flags: u32,
    /// The caller's functions. One that is present takes the place of the
    /// built-in engine for its construct.
    pub callbacks: Callbacks,
    /// Code blocks go to the highlight engine.
    pub highlight: bool,
    /// Math goes to the math engine.
    pub math: bool,
}

impl PyOptions {
    /// Who renders code blocks under these options.
    pub open spec fn code_mode_of(&self) -> RenderMode {
        if self.callbacks.code is Some {
            RenderMode::Callback
        } else if self.highlight {
            RenderMode::Highlight
        } else {
            RenderMode::Disabled
        }
    }

    /// Who renders math under these options.
    pub open spec fn math_mode_of(&self) -> RenderMode {
        if self.callbacks.math is Some {
            RenderMode::Callback
        } else if self.math {
            RenderMode::Math
        } else {
            RenderMode::Disabled
        }
    }

    /// Options for callbacks: every switch as given, math tokenized exactly
    /// where a math callback is supplied, and no built-in engine. A construct
    /// whose callback is absent is never intercepted.
    pub fn new(
        tables: bool,
        footnotes: bool,
        strikethrough: bool,
        tasklists: bool,
        smart_punctuation: bool,
        heading_attributes: bool,
        yaml_style_metadata_blocks: bool,
        pluses_delimited_metadata_blocks: bool,
        old_footnotes: bool,
        gfm: bool,
        definition_list: bool,
        superscript: bool,
        subscript: bool,
        wikilinks: bool,
        math: Option<PyObject>,
        code: Option<PyObject>,
    ) -> (options: Self)
        ensures
            options.flags == flag_bits(
                (Switches {
                    tables,
                    footnotes,
                    strikethrough,
                    tasklists,
                    smart_punctuation,
                    heading_attributes,
                    yaml_style_metadata_blocks,
                    pluses_delimited_metadata_blocks,
                    old_footnotes,
                    gfm,
                    definition_list,
                    superscript,
                    subscript,
                    wikilinks,
                }),
                math is Some,
            ),
            options.callbacks.math == math,
            options.callbacks.code == code,
            !options.highlight,
            !options.math,
            code is None ==> options.code_mode_of() == RenderMode::Disabled,
            math is None ==> options.math_mode_of() == RenderMode::Disabled,
    {
        let switches = Switches {
            tables,
            footnotes,
            strikethrough,
            tasklists,
            smart_punctuation,
            heading_attributes,
            yaml_style_metadata_blocks,
            pluses_delimited_metadata_blocks,
            old_footnotes,
            gfm,
            definition_list,
            superscript,
            subscript,
            wikilinks,
        };
        let flags = lower_flags(switches, math.is_some());
        PyOptions { flags, callbacks: Callbacks { math, code }, highlight: false, math: false }
    }

    /// Options for the built-in engines: the switches as given, math
    /// tokenized exactly where the math engine is on, and no callback.
    pub fn builtin(switches: Switches, highlight: bool, math: bool) -> (options: Self)
        ensures
            options.flags == flag_bits(switches, math),
            options.callbacks.math is None,
            options.callbacks.code is None,
            options.highlight == highlight,
            options.math == math,
            options.code_mode_of() == (if highlight {
                RenderMode::Highlight
            } else {
                RenderMode::Disabled
            }),
            options.math_mode_of() == (if math {
                RenderMode::Math
            } else {
                RenderMode::Disabled
            }),
    {
        let flags = lower_flags(switches, math);
        PyOptions { flags, callbacks: Callbacks { math: None, code: None }, highlight, math }
    }

    /// Who renders code blocks under these options.
    #[verifier::when_used_as_spec(code_mode_of)]
    pub fn code_mode(&self) -> (mode: RenderMode)
        ensures
            mode == self.code_mode_of(),
    {
        if self.callbacks.code.is_some() {
            RenderMode::Callback
        } else if self.highlight {
            RenderMode::Highlight
        } else {
            RenderMode::Disabled
        }
    }

    /// Who renders math under these options.
    #[verifier::when_used_as_spec(math_mode_of)]
    pub fn math_mode(&self) -> (mode: RenderMode)
        ensures
            mode == self.math_mode_of(),
    {
        if self.callbacks.math.is_some() {
            RenderMode::Callback
        } else if self.math {
            RenderMode::Math
        } else {
            RenderMode::Disabled
        }
    }
}

impl Default for PyOptions {
    /// Every switch off and nothing intercepted.
    fn default() -> (options: Self)
        ensures
            options.flags == 0,
            options.callbacks.math is None,
            options.callbacks.code is None,
            !options.highlight,
            !options.math,
    {
        PyOptions { flags: 0, callbacks: Callbacks::default(), highlight: false, math: false }
    }
}

} // verus!
