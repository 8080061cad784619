//! The highlight engine: a catalog of grammars, the lookup of a language
//! token in it, and code rendered line by line into classed spans.

use vstd::prelude::*;
use syntect::html::{ClassStyle, ClassedHTMLGenerator};
use syntect::parsing::SyntaxSet;
use crate::error::{ErrorKind, Failure, Fatal};
use crate::escape::{
    escaped, language_block, language_shell, lemma_language_block_names_token, plain_block,
    plain_code_block,
};
use crate::text::occurs_in;

verus! {

/// `syntect::parsing::SyntaxSet`: the grammars that the engine can parse by.
#[verifier::external_type_specification]
#[verifier::external_body]
pub struct ExSyntaxSet(syntect::parsing::SyntaxSet);

/// `syntect::html::ClassedHTMLGenerator`: the state of one code block being
/// rendered, line after line.
#[verifier::external_type_specification]
#[verifier::external_body]
pub struct ExClassedHTMLGenerator<'a>(syntect::html::ClassedHTMLGenerator<'a>);

/// `syntect::Error`: why the engine gave up.
#[verifier::external_type_specification]
#[verifier::external_body]
pub struct ExSyntectError(syntect::Error);

/// A grammar as the catalog lists it: its name, and the other tokens that it
/// answers to.
#[derive(Clone, Debug)]
pub struct Grammar {
    pub name: String,
    pub aliases: Vec<String>,
}

/// A grammar as contracts speak of it.
pub struct GrammarView {
    pub name: Seq<char>,
    pub aliases: Seq<Seq<char>>,
}

impl View for Grammar {
    type V = GrammarView;

    open spec fn view(&self) -> GrammarView {
        GrammarView { name: self.name@, aliases: self.aliases@.map_values(|s: String| s@) }
    }
}

/// The grammars of a set in its own order, each with its name and, as
/// aliases, its file extensions.
pub uninterp spec fn syntaxes_of(set: SyntaxSet) -> Seq<GrammarView>;

/// The generator that starts a code block in the grammar at `index` of `set`.
pub uninterp spec fn fresh_generator(set: SyntaxSet, index: int) -> ClassedHTMLGenerator<'static>;

/// The generator after one more line, or `None` where it rejects the line.
pub uninterp spec fn fed(generator: ClassedHTMLGenerator<'_>, line: Seq<char>) -> Option<
    ClassedHTMLGenerator<'static>,
>;

/// The markup that a generator gives when it is closed.
pub uninterp spec fn markup_of(generator: ClassedHTMLGenerator<'_>) -> Seq<char>;

/// `SyntaxSet::load_defaults_newlines`: the grammars that ship with the
/// engine. Nothing is claimed of them.
#[verifier::external_body]
fn default_syntaxes() -> SyntaxSet {
    SyntaxSet::load_defaults_newlines()
}

/// `SyntaxSet::syntaxes`, each item copied out as its `name` and its
/// `file_extensions`. The list is named `syntaxes_of`.
#[verifier::external_body]
fn syntax_entries(set: &SyntaxSet) -> (entries: Vec<Grammar>)
    ensures
        entries@.map_values(|g: Grammar| g@) == syntaxes_of(*set),
{
    set.syntaxes().iter().map(
        |s| Grammar { name: s.name.clone(), aliases: s.file_extensions.clone() },
    ).collect()
}

/// `ClassedHTMLGenerator::new_with_class_style` for the grammar at `index` of
/// `set.syntaxes()`, with `ClassStyle::Spaced`. The result is named
/// `fresh_generator`.
#[verifier::external_body]
fn start_generator<'a>(set: &'a SyntaxSet, index: usize) -> (generator: ClassedHTMLGenerator<'a>)
    requires
        index < syntaxes_of(*set).len(),
    ensures
        generator == fresh_generator(*set, index as int),
{
    ClassedHTMLGenerator::new_with_class_style(&set.syntaxes()[index], set, ClassStyle::Spaced)
}

/// `ClassedHTMLGenerator::parse_html_for_line_which_includes_newline`: takes
/// one more line. What becomes of the generator is named `fed`; where the
/// call fails, nothing is claimed of the generator.
#[verifier::external_body]
fn feed_line(generator: &mut ClassedHTMLGenerator<'_>, line: &str) -> (outcome: Result<
    (),
    syntect::Error,
>)
    ensures
        outcome is Ok ==> fed(*old(generator), line@) == Some(*final(generator)),
        outcome is Err ==> fed(*old(generator), line@) is None,
{
    generator.parse_html_for_line_which_includes_newline(line)
}

/// `ClassedHTMLGenerator::finalize`: closes the open spans and hands out the
/// markup, named `markup_of`.
#[verifier::external_body]
fn finish_generator(generator: ClassedHTMLGenerator<'_>) -> (markup: String)
    ensures
        markup@ == markup_of(generator),
{
    generator.finalize()
}

/// The text of a `syntect::Error`, by its `Display`. Nothing is claimed of it.
#[verifier::external_body]
pub(crate) fn engine_error_text(error: &syntect::Error) -> String {
    error.to_string()
}

/// An ASCII capital letter as its small letter; any other character as it is.
pub open spec fn lowered_char(c: char) -> char {
    if 'A' <= c && c <= 'Z' {
        ((c as u8 + 32) as u8) as char
    } else {
        c
    }
}

/// Text with its ASCII capital letters made small.
pub open spec fn lowered(text: Seq<char>) -> Seq<char> {
    text.map_values(|c: char| lowered_char(c))
}

/// `text` with its ASCII capital letters made small.
pub fn lowercase(text: &str) -> (out: String)
    ensures
        out@ == lowered(text@),
{
    let mut out = String::new();
    for c in it: text.chars()
        invariant
            it.seq() == text@,
            out@ == lowered(text@.take(it.index() as int)),
    {
        if 'A' <= c && c <= 'Z' {
            out.push(((c as u8) + 32) as char);
        } else {
            out.push(c);
        }
        assert(out@ =~= lowered(text@.take(it.index() + 1)));
    }
    assert(text@.take(text@.len() as int) == text@);
    out
}

/// Whether a grammar answers to a language token: by its name or by one of
/// its aliases, letter for letter.
pub open spec fn answers_to(grammar: GrammarView, token: Seq<char>) -> bool {
    grammar.name == token || grammar.aliases.contains(token)
}

/// The index of the grammar that a token resolves to: the last one in the
/// list that answers to it, or `None` where none does.
pub open spec fn resolved(grammars: Seq<GrammarView>, token: Seq<char>) -> Option<int>
    decreases grammars.len(),
{
    if grammars.len() == 0 {
        None
    } else if answers_to(grammars.last(), token) {
        Some(grammars.len() - 1)
    } else {
        resolved(grammars.drop_last(), token)
    }
}

/// A grammar of the engine as the catalog lists it: under its name, with its
/// file extensions and its name in small letters as aliases.
pub open spec fn listed(syntax: GrammarView) -> GrammarView {
    GrammarView { name: syntax.name, aliases: syntax.aliases.push(lowered(syntax.name)) }
}

/// The lines of a text, each with the line feed that ends it; the last line
/// may lack one. `line` holds what was read of the current line.
pub open spec fn lines_after(line: Seq<char>, text: Seq<char>) -> Seq<Seq<char>>
    decreases text.len(),
{
    if text.len() == 0 {
        if line.len() == 0 {
            Seq::empty()
        } else {
            seq![line]
        }
    } else if text[0] == '\n' {
        seq![line.push('\n')] + lines_after(Seq::empty(), text.drop_first())
    } else {
        lines_after(line.push(text[0]), text.drop_first())
    }
}

/// The lines of a text, each with the line feed that ends it.
pub open spec fn lines_of(text: Seq<char>) -> Seq<Seq<char>> {
    lines_after(Seq::empty(), text)
}

/// The lines put back together.
pub open spec fn joined(lines: Seq<Seq<char>>) -> Seq<char>
    decreases lines.len(),
{
    if lines.len() == 0 {
        Seq::empty()
    } else {
        lines[0] + joined(lines.drop_first())
    }
}

/// The generator after a run of lines, or `None` where it rejects one.
pub open spec fn fed_all(generator: ClassedHTMLGenerator<'_>, lines: Seq<Seq<char>>) -> Option<
    ClassedHTMLGenerator<'static>,
>
    decreases lines.len(),
{
    if lines.len() == 0 {
        Some(generator)
    } else {
        match fed(generator, lines[0]) {
            Some(next) => fed_all(next, lines.drop_first()),
            None => None,
        }
    }
}

/// Splitting into lines loses nothing: the lines of a text, put back
/// together, are the text.
pub proof fn lemma_lines_rebuild(text: Seq<char>)
    ensures
        joined(lines_of(text)) == text,
{
    lemma_lines_after_rebuild(Seq::empty(), text);
    assert(Seq::<char>::empty() + text =~= text);
}

/// The lines of a text after a started line, put back together, are the
/// started line followed by the text.
proof fn lemma_lines_after_rebuild(line: Seq<char>, text: Seq<char>)
    ensures
        joined(lines_after(line, text)) == line + text,
    decreases text.len(),
{
    if text.len() == 0 {
        if line.len() == 0 {
            assert(line + text =~= Seq::<char>::empty());
        } else {
            assert(seq![line].drop_first() =~= Seq::<Seq<char>>::empty());
            assert(joined(seq![line]) =~= line + joined(Seq::<Seq<char>>::empty()));
            assert(line + text =~= line);
        }
    } else if text[0] == '\n' {
        let rest = lines_after(Seq::empty(), text.drop_first());
        let all = seq![line.push('\n')] + rest;
        lemma_lines_after_rebuild(Seq::empty(), text.drop_first());
        assert(all.drop_first() =~= rest);
        assert(joined(all) =~= line.push('\n') + joined(rest));
        assert(line.push('\n') + (Seq::<char>::empty() + text.drop_first()) =~= line + text);
    } else {
        lemma_lines_after_rebuild(line.push(text[0]), text.drop_first());
        assert(line.push(text[0]) + text.drop_first() =~= line + text);
    }
}

/// The grammars that code can be highlighted by.
pub struct Catalog {
    syntaxes: SyntaxSet,
    grammars: Vec<Grammar>,
}

impl Catalog {
    /// The engine's grammars, in order.
    pub closed spec fn syntaxes(&self) -> SyntaxSet {
        self.syntaxes
    }

    /// The grammars as listed, in the engine's order.
    pub closed spec fn grammars(&self) -> Seq<GrammarView> {
        self.grammars@.map_values(|g: Grammar| g@)
    }

    /// The catalog lists each grammar of the engine, in the engine's order.
    #[verifier::type_invariant]
    pub closed spec fn wf(&self) -> bool {
        self.grammars() == syntaxes_of(self.syntaxes).map_values(|g: GrammarView| listed(g))
    }

    /// The markup for `code` in the grammar at `index`: what the generator
    /// gives after taking the lines of `code` in order, or `None` where it
    /// rejects one.
    pub open spec fn markup(&self, index: int, code: Seq<char>) -> Option<Seq<char>> {
        match fed_all(fresh_generator(self.syntaxes(), index), lines_of(code)) {
            Some(generator) => Some(markup_of(generator)),
            None => None,
        }
    }

    /// What highlighting gives: the plain block for an empty token; else the
    /// markup of the grammar that the token resolves to, in its shell, or the
    /// kind of the failure.
    pub open spec fn highlighted(&self, code: Seq<char>, token: Seq<char>) -> Result<
        Seq<char>,
        ErrorKind,
    > {
        if token.len() == 0 {
            Ok(plain_block(code))
        } else {
            match resolved(self.grammars(), token) {
                None => Err(ErrorKind::UnknownLanguage),
                Some(index) => match self.markup(index, code) {
                    Some(markup) => Ok(language_block(token, markup)),
                    None => Err(ErrorKind::CannotHighlight),
                },
            }
        }
    }

    /// The catalog of the grammars that ship with the engine: each is listed
    /// under its name, with its file extensions and its name in small
    /// letters as aliases.
    pub fn load() -> (catalog: Self)
        ensures
            catalog.grammars() == syntaxes_of(catalog.syntaxes()).map_values(
                |g: GrammarView| listed(g),
            ),
    {
        let syntaxes = default_syntaxes();
        let mut grammars = syntax_entries(&syntaxes);
        let ghost plain = grammars@.map_values(|g: Grammar| g@);
        let mut i: usize = 0;
        while i < grammars.len()
            invariant
                i <= grammars.len(),
                plain == syntaxes_of(syntaxes),
                grammars@.len() == plain.len(),
                forall|j: int| 0 <= j < i ==> (#[trigger] grammars@[j])@ == listed(plain[j]),
                forall|j: int| i <= j < grammars@.len() ==> (#[trigger] grammars@[j])@ == plain[j],
            decreases grammars.len() - i,
        {
            let small = lowercase(grammars[i].name.as_str());
            let ghost before = grammars@[i as int];
            let mut entry = Grammar { name: String::new(), aliases: Vec::new() };
            std::mem::swap(&mut entry, &mut grammars[i]);
            entry.aliases.push(small);
            assert(entry@ == listed(plain[i as int])) by {
                assert(entry.aliases@.map_values(|s: String| s@) =~= before@.aliases.push(
                    lowered(before@.name),
                ));
            }
            grammars[i] = entry;
            i = i + 1;
        }
        assert(grammars@.map_values(|g: Grammar| g@) =~= syntaxes_of(syntaxes).map_values(
            |g: GrammarView| listed(g),
        ));
        Catalog { syntaxes, grammars }
    }

    /// How many grammars the catalog lists.
    pub fn len(&self) -> (n: usize)
        ensures
            n == self.grammars().len(),
    {
        self.grammars.len()
    }

    /// The grammar at `index`.
    pub fn grammar(&self, index: usize) -> (grammar: &Grammar)
        requires
            index < self.grammars().len(),
        ensures
            grammar@ == self.grammars()[index as int],
    {
        &self.grammars[index]
    }

    /// Resolves a language token: the index of the last grammar that answers
    /// to it, or `None`.
    pub fn find(&self, token: &str) -> (found: Option<usize>)
        ensures
            match found {
                Some(index) => resolved(self.grammars(), token@) == Some(index as int) && index
                    < self.grammars().len(),
                None => resolved(self.grammars(), token@) is None,
            },
    {
        let wanted = token.to_owned();
        let mut i: usize = self.grammars.len();
        assert(self.grammars().take(i as int) =~= self.grammars());
        while i > 0
            invariant
                i <= self.grammars.len(),
                wanted@ == token@,
                resolved(self.grammars(), token@) == resolved(
                    self.grammars().take(i as int),
                    token@,
                ),
            decreases i,
        {
            let ghost prefix = self.grammars().take(i as int);
            i = i - 1;
            let grammar = &self.grammars[i];
            assert(prefix.last() == grammar@);
            assert(prefix.drop_last() =~= self.grammars().take(i as int));
            if grammar.name == wanted || holds(&grammar.aliases, &wanted) {
                return Some(i);
            }
        }
        None
    }
}

impl Catalog {
    /// Renders a code block. With an empty language token the code is
    /// escaped and put in a plain block, and nothing can fail. Else the token
    /// is resolved in the catalog, the code is taken line by line, each line
    /// with its line feed, and the markup is put in a shell that names the
    /// token.
    pub fn highlight(&self, code: &str, token: &str) -> (outcome: Result<String, Fatal>)
        ensures
            match outcome {
                Ok(html) => self.highlighted(code@, token@) == Ok::<Seq<char>, ErrorKind>(html@),
                Err(failure) => self.highlighted(code@, token@) == Err::<Seq<char>, ErrorKind>(
                    failure@.kind(),
                ) && (failure@ matches Failure::UnknownLanguage(named) ==> named == token@),
            },
            token@.len() == 0 ==> (outcome matches Ok(html) && html@ == plain_block(code@)),
            token@.len() > 0 && resolved(self.grammars(), token@) is None ==> (outcome matches Err(
                failure,
            ) && failure@ == Failure::UnknownLanguage(token@)),
            token@.len() > 0 && resolved(self.grammars(), token@) is Some ==> !(outcome matches Err(
                failure,
            ) && failure@ is UnknownLanguage),
    {
        proof {
            use_type_invariant(self);
        }
        if token.is_empty() {
            return Ok(plain_code_block(code));
        }
        let index = match self.find(token) {
            Some(index) => index,
            None => {
                return Err(Fatal::UnknownLanguage(token.to_owned()));
            },
        };
        let mut generator = start_generator(&self.syntaxes, index);
        let ghost fresh = generator;
        let mut line = String::new();
        assert(code@.skip(0) =~= code@);
        for c in it: code.chars()
            invariant
                it.seq() == code@,
                token@.len() > 0,
                resolved(self.grammars(), token@) == Some(index as int),
                fresh == fresh_generator(self.syntaxes(), index as int),
                fed_all(fresh, lines_of(code@)) == fed_all(
                    generator,
                    lines_after(line@, code@.skip(it.index() as int)),
                ),
        {
            let ghost rest = code@.skip(it.index() as int);
            let ghost before = line@;
            proof {
                assert(rest[0] == c);
                assert(rest.drop_first() =~= code@.skip(it.index() + 1));
            }
            line.push(c);
            if c == '\n' {
                proof {
                    let tail = lines_after(Seq::empty(), rest.drop_first());
                    let all = seq![before.push('\n')] + tail;
                    assert(all[0] == before.push('\n'));
                    assert(all.drop_first() =~= tail);
                }
                match feed_line(&mut generator, line.as_str()) {
                    Ok(()) => {},
                    Err(error) => {
                        return Err(Fatal::CannotHighlight(engine_error_text(&error)));
                    },
                }
                line = String::new();
            }
        }
        assert(code@.skip(code@.len() as int) =~= Seq::<char>::empty());
        if !line.as_str().is_empty() {
            proof {
                assert(seq![line@][0] == line@);
                assert(seq![line@].drop_first() =~= Seq::<Seq<char>>::empty());
            }
            match feed_line(&mut generator, line.as_str()) {
                Ok(()) => {
                    assert(fed_all(generator, Seq::empty()) == Some(generator));
                },
                Err(error) => {
                    return Err(Fatal::CannotHighlight(engine_error_text(&error)));
                },
            }
        }
        let markup = finish_generator(generator);
        Ok(language_shell(token, markup.as_str()))
    }
}

/// A token that the catalog resolves is never an unknown language, and what
/// highlighting gives for it holds `language-` followed by the escaped
/// token.
pub proof fn lemma_known_language(catalog: Catalog, code: Seq<char>, token: Seq<char>)
    requires
        token.len() > 0,
        resolved(catalog.grammars(), token) is Some,
    ensures
        catalog.highlighted(code, token) != Err::<Seq<char>, ErrorKind>(
            ErrorKind::UnknownLanguage,
        ),
        catalog.highlighted(code, token) matches Ok(html) ==> occurs_in(
            "language-"@ + escaped(token),
            html,
        ),
{
    let index = resolved(catalog.grammars(), token)->0;
    match catalog.markup(index, code) {
        Some(markup) => {
            lemma_language_block_names_token(token, markup);
        },
        None => {},
    }
}

/// A token resolves exactly where some grammar of the list answers to it.
pub proof fn lemma_resolved_iff_answered(grammars: Seq<GrammarView>, token: Seq<char>)
    ensures
        resolved(grammars, token) is Some <==> exists|i: int|
            0 <= i < grammars.len() && answers_to(#[trigger] grammars[i], token),
        resolved(grammars, token) matches Some(index) ==> 0 <= index < grammars.len()
            && answers_to(grammars[index], token) && forall|j: int|
            index < j < grammars.len() ==> !answers_to(#[trigger] grammars[j], token),
    decreases grammars.len(),
{
    if grammars.len() > 0 {
        let front = grammars.drop_last();
        lemma_resolved_iff_answered(front, token);
        if !answers_to(grammars.last(), token) {
            if exists|i: int| 0 <= i < grammars.len() && answers_to(#[trigger] grammars[i], token) {
                let i = choose|i: int|
                    0 <= i < grammars.len() && answers_to(#[trigger] grammars[i], token);
                assert(front[i] == grammars[i]);
            }
            if resolved(front, token) is Some {
                let index = resolved(front, token)->0;
                assert(front[index] == grammars[index]);
                assert forall|j: int| index < j < grammars.len() implies !answers_to(
                    #[trigger] grammars[j],
                    token,
                ) by {
                    if j < front.len() {
                        assert(front[j] == grammars[j]);
                    }
                }
            }
        }
    }
}

/// Whether `list` holds `wanted`.
fn holds(list: &Vec<String>, wanted: &String) -> (found: bool)
    ensures
        found == list@.map_values(|s: String| s@).contains(wanted@),
{
    let ghost views = list@.map_values(|s: String| s@);
    let mut i: usize = 0;
    while i < list.len()
        invariant
            i <= list.len(),
            views == list@.map_values(|s: String| s@),
            forall|j: int| 0 <= j < i ==> views[j] != wanted@,
        decreases list.len() - i,
    {
        if list[i] == *wanted {
            assert(views[i as int] == wanted@);
            return true;
        }
        i = i + 1;
    }
    false
}

/// The settings of an HTML formatter for highlighted code, as plain values.
#[derive(Clone, Debug)]
pub struct PyHighlightOptions {
    /// The highlight style to use.
    pub style: Option<String>,
    /// Inline styles, rather than classes, on the spans.
    pub noclasses: bool,
    /// A string put before every token class.
    pub classprefix: Option<String>,
    /// The class of the outer `<div>`.
    pub cssclass: Option<String>,
    /// Inline styles for the outer `<div>`.
    pub cssstyles: Option<String>,
    /// Inline styles for the `<pre>`.
    pub prestyles: Option<String>,
    /// `"inline"` puts line numbers in the `<pre>`; any other value puts
    /// them in a table; `None` gives no line numbers.
    pub linenos: Option<String>,
    /// The lines to highlight, counted from 1 whatever `linenostart` is.
    pub hl_lines: Option<Vec<usize>>,
    /// The number of the first line.
    pub linenostart: Option<usize>,
    /// Only every n-th line number is printed.
    pub linenostep: Option<usize>,
    /// Every n-th line number gets the class `special`.
    pub linenospecial: Option<usize>,
    /// No background colour on the outer element.
    pub nobackground: bool,
    /// The string between lines; a line feed where absent.
    pub lineseparator: Option<String>,
    /// Wraps each line in an anchor named by this string and the line number.
    pub lineanchors: Option<String>,
    /// Wraps each line in a span with an `id` of this string and the line
    /// number.
    pub linespans: Option<String>,
    /// Line numbers are links.
    pub anchorlinenos: bool,
    /// A file name to show above the block.
    pub filename: Option<String>,
    /// The code inside the `<pre>` is wrapped in `<code>`.
    pub wrapcode: bool,
}

impl PyHighlightOptions {
    /// The settings as given.
    pub fn new(
        style: Option<String>,
        noclasses: bool,
        classprefix: Option<String>,
        cssclass: Option<String>,
        cssstyles: Option<String>,
        prestyles: Option<String>,
        linenos: Option<String>,
        hl_lines: Option<Vec<usize>>,
        linenostart: Option<usize>,
        linenostep: Option<usize>,
        linenospecial: Option<usize>,
        nobackground: bool,
        lineseparator: Option<String>,
        lineanchors: Option<String>,
        linespans: Option<String>,
        anchorlinenos: bool,
        filename: Option<String>,
        wrapcode: bool,
    ) -> (options: Self)
        ensures
            options.style == style,
            options.noclasses == noclasses,
            options.classprefix == classprefix,
            options.cssclass == cssclass,
            options.cssstyles == cssstyles,
            options.prestyles == prestyles,
            options.linenos == linenos,
            options.hl_lines == hl_lines,
            options.linenostart == linenostart,
            options.linenostep == linenostep,
            options.linenospecial == linenospecial,
            options.nobackground == nobackground,
            options.lineseparator == lineseparator,
            options.lineanchors == lineanchors,
            options.linespans == linespans,
            options.anchorlinenos == anchorlinenos,
            options.filename == filename,
            options.wrapcode == wrapcode,
    {
        PyHighlightOptions {
            style,
            noclasses,
            classprefix,
            cssclass,
            cssstyles,
            prestyles,
            linenos,
            hl_lines,
            linenostart,
            linenostep,
            linenospecial,
            nobackground,
            lineseparator,
            lineanchors,
            linespans,
            anchorlinenos,
            filename,
            wrapcode,
        }
    }
}

impl Default for PyHighlightOptions {
    /// Every switch off and every value absent.
    fn default() -> (options: Self)
        ensures
            options.style is None,
            !options.noclasses,
            options.classprefix is None,
            options.cssclass is None,
            options.cssstyles is None,
            options.prestyles is None,
            options.linenos is None,
            options.hl_lines is None,
            options.linenostart is None,
            options.linenostep is None,
            options.linenospecial is None,
            !options.nobackground,
            options.lineseparator is None,
            options.lineanchors is None,
            options.linespans is None,
            !options.anchorlinenos,
            options.filename is None,
            !options.wrapcode,
    {
        PyHighlightOptions {
            style: None,
            noclasses: false,
            classprefix: None,
            cssclass: None,
            cssstyles: None,
            prestyles: None,
            linenos: None,
            hl_lines: None,
            linenostart: None,
            linenostep: None,
            linenospecial: None,
            nobackground: false,
            lineseparator: None,
            lineanchors: None,
            linespans: None,
            anchorlinenos: false,
            filename: None,
            wrapcode: false,
        }
    }
}

} // verus!
