//! HTML escaping of text, its inverse, and the two shells that wrap a code
//! block.

use vstd::prelude::*;
use vstd::string::StringExecFns;
use crate::text::{chars_of, occurs_in, starts_with, lemma_occurs_in_middle};

verus! {

/// The characters that HTML gives a meaning of its own.
pub open spec fn is_special(c: char) -> bool {
    c == '&' || c == '<' || c == '>' || c == '"' || c == '\''
}

/// What stands for one character in escaped text.
pub open spec fn entity(c: char) -> Seq<char> {
    if c == '&' {
        seq!['&', 'a', 'm', 'p', ';']
    } else if c == '<' {
        seq!['&', 'l', 't', ';']
    } else if c == '>' {
        seq!['&', 'g', 't', ';']
    } else if c == '"' {
        seq!['&', 'q', 'u', 'o', 't', ';']
    } else if c == '\'' {
        seq!['&', '#', '3', '9', ';']
    } else {
        seq![c]
    }
}

/// Escaped text: each character replaced by what stands for it, in order.
pub open spec fn escaped(text: Seq<char>) -> Seq<char>
    decreases text.len(),
{
    if text.len() == 0 {
        Seq::empty()
    } else {
        entity(text[0]) + escaped(text.drop_first())
    }
}

/// The special character whose entity `text` starts with, if it starts with one.
pub open spec fn leading_entity(text: Seq<char>) -> Option<char> {
    if starts_with(text, entity('&')) {
        Some('&')
    } else if starts_with(text, entity('<')) {
        Some('<')
    } else if starts_with(text, entity('>')) {
        Some('>')
    } else if starts_with(text, entity('"')) {
        Some('"')
    } else if starts_with(text, entity('\'')) {
        Some('\'')
    } else {
        None
    }
}

/// Unescaped text: read from the left, each of the five entities gives its
/// character back, and every other character stands for itself.
pub open spec fn unescaped(text: Seq<char>) -> Seq<char>
    decreases text.len(),
{
    if text.len() == 0 {
        Seq::empty()
    } else {
        match leading_entity(text) {
            Some(c) => seq![c] + unescaped(text.skip(entity(c).len() as int)),
            None => seq![text[0]] + unescaped(text.drop_first()),
        }
    }
}

/// A code block without a language: the escaped code between
/// `<pre><code>` and `</code></pre>`.
pub open spec fn plain_block(code: Seq<char>) -> Seq<char> {
    "<pre><code>"@ + escaped(code) + "</code></pre>"@
}

/// The shell around highlighted markup: the language token, escaped, is named
/// in the `class` attribute of the `code` element.
pub open spec fn language_block(token: Seq<char>, markup: Seq<char>) -> Seq<char> {
    "<pre><code class=\"language-"@ + escaped(token) + "\">"@ + markup + "</code></pre>"@
}

/// Escaping distributes over concatenation.
pub proof fn lemma_escaped_concat(a: Seq<char>, b: Seq<char>)
    ensures
        escaped(a + b) == escaped(a) + escaped(b),
    decreases a.len(),
{
    if a.len() == 0 {
        assert(a + b =~= b);
        assert(escaped(a) + escaped(b) =~= escaped(b));
    } else {
        assert((a + b).drop_first() =~= a.drop_first() + b);
        lemma_escaped_concat(a.drop_first(), b);
        assert(escaped(a + b) =~= escaped(a) + escaped(b));
    }
}

/// Unescaping undoes escaping: for every text, `unescaped(escaped(text))` is
/// the text itself.
pub proof fn lemma_unescape_escape(text: Seq<char>)
    ensures
        unescaped(escaped(text)) == text,
    decreases text.len(),
{
    if text.len() > 0 {
        let c = text[0];
        let rest = escaped(text.drop_first());
        let whole = entity(c) + rest;
        lemma_unescape_escape(text.drop_first());
        if is_special(c) {
            assert(whole.take(entity(c).len() as int) =~= entity(c));
            assert(leading_entity(whole) == Some(c));
            assert(whole.skip(entity(c).len() as int) =~= rest);
        } else {
            assert(whole[0] == c);
            assert(leading_entity(whole) is None) by {
                assert(whole.take(5)[0] != '&' || whole.len() < 5);
                assert(whole.take(4)[0] != '&' || whole.len() < 4);
                assert(whole.take(6)[0] != '&' || whole.len() < 6);
            }
            assert(whole.drop_first() =~= rest);
        }
        assert(seq![c] + text.drop_first() =~= text);
    }
}

/// Escaped text holds none of `<`, `>`, `"` and `'`.
pub proof fn lemma_escaped_is_inert(text: Seq<char>, i: int)
    requires
        0 <= i < escaped(text).len(),
    ensures
        escaped(text)[i] != '<',
        escaped(text)[i] != '>',
        escaped(text)[i] != '"',
        escaped(text)[i] != '\'',
    decreases text.len(),
{
    if text.len() > 0 {
        let head = entity(text[0]);
        if i >= head.len() {
            lemma_escaped_is_inert(text.drop_first(), i - head.len());
        }
    }
}

/// The shell around highlighted markup names `language-` followed by the
/// escaped token.
pub proof fn lemma_language_block_names_token(token: Seq<char>, markup: Seq<char>)
    ensures
        occurs_in("language-"@ + escaped(token), language_block(token, markup)),
{
    reveal_strlit("<pre><code class=\"language-");
    reveal_strlit("language-");
    let before = "<pre><code class=\""@;
    reveal_strlit("<pre><code class=\"");
    let piece = "language-"@ + escaped(token);
    let after = "\">"@ + markup + "</code></pre>"@;
    assert(before + piece + after =~= language_block(token, markup));
    lemma_occurs_in_middle(before, piece, after);
}

/// Escapes `text` for HTML, for an element's body or a quoted attribute.
pub fn escape_html(text: &str) -> (out: String)
    ensures
        out@ == escaped(text@),
{
    let mut out = String::new();
    for c in it: text.chars()
        invariant
            it.seq() == text@,
            out@ == escaped(text@.take(it.index() as int)),
    {
        proof {
            let n = it.index() as int;
            lemma_escaped_concat(text@.take(n), seq![c]);
            assert(text@.take(n) + seq![c] =~= text@.take(n + 1));
            assert(seq![c].drop_first() =~= Seq::<char>::empty());
            assert(escaped(seq![c]) =~= entity(c) + escaped(Seq::<char>::empty()));
            assert(escaped(seq![c]) =~= entity(c));
            reveal_strlit("&amp;");
            reveal_strlit("&lt;");
            reveal_strlit("&gt;");
            reveal_strlit("&quot;");
            reveal_strlit("&#39;");
        }
        if c == '&' {
            out.append("&amp;");
        } else if c == '<' {
            out.append("&lt;");
        } else if c == '>' {
            out.append("&gt;");
        } else if c == '"' {
            out.append("&quot;");
        } else if c == '\'' {
            out.append("&#39;");
        } else {
            out.push(c);
        }
        assert(out@ =~= escaped(text@.take(it.index() as int)) + entity(c));
    }
    assert(text@.take(text@.len() as int) == text@);
    out
}

/// Whether `chars`, read from `at`, starts with `pattern`.
fn matches_at(chars: &Vec<char>, at: usize, pattern: &Vec<char>) -> (found: bool)
    requires
        at <= chars.len(),
    ensures
        found == starts_with(chars@.skip(at as int), pattern@),
{
    if pattern.len() > chars.len() - at {
        return false;
    }
    let mut k: usize = 0;
    while k < pattern.len()
        invariant
            at <= chars.len(),
            pattern.len() <= chars.len() - at,
            k <= pattern.len(),
            forall|j: int| 0 <= j < k ==> chars@[at + j] == pattern@[j],
        decreases pattern.len() - k,
    {
        if chars[at + k] != pattern[k] {
            proof {
                let window = chars@.skip(at as int).take(pattern@.len() as int);
                assert(window[k as int] != pattern@[k as int]);
            }
            return false;
        }
        k = k + 1;
    }
    assert(chars@.skip(at as int).take(pattern@.len() as int) =~= pattern@);
    true
}

/// Reverses `escape_html`: each of the five entities gives its character back.
pub fn unescape_html(text: &str) -> (out: String)
    ensures
        out@ == unescaped(text@),
{
    let chars = chars_of(text);
    let amp: Vec<char> = vec!['&', 'a', 'm', 'p', ';'];
    let lt: Vec<char> = vec!['&', 'l', 't', ';'];
    let gt: Vec<char> = vec!['&', 'g', 't', ';'];
    let quot: Vec<char> = vec!['&', 'q', 'u', 'o', 't', ';'];
    let apos: Vec<char> = vec!['&', '#', '3', '9', ';'];
    assert(amp@ =~= entity('&'));
    assert(lt@ =~= entity('<'));
    assert(gt@ =~= entity('>'));
    assert(quot@ =~= entity('"'));
    assert(apos@ =~= entity('\''));
    let mut out = String::new();
    let mut i: usize = 0;
    assert(chars@.skip(0) =~= chars@);
    assert(out@ + unescaped(chars@) =~= unescaped(chars@));
    while i < chars.len()
        invariant
            i <= chars.len(),
            amp@ == entity('&'),
            lt@ == entity('<'),
            gt@ == entity('>'),
            quot@ == entity('"'),
            apos@ == entity('\''),
            out@ + unescaped(chars@.skip(i as int)) == unescaped(chars@),
        decreases chars.len() - i,
    {
        let ghost rest = chars@.skip(i as int);
        let ghost before = out@;
        let step: usize;
        if matches_at(&chars, i, &amp) {
            out.push('&');
            step = 5;
        } else if matches_at(&chars, i, &lt) {
            out.push('<');
            step = 4;
        } else if matches_at(&chars, i, &gt) {
            out.push('>');
            step = 4;
        } else if matches_at(&chars, i, &quot) {
            out.push('"');
            step = 6;
        } else if matches_at(&chars, i, &apos) {
            out.push('\'');
            step = 5;
        } else {
            out.push(chars[i]);
            step = 1;
        }
        proof {
            assert(rest.len() > 0);
            assert(rest[0] == chars@[i as int]);
            assert(rest.skip(step as int) =~= chars@.skip(i + step));
            assert(rest.drop_first() =~= rest.skip(1));
            assert(out@ + unescaped(chars@.skip(i + step)) =~= before + unescaped(rest));
        }
        i = i + step;
    }
    assert(chars@.skip(chars@.len() as int) =~= Seq::<char>::empty());
    assert(out@ + Seq::<char>::empty() =~= out@);
    out
}

/// A code block without a language: the code, escaped, in a plain
/// `<pre><code>` element.
pub fn plain_code_block(code: &str) -> (out: String)
    ensures
        out@ == plain_block(code@),
{
    let mut out = String::from_str("<pre><code>");
    let body = escape_html(code);
    out.append(body.as_str());
    out.append("</code></pre>");
    out
}

/// The shell around highlighted markup, with the language token named in the
/// `class` attribute.
pub fn language_shell(token: &str, markup: &str) -> (out: String)
    ensures
        out@ == language_block(token@, markup@),
{
    let mut out = String::from_str("<pre><code class=\"language-");
    let name = escape_html(token);
    out.append(name.as_str());
    out.append("\">");
    out.append(markup);
    out.append("</code></pre>");
    out
}

} // verus!
