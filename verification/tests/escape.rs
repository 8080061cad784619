use cmark_render::escape::{escape_html, language_shell, plain_code_block, unescape_html};

#[test]
fn escape_replaces_the_five_specials() {
    assert_eq!(
        escape_html("<a href=\"x\">&'"),
        "&lt;a href=&quot;x&quot;&gt;&amp;&#39;"
    );
}

#[test]
fn escape_leaves_other_text_alone() {
    assert_eq!(escape_html("plain text; 1 + 1 = 2 \u{e9}\u{4e2d}"), "plain text; 1 + 1 = 2 \u{e9}\u{4e2d}");
    assert_eq!(escape_html(""), "");
}

#[test]
fn unescape_gives_the_code_back() {
    let code = "if a < b && c > \"d\" { 'e' }";
    assert_eq!(unescape_html(&escape_html(code)), code);
}

#[test]
fn unescape_reads_entities_from_the_left() {
    assert_eq!(unescape_html("&amp;lt;"), "&lt;");
    assert_eq!(unescape_html("&lt;&gt;&amp;&quot;&#39;"), "<>&\"'");
    assert_eq!(unescape_html("&nbsp; & &lt"), "&nbsp; & &lt");
    assert_eq!(unescape_html(""), "");
}

#[test]
fn plain_block_has_no_class() {
    assert_eq!(
        plain_code_block("a < b & \"c\"\n"),
        "<pre><code>a &lt; b &amp; &quot;c&quot;\n</code></pre>"
    );
    assert_eq!(plain_code_block(""), "<pre><code></code></pre>");
}

#[test]
fn plain_block_round_trip() {
    let code = "x = \"<&>\" & y\n";
    let block = plain_code_block(code);
    let inner = block
        .strip_prefix("<pre><code>")
        .and_then(|rest| rest.strip_suffix("</code></pre>"))
        .unwrap();
    assert_eq!(unescape_html(inner), code);
}

#[test]
fn shell_names_the_escaped_token() {
    assert_eq!(
        language_shell("python", "<span>x</span>"),
        "<pre><code class=\"language-python\"><span>x</span></code></pre>"
    );
    assert_eq!(
        language_shell("a\"b<c", ""),
        "<pre><code class=\"language-a&quot;b&lt;c\"></code></pre>"
    );
}
