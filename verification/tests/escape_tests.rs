//! Tests of the escaper and the inline-literal codec.

use firesync::escape::{decode_inline, escape, unescape};
use firesync::patch::render_inline_literal;

fn b(s: &str) -> Vec<u8> {
    s.as_bytes().to_vec()
}

#[test]
fn escape_leaves_plain_text_unchanged() {
    assert_eq!(escape(&b("return 1")), b("return 1"));
    assert_eq!(escape(&b("")), b(""));
    assert_eq!(escape(&b("local x = \"[=[ not a level two bracket ]=]\"")),
        b("local x = \"[=[ not a level two bracket ]=]\""));
}

#[test]
fn escape_replaces_opening_delimiter() {
    assert_eq!(escape(&b("[==[")), b("\\[==\\["));
    assert_eq!(escape(&b("a[==[b")), b("a\\[==\\[b"));
}

#[test]
fn escape_replaces_closing_delimiter() {
    assert_eq!(escape(&b("]==]")), b("\\]==\\]"));
    assert_eq!(escape(&b("a]==]b")), b("a\\]==\\]b"));
}

#[test]
fn escape_replaces_every_occurrence_and_nothing_else() {
    assert_eq!(escape(&b("x[==[y]==]z[==[w")), b("x\\[==\\[y\\]==\\]z\\[==\\[w"));
}

#[test]
fn escape_handles_overlapping_brackets() {
    // `[==[==[` holds one full opening delimiter; the scan consumes it and
    // leaves the tail alone.
    assert_eq!(escape(&b("[==[==[")), b("\\[==\\[==["));
}

#[test]
fn unescape_inverts_escape() {
    for case in [
        "return 1",
        "",
        "[==[",
        "]==]",
        "a[==[b]==]c",
        "print(\"hi\")\nlocal s = [==[raw]==]\n",
        "==]==[==",
    ] {
        let t = b(case);
        assert_eq!(unescape(&escape(&t)), t, "round trip failed for {case:?}");
    }
}

#[test]
fn inline_literal_wraps_escaped_content() {
    assert_eq!(render_inline_literal(&b("return 1")), b("[==[return 1]==]"));
    assert_eq!(render_inline_literal(&b("x]==]y")), b("[==[x\\]==\\]y]==]"));
}

#[test]
fn decode_inline_inverts_the_literal() {
    for case in ["return 1", "", "a[==[b]==]c", "line one\nline two\n"] {
        let t = b(case);
        let lit = render_inline_literal(&t);
        assert_eq!(decode_inline(&lit), Some(t), "literal round trip failed for {case:?}");
    }
}

#[test]
fn decode_inline_rejects_unwrapped_text() {
    assert_eq!(decode_inline(&b("return 1")), None);
    assert_eq!(decode_inline(&b("[==[x")), None);
    assert_eq!(decode_inline(&b("x]==]")), None);
    assert_eq!(decode_inline(&b("[==[")), None);
}
