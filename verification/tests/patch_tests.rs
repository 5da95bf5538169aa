//! Tests of the call-site matcher and the patch pipeline, run through the
//! real Lua parser.

use firesync::error::Error;
use firesync::filemap::FileMap;
use firesync::patch::{patch_directory, patch_source};

fn b(s: &str) -> Vec<u8> {
    s.as_bytes().to_vec()
}

fn files_with_child() -> FileMap {
    let mut files = FileMap::new();
    files.push_file(b("child"), b("return 1"));
    files
}

fn patched(source: &str, files: &FileMap) -> String {
    let out = patch_source(&b(source), files).expect("patch should succeed");
    String::from_utf8(out).expect("patched output should be text")
}

#[test]
fn parenthesized_call_is_rewritten() {
    let files = files_with_child();
    assert_eq!(patched("NS(\"child\", 1)", &files), "NS([==[return 1]==],1)");
}

#[test]
fn each_alias_is_recognized() {
    let files = files_with_child();
    assert_eq!(patched("NS(\"child\")", &files), "NS([==[return 1]==])");
    assert_eq!(patched("NLS(\"child\")", &files), "NLS([==[return 1]==])");
    assert_eq!(patched("NewScript(\"child\")", &files), "NewScript([==[return 1]==])");
    assert_eq!(patched("NewLocalScript(\"child\")", &files), "NewLocalScript([==[return 1]==])");
}

#[test]
fn bare_string_call_is_rewritten() {
    let files = files_with_child();
    assert_eq!(patched("NS \"child\"", &files), "NS [==[return 1]==]");
    assert_eq!(patched("NS\"child\"", &files), "NS[==[return 1]==]");
}

#[test]
fn remaining_arguments_are_preserved_in_order() {
    let files = files_with_child();
    assert_eq!(
        patched("NS(\"child\", 1, \"x\", true)", &files),
        "NS([==[return 1]==],1, \"x\", true)"
    );
}

#[test]
fn surrounding_tokens_are_byte_identical() {
    let files = files_with_child();
    assert_eq!(
        patched("local a = 2 -- keep\nNS(\"child\", a)\nprint(a)\n", &files),
        "local a = 2 -- keep\nNS([==[return 1]==],a)\nprint(a)\n"
    );
}

#[test]
fn long_bracket_file_name_argument_is_recognized() {
    let files = files_with_child();
    assert_eq!(patched("NS([[child]], 1)", &files), "NS([==[return 1]==],1)");
}

#[test]
fn wrong_name_passes_through_unchanged() {
    let files = files_with_child();
    assert_eq!(patched("foo(\"child\", 1)", &files), "foo(\"child\", 1)");
    assert_eq!(patched("ns(\"child\")", &files), "ns(\"child\")");
}

#[test]
fn chained_call_passes_through_unchanged() {
    let files = files_with_child();
    assert_eq!(patched("NS(\"child\")(1)", &files), "NS(\"child\")(1)");
    assert_eq!(patched("NS(\"child\").x = 1", &files), "NS(\"child\").x = 1");
    assert_eq!(patched("NS(\"child\")[1] = 2", &files), "NS(\"child\")[1] = 2");
    assert_eq!(patched("NS(\"child\"):m()", &files), "NS(\"child\"):m()");
}

#[test]
fn computed_prefix_passes_through_unchanged() {
    let files = files_with_child();
    assert_eq!(patched("(NS)(\"child\")", &files), "(NS)(\"child\")");
}

#[test]
fn field_and_method_calls_pass_through_unchanged() {
    let files = files_with_child();
    assert_eq!(patched("x.NS(\"child\")", &files), "x.NS(\"child\")");
    assert_eq!(patched("x:NS(\"child\")", &files), "x:NS(\"child\")");
}

#[test]
fn non_literal_first_argument_passes_through_unchanged() {
    let files = files_with_child();
    assert_eq!(patched("NS(x, 1)", &files), "NS(x, 1)");
    assert_eq!(patched("NS()", &files), "NS()");
    assert_eq!(patched("NS((\"child\"))", &files), "NS((\"child\"))");
    assert_eq!(patched("NS(\"chi\" .. \"ld\")", &files), "NS(\"chi\" .. \"ld\")");
}

#[test]
fn table_constructor_argument_passes_through_unchanged() {
    let files = files_with_child();
    assert_eq!(patched("NS{1}", &files), "NS{1}");
}

#[test]
fn nested_qualifying_call_is_rewritten() {
    let files = files_with_child();
    assert_eq!(patched("foo(NS(\"child\"))", &files), "foo(NS([==[return 1]==]))");
}

#[test]
fn inlined_content_is_escaped() {
    let mut files = FileMap::new();
    files.push_file(b("child"), b("return \"x]==]y\""));
    assert_eq!(patched("NS(\"child\")", &files), "NS([==[return \"x\\]==\\]y\"]==])");
}

#[test]
fn non_matching_file_patches_to_itself_twice() {
    let files = files_with_child();
    let source = "-- header\nlocal t = { foo(\"child\"), x.NS(\"child\") }\nreturn t\n";
    let once = patched(source, &files);
    assert_eq!(once, source);
    let twice = patched(&once, &files);
    assert_eq!(twice, once);
}

#[test]
fn missing_referenced_file_fails_that_file() {
    let files = files_with_child();
    match patch_source(&b("NS(\"nope\")"), &files) {
        Err(Error::Io(name)) => assert_eq!(name, b("nope")),
        other => panic!("expected a missing-file error, got {:?}", other.is_ok()),
    }
}

#[test]
fn unparseable_file_fails_that_file() {
    let files = files_with_child();
    match patch_source(&b("local x ="), &files) {
        Err(Error::FullMoon(_)) => {}
        other => panic!("expected a parse error, got {:?}", other.is_ok()),
    }
}

#[test]
fn directory_patch_isolates_failures() {
    let mut dir = FileMap::new();
    dir.push_file(b("bad.lua"), b("local x ="));
    dir.push_file(b("good.lua"), b("NS(\"child\", 1)"));
    dir.push_file(b("child"), b("return 1"));
    let errs = patch_directory(&mut dir);
    assert_eq!(errs.len(), 1);
    assert_eq!(errs[0].0, b("bad.lua"));
    assert!(matches!(errs[0].1, Error::FullMoon(_)));
    assert_eq!(dir.entries[0].1, b("local x ="));
    assert_eq!(dir.entries[1].1, b("NS([==[return 1]==],1)"));
    assert_eq!(dir.entries[2].1, b("return 1"));
}

#[test]
fn directory_patch_rewrites_main_against_child() {
    let mut dir = FileMap::new();
    dir.push_file(b("main.lua"), b("NS(\"child\", 1)"));
    dir.push_file(b("child"), b("return 1"));
    let errs = patch_directory(&mut dir);
    assert!(errs.is_empty());
    assert_eq!(dir.entries[0].1, b("NS([==[return 1]==],1)"));
    assert_eq!(dir.entries[1].1, b("return 1"));
}

#[test]
fn directory_patch_reports_missing_references() {
    let mut dir = FileMap::new();
    dir.push_file(b("main.lua"), b("NS(\"nope\")"));
    let errs = patch_directory(&mut dir);
    assert_eq!(errs.len(), 1);
    assert_eq!(errs[0].0, b("main.lua"));
    match &errs[0].1 {
        Error::Io(name) => assert_eq!(name, &b("nope")),
        _ => panic!("expected a missing-file error"),
    }
    assert_eq!(dir.entries[0].1, b("NS(\"nope\")"));
}

#[test]
fn earlier_entries_are_visible_patched_to_later_ones() {
    // main.lua is patched first; inner.lua then inlines the patched text.
    let mut dir = FileMap::new();
    dir.push_file(b("main.lua"), b("NS(\"child\")"));
    dir.push_file(b("inner.lua"), b("NS(\"main.lua\")"));
    dir.push_file(b("child"), b("return 1"));
    let errs = patch_directory(&mut dir);
    assert!(errs.is_empty());
    assert_eq!(dir.entries[0].1, b("NS([==[return 1]==])"));
    assert_eq!(
        dir.entries[1].1,
        b("NS([==[NS(\\[==\\[return 1\\]==\\])]==])")
    );
}

#[test]
fn the_leftmost_missing_reference_is_reported() {
    let files = FileMap::new();
    match patch_source(&b("NS(\"a\")\nNS(\"b\")"), &files) {
        Err(Error::Io(name)) => assert_eq!(name, b("a")),
        _ => panic!("expected a missing-file error"),
    }
}

#[test]
fn empty_file_patches_to_itself() {
    let files = FileMap::new();
    assert_eq!(patch_source(&b(""), &files).unwrap(), b(""));
}

#[test]
fn comments_and_whitespace_are_preserved() {
    let files = files_with_child();
    let source = "--[[ header ]]\nlocal x = 1 -- note\n\nNS( \"child\" )\n";
    assert_eq!(patched(source, &files), "--[[ header ]]\nlocal x = 1 -- note\n\nNS( [==[return 1]==] )\n");
}
