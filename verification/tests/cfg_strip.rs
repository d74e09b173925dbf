//! Tests for removing the owned block from settings text.
use arma3_launcher::strip_cpp_class;

#[test]
fn cfg_strip_strips_existing_modlauncherlist() {
    let input = r#"
class SomethingElse { a=1; };
class ModLauncherList
{
    class Mod1 { dir="x"; };
};
class Tail { b=2; }
"#;

    let out = strip_cpp_class(input, "class ModLauncherList").unwrap();
    assert!(!out.contains("class ModLauncherList"));
    assert!(out.contains("class SomethingElse"));
    assert!(out.contains("class Tail"));
}

#[test]
fn strip_strips_existing_modlauncherlist() {
    let input = r#"
class SomethingElse { a=1; };
class ModLauncherList
{
    class Mod1 { dir="x"; };
};
class Tail { b=2; }
"#;

    let out = strip_cpp_class(input, "class ModLauncherList").unwrap();
    assert!(!out.contains("class ModLauncherList"));
    assert!(out.contains("class SomethingElse"));
    assert!(out.contains("class Tail"));
}

#[test]
fn strip_removes_the_block_and_its_line_break() {
    let input = "\nclass SomethingElse { a=1; };\nclass ModLauncherList\n{\n    class Mod1 { dir=\"x\"; };\n};\nclass Tail { b=2; }\n";
    let out = strip_cpp_class(input, "class ModLauncherList").unwrap();
    assert_eq!(out, "\nclass SomethingElse { a=1; };\nclass Tail { b=2; }\n");
}

#[test]
fn strip_stops_before_a_letter_that_follows_the_semicolon() {
    let input = "class ModLauncherList\n{\n    class Mod1 { dir=\"x\"; };\n};class Tail { b=2; }";
    let out = strip_cpp_class(input, "class ModLauncherList").unwrap();
    assert_eq!(out, "class Tail { b=2; }");
    assert!(out.contains("class Tail"));
    assert!(!out.contains("ModLauncherList"));
}

#[test]
fn strip_leaves_text_without_the_declaration_alone() {
    let input = "class Other { a=1; };\n";
    assert_eq!(strip_cpp_class(input, "class ModLauncherList").unwrap(), input);
    assert_eq!(strip_cpp_class("", "class ModLauncherList").unwrap(), "");
}

#[test]
fn strip_ignores_braces_inside_strings() {
    let input = "a;\nclass X { s=\"}{\\\"}\"; t=\"{\"; };\nb;\n";
    assert_eq!(strip_cpp_class(input, "class X").unwrap(), "a;\nb;\n");
}

#[test]
fn strip_removes_every_occurrence() {
    let input = "class X { a=1; };\nkeep;\nclass X { b=2; };\nend;\n";
    assert_eq!(strip_cpp_class(input, "class X").unwrap(), "keep;\nend;\n");
}

#[test]
fn strip_takes_the_trailer_to_the_end_of_the_text() {
    let input = "head\nclass X { a=1; }  ";
    assert_eq!(strip_cpp_class(input, "class X").unwrap(), "head\n");
}

#[test]
fn strip_fails_without_an_opening_brace() {
    let err = strip_cpp_class("class X ;", "class X").unwrap_err();
    assert!(matches!(err, arma3_launcher::Arma3Error::MalformedBlock { .. }));
    assert_eq!(err.message(), "config parsing error: cannot find opening '{'");
}

#[test]
fn strip_fails_on_braces_that_do_not_close() {
    let err = strip_cpp_class("class X { a { b }", "class X").unwrap_err();
    assert!(matches!(err, arma3_launcher::Arma3Error::MalformedBlock { .. }));
    assert_eq!(err.message(), "config parsing error: unclosed '{' in cfg");
}

#[test]
fn class_boundaries_reports_a_mismatch() {
    let text: Vec<char> = "abc class X {};".chars().collect();
    let decl: Vec<char> = "class X".chars().collect();
    let err = arma3_launcher::class_boundaries(&text, &decl, 0).unwrap_err();
    assert_eq!(err.message(), "config parsing error: class boundary mismatch");
    assert_eq!(
        arma3_launcher::class_boundaries(&text, &decl, 4).unwrap(),
        (4, 15)
    );
}
