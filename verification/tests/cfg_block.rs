//! Tests for building the owned block and for the text of the settings file.
use arma3_launcher::cfg::modlauncherlist::{build_block, replace_quotes, ModEntry};
use arma3_launcher::{escape_cfg, render_cfg, strip_cpp_class, CfgMode};

fn entry(dir: &str, name: &str, full_path: &str) -> ModEntry {
    ModEntry {
        dir: dir.to_string(),
        name: name.to_string(),
        full_path: full_path.to_string(),
    }
}

#[test]
fn block_without_items_is_an_empty_section() {
    assert_eq!(build_block(&[]), "class ModLauncherList\n{\n};");
}

#[test]
fn block_numbers_entries_in_the_order_given() {
    let items = vec![entry("@zeta", "Zeta", "/mods/@zeta"), entry("@alpha", "Alpha", "/mods/@alpha")];
    let expected = "class ModLauncherList\n{\n    class Mod1\n    {\n        dir=\"@zeta\";\n        name=\"Zeta\";\n        origin=\"GAME DIR\";\n        fullPath=\"/mods/@zeta\";\n    };\n    class Mod2\n    {\n        dir=\"@alpha\";\n        name=\"Alpha\";\n        origin=\"GAME DIR\";\n        fullPath=\"/mods/@alpha\";\n    };\n};";
    assert_eq!(build_block(&items), expected);
}

#[test]
fn block_numbers_go_past_nine() {
    let items: Vec<ModEntry> = (0..12).map(|i| entry(&format!("d{i}"), "n", "p")).collect();
    let text = build_block(&items);
    assert!(text.contains("    class Mod9\n"));
    assert!(text.contains("    class Mod10\n"));
    assert!(text.contains("    class Mod12\n"));
    assert!(!text.contains("class Mod13"));
    assert!(!text.contains("class Mod0"));
}

#[test]
fn block_escapes_each_field() {
    let items = vec![entry("a\\b", "say \"hi\"", "Z:\\mods\\@x")];
    let expected = "class ModLauncherList\n{\n    class Mod1\n    {\n        dir=\"a\\\\b\";\n        name=\"say \\\"hi\\\"\";\n        origin=\"GAME DIR\";\n        fullPath=\"Z:\\\\mods\\\\@x\";\n    };\n};";
    assert_eq!(build_block(&items), expected);
}

#[test]
fn escape_cfg_doubles_backslashes_and_escapes_quotes() {
    assert_eq!(escape_cfg(""), "");
    assert_eq!(escape_cfg("plain"), "plain");
    assert_eq!(escape_cfg("a\\b"), "a\\\\b");
    assert_eq!(escape_cfg("a\"b"), "a\\\"b");
    assert_eq!(escape_cfg("\\\""), "\\\\\\\"");
}

#[test]
fn replace_quotes_puts_underscores() {
    assert_eq!(replace_quotes("My \"Best\" Mod"), "My _Best_ Mod");
    assert_eq!(replace_quotes("none"), "none");
}

#[test]
fn strip_removes_exactly_a_built_block() {
    let lists: Vec<Vec<ModEntry>> = vec![
        vec![],
        vec![entry("@a", "A {brace}", "Z:\\x\\@a")],
        vec![entry("@a", "quote \" and \\ slash", "/m/@a"), entry("}{", "};", "{")],
    ];
    for items in lists {
        let block = build_block(&items);
        for (prefix, suffix) in [
            ("", ""),
            ("version=1;\nclass Other { a=1; };\n", ""),
            ("head;\n", "tail=2;\n"),
            ("", "x"),
        ] {
            let text = format!("{prefix}{block}{suffix}");
            let out = strip_cpp_class(&text, "class ModLauncherList").unwrap();
            assert_eq!(out, format!("{prefix}{suffix}"));
        }
    }
}

#[test]
fn render_cfg_overwrite_holds_the_block_alone() {
    let out = render_cfg(CfgMode::Overwrite, "old=1;\n", "BLOCK").unwrap();
    assert_eq!(out, "BLOCK\n");
}

#[test]
fn render_cfg_merge_appends_after_an_empty_line() {
    let out = render_cfg(CfgMode::MergeOrCreate, "old=1;", "BLOCK").unwrap();
    assert_eq!(out, "old=1;\n\nBLOCK\n");
}

#[test]
fn render_cfg_merge_of_nothing_holds_the_block_alone() {
    assert_eq!(render_cfg(CfgMode::MergeOrCreate, "", "BLOCK").unwrap(), "BLOCK\n");
    assert_eq!(render_cfg(CfgMode::MergeOrCreate, " \n\t\n", "BLOCK").unwrap(), "BLOCK\n");
}

#[test]
fn render_cfg_merge_replaces_an_earlier_block() {
    let old = "a=1;\nclass ModLauncherList\n{\n    class Mod1\n    {\n        dir=\"x\";\n    };\n};\nb=2;\n";
    let out = render_cfg(CfgMode::MergeOrCreate, old, "class ModLauncherList\n{\n};").unwrap();
    assert_eq!(out, "a=1;\nb=2;\n\n\nclass ModLauncherList\n{\n};\n");
}

#[test]
fn render_cfg_merge_fails_on_a_malformed_block() {
    let err = render_cfg(CfgMode::MergeOrCreate, "class ModLauncherList\n{\n", "B").unwrap_err();
    assert_eq!(err.message(), "config parsing error: unclosed '{' in cfg");
    assert!(render_cfg(CfgMode::Overwrite, "class ModLauncherList\n{\n", "B").is_ok());
}
