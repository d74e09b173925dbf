//! Tests for reading a mod's metadata.
use arma3_launcher::mods::meta::{
    cpp_name, find_outside_quotes, parse_cpp_assignments, split_outside_quotes, strip_comments,
};
use arma3_launcher::mods::resolve_mod_path;
use arma3_launcher::{
    read_mod_meta, validate_local_mod_dir, Arma3Error, Arma3Install, Host, LocalMod, ModMeta,
    ModSet, ModSpec, Platform, StringMap,
};

fn chars(s: &str) -> Vec<char> {
    s.chars().collect()
}

fn text(v: &[char]) -> String {
    v.iter().collect()
}

fn ace_host() -> Host {
    let mut host = Host::new(Platform::Linux);
    host.push_dir("/mods/@ace", vec!["addons".to_string(), "mod.cpp".to_string()]);
    host.push_dir("/mods/@ace/addons", vec!["stub.pbo".to_string()]);
    host.push_file("/mods/@ace/addons/stub.pbo", Some("data".to_string()));
    host.push_file(
        "/mods/@ace/mod.cpp",
        Some(
            r#"
        // comment
        name = "ACE3";
        tooltip="ACE Tooltip";
        /* block comment */ publishedid = "463939057";
        "#
            .to_string(),
        ),
    );
    host
}

#[test]
fn mod_meta_parses_cpp_key_values_best_effort() {
    let host = ace_host();
    validate_local_mod_dir(&host, "/mods/@ace").unwrap();
    let meta = read_mod_meta(&host, "/mods/@ace").unwrap();
    assert_eq!(meta.kv.get("name").unwrap(), "ACE3");
    assert_eq!(meta.kv.get("tooltip").unwrap(), "ACE Tooltip");
    assert_eq!(meta.kv.get("publishedid").unwrap(), "463939057");
}

#[test]
fn meta_parses_cpp_key_values_best_effort() {
    let host = ace_host();
    let meta = read_mod_meta(&host, "/mods/@ace").unwrap();
    assert_eq!(meta.kv.get("name").unwrap(), "ACE3");
    assert_eq!(meta.kv.get("tooltip").unwrap(), "ACE Tooltip");
    assert_eq!(meta.kv.get("publishedid").unwrap(), "463939057");
}

#[test]
fn meta_takes_the_directory_name_for_a_missing_id() {
    let mut host = Host::new(Platform::Linux);
    host.push_dir("/mods/@x", vec!["addons".to_string(), "a.cpp".to_string(), "b.cpp".to_string(), "c.txt".to_string(), ".cpp".to_string()]);
    host.push_dir("/mods/@x/addons", vec!["p.pbo".to_string()]);
    host.push_file("/mods/@x/a.cpp", Some("name = first;".to_string()));
    host.push_file("/mods/@x/b.cpp", Some("name = second; dir = \"d\";".to_string()));
    host.push_file("/mods/@x/c.txt", Some("tooltip = no;".to_string()));
    host.push_file("/mods/@x/.cpp", Some("tooltip = hidden;".to_string()));
    let meta = read_mod_meta(&host, "/mods/@x").unwrap();
    assert_eq!(meta.kv.get("name").unwrap(), "first");
    assert_eq!(meta.kv.get("dir").unwrap(), "d");
    assert_eq!(meta.kv.get("publishedid").unwrap(), "@x");
    assert_eq!(meta.kv.get("tooltip"), None);
    assert_eq!(meta.kv.len(), 3);
}

#[test]
fn meta_fails_on_an_unreadable_file() {
    let mut host = Host::new(Platform::Linux);
    host.push_dir("/mods/@x", vec!["addons".to_string(), "a.cpp".to_string()]);
    host.push_dir("/mods/@x/addons", vec!["p.pbo".to_string()]);
    host.push_file("/mods/@x/a.cpp", None);
    let err = read_mod_meta(&host, "/mods/@x").unwrap_err();
    assert!(matches!(err, Arma3Error::Io { .. }));
    assert_eq!(err.message(), "failed reading /mods/@x/a.cpp");
}

#[test]
fn validate_rejects_what_is_no_mod_directory() {
    let mut host = Host::new(Platform::Linux);
    host.push_dir("/mods/@empty", vec!["addons".to_string()]);
    host.push_dir("/mods/@empty/addons", vec![]);
    host.push_dir("/mods/@bare", vec![]);
    for path in ["/mods/@empty", "/mods/@bare", "/mods/@none"] {
        let err = validate_local_mod_dir(&host, path).unwrap_err();
        match &err {
            Arma3Error::InvalidModDir { path: p } => assert_eq!(p, path),
            other => panic!("unexpected error {other:?}"),
        }
        assert_eq!(
            err.message(),
            format!("invalid mod directory: {path} (expected an 'addons' directory inside)")
        );
        assert!(LocalMod::new(&host, path).is_err());
        assert!(read_mod_meta(&host, path).is_err());
    }
}

#[test]
fn name_or_takes_the_first_key_with_text() {
    let mut kv = StringMap::new();
    let meta = ModMeta { kv: kv.clone() };
    assert_eq!(meta.name_or("fallback"), "fallback");
    kv.insert("publishedid".to_string(), "42".to_string());
    assert_eq!(ModMeta { kv: kv.clone() }.name_or("fallback"), "42");
    kv.insert("tooltip".to_string(), "Tip".to_string());
    assert_eq!(ModMeta { kv: kv.clone() }.name_or("fallback"), "Tip");
    kv.insert("dir".to_string(), "@dir".to_string());
    assert_eq!(ModMeta { kv: kv.clone() }.name_or("fallback"), "@dir");
    kv.insert("name".to_string(), "  \t ".to_string());
    assert_eq!(ModMeta { kv: kv.clone() }.name_or("fallback"), "@dir");
    kv.insert("name".to_string(), "Name".to_string());
    assert_eq!(ModMeta { kv }.name_or("fallback"), "Name");
}

#[test]
fn comments_are_removed_outside_strings() {
    assert_eq!(text(&strip_comments(&chars("a // b\nc"))), "a \nc");
    assert_eq!(text(&strip_comments(&chars("a /* b */ c"))), "a  c");
    assert_eq!(text(&strip_comments(&chars("x=\"http://y\"; // z"))), "x=\"http://y\"; ");
    assert_eq!(text(&strip_comments(&chars("x=\"/* no */\";"))), "x=\"/* no */\";");
    assert_eq!(text(&strip_comments(&chars("a /* open"))), "a n");
    assert_eq!(text(&strip_comments(&chars("a / b"))), "a / b");
    assert_eq!(text(&strip_comments(&chars(""))), "");
}

#[test]
fn statements_are_split_outside_strings() {
    let parts: Vec<String> = split_outside_quotes(&chars("a=1;b=\"x;y\";;c"), ';')
        .iter()
        .map(|p| text(p))
        .collect();
    assert_eq!(parts, vec!["a=1", "b=\"x;y\"", "", "c"]);
    assert!(split_outside_quotes(&chars(""), ';').is_empty());
    let parts: Vec<String> =
        split_outside_quotes(&chars("a;"), ';').iter().map(|p| text(p)).collect();
    assert_eq!(parts, vec!["a"]);
}

#[test]
fn needle_is_found_outside_strings() {
    assert_eq!(find_outside_quotes(&chars("a=b"), '='), Some(1));
    assert_eq!(find_outside_quotes(&chars("\"a=b\"=c"), '='), Some(5));
    assert_eq!(find_outside_quotes(&chars("\"a=b\""), '='), None);
    assert_eq!(find_outside_quotes(&chars(""), '='), None);
}

#[test]
fn assignments_keep_the_first_value() {
    let mut kv = StringMap::new();
    kv.insert("kept".to_string(), "old".to_string());
    parse_cpp_assignments(
        "kept = new; a = \"1\"; a = 2; = 3; b = ; noeq; c = \"\"quoted\"\"; d == e;",
        &mut kv,
    );
    assert_eq!(kv.get("kept").unwrap(), "old");
    assert_eq!(kv.get("a").unwrap(), "1");
    assert_eq!(kv.get("b"), None);
    assert_eq!(kv.get("c").unwrap(), "quoted");
    assert_eq!(kv.get("d").unwrap(), "= e");
    assert_eq!(kv.len(), 4);
}

#[test]
fn cpp_names() {
    assert!(cpp_name("mod.cpp"));
    assert!(cpp_name("a..cpp"));
    assert!(!cpp_name(".cpp"));
    assert!(!cpp_name("mod.cpp.bak"));
    assert!(!cpp_name("modcpp"));
}

#[test]
fn mod_set_keeps_the_order() {
    let host = ace_host();
    let mut set = ModSet::new();
    assert!(set.is_empty());
    let m = LocalMod::new(&host, "/mods/@ace").unwrap();
    assert_eq!(m.path(), "/mods/@ace");
    set.push(m.clone());
    set.extend(vec![m.clone(), m]);
    assert!(!set.is_empty());
    assert_eq!(set.as_slice().len(), 3);
    assert_eq!(set.iter().len(), 3);
    assert_eq!(set.iter()[2].path(), "/mods/@ace");
}

#[test]
fn mod_references_resolve_to_directories() {
    let mut host = Host::new(Platform::Linux);
    host.push_dir("/g", vec![]);
    host.push_file("/g/arma3.x86_64", None);
    let with = Arma3Install::new(&host, "/g", Some("/ws/107410".to_string())).unwrap();
    let without = Arma3Install::new(&host, "/g", None).unwrap();
    let p = Platform::Linux;
    assert_eq!(resolve_mod_path(p, &with, &ModSpec::Local("/m/@a".to_string())).unwrap(), "/m/@a");
    assert_eq!(resolve_mod_path(p, &with, &ModSpec::WorkshopId(463939057)).unwrap(), "/ws/107410/463939057");
    assert_eq!(resolve_mod_path(p, &with, &ModSpec::WorkshopId(0)).unwrap(), "/ws/107410/0");
    assert_eq!(
        resolve_mod_path(p, &with, &ModSpec::WorkshopId(u64::MAX)).unwrap(),
        "/ws/107410/18446744073709551615"
    );
    let err = resolve_mod_path(p, &without, &ModSpec::WorkshopId(1)).unwrap_err();
    assert!(matches!(err, Arma3Error::WorkshopDirMissing));
    assert_eq!(
        err.message(),
        "workshop directory is required for workshop IDs but was not configured"
    );
}
