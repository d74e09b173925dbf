//! Tests for the string map, the snapshot, the text helpers and the word
//! splitter.
use arma3_launcher::steam::detect::{detect_exe_from_registry, detect_steam_exe, Hive};
use arma3_launcher::steam::runtime::{linux_overlay_so, steam_runtime_runsh};
use arma3_launcher::steam::shlex::shlex_split;
use arma3_launcher::strmap::{rank_chars, Rank};
use arma3_launcher::text::{
    concat_str, contains_chars, decimal_string, find_from, from_chars, is_alnum_char, is_space_char,
    is_white_char, replace_all, slice_chars, starts_with_at, str_contains, str_eq, to_chars,
    trim_str, Trim,
};
use arma3_launcher::{Arma3Error, EnvVars, Host, Platform, StringMap};

fn chars(s: &str) -> Vec<char> {
    s.chars().collect()
}

#[test]
fn string_map_is_sorted_and_keeps_one_value_per_key() {
    let mut m = StringMap::new();
    assert!(m.is_empty());
    m.insert("b".to_string(), "1".to_string());
    m.insert("a".to_string(), "2".to_string());
    m.insert("c".to_string(), "3".to_string());
    m.insert("b".to_string(), "4".to_string());
    m.insert("B".to_string(), "5".to_string());
    m.insert("ab".to_string(), "6".to_string());
    m.insert("".to_string(), "7".to_string());
    m.insert_if_absent("a".to_string(), "8".to_string());
    m.insert_if_absent("d".to_string(), "9".to_string());
    assert_eq!(m.len(), 7);
    let keys: Vec<String> = (0..m.len()).map(|i| m.key_at(i).clone()).collect();
    assert_eq!(keys, vec!["", "B", "a", "ab", "b", "c", "d"]);
    let values: Vec<String> = (0..m.len()).map(|i| m.value_at(i).clone()).collect();
    assert_eq!(values, vec!["7", "5", "2", "6", "4", "3", "9"]);
    assert_eq!(m.get("b"), Some(&"4".to_string()));
    assert_eq!(m.get("zz"), None);
    assert!(m.contains_key(""));
    assert!(!m.contains_key("A"));
    let copy = m.clone();
    assert_eq!(copy.to_pairs(), m.to_pairs());
    assert_eq!(m.duplicate().to_pairs().len(), 7);
}

#[test]
fn strings_rank_by_code_point() {
    assert_eq!(rank_chars(&chars("a"), &chars("b")), Rank::Before);
    assert_eq!(rank_chars(&chars("b"), &chars("a")), Rank::After);
    assert_eq!(rank_chars(&chars("a"), &chars("a")), Rank::Same);
    assert_eq!(rank_chars(&chars(""), &chars("")), Rank::Same);
    assert_eq!(rank_chars(&chars(""), &chars("a")), Rank::Before);
    assert_eq!(rank_chars(&chars("ab"), &chars("a")), Rank::After);
    assert_eq!(rank_chars(&chars("Z"), &chars("a")), Rank::Before);
    assert_eq!(rank_chars(&chars("é"), &chars("z")), Rank::After);
}

#[test]
fn env_vars_come_out_in_the_order_of_their_names() {
    let mut env = EnvVars::default();
    assert!(env.iter().is_empty());
    env.insert("PATH", "/bin");
    env.insert("HOME", "/home/u");
    env.insert("PATH", "/usr/bin");
    let copy = env.duplicate();
    env.insert("A", "");
    assert_eq!(
        env.iter(),
        vec![
            ("A".to_string(), "".to_string()),
            ("HOME".to_string(), "/home/u".to_string()),
            ("PATH".to_string(), "/usr/bin".to_string())
        ]
    );
    assert_eq!(copy.iter().len(), 2);
}

#[test]
fn host_lookups_take_the_first_entry() {
    let mut host = Host::new(Platform::Linux);
    assert_eq!(host.var("X"), None);
    assert!(!host.is_dir("/d"));
    assert!(!host.is_file("/f"));
    assert_eq!(host.read_to_string("/f"), None);
    assert_eq!(host.read_dir("/d"), None);
    host.push_var("X", "1");
    host.push_var("X", "2");
    host.push_dir("/d", vec!["a".to_string()]);
    host.push_dir("/d", vec![]);
    host.push_file("/f", Some("text".to_string()));
    host.push_file("/f", None);
    host.push_file("/g", None);
    host.push_registry("K", "v");
    assert_eq!(host.var("X"), Some("1".to_string()));
    assert_eq!(host.var("x"), None);
    assert!(host.is_dir("/d"));
    assert!(!host.is_dir("/d/"));
    assert!(!host.is_file("/d"));
    assert_eq!(host.read_dir("/d"), Some(&vec!["a".to_string()]));
    assert!(host.is_file("/f"));
    assert_eq!(host.read_to_string("/f"), Some("text".to_string()));
    assert!(host.is_file("/g"));
    assert_eq!(host.read_to_string("/g"), None);
    assert_eq!(host.registry_value("K"), Some("v".to_string()));
    assert_eq!(host.registry_value("k"), None);
}

#[test]
fn text_conversions_and_searches() {
    assert_eq!(to_chars("añ→"), vec!['a', 'ñ', '→']);
    assert_eq!(from_chars(&['a', 'ñ', '→']), "añ→");
    assert_eq!(from_chars(&[]), "");
    assert_eq!(concat_str("ab", "cd"), "abcd");
    assert_eq!(concat_str("", ""), "");
    assert!(str_eq("a", "a"));
    assert!(!str_eq("a", "A"));
    assert!(str_contains("hello", "ell"));
    assert!(str_contains("hello", ""));
    assert!(!str_contains("hello", "elo"));
    let s = chars("abcabc");
    assert_eq!(find_from(&s, 0, &chars("bc")), Some(1));
    assert_eq!(find_from(&s, 2, &chars("bc")), Some(4));
    assert_eq!(find_from(&s, 5, &chars("bc")), None);
    assert_eq!(find_from(&s, 6, &chars("")), Some(6));
    assert_eq!(find_from(&s, 7, &chars("")), None);
    assert_eq!(find_from(&s, 0, &chars("abcabcd")), None);
    assert!(starts_with_at(&s, 3, &chars("abc")));
    assert!(!starts_with_at(&s, 4, &chars("abc")));
    assert!(contains_chars(&s, &chars("ca")));
    assert_eq!(slice_chars(&s, 1, 3), vec!['b', 'c']);
    assert_eq!(replace_all("a%verb%b%verb%", "%verb%", "run"), "arunbrun");
    assert_eq!(replace_all("aaa", "aa", "b"), "ba");
    assert_eq!(replace_all("", "x", "y"), "");
    assert_eq!(decimal_string(0), "0");
    assert_eq!(decimal_string(9), "9");
    assert_eq!(decimal_string(10), "10");
    assert_eq!(decimal_string(107410), "107410");
}

#[test]
fn character_classes() {
    assert!(is_space_char(' ') && is_space_char('\t') && is_space_char('\n'));
    assert!(is_space_char('\r') && is_space_char('\x0C'));
    assert!(!is_space_char('\x0B') && !is_space_char('a') && !is_space_char('\u{a0}'));
    assert!(is_white_char('\x0B') && is_white_char('\u{a0}') && is_white_char('\u{3000}'));
    assert!(!is_white_char('a') && !is_white_char('\u{200b}'));
    assert!(is_alnum_char('a') && is_alnum_char('Z') && is_alnum_char('0') && is_alnum_char('9'));
    assert!(!is_alnum_char('_') && !is_alnum_char('é') && !is_alnum_char(';'));
}

#[test]
fn trims() {
    assert_eq!(trim_str("  a b \n", Trim::White), "a b");
    assert_eq!(trim_str("   ", Trim::White), "");
    assert_eq!(trim_str("", Trim::White), "");
    assert_eq!(trim_str("\"\"a\"b\"", Trim::Quotes), "a\"b");
    assert_eq!(trim_str("\"", Trim::Quotes), "");
    assert_eq!(trim_str(" \"a\" ", Trim::Quotes), " \"a\" ");
}

#[test]
fn words_are_split_at_white_space_outside_quotes() {
    assert_eq!(shlex_split("a b  c"), vec!["a", "b", "c"]);
    assert_eq!(shlex_split("  "), Vec::<String>::new());
    assert_eq!(shlex_split(""), Vec::<String>::new());
    assert_eq!(shlex_split("'a b' \"c d\" e'f'g"), vec!["a b", "c d", "efg"]);
    assert_eq!(shlex_split("\"a \\\" b\" c\\d"), vec!["a \" b", "c\\d"]);
    assert_eq!(shlex_split("'a \\' b"), vec!["a \\", "b"]);
    assert_eq!(shlex_split("\"it's\" 'say \"x\"'"), vec!["it's", "say \"x\""]);
    assert_eq!(shlex_split("\"open end"), vec!["open end"]);
    assert_eq!(shlex_split("'' a"), vec!["a"]);
    assert_eq!(shlex_split("/proton %verb%"), vec!["/proton", "%verb%"]);
}

#[test]
fn steam_executable_on_windows() {
    let mut host = Host::new(Platform::Windows);
    assert_eq!(detect_steam_exe(&host), "steam");
    host.push_file("C:\\Program Files\\Steam\\steam.exe", None);
    assert_eq!(detect_steam_exe(&host), "C:\\Program Files\\Steam\\steam.exe");
    host.push_file("C:\\Program Files (x86)\\Steam\\steam.exe", None);
    assert_eq!(detect_steam_exe(&host), "C:\\Program Files (x86)\\Steam\\steam.exe");
    host.push_registry("HKEY_LOCAL_MACHINE\\Software\\Valve\\Steam\\SteamPath", "D:\\Steam");
    assert_eq!(detect_exe_from_registry(&host, Hive::LocalMachine), None);
    host.push_file("D:\\Steam\\steam.exe", None);
    assert_eq!(
        detect_exe_from_registry(&host, Hive::LocalMachine),
        Some("D:\\Steam\\steam.exe".to_string())
    );
    assert_eq!(detect_exe_from_registry(&host, Hive::CurrentUser), None);
    assert_eq!(detect_steam_exe(&host), "D:\\Steam\\steam.exe");
    host.push_registry("HKEY_CURRENT_USER\\Software\\Valve\\Steam\\SteamExe", "\"E:\\s.exe\"");
    host.push_file("E:\\s.exe", None);
    assert_eq!(detect_steam_exe(&host), "E:\\s.exe");
    host.push_var("STEAM_EXE", "F:\\missing.exe");
    assert_eq!(detect_steam_exe(&host), "E:\\s.exe");
    let other = Host::new(Platform::Other);
    assert_eq!(detect_steam_exe(&other), "steam");
}

#[test]
fn runtime_parts_lie_under_the_steam_root() {
    let mut host = Host::new(Platform::Linux);
    assert_eq!(linux_overlay_so(&host), None);
    assert_eq!(steam_runtime_runsh(&host), None);
    host.push_var("STEAM_ROOT", "/s");
    host.push_dir("/s/steamapps", vec![]);
    assert_eq!(linux_overlay_so(&host), None);
    host.push_file("/s/linux64/gameoverlayrenderer.so", None);
    assert_eq!(linux_overlay_so(&host), Some("/s/linux64/gameoverlayrenderer.so".to_string()));
    host.push_file("/s/ubuntu12_64/gameoverlayrenderer.so", None);
    assert_eq!(
        linux_overlay_so(&host),
        Some("/s/ubuntu12_64/gameoverlayrenderer.so".to_string())
    );
    host.push_file("/s/ubuntu12_32/steam-runtime/run.sh", None);
    assert_eq!(
        steam_runtime_runsh(&host),
        Some("/s/ubuntu12_32/steam-runtime/run.sh".to_string())
    );
}

#[test]
fn every_error_has_its_text() {
    let m = || "m".to_string();
    let cases = vec![
        (Arma3Error::InvalidInstallDir { path: m() }, "invalid Arma 3 install directory: m"),
        (
            Arma3Error::ExecutableNotFound { install_dir: m() },
            "arma executable not found in install directory: m",
        ),
        (
            Arma3Error::WorkshopDirMissing,
            "workshop directory is required for workshop IDs but was not configured",
        ),
        (
            Arma3Error::InvalidModDir { path: m() },
            "invalid mod directory: m (expected an 'addons' directory inside)",
        ),
        (
            Arma3Error::SteamNotFound,
            "steam installation could not be detected (required for Proton direct launch)",
        ),
        (Arma3Error::SteamConfig { message: m() }, "steam config error: m"),
        (Arma3Error::CompatConfigMissing { message: m() }, "steam config error: m"),
        (Arma3Error::ToolNotFound { message: m() }, "steam config error: m"),
        (Arma3Error::ManifestInvalid { message: m() }, "steam config error: m"),
        (Arma3Error::EmptyCommandLine, "steam config error: empty tool commandline"),
        (Arma3Error::MalformedBlock { message: m() }, "config parsing error: m"),
        (Arma3Error::Parse { message: m() }, "config parsing error: m"),
        (Arma3Error::UnsupportedPlatform { message: m() }, "config parsing error: m"),
        (Arma3Error::Io { message: m() }, "m"),
        (Arma3Error::Spawn { message: m() }, "failed to spawn process: m"),
    ];
    for (err, text) in cases {
        assert_eq!(err.message(), text);
    }
}
