//! Tests for parsing Valve's key-value format.
use arma3_launcher::Vdf;

#[test]
fn parses_basic_vdf() {
    let txt = r#"
"InstallConfigStore"
{
  "Software"
  {
    "Valve"
    {
      "Steam"
      {
        "CompatToolMapping"
        {
          "107410"
          {
            "name" "GE-Proton"
          }
        }
      }
    }
  }
}
"#;

    let vdf = Vdf::parse(txt).unwrap();
    let vals = vdf.values_with_filter("CompatToolMapping/107410/name");
    assert_eq!(vals, vec!["GE-Proton".to_string()]);
}

#[test]
fn parses_nested_sections_to_flat_paths() {
    let vdf = Vdf::parse(r#""A" { "B" { "c" "1" } }"#).unwrap();
    assert_eq!(vdf.get("A/B/c"), Some(&"1".to_string()));
    assert_eq!(vdf.kv.len(), 1);
    assert_eq!(vdf.get("A/B"), None);
    assert_eq!(vdf.get("c"), None);
}

#[test]
fn parse_fails_on_unclosed_section() {
    let err = Vdf::parse(r#""A" { "b" "1""#).unwrap_err();
    assert!(matches!(err, arma3_launcher::Arma3Error::SteamConfig { .. }));
    assert_eq!(err.message(), "steam config error: unclosed braces in VDF");
}

#[test]
fn parse_of_empty_text_is_empty() {
    let vdf = Vdf::parse("").unwrap();
    assert!(vdf.kv.is_empty());
    let vdf = Vdf::parse(" \n\t ").unwrap();
    assert!(vdf.kv.is_empty());
}

#[test]
fn parse_unescapes_backslash_and_quote() {
    let vdf = Vdf::parse(r#""path" "C:\\Games\\\"Arma\"""#).unwrap();
    assert_eq!(vdf.get("path"), Some(&r#"C:\Games\"Arma""#.to_string()));
}

#[test]
fn parse_keeps_the_value_written_last() {
    let vdf = Vdf::parse(r#""a" "1" "a" "2""#).unwrap();
    assert_eq!(vdf.get("a"), Some(&"2".to_string()));
    assert_eq!(vdf.kv.len(), 1);
}

#[test]
fn parse_ignores_text_outside_quotes() {
    let vdf = Vdf::parse("junk \"k\" \"v\" more // words\n").unwrap();
    assert_eq!(vdf.get("k"), Some(&"v".to_string()));
    assert_eq!(vdf.kv.len(), 1);
}

#[test]
fn parse_ignores_a_stray_closing_brace() {
    let vdf = Vdf::parse("} \"k\" \"v\"").unwrap();
    assert_eq!(vdf.get("k"), Some(&"v".to_string()));
}

#[test]
fn parse_uses_a_pending_key_for_a_later_brace() {
    let vdf = Vdf::parse("\"A\" x { \"k\" \"v\" }").unwrap();
    assert_eq!(vdf.get("A/k"), Some(&"v".to_string()));
}

#[test]
fn parse_reads_a_token_cut_short_by_the_end() {
    let vdf = Vdf::parse("\"k\" \"unfinished").unwrap();
    assert_eq!(vdf.get("k"), Some(&"unfinished".to_string()));
}

#[test]
fn values_with_filter_come_in_the_order_of_their_paths() {
    let vdf = Vdf::parse(r#""z" { "name" "last" } "a" { "name" "first" } "m" { "other" "x" }"#)
        .unwrap();
    assert_eq!(
        vdf.values_with_filter("name"),
        vec!["first".to_string(), "last".to_string()]
    );
    assert_eq!(vdf.values_with_filter("/"), vec!["first", "x", "last"]);
    assert!(vdf.values_with_filter("absent").is_empty());
}

#[test]
fn round_trip_of_written_pairs() {
    let text = "\"Root\"\n{\n\"one\" \"1\"\n\"Sub\"\n{\n\"two\" \"a \\\"b\\\" \\\\ c\"\n}\n\"three\" \"3\"\n}\n\"top\" \"t\"\n";
    let vdf = Vdf::parse(text).unwrap();
    assert_eq!(vdf.get("Root/one"), Some(&"1".to_string()));
    assert_eq!(vdf.get("Root/Sub/two"), Some(&"a \"b\" \\ c".to_string()));
    assert_eq!(vdf.get("Root/three"), Some(&"3".to_string()));
    assert_eq!(vdf.get("top"), Some(&"t".to_string()));
    assert_eq!(vdf.kv.len(), 4);
}
