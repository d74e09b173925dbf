//! Tests for paths as text.
use arma3_launcher::platform::path::{
    file_name, join, launcher_full_path, parent, path_is_absolute,
};
use arma3_launcher::steam::paths::{
    arma3_game_dir_in_library, compatdata_dir_in_library, steam_library_root_from_game_dir,
    workshop_content_dir_in_library,
};
use arma3_launcher::{arma_path_arg, arma_path_string, Platform};

#[test]
fn path_under_proton_uses_backslashes_and_the_proton_drive() {
    assert_eq!(arma_path_arg("/home/u/mods/@ace", true), "Z:\\home\\u\\mods\\@ace");
    assert_eq!(arma_path_arg("mods/@ace", true), "mods\\@ace");
    assert_eq!(arma_path_arg("", true), "");
    assert_eq!(arma_path_arg("/", true), "Z:\\");
}

#[test]
fn path_without_proton_is_not_changed() {
    assert_eq!(arma_path_arg("/home/u/mods/@ace", false), "/home/u/mods/@ace");
    assert_eq!(arma_path_arg("mods/@ace", false), "mods/@ace");
    assert_eq!(arma_path_arg("C:\\x", false), "C:\\x");
}

#[test]
fn path_on_windows_is_handed_on() {
    assert_eq!(arma_path_string(Platform::Windows, "C:/Games/@x", true), "C:/Games/@x");
    assert_eq!(arma_path_string(Platform::Linux, "/g/@x", true), "Z:\\g\\@x");
    assert_eq!(arma_path_string(Platform::Linux, "/g/@x", false), "/g/@x");
}

#[test]
fn legacy_full_path_uses_the_native_drive_without_proton() {
    assert_eq!(launcher_full_path(Platform::Linux, "/g/@x", false), "C:\\g\\@x");
    assert_eq!(launcher_full_path(Platform::Linux, "/g/@x", true), "Z:\\g\\@x");
    assert_eq!(launcher_full_path(Platform::Linux, "g/@x", false), "g\\@x");
    assert_eq!(launcher_full_path(Platform::Windows, "C:\\g", false), "C:\\g");
}

#[test]
fn join_puts_one_separator() {
    assert_eq!(join(Platform::Linux, "/a", "b"), "/a/b");
    assert_eq!(join(Platform::Linux, "/a/", "b"), "/a/b");
    assert_eq!(join(Platform::Linux, "", "b"), "b");
    assert_eq!(join(Platform::Linux, "/a", "/b"), "/b");
    assert_eq!(join(Platform::Linux, "/a", ""), "/a/");
    assert_eq!(join(Platform::Windows, "C:\\a", "b"), "C:\\a\\b");
    assert_eq!(join(Platform::Windows, "C:\\a", "D:\\b"), "D:\\b");
}

#[test]
fn absolute_paths_by_platform() {
    assert!(path_is_absolute(Platform::Linux, "/a"));
    assert!(!path_is_absolute(Platform::Linux, "a/b"));
    assert!(!path_is_absolute(Platform::Linux, ""));
    assert!(path_is_absolute(Platform::Windows, "C:\\a"));
    assert!(path_is_absolute(Platform::Windows, "\\\\server\\share"));
    assert!(!path_is_absolute(Platform::Windows, "a\\b"));
    assert!(!path_is_absolute(Platform::Windows, "/a"));
}

#[test]
fn parent_and_file_name() {
    assert_eq!(parent(Platform::Linux, "/a/b/c"), Some("/a/b".to_string()));
    assert_eq!(parent(Platform::Linux, "/a/b/c/"), Some("/a/b".to_string()));
    assert_eq!(parent(Platform::Linux, "/a"), Some("/".to_string()));
    assert_eq!(parent(Platform::Linux, "a"), Some("".to_string()));
    assert_eq!(parent(Platform::Linux, "/"), None);
    assert_eq!(parent(Platform::Linux, ""), None);
    assert_eq!(file_name(Platform::Linux, "/a/b/c"), Some("c".to_string()));
    assert_eq!(file_name(Platform::Linux, "/a/b/c//"), Some("c".to_string()));
    assert_eq!(file_name(Platform::Linux, "/a/.."), None);
    assert_eq!(file_name(Platform::Linux, "/"), None);
    assert_eq!(file_name(Platform::Windows, "C:\\a\\b.exe"), Some("b.exe".to_string()));
    assert_eq!(file_name(Platform::Linux, "C:\\a\\b.exe"), Some("C:\\a\\b.exe".to_string()));
}

#[test]
fn library_layout() {
    let p = Platform::Linux;
    assert_eq!(arma3_game_dir_in_library(p, "/lib"), "/lib/steamapps/common/Arma 3");
    assert_eq!(compatdata_dir_in_library(p, "/lib"), "/lib/steamapps/compatdata/107410");
    assert_eq!(
        workshop_content_dir_in_library(p, "/lib"),
        "/lib/steamapps/workshop/content/107410"
    );
    assert_eq!(
        steam_library_root_from_game_dir(p, "/lib/steamapps/common/Arma 3"),
        Some("/lib".to_string())
    );
    assert_eq!(steam_library_root_from_game_dir(p, "/lib/steamapps/other/Arma 3"), None);
    assert_eq!(steam_library_root_from_game_dir(p, "/lib/apps/common/Arma 3"), None);
    assert_eq!(steam_library_root_from_game_dir(p, "Arma 3"), None);
}
