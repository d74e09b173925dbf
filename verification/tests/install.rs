//! Tests for validating and finding installations.
use arma3_launcher::detect::{find_install_dir, infer_game_dir_from_exe};
use arma3_launcher::steam::detect::{detect_steam_root, is_flatpak_steam};
use arma3_launcher::steam::library::{detect_steam_library_roots, library_path_key};
use arma3_launcher::{
    detect_arma3_install_candidates, detect_arma3_install_path, detect_best_install,
    detect_install_candidates, Arma3Error, Arma3Install, Host, InstallKind, Platform,
};

fn add_game(host: &mut Host, dir: &str, exe: &str) {
    host.push_dir(dir, vec![exe.to_string()]);
    let sep = if host.platform == Platform::Windows { "\\" } else { "/" };
    host.push_file(&format!("{dir}{sep}{exe}"), None);
}

#[test]
fn install_kind_follows_the_executable() {
    let mut host = Host::new(Platform::Linux);
    add_game(&mut host, "/native", "arma3.x86_64");
    add_game(&mut host, "/proton", "arma3_x64.exe");
    add_game(&mut host, "/both", "arma3_x64.exe");
    host.push_file("/both/arma3.x86_64", None);
    add_game(&mut host, "/old", "arma3.exe");

    let native = Arma3Install::new(&host, "/native", None).unwrap();
    assert_eq!(native.kind(), InstallKind::LinuxNative);
    assert_eq!(native.executable(), "/native/arma3.x86_64");
    assert_eq!(native.game_dir(), "/native");
    assert_eq!(native.workshop_dir(), None);
    assert!(!native.is_proton());

    let proton = Arma3Install::new(&host, "/proton", Some("/ws".to_string())).unwrap();
    assert_eq!(proton.kind(), InstallKind::LinuxProton);
    assert_eq!(proton.executable(), "/proton/arma3_x64.exe");
    assert_eq!(proton.workshop_dir(), Some("/ws"));
    assert!(proton.is_proton());

    assert_eq!(Arma3Install::new(&host, "/both", None).unwrap().kind(), InstallKind::LinuxNative);
    assert!(matches!(
        Arma3Install::new(&host, "/old", None).unwrap_err(),
        Arma3Error::ExecutableNotFound { .. }
    ));
}

#[test]
fn install_on_windows() {
    let mut host = Host::new(Platform::Windows);
    add_game(&mut host, "C:\\g64", "arma3_x64.exe");
    add_game(&mut host, "C:\\g32", "arma3.exe");
    add_game(&mut host, "C:\\linux", "arma3.x86_64");
    let a = Arma3Install::new(&host, "C:\\g64", None).unwrap();
    assert_eq!(a.kind(), InstallKind::WindowsNative);
    assert_eq!(a.executable(), "C:\\g64\\arma3_x64.exe");
    let b = Arma3Install::new(&host, "C:\\g32", None).unwrap();
    assert_eq!(b.kind(), InstallKind::WindowsNative);
    assert_eq!(b.executable(), "C:\\g32\\arma3.exe");
    assert!(Arma3Install::new(&host, "C:\\linux", None).is_err());

    host.documents = Some("C:\\Users\\u\\Documents".to_string());
    assert_eq!(
        a.default_cfg_path(&host).unwrap(),
        "C:\\Users\\u\\Documents\\Arma 3\\Arma3.cfg"
    );
    host.documents = None;
    assert_eq!(
        a.default_cfg_path(&host).unwrap_err().message(),
        "config parsing error: cannot locate Documents directory"
    );
}

#[test]
fn install_errors_name_the_directory() {
    let mut host = Host::new(Platform::Linux);
    host.push_dir("/empty", vec![]);
    host.push_file("/file", None);
    let err = Arma3Install::new(&host, "/missing", None).unwrap_err();
    match &err {
        Arma3Error::InvalidInstallDir { path } => assert_eq!(path, "/missing"),
        other => panic!("unexpected error {other:?}"),
    }
    assert_eq!(err.message(), "invalid Arma 3 install directory: /missing");
    assert!(matches!(
        Arma3Install::new(&host, "/file", None).unwrap_err(),
        Arma3Error::InvalidInstallDir { .. }
    ));
    let err = Arma3Install::new(&host, "/empty", None).unwrap_err();
    match &err {
        Arma3Error::ExecutableNotFound { install_dir } => assert_eq!(install_dir, "/empty"),
        other => panic!("unexpected error {other:?}"),
    }
    assert_eq!(err.message(), "arma executable not found in install directory: /empty");

    let mut other = Host::new(Platform::Other);
    add_game(&mut other, "/g", "arma3.x86_64");
    assert!(matches!(
        Arma3Install::new(&other, "/g", None).unwrap_err(),
        Arma3Error::ExecutableNotFound { .. }
    ));
}

#[test]
fn default_cfg_paths_on_linux() {
    let mut host = Host::new(Platform::Linux);
    add_game(&mut host, "/lib/steamapps/common/Arma 3", "arma3_x64.exe");
    add_game(&mut host, "/odd/Arma 3", "arma3_x64.exe");
    add_game(&mut host, "/native", "arma3.x86_64");
    let a = Arma3Install::new(&host, "/lib/steamapps/common/Arma 3", None).unwrap();
    assert_eq!(
        a.default_cfg_path(&host).unwrap(),
        "/lib/steamapps/compatdata/107410/pfx/drive_c/users/steamuser/My Documents/Arma 3/Arma3.cfg"
    );
    let b = Arma3Install::new(&host, "/odd/Arma 3", None).unwrap();
    assert_eq!(
        b.default_cfg_path(&host).unwrap(),
        "/odd/Arma 3/../../../steamapps/compatdata/107410/pfx/drive_c/users/steamuser/My Documents/Arma 3/Arma3.cfg"
    );
    let c = Arma3Install::new(&host, "/native", None).unwrap();
    assert_eq!(
        c.default_cfg_path(&host).unwrap_err().message(),
        "config parsing error: HOME environment variable is not set"
    );
    host.push_var("HOME", "/home/u");
    assert_eq!(
        c.default_cfg_path(&host).unwrap(),
        "/home/u/.local/share/bohemiainteractive/arma3/GameDocuments/Arma 3/Arma3.cfg"
    );
    let mut win = host.clone();
    win.platform = Platform::Windows;
    assert_eq!(
        a.default_cfg_path(&win).unwrap_err().message(),
        "config parsing error: LinuxProton cfg path is only supported on Linux builds"
    );
    assert_eq!(
        c.default_cfg_path(&win).unwrap_err().message(),
        "config parsing error: home_dir() is not supported on this platform"
    );
}

#[test]
fn steam_root_detection() {
    let mut host = Host::new(Platform::Linux);
    assert_eq!(detect_steam_root(&host), None);
    host.push_var("HOME", "/home/u");
    assert_eq!(detect_steam_root(&host), None);
    host.push_dir("/home/u/.local/share/Steam/steamapps", vec![]);
    assert_eq!(detect_steam_root(&host), Some("/home/u/.local/share/Steam".to_string()));
    host.push_file("/home/u/.steam/root/config/config.vdf", None);
    assert_eq!(detect_steam_root(&host), Some("/home/u/.steam/root".to_string()));
    host.push_var("STEAM_ROOT", "/custom");
    assert_eq!(detect_steam_root(&host), Some("/home/u/.steam/root".to_string()));
    host.push_dir("/custom/steamapps", vec![]);
    assert_eq!(detect_steam_root(&host), Some("/custom".to_string()));
    assert!(!is_flatpak_steam(&host));
}

#[test]
fn steam_root_detection_on_windows() {
    let mut host = Host::new(Platform::Windows);
    assert_eq!(detect_steam_root(&host), None);
    host.push_dir("C:\\Program Files\\Steam\\steamapps", vec![]);
    assert_eq!(detect_steam_root(&host), Some("C:\\Program Files\\Steam".to_string()));
    host.push_registry(
        "HKEY_LOCAL_MACHINE\\Software\\Valve\\Steam\\SteamExe",
        "\"D:\\Steam\\steam.exe\"",
    );
    host.push_dir("D:\\Steam\\steamapps", vec![]);
    assert_eq!(detect_steam_root(&host), Some("D:\\Steam".to_string()));
    host.push_registry("HKEY_CURRENT_USER\\Software\\Valve\\Steam\\SteamPath", "E:/Steam");
    assert_eq!(detect_steam_root(&host), Some("D:\\Steam".to_string()));
    host.push_dir("E:/Steam\\steamapps", vec![]);
    assert_eq!(detect_steam_root(&host), Some("E:/Steam".to_string()));
}

#[test]
fn library_roots_come_from_the_list() {
    let mut host = Host::new(Platform::Linux);
    host.push_var("STEAM_ROOT", "/steam");
    host.push_dir("/steam/steamapps", vec![]);
    host.push_dir("/lib2/steamapps", vec![]);
    host.push_dir("/lib3/steamapps", vec![]);
    assert_eq!(detect_steam_library_roots(&host), vec!["/steam"]);
    host.push_file(
        "/steam/steamapps/libraryfolders.vdf",
        Some(
            r#""libraryfolders" { "0" { "path" "/steam" "label" "" } "2" { "path" "/lib3" } "1" { "path" "/lib2" } "3" { "path" "/gone" } "4" { "apps" { "path" "/lib4" } } }"#
                .to_string(),
        ),
    );
    assert_eq!(detect_steam_library_roots(&host), vec!["/steam", "/lib2", "/lib3"]);
    assert!(library_path_key("libraryfolders/0/path"));
    assert!(library_path_key("libraryfolders//path"));
    assert!(library_path_key("libraryfolders/0/path/more"));
    assert!(!library_path_key("libraryfolders/0/pathology"));
    assert!(!library_path_key("libraryfolders/0/apps/path"));
    assert!(!library_path_key("other/0/path"));
    assert!(!library_path_key("libraryfolders/path"));
}

#[test]
fn install_candidates_are_valid_and_unique() {
    let mut host = Host::new(Platform::Linux);
    assert!(detect_arma3_install_candidates(&host).is_empty());
    assert_eq!(detect_arma3_install_path(&host), None);
    assert!(detect_best_install(&host).is_none());

    host.push_var("HOME", "/home/u");
    host.push_var("ARMA3_DIR", "/custom/Arma 3");
    host.push_dir("/home/u/.steam/steam/steamapps", vec![]);
    add_game(&mut host, "/home/u/.steam/steam/steamapps/common/Arma 3", "arma3.x86_64");
    add_game(&mut host, "/home/u/.local/share/Steam/steamapps/common/Arma 3", "arma3_x64.exe");
    host.push_dir("/home/u/.steam/root/steamapps/common/Arma 3", vec![]);
    assert_eq!(
        detect_arma3_install_candidates(&host),
        vec![
            "/home/u/.steam/steam/steamapps/common/Arma 3",
            "/home/u/.local/share/Steam/steamapps/common/Arma 3"
        ]
    );
    add_game(&mut host, "/custom/Arma 3", "arma3.x86_64");
    let found = detect_install_candidates(&host);
    assert_eq!(found.len(), 3);
    assert_eq!(found[0].game_dir(), "/custom/Arma 3");
    assert_eq!(found[2].kind(), InstallKind::LinuxProton);
    assert_eq!(detect_arma3_install_path(&host), Some("/custom/Arma 3".to_string()));
    assert_eq!(detect_best_install(&host).unwrap().game_dir(), "/custom/Arma 3");
    assert_eq!(find_install_dir(&host, None), Some("/custom/Arma 3".to_string()));
    assert_eq!(find_install_dir(&host, Some("/given".to_string())), Some("/given".to_string()));
    assert_eq!(
        infer_game_dir_from_exe(Platform::Linux, "/custom/Arma 3/arma3.x86_64"),
        Some("/custom/Arma 3".to_string())
    );
}
