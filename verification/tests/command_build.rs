//! Tests for planning a launch and for the text of the settings file.
use arma3_launcher::launch::backend::proton::{build_proton_command, missing_libpng12};
use arma3_launcher::launch::backend::{Backend, BackendParams};
use arma3_launcher::{
    build_command, Arma3Error, Arma3Install, CfgMode, CommandSpec, EnvVars, Host, InstallKind,
    LaunchMode, Launcher, LocalMod, ModSet, Platform,
};

const GAME: &str = "/lib/steamapps/common/Arma 3";
const ROOT: &str = "/home/u/.steam/steam";

fn strings(v: &[&str]) -> Vec<String> {
    v.iter().map(|s| s.to_string()).collect()
}

fn native_host() -> Host {
    let mut host = Host::new(Platform::Linux);
    host.push_var("HOME", "/home/u");
    host.push_dir(GAME, strings(&["arma3.x86_64"]));
    host.push_file("/lib/steamapps/common/Arma 3/arma3.x86_64", None);
    host
}

fn proton_host(commandline: &str) -> Host {
    let mut host = Host::new(Platform::Linux);
    host.push_var("HOME", "/home/u");
    host.push_dir(GAME, strings(&["arma3_x64.exe"]));
    host.push_file("/lib/steamapps/common/Arma 3/arma3_x64.exe", None);
    host.push_dir("/home/u/.steam/steam/steamapps", vec![]);
    host.push_file(
        "/home/u/.steam/steam/config/config.vdf",
        Some(
            r#""InstallConfigStore" { "Software" { "Valve" { "Steam" { "CompatToolMapping" { "107410" { "name" "GE-Proton" } } } } } }"#
                .to_string(),
        ),
    );
    host.push_dir("/home/u/.steam/steam/compatibilitytools.d/GE-Proton", vec![]);
    host.push_file(
        "/home/u/.steam/steam/compatibilitytools.d/GE-Proton/toolmanifest.vdf",
        Some(format!("\"manifest\" {{ \"commandline\" \"{commandline}\" }}")),
    );
    host.push_file("/usr/lib/libpng12.so.0", None);
    host
}

fn pairs(v: &[(&str, &str)]) -> Vec<(String, String)> {
    v.iter().map(|(k, w)| (k.to_string(), w.to_string())).collect()
}

#[test]
fn builds_through_steam_plan() {
    let host = native_host();
    let install = Arma3Install::new(&host, GAME, None).unwrap();

    let launcher = Launcher::new(install)
        .launch_mode(LaunchMode::ThroughSteam)
        .cfg_path_override("/tmp/Arma3.cfg")
        .arg("-noSplash");

    let plan = launcher.plan(&host).unwrap();
    let program = plan.program();
    assert!(program.contains("steam") || program.contains("flatpak"));
    assert!(plan.args().iter().any(|a| a == "-applaunch"));
    assert!(plan.args().iter().any(|a| a == "107410"));
    assert!(plan.args().iter().any(|a| a == "-noSplash"));
}

#[test]
fn writes_cfg_for_enabled_mods() {
    let mut host = native_host();
    host.push_dir("/mods/@mymod", strings(&["addons", "mod.cpp"]));
    host.push_dir("/mods/@mymod/addons", strings(&["stub.pbo"]));
    host.push_file("/mods/@mymod/addons/stub.pbo", None);
    host.push_file("/mods/@mymod/mod.cpp", Some(r#"name="My Mod";"#.to_string()));

    let install = Arma3Install::new(&host, GAME, None).unwrap();
    let mut mods = ModSet::new();
    mods.push(LocalMod::new(&host, "/mods/@mymod").unwrap());

    let launcher = Launcher::new(install)
        .cfg_path_override("/tmp/Arma3.cfg")
        .mods(mods);

    let plan = launcher.plan(&host).unwrap();
    let text = plan.cfg_text();
    assert!(text.contains("class ModLauncherList"));
    assert!(text.contains("My Mod"));
    assert_eq!(plan.cfg_path(), "/tmp/Arma3.cfg");
    assert_eq!(
        text,
        "class ModLauncherList\n{\n    class Mod1\n    {\n        dir=\"@mymod\";\n        name=\"My Mod\";\n        origin=\"GAME DIR\";\n        fullPath=\"/mods/@mymod\";\n    };\n};\n"
    );
}

#[test]
fn steam_plan_puts_the_fixed_arguments_before_the_users() {
    let host = native_host();
    let install = Arma3Install::new(&host, GAME, None).unwrap();
    let spec = build_command(
        &host,
        &install,
        LaunchMode::ThroughSteam,
        false,
        &strings(&["-noSplash", "-world=empty"]),
        &EnvVars::new(),
        None,
    )
    .unwrap();
    assert_eq!(
        spec,
        CommandSpec {
            program: "steam".to_string(),
            args: strings(&["-applaunch", "107410", "-nolauncher", "-noSplash", "-world=empty"]),
            cwd: Some(GAME.to_string()),
            env: vec![],
        }
    );
}

#[test]
fn steam_plan_goes_through_flatpak() {
    let mut host = native_host();
    host.push_var("FLATPAK_ID", "com.valvesoftware.Steam");
    let install = Arma3Install::new(&host, GAME, None).unwrap();
    let spec = build_command(
        &host,
        &install,
        LaunchMode::ThroughSteam,
        true,
        &strings(&["-x"]),
        &EnvVars::new(),
        Some("/work"),
    )
    .unwrap();
    assert_eq!(spec.program, "flatpak");
    assert_eq!(
        spec.args,
        strings(&["run", "com.valvesoftware.Steam", "-applaunch", "107410", "-nolauncher", "-x"])
    );
    assert_eq!(spec.cwd, Some("/work".to_string()));

    let mut host = native_host();
    host.push_dir("/home/u/.var/app/com.valvesoftware.Steam", vec![]);
    let spec = build_command(
        &host,
        &install,
        LaunchMode::ThroughSteam,
        false,
        &vec![],
        &EnvVars::new(),
        None,
    )
    .unwrap();
    assert_eq!(spec.program, "flatpak");
}

#[test]
fn steam_plan_uses_the_detected_executable() {
    let mut host = native_host();
    host.push_file("/usr/bin/steam", None);
    let install = Arma3Install::new(&host, GAME, None).unwrap();
    let spec = build_command(
        &host,
        &install,
        LaunchMode::ThroughSteam,
        false,
        &vec![],
        &EnvVars::new(),
        None,
    )
    .unwrap();
    assert_eq!(spec.program, "/usr/bin/steam");

    host.push_dir("/home/u/.steam/steam/steamapps", vec![]);
    host.push_file("/home/u/.steam/steam/steam.sh", None);
    let spec = build_command(
        &host,
        &install,
        LaunchMode::ThroughSteam,
        false,
        &vec![],
        &EnvVars::new(),
        None,
    )
    .unwrap();
    assert_eq!(spec.program, "/home/u/.steam/steam/steam.sh");

    host.push_var("STEAM_EXE", "/opt/steam/steam");
    host.push_file("/opt/steam/steam", None);
    let spec = build_command(
        &host,
        &install,
        LaunchMode::ThroughSteam,
        false,
        &vec![],
        &EnvVars::new(),
        None,
    )
    .unwrap();
    assert_eq!(spec.program, "/opt/steam/steam");
}

#[test]
fn direct_plan_runs_the_executable_with_sorted_variables() {
    let host = native_host();
    let install = Arma3Install::new(&host, GAME, None).unwrap();
    let mut env = EnvVars::new();
    env.insert("ZED", "1");
    env.insert("ALPHA", "2");
    env.insert("ZED", "3");
    let spec = build_command(
        &host,
        &install,
        LaunchMode::Direct,
        true,
        &strings(&["-noSplash"]),
        &env,
        None,
    )
    .unwrap();
    assert_eq!(
        spec,
        CommandSpec {
            program: "/lib/steamapps/common/Arma 3/arma3.x86_64".to_string(),
            args: strings(&["-noSplash"]),
            cwd: Some(GAME.to_string()),
            env: pairs(&[("ALPHA", "2"), ("ZED", "3")]),
        }
    );
}

#[test]
fn backend_is_chosen_by_mode_and_kind() {
    let host = native_host();
    let native = Arma3Install::new(&host, GAME, None).unwrap();
    let host = proton_host("proton %verb%");
    let proton = Arma3Install::new(&host, GAME, None).unwrap();
    assert_eq!(proton.kind(), InstallKind::LinuxProton);
    assert_eq!(Backend::select(LaunchMode::ThroughSteam, &native), Backend::Steam);
    assert_eq!(Backend::select(LaunchMode::ThroughSteam, &proton), Backend::Steam);
    assert_eq!(Backend::select(LaunchMode::Direct, &native), Backend::Direct);
    assert_eq!(Backend::select(LaunchMode::Direct, &proton), Backend::Proton);
}

#[test]
fn proton_plan_wraps_the_game_in_the_tools_command() {
    let host = proton_host("proton %verb% --opt 'two words' pre%verb%post");
    let install = Arma3Install::new(&host, GAME, None).unwrap();
    let mut env = EnvVars::new();
    env.insert("DXVK_HUD", "1");
    let spec = build_command(
        &host,
        &install,
        LaunchMode::Direct,
        false,
        &strings(&["-noSplash"]),
        &env,
        None,
    )
    .unwrap();
    assert_eq!(
        spec,
        CommandSpec {
            program: "/home/u/.steam/steam/compatibilitytools.d/GE-Proton/proton".to_string(),
            args: strings(&[
                "run",
                "--opt",
                "two words",
                "prerunpost",
                "/lib/steamapps/common/Arma 3/arma3_x64.exe",
                "-noSplash"
            ]),
            cwd: Some(GAME.to_string()),
            env: pairs(&[
                ("DXVK_HUD", "1"),
                ("STEAM_COMPAT_DATA_PATH", "/lib/steamapps/compatdata/107410"),
                ("SteamGameId", "107410"),
            ]),
        }
    );
}

#[test]
fn proton_plan_sets_esync_only_when_asked() {
    let host = proton_host("proton %verb%");
    let install = Arma3Install::new(&host, GAME, None).unwrap();
    let spec = build_command(
        &host,
        &install,
        LaunchMode::Direct,
        true,
        &vec![],
        &EnvVars::new(),
        None,
    )
    .unwrap();
    assert_eq!(
        spec.env,
        pairs(&[
            ("PROTON_NO_ESYNC", "1"),
            ("STEAM_COMPAT_DATA_PATH", "/lib/steamapps/compatdata/107410"),
            ("SteamGameId", "107410"),
        ])
    );
    assert_eq!(spec.args, strings(&["run", "/lib/steamapps/common/Arma 3/arma3_x64.exe"]));
}

#[test]
fn proton_plan_preloads_the_overlay_before_what_is_set() {
    let mut host = proton_host("proton %verb%");
    host.push_file("/home/u/.steam/steam/linux64/gameoverlayrenderer.so", None);
    let install = Arma3Install::new(&host, GAME, None).unwrap();
    let spec = build_command(
        &host,
        &install,
        LaunchMode::Direct,
        false,
        &vec![],
        &EnvVars::new(),
        None,
    )
    .unwrap();
    assert_eq!(
        spec.env[0],
        (
            "LD_PRELOAD".to_string(),
            "/home/u/.steam/steam/linux64/gameoverlayrenderer.so".to_string()
        )
    );

    host.push_var("LD_PRELOAD", "/lib/other.so");
    host.push_file("/home/u/.steam/steam/ubuntu12_64/gameoverlayrenderer.so", None);
    let spec = build_command(
        &host,
        &install,
        LaunchMode::Direct,
        false,
        &vec![],
        &EnvVars::new(),
        None,
    )
    .unwrap();
    assert_eq!(
        spec.env[0],
        (
            "LD_PRELOAD".to_string(),
            "/home/u/.steam/steam/ubuntu12_64/gameoverlayrenderer.so:/lib/other.so".to_string()
        )
    );
}

#[test]
fn proton_plan_goes_through_the_runtime_script_without_libpng() {
    let mut host = proton_host("proton %verb%");
    host.files.retain(|f| f.path != "/usr/lib/libpng12.so.0");
    assert!(missing_libpng12(&host));
    let install = Arma3Install::new(&host, GAME, None).unwrap();
    let spec = build_command(
        &host,
        &install,
        LaunchMode::Direct,
        false,
        &strings(&["-a"]),
        &EnvVars::new(),
        None,
    )
    .unwrap();
    assert_eq!(spec.program, "/home/u/.steam/steam/compatibilitytools.d/GE-Proton/proton");

    host.push_file("/home/u/.steam/steam/ubuntu12_32/steam-runtime/run.sh", None);
    let spec = build_command(
        &host,
        &install,
        LaunchMode::Direct,
        false,
        &strings(&["-a"]),
        &EnvVars::new(),
        None,
    )
    .unwrap();
    assert_eq!(spec.program, "/home/u/.steam/steam/ubuntu12_32/steam-runtime/run.sh");
    assert_eq!(
        spec.args,
        strings(&[
            "/home/u/.steam/steam/compatibilitytools.d/GE-Proton/proton",
            "run",
            "/lib/steamapps/common/Arma 3/arma3_x64.exe",
            "-a"
        ])
    );
}

#[test]
fn proton_plan_resolves_a_legacy_config() {
    let mut host = proton_host("proton %verb%");
    host.files.retain(|f| f.path != "/home/u/.steam/steam/config/config.vdf");
    host.push_file(
        "/home/u/.steam/steam/config/config.vdf",
        Some(r#""CompatToolMapping" { "107410" { "name" "GE-Proton" } }"#.to_string()),
    );
    let install = Arma3Install::new(&host, GAME, None).unwrap();
    let spec = build_command(
        &host,
        &install,
        LaunchMode::Direct,
        false,
        &vec![],
        &EnvVars::new(),
        None,
    );
    assert!(spec.is_ok());

    host.files.retain(|f| f.path != "/home/u/.steam/steam/config/config.vdf");
    host.push_file(
        "/home/u/.steam/steam/config/config.vdf",
        Some(
            r#""UserStore" { "Nested" { "CompatToolMapping" { "107410" { "name" "GE-Proton" } } } }"#
                .to_string(),
        ),
    );
    assert!(build_command(
        &host,
        &install,
        LaunchMode::Direct,
        false,
        &vec![],
        &EnvVars::new(),
        None
    )
    .is_ok());
}

#[test]
fn proton_plan_fails_without_a_tool_mapping() {
    let mut host = proton_host("proton %verb%");
    host.files.retain(|f| f.path != "/home/u/.steam/steam/config/config.vdf");
    host.push_file(
        "/home/u/.steam/steam/config/config.vdf",
        Some(r#""CompatToolMapping" { "999" { "name" "GE-Proton" } }"#.to_string()),
    );
    let install = Arma3Install::new(&host, GAME, None).unwrap();
    let err = build_command(
        &host,
        &install,
        LaunchMode::Direct,
        false,
        &vec![],
        &EnvVars::new(),
        None,
    )
    .unwrap_err();
    assert!(matches!(err, Arma3Error::CompatConfigMissing { .. }));
    assert_eq!(
        err.message(),
        "steam config error: compatibility tool entry not found for appid 107410"
    );
}

#[test]
fn proton_plan_fails_in_the_order_of_the_lookups() {
    let full = proton_host("proton %verb%");
    let install = Arma3Install::new(&full, GAME, None).unwrap();
    let plan = |host: &Host| {
        build_command(host, &install, LaunchMode::Direct, false, &vec![], &EnvVars::new(), None)
    };

    let mut host = full.clone();
    host.dirs.retain(|d| d.path != "/home/u/.steam/steam/steamapps");
    host.files.retain(|f| f.path != "/home/u/.steam/steam/config/config.vdf");
    assert!(matches!(plan(&host).unwrap_err(), Arma3Error::SteamNotFound));

    let mut host = full.clone();
    host.files.retain(|f| f.path != "/home/u/.steam/steam/config/config.vdf");
    let err = plan(&host).unwrap_err();
    assert!(matches!(err, Arma3Error::SteamConfig { .. }));
    assert_eq!(
        err.message(),
        "steam config error: failed reading /home/u/.steam/steam/config/config.vdf"
    );

    let mut host = full.clone();
    host.dirs.retain(|d| d.path != "/home/u/.steam/steam/compatibilitytools.d/GE-Proton");
    let err = plan(&host).unwrap_err();
    assert!(matches!(err, Arma3Error::ToolNotFound { .. }));
    assert_eq!(
        err.message(),
        "steam config error: cannot find compatibility tool directory for 'GE-Proton'"
    );

    host.push_dir("/usr/share/steam/compatibilitytools.d/GE-Proton", vec![]);
    let err = plan(&host).unwrap_err();
    assert!(matches!(err, Arma3Error::ManifestInvalid { .. }));
    host.push_file(
        "/usr/share/steam/compatibilitytools.d/GE-Proton/toolmanifest.vdf",
        Some(r#""manifest" { "commandline" "sys %verb%" }"#.to_string()),
    );
    assert_eq!(
        plan(&host).unwrap().program,
        "/usr/share/steam/compatibilitytools.d/GE-Proton/sys"
    );

    let mut host = full.clone();
    host.files.retain(|f| !f.path.ends_with("toolmanifest.vdf"));
    host.push_file(
        "/home/u/.steam/steam/compatibilitytools.d/GE-Proton/toolmanifest.vdf",
        Some(r#""manifest" { "other" "x" }"#.to_string()),
    );
    let err = plan(&host).unwrap_err();
    assert!(matches!(err, Arma3Error::ManifestInvalid { .. }));
    assert_eq!(
        err.message(),
        "steam config error: toolmanifest missing manifest/commandline in /home/u/.steam/steam/compatibilitytools.d/GE-Proton/toolmanifest.vdf"
    );

    let host = proton_host("   ");
    assert!(matches!(plan(&host).unwrap_err(), Arma3Error::EmptyCommandLine));
    let host = proton_host("proton 'open");
    let err = plan(&host).unwrap_err();
    assert!(matches!(err, Arma3Error::SteamConfig { .. }));
    assert_eq!(
        err.message(),
        "steam config error: failed parsing tool commandline: missing closing quote"
    );
}

#[test]
fn proton_plan_needs_linux() {
    let host = proton_host("proton %verb%");
    let install = Arma3Install::new(&host, GAME, None).unwrap();
    let mut other = host.clone();
    other.platform = Platform::Windows;
    let err = build_command(
        &other,
        &install,
        LaunchMode::Direct,
        false,
        &vec![],
        &EnvVars::new(),
        None,
    )
    .unwrap_err();
    assert!(matches!(err, Arma3Error::UnsupportedPlatform { .. }));
    assert_eq!(
        err.message(),
        "config parsing error: proton direct launch is only supported on Linux"
    );
}

#[test]
fn proton_command_from_words() {
    let host = proton_host("unused");
    let install = Arma3Install::new(&host, GAME, None).unwrap();
    let args = strings(&["-u"]);
    let env = EnvVars::new();
    let params = BackendParams {
        install: &install,
        user_args: &args,
        user_env: &env,
        working_dir: None,
        disable_esync: false,
    };
    let err = build_proton_command(&host, &params, ROOT, "/tools/t", vec![]).unwrap_err();
    assert!(matches!(err, Arma3Error::EmptyCommandLine));
    let spec =
        build_proton_command(&host, &params, ROOT, "/tools/t", strings(&["bin/run", "%verb%%verb%"]))
            .unwrap();
    assert_eq!(spec.program, "/tools/t/bin/run");
    assert_eq!(
        spec.args,
        strings(&["runrun", "/lib/steamapps/common/Arma 3/arma3_x64.exe", "-u"])
    );
    let spec = build_proton_command(&host, &params, ROOT, "/tools/t", strings(&["/abs"])).unwrap();
    assert_eq!(spec.program, "/abs");
}

#[test]
fn launcher_plan_merges_the_settings_file() {
    let mut host = native_host();
    host.push_var("XDG", "x");
    host.push_file(
        "/home/u/.local/share/bohemiainteractive/arma3/GameDocuments/Arma 3/Arma3.cfg",
        Some("language=\"English\";\nclass ModLauncherList\n{\n};\n".to_string()),
    );
    let install = Arma3Install::new(&host, GAME, None).unwrap();
    let launcher = Launcher::new(install)
        .launch_mode(LaunchMode::Direct)
        .env("A", "1")
        .envs(pairs(&[("B", "2"), ("A", "3")]))
        .args(strings(&["-x", "-y"]))
        .working_dir("/work");
    let plan = launcher.plan(&host).unwrap();
    assert_eq!(
        plan.cfg_path(),
        "/home/u/.local/share/bohemiainteractive/arma3/GameDocuments/Arma 3/Arma3.cfg"
    );
    assert_eq!(plan.cfg_text(), "language=\"English\";\n\n\nclass ModLauncherList\n{\n};\n");
    assert_eq!(plan.program(), "/lib/steamapps/common/Arma 3/arma3.x86_64");
    assert_eq!(plan.args(), strings(&["-x", "-y"]));
    assert_eq!(plan.cwd(), Some("/work"));
    assert_eq!(plan.env(), pairs(&[("A", "3"), ("B", "2")]));

    let plan = launcher.cfg_mode(CfgMode::Overwrite).plan(&host).unwrap();
    assert_eq!(plan.cfg_text(), "class ModLauncherList\n{\n};\n");
}

#[test]
fn launcher_plan_fails_without_a_settings_path() {
    let mut host = Host::new(Platform::Linux);
    host.push_dir(GAME, vec![]);
    host.push_file("/lib/steamapps/common/Arma 3/arma3.x86_64", None);
    let install = Arma3Install::new(&host, GAME, None).unwrap();
    let err = Launcher::new(install).plan(&host).unwrap_err();
    assert!(matches!(err, Arma3Error::Parse { .. }));
    assert_eq!(err.message(), "config parsing error: HOME environment variable is not set");
}
