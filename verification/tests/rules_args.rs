//! Rule evaluation, placeholder substitution, and argument assembly.

use minecraft_launcher_lib::args::{
    build_classpath, build_game_arguments, build_launch_arguments, replace_all,
    substitute_argument_variables, substitution_warning_count,
};
use minecraft_launcher_lib::auth::{Account, ProfileInfo};
use minecraft_launcher_lib::config::{LaunchConfig, LauncherConfig, WindowConfig};
use minecraft_launcher_lib::rules::{evaluate_rules, is_native_for_os, Platform};
use minecraft_launcher_lib::version::{
    Arguments, ArgumentValue, AssetIndex, DownloadInfo, Downloads, OsRule, Rule, VersionInfo,
};

fn platform(os: &str) -> Platform {
    Platform::new(os.to_string(), "x86_64".to_string())
}

fn disallow_osx_rule() -> Rule {
    Rule {
        action: "disallow".to_string(),
        os: Some(OsRule {
            name: Some("osx".to_string()),
            version: None,
            arch: None,
        }),
        features: None,
    }
}

fn account(name: &str, uuid: &str) -> Account {
    Account {
        uuid: uuid.to_string(),
        name: name.to_string(),
        access_token: "token-1".to_string(),
        refresh_token: "refresh-1".to_string(),
        expires_at: 4102444800,
        account_type: "msa".to_string(),
        profile: ProfileInfo {
            id: uuid.to_string(),
            name: name.to_string(),
            skins: Vec::new(),
            capes: Vec::new(),
        },
    }
}

fn download(url: &str, sha1: &str) -> DownloadInfo {
    DownloadInfo {
        sha1: sha1.to_string(),
        size: 10,
        url: url.to_string(),
    }
}

fn descriptor(libraries: Vec<minecraft_launcher_lib::version::Library>) -> VersionInfo {
    VersionInfo {
        arguments: None,
        asset_index: AssetIndex {
            id: "17".to_string(),
            sha1: "f00dbabe".repeat(5),
            size: 100,
            total_size: None,
            url: "https://example.invalid/17.json".to_string(),
        },
        assets: "17".to_string(),
        compliance_level: None,
        downloads: Downloads {
            client: download("https://example.invalid/client.jar", &"ab".repeat(20)),
            client_mappings: None,
            server: None,
            server_mappings: None,
            windows_server: None,
        },
        id: "1.21.4".to_string(),
        java_version: None,
        libraries,
        logging: None,
        main_class: "net.minecraft.client.main.Main".to_string(),
        minecraft_arguments: None,
        minimum_launcher_version: None,
        release_time: "2025-01-01T00:00:00+00:00".to_string(),
        time: "2025-01-01T00:00:00+00:00".to_string(),
        version_type: "release".to_string(),
    }
}

fn plain_library(name: &str) -> minecraft_launcher_lib::version::Library {
    minecraft_launcher_lib::version::Library {
        downloads: None,
        name: name.to_string(),
        rules: None,
        natives: None,
        extract: None,
    }
}

#[test]
fn disallow_osx_yields_allow_elsewhere_and_disallow_on_osx() {
    let rules = vec![disallow_osx_rule()];
    assert!(evaluate_rules(&rules, &platform("linux")));
    assert!(evaluate_rules(&rules, &platform("windows")));
    assert!(!evaluate_rules(&rules, &platform("osx")));
}

#[test]
fn empty_rule_list_defaults_to_allow() {
    assert!(evaluate_rules(&Vec::new(), &platform("linux")));
}

#[test]
fn first_matching_rule_decides() {
    let rules = vec![
        Rule {
            action: "allow".to_string(),
            os: None,
            features: None,
        },
        disallow_osx_rule(),
    ];
    assert!(evaluate_rules(&rules, &platform("osx")));
}

#[test]
fn native_classifier_matches_per_os() {
    assert!(is_native_for_os("natives-linux", &platform("linux")));
    assert!(!is_native_for_os("natives-windows", &platform("linux")));
    assert!(is_native_for_os("natives-macos", &platform("osx")));
    assert!(is_native_for_os("natives-osx", &platform("osx")));
    assert!(is_native_for_os("natives-windows", &platform("windows")));
}

#[test]
fn substitution_replaces_exact_tokens() {
    let acc = account("Alice", "abc-123");
    let out = substitute_argument_variables(
        "--username ${auth_player_name} --uuid ${auth_uuid}",
        &acc,
        "1.21.4",
        "/mc/instances/default",
        &WindowConfig {
            width: 1280,
            height: 720,
            fullscreen: false,
        },
    );
    assert_eq!(out, "--username Alice --uuid abc-123");
}

#[test]
fn substitution_fills_every_standard_token() {
    let acc = account("Alice", "abc-123");
    let window = WindowConfig {
        width: 1920,
        height: 1080,
        fullscreen: true,
    };
    let input = "${version_name} ${game_directory} ${assets_root} ${game_assets} \
                 ${auth_access_token} ${user_type} ${version_type} \
                 ${resolution_width}x${resolution_height}";
    let out = substitute_argument_variables(input, &acc, "1.20.1", "/inst", &window);
    assert_eq!(
        out,
        "1.20.1 /inst /inst/assets /inst/assets token-1 msa release 1920x1080"
    );
    assert!(!out.contains("${"));
}

#[test]
fn empty_account_fields_substitute_safe_defaults() {
    let acc = account("", "");
    let out = substitute_argument_variables(
        "${auth_player_name}/${auth_uuid}",
        &acc,
        "1.21.4",
        "/inst",
        &WindowConfig {
            width: 1280,
            height: 720,
            fullscreen: false,
        },
    );
    assert_eq!(out, "Player/00000000-0000-0000-0000-000000000000");
    assert_eq!(substitution_warning_count(&acc), 2);
    assert_eq!(substitution_warning_count(&account("Alice", "abc")), 0);
}

#[test]
fn replace_all_replaces_left_to_right() {
    assert_eq!(replace_all("a.zip.zip", ".zip", ""), "a");
    assert_eq!(replace_all("no match", ".zip", ""), "no match");
}

#[test]
fn classpath_joins_library_paths_then_client_jar() {
    let info = descriptor(vec![
        plain_library("org.lwjgl:lwjgl:3.3.3"),
        plain_library("com.mojang:brigadier:1.0.18"),
    ]);
    let cp = build_classpath(&info, "/inst", &platform("linux"));
    assert_eq!(
        cp,
        "/inst/libraries/org/lwjgl/lwjgl/3.3.3/lwjgl-3.3.3.jar:\
         /inst/libraries/com/mojang/brigadier/1.0.18/brigadier-1.0.18.jar:\
         /inst/versions/1.21.4/1.21.4.jar"
            .replace(" ", "")
    );
}

#[test]
fn classpath_uses_semicolon_on_windows() {
    let info = descriptor(vec![plain_library("a:b:1")]);
    let cp = build_classpath(&info, "/inst", &platform("windows"));
    assert!(cp.contains(";"));
    assert!(!cp.contains(":/inst/versions"));
}

#[test]
fn classpath_omits_disallowed_libraries() {
    let mut lib = plain_library("a:b:1");
    lib.rules = Some(vec![disallow_osx_rule()]);
    let info = descriptor(vec![lib]);
    let cp_osx = build_classpath(&info, "/inst", &platform("osx"));
    assert_eq!(cp_osx, "/inst/versions/1.21.4/1.21.4.jar");
    let cp_linux = build_classpath(&info, "/inst", &platform("linux"));
    assert!(cp_linux.starts_with("/inst/libraries/a/b/1/b-1.jar:"));
}

#[test]
fn game_arguments_follow_structured_items_and_rules() {
    let mut info = descriptor(Vec::new());
    info.arguments = Some(Arguments {
        game: vec![
            ArgumentValue::String("--username".to_string()),
            ArgumentValue::String("${auth_player_name}".to_string()),
            ArgumentValue::Conditional {
                rules: vec![disallow_osx_rule()],
                value: vec!["--demo".to_string()],
            },
        ],
        jvm: Vec::new(),
    });
    let lc = LaunchConfig::new(
        "1.21.4".to_string(),
        "default".to_string(),
        account("Alice", "abc-123"),
    );
    let linux_args = build_game_arguments(&info, &lc, "/inst", &platform("linux"));
    assert_eq!(linux_args, vec!["--username", "Alice", "--demo"]);
    let osx_args = build_game_arguments(&info, &lc, "/inst", &platform("osx"));
    assert_eq!(osx_args, vec!["--username", "Alice"]);
}

#[test]
fn legacy_arguments_are_split_and_substituted() {
    let mut info = descriptor(Vec::new());
    info.minecraft_arguments = Some("--username ${auth_player_name}  --demo".to_string());
    let mut lc = LaunchConfig::new(
        "1.21.4".to_string(),
        "default".to_string(),
        account("Alice", "abc-123"),
    );
    lc.additional_game_args.push("--extra".to_string());
    let args = build_game_arguments(&info, &lc, "/inst", &platform("linux"));
    assert_eq!(args, vec!["--username", "Alice", "--demo", "--extra"]);
}

#[test]
fn launch_arguments_follow_the_fixed_order() {
    let info = descriptor(vec![plain_library("a:b:1")]);
    let config = LauncherConfig::new("/mc".to_string()).with_memory(512, 1024);
    let lc = LaunchConfig::new(
        "1.21.4".to_string(),
        "default".to_string(),
        account("Alice", "abc-123"),
    );
    let args = build_launch_arguments(&config, &lc, &info, "/inst", &platform("linux"), false);
    let xms = args.iter().position(|a| a == "-Xms512m").expect("-Xms");
    let xmx = args.iter().position(|a| a == "-Xmx1024m").expect("-Xmx");
    let cp = args.iter().position(|a| a == "-cp").expect("-cp");
    let main = args
        .iter()
        .position(|a| a == "net.minecraft.client.main.Main")
        .expect("main class");
    assert!(xms < xmx && xmx < cp && cp < main);
    assert_eq!(args[cp + 1], build_classpath(&info, "/inst", &platform("linux")));
    assert!(!args.iter().any(|a| a.starts_with("-Djava.library.path=")));
}

#[test]
fn launch_arguments_point_at_existing_natives_dir() {
    let info = descriptor(Vec::new());
    let config = LauncherConfig::new("/mc".to_string());
    let lc = LaunchConfig::new(
        "1.21.4".to_string(),
        "default".to_string(),
        account("Alice", "abc-123"),
    );
    let args = build_launch_arguments(&config, &lc, &info, "/inst", &platform("linux"), true);
    assert!(args
        .iter()
        .any(|a| a == "-Djava.library.path=/inst/versions/1.21.4/natives"));
    assert!(args
        .iter()
        .any(|a| a == "-Dio.netty.native.workdir=/inst/versions/1.21.4/natives"));
}
