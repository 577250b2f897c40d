//! Configuration builders, Java support logic, authentication helpers,
//! the command-layer types, and the library version.

use minecraft_launcher_lib::api::{parse_mod_loader_type, LauncherResponse};
use minecraft_launcher_lib::auth::{is_token_valid, Account, AuthenticatorConfig, ProfileInfo};
use minecraft_launcher_lib::config::{LaunchConfig, LauncherConfig};
use minecraft_launcher_lib::error::LauncherError;
use minecraft_launcher_lib::java::{
    azul_package_url, check_java_version, get_extraction_dir_name, get_os_arch,
    get_required_java_version, parse_java_major_version, parse_u32,
};
use minecraft_launcher_lib::rules::Platform;
use minecraft_launcher_lib::version::ModLoaderType;
use minecraft_launcher_lib::VERSION;

fn account() -> Account {
    Account {
        uuid: "abc-123".to_string(),
        name: "Alice".to_string(),
        access_token: "token-1".to_string(),
        refresh_token: "refresh-1".to_string(),
        expires_at: 1_000_000,
        account_type: "msa".to_string(),
        profile: ProfileInfo {
            id: "abc-123".to_string(),
            name: "Alice".to_string(),
            skins: Vec::new(),
            capes: Vec::new(),
        },
    }
}

#[test]
fn test_version() {
    assert!(!VERSION.is_empty());
}

#[test]
fn launcher_config_defaults_and_builders() {
    let c = LauncherConfig::new("/mc".to_string());
    assert_eq!(c.minecraft_dir, "/mc");
    assert_eq!(c.memory_min, 4096);
    assert_eq!(c.memory_max, 8192);
    assert_eq!(c.download_timeout, 300);
    assert_eq!(c.concurrent_downloads, 8);
    assert_eq!(c.jvm_args[0], "-XX:+UnlockExperimentalVMOptions");
    assert_eq!(c.jvm_args.len(), 6);
    assert!(!c.debug);

    let c = c
        .with_java_path("/usr/bin/java".to_string())
        .with_memory(1024, 2048)
        .with_jvm_args(vec!["-ea".to_string()])
        .with_game_args(vec!["--demo".to_string()])
        .with_debug()
        .with_download_config(60, 4)
        .with_env_var("KEY".to_string(), "VALUE".to_string());
    assert_eq!(c.java_path.as_deref(), Some("/usr/bin/java"));
    assert_eq!(c.memory_min, 1024);
    assert_eq!(c.memory_max, 2048);
    assert_eq!(c.jvm_args.last().unwrap(), "-ea");
    assert_eq!(c.game_args, vec!["--demo"]);
    assert!(c.debug);
    assert_eq!(c.download_timeout, 60);
    assert_eq!(c.concurrent_downloads, 4);
    assert_eq!(c.env_vars, vec![("KEY".to_string(), "VALUE".to_string())]);
}

#[test]
fn launch_config_builders() {
    let lc = LaunchConfig::new("1.21.4".to_string(), "default".to_string(), account());
    assert!(lc.download_assets && lc.download_libraries);
    assert_eq!(lc.window_config.width, 1280);
    assert_eq!(lc.window_config.height, 720);

    let lc = lc
        .with_mod_loader(ModLoaderType::Fabric, "0.16.0".to_string())
        .with_window(800, 600, true)
        .without_downloads()
        .with_additional_args(vec!["-ea".to_string()], vec!["--demo".to_string()]);
    let ml = lc.mod_loader.expect("mod loader set");
    assert_eq!(ml.loader_type, ModLoaderType::Fabric);
    assert!(ml.enabled);
    assert_eq!(lc.window_config.width, 800);
    assert!(lc.window_config.fullscreen);
    assert!(!lc.download_assets && !lc.download_libraries);
    assert_eq!(lc.additional_jvm_args, vec!["-ea"]);
    assert_eq!(lc.additional_game_args, vec!["--demo"]);
}

#[test]
fn authenticator_config_defaults_and_builders() {
    let a = AuthenticatorConfig::new("client-1".to_string());
    assert_eq!(a.client_id, "client-1");
    assert_eq!(a.redirect_uri, "http://localhost:8080/auth/callback");
    assert_eq!(a.scopes, vec!["XboxLive.signin", "offline_access"]);
    assert_eq!(a.timeout, 300);
    assert_eq!(a.user_agent.as_deref(), Some("MinecraftLauncher/0.1.0"));

    let a = a
        .with_redirect_uri("http://localhost:9999/cb".to_string())
        .with_scopes(vec!["scope-a".to_string()])
        .with_user_agent("agent/1".to_string())
        .with_timeout(10);
    assert_eq!(a.redirect_uri, "http://localhost:9999/cb");
    assert_eq!(a.scopes, vec!["scope-a"]);
    assert_eq!(a.user_agent.as_deref(), Some("agent/1"));
    assert_eq!(a.timeout, 10);
}

#[test]
fn auth_url_embeds_the_client_id() {
    let a = AuthenticatorConfig::new("client-1".to_string());
    let url = a.get_auth_url().unwrap();
    assert!(url.starts_with(
        "https://login.live.com/oauth20_authorize.srf?client_id=client-1&response_type=code"
    ));
    assert!(url.contains("prompt=select_account"));
}

#[test]
fn device_code_response_derives_from_the_timestamp() {
    let a = AuthenticatorConfig::new("client-1".to_string());
    let r = a.device_code_response_at(0x1234_5678);
    assert_eq!(r.device_code, format!("device_{}", 0x1234_5678u64));
    assert_eq!(r.user_code, "5678-1234");
    assert!(r.verification_uri.contains("client_id=client-1"));
    assert_eq!(r.expires_in, 900);
    assert_eq!(r.interval, 5);
}

#[test]
fn token_validity_has_a_five_minute_buffer() {
    let acc = account();
    assert!(is_token_valid(&acc, 999_699));
    assert!(!is_token_valid(&acc, 999_700));
    assert!(!is_token_valid(&acc, 2_000_000));
}

#[test]
fn required_java_version_follows_the_version_line() {
    assert_eq!(get_required_java_version("1.21.4"), 21);
    assert_eq!(get_required_java_version("1.20"), 21);
    assert_eq!(get_required_java_version("1.19.2"), 17);
    assert_eq!(get_required_java_version("1.17"), 17);
    assert_eq!(get_required_java_version("1.16.5"), 8);
    assert_eq!(get_required_java_version("1.8.9"), 8);
    assert_eq!(get_required_java_version("26w14a"), 8);
    assert_eq!(get_required_java_version("2.0"), 8);
}

#[test]
fn digit_parsing_is_exact() {
    assert_eq!(parse_u32("0"), Some(0));
    assert_eq!(parse_u32("4294967295"), Some(u32::MAX));
    assert_eq!(parse_u32("4294967296"), None);
    assert_eq!(parse_u32(""), None);
    assert_eq!(parse_u32("12a"), None);
}

#[test]
fn java_version_output_parses_modern_and_legacy_shapes() {
    let modern = "openjdk version \"17.0.1\" 2021-10-19\nOpenJDK Runtime Environment\n";
    assert_eq!(parse_java_major_version(modern).unwrap(), 17);
    let legacy = "java version \"1.8.0_292\"\nJava(TM) SE Runtime Environment\n";
    assert_eq!(parse_java_major_version(legacy).unwrap(), 8);
    match parse_java_major_version("no quotes here") {
        Err(LauncherError::Config(m)) => assert_eq!(m, "Could not parse Java version"),
        other => panic!("expected a config error, got {:?}", other),
    }
}

#[test]
fn java_version_check_matches_the_first_line() {
    let modern = "openjdk version \"17.0.1\" 2021-10-19\n";
    assert!(check_java_version(modern, 17));
    assert!(!check_java_version(modern, 21));
    let legacy = "java version \"1.8.0_292\"\n";
    assert!(check_java_version(legacy, 8));
}

#[test]
fn runtime_package_url_and_archive_names() {
    let (os, arch) = get_os_arch(&Platform::new("osx".to_string(), "aarch64".to_string()));
    assert_eq!(os, "macos");
    assert_eq!(arch, "x64");
    let url = azul_package_url(17, &os, &arch);
    assert_eq!(
        url,
        "https://api.azul.com/metadata/v1/zulu/packages?java_version=17&os=macos&arch=x64&archive_type=zip&java_package_type=jre"
    );
    assert_eq!(
        get_extraction_dir_name("zulu17.30.15-ca-jre17.0.1-linux_x64.tar.gz"),
        "zulu17.30.15-ca-jre17.0.1-linux_x64"
    );
    assert_eq!(
        get_extraction_dir_name("zulu17.30.15-ca-jre17.0.1-win_x64.zip"),
        "zulu17.30.15-ca-jre17.0.1-win_x64"
    );
}

#[test]
fn mod_loader_names_parse_case_insensitively() {
    assert_eq!(parse_mod_loader_type("forge").unwrap(), ModLoaderType::Forge);
    assert_eq!(parse_mod_loader_type("Fabric").unwrap(), ModLoaderType::Fabric);
    assert_eq!(parse_mod_loader_type("QUILT").unwrap(), ModLoaderType::Quilt);
    assert_eq!(
        parse_mod_loader_type("NeoForge").unwrap(),
        ModLoaderType::NeoForge
    );
    assert_eq!(
        parse_mod_loader_type("legacy-fabric").unwrap(),
        ModLoaderType::LegacyFabric
    );
    match parse_mod_loader_type("rift") {
        Err(LauncherError::Config(m)) => assert_eq!(m, "Unknown mod loader type: rift"),
        other => panic!("expected a config error, got {:?}", other),
    }
}

#[test]
fn loader_names_render_lowercase() {
    assert_eq!(ModLoaderType::Forge.as_str(), "forge");
    assert_eq!(ModLoaderType::LegacyFabric.as_str(), "legacy-fabric");
}

#[test]
fn response_envelope_is_exclusive() {
    let ok: LauncherResponse<String> = LauncherResponse::success("done".to_string());
    assert!(ok.success);
    assert_eq!(ok.data.as_deref(), Some("done"));
    assert!(ok.error.is_none());

    let err: LauncherResponse<String> = LauncherResponse::error("broken".to_string());
    assert!(!err.success);
    assert!(err.data.is_none());
    assert_eq!(err.error.as_deref(), Some("broken"));
}

#[test]
fn error_constructors_pick_their_variants() {
    assert_eq!(
        LauncherError::network("offline".to_string()),
        LauncherError::Download("offline".to_string())
    );
    assert_eq!(
        LauncherError::validation("bad hash".to_string()),
        LauncherError::Config("bad hash".to_string())
    );
    assert_eq!(
        LauncherError::process("gone".to_string()),
        LauncherError::Launch("gone".to_string())
    );
    assert_eq!(
        LauncherError::version_not_found("1.0".to_string()),
        LauncherError::VersionNotFound("1.0".to_string())
    );
    assert_eq!(
        LauncherError::java("no runtime".to_string()),
        LauncherError::Java("no runtime".to_string())
    );
    assert_eq!(
        LauncherError::auth("denied".to_string()),
        LauncherError::Auth("denied".to_string())
    );
    assert_eq!(
        LauncherError::download("timeout".to_string()),
        LauncherError::Download("timeout".to_string())
    );
    assert_eq!(
        LauncherError::file("denied".to_string()),
        LauncherError::File("denied".to_string())
    );
    assert_eq!(
        LauncherError::json("bad token".to_string()),
        LauncherError::Json("bad token".to_string())
    );
    assert_eq!(
        LauncherError::launch("spawn failed".to_string()),
        LauncherError::Launch("spawn failed".to_string())
    );
    assert_eq!(
        LauncherError::config("bad value".to_string()),
        LauncherError::Config("bad value".to_string())
    );
    assert_eq!(
        LauncherError::mod_loader("unknown".to_string()),
        LauncherError::Config("unknown".to_string())
    );
    assert_eq!(
        LauncherError::other("misc".to_string()),
        LauncherError::Config("misc".to_string())
    );
    assert_eq!(
        LauncherError::zip("corrupt".to_string()),
        LauncherError::Zip("corrupt".to_string())
    );
}
