//! Maven paths, the instance layout, the fetch plan, and extraction
//! decisions.

use minecraft_launcher_lib::extractor::{entry_action, native_jar_paths, EntryAction};
use minecraft_launcher_lib::layout::{
    get_asset_index_path, get_asset_object_path, get_asset_object_url, get_client_jar_path,
    get_instance_dir, get_natives_dir, instance_directories,
};
use minecraft_launcher_lib::maven::{get_library_path, get_native_path};
use minecraft_launcher_lib::planner::{plan, plan_asset_object_tasks, AssetObject};
use minecraft_launcher_lib::rules::Platform;
use minecraft_launcher_lib::version::{
    AssetIndex, DownloadInfo, Downloads, Library, LibraryDownloads, VersionInfo,
};

fn platform(os: &str) -> Platform {
    Platform::new(os.to_string(), "x86_64".to_string())
}

fn download(url: &str, sha1: &str) -> DownloadInfo {
    DownloadInfo {
        sha1: sha1.to_string(),
        size: 10,
        url: url.to_string(),
    }
}

#[test]
fn maven_coordinate_maps_to_repository_layout() {
    assert_eq!(
        get_library_path("org.lwjgl:lwjgl:3.3.3", "/libs"),
        "/libs/org/lwjgl/lwjgl/3.3.3/lwjgl-3.3.3.jar"
    );
    assert_eq!(
        get_library_path("org.lwjgl:lwjgl:3.3.3:natives-linux", "/libs"),
        "/libs/org/lwjgl/lwjgl/3.3.3/lwjgl-3.3.3-natives-linux.jar"
    );
    assert_eq!(get_library_path("notacoordinate", "/libs"), "/libs/notacoordinate");
}

#[test]
fn native_path_appends_the_classifier() {
    assert_eq!(
        get_native_path("org.lwjgl:lwjgl:3.3.3", "natives-linux", "/libs"),
        "/libs/org/lwjgl/lwjgl/3.3.3/lwjgl-3.3.3-natives-linux.jar"
    );
    assert_eq!(
        get_native_path("odd", "natives-linux", "/libs"),
        "/libs/odd-natives-linux.jar"
    );
}

#[test]
fn instance_layout_is_the_fixed_tree() {
    let dirs = instance_directories("/mc/instances/default");
    assert_eq!(dirs.len(), 10);
    assert_eq!(dirs[0], "/mc/instances/default");
    assert_eq!(dirs[1], "/mc/instances/default/libraries");
    assert_eq!(dirs[9], "/mc/instances/default/crash-reports");
    assert_eq!(get_instance_dir("/mc", "default"), "/mc/instances/default");
    assert_eq!(
        get_client_jar_path("/inst", "1.21.4"),
        "/inst/versions/1.21.4/1.21.4.jar"
    );
    assert_eq!(
        get_natives_dir("/inst", "1.21.4"),
        "/inst/versions/1.21.4/natives"
    );
    assert_eq!(
        get_asset_index_path("/inst", "17"),
        "/inst/assets/indexes/17.json"
    );
    assert_eq!(
        get_asset_object_path("/inst", "00beef"),
        "/inst/assets/objects/00/00beef"
    );
    assert_eq!(
        get_asset_object_url("00beef"),
        "https://resources.download.minecraft.net/00/00beef"
    );
}

fn lwjgl_library() -> Library {
    Library {
        downloads: Some(LibraryDownloads {
            artifact: Some(download("https://example.invalid/lwjgl.jar", "aa11")),
            classifiers: Some(vec![
                (
                    "natives-linux".to_string(),
                    download("https://example.invalid/lwjgl-linux.jar", "bb22"),
                ),
                (
                    "natives-windows".to_string(),
                    download("https://example.invalid/lwjgl-windows.jar", "cc33"),
                ),
            ]),
        }),
        name: "org.lwjgl:lwjgl:3.3.3".to_string(),
        rules: None,
        natives: None,
        extract: None,
    }
}

fn descriptor() -> VersionInfo {
    VersionInfo {
        arguments: None,
        asset_index: AssetIndex {
            id: "17".to_string(),
            sha1: "dd44".to_string(),
            size: 100,
            total_size: None,
            url: "https://example.invalid/17.json".to_string(),
        },
        assets: "17".to_string(),
        compliance_level: None,
        downloads: Downloads {
            client: download("https://example.invalid/client.jar", "ee55"),
            client_mappings: None,
            server: None,
            server_mappings: None,
            windows_server: None,
        },
        id: "1.21.4".to_string(),
        java_version: None,
        libraries: vec![lwjgl_library()],
        logging: None,
        main_class: "net.minecraft.client.main.Main".to_string(),
        minecraft_arguments: None,
        minimum_launcher_version: None,
        release_time: "2025-01-01T00:00:00+00:00".to_string(),
        time: "2025-01-01T00:00:00+00:00".to_string(),
        version_type: "release".to_string(),
    }
}

#[test]
fn plan_orders_client_then_libraries_then_asset_index() {
    let tasks = plan(&descriptor(), "/inst", &platform("linux"));
    assert_eq!(tasks.len(), 4);

    assert_eq!(tasks[0].url, "https://example.invalid/client.jar");
    assert_eq!(tasks[0].dest, "/inst/versions/1.21.4/1.21.4.jar");
    assert_eq!(tasks[0].sha1, "ee55");

    assert_eq!(tasks[1].url, "https://example.invalid/lwjgl.jar");
    assert_eq!(
        tasks[1].dest,
        "/inst/libraries/org/lwjgl/lwjgl/3.3.3/lwjgl-3.3.3.jar"
    );

    assert_eq!(tasks[2].url, "https://example.invalid/lwjgl-linux.jar");
    assert_eq!(
        tasks[2].dest,
        "/inst/libraries/org/lwjgl/lwjgl/3.3.3/lwjgl-3.3.3-natives-linux.jar"
    );

    assert_eq!(tasks[3].url, "https://example.invalid/17.json");
    assert_eq!(tasks[3].dest, "/inst/assets/indexes/17.json");
    assert_eq!(tasks[3].sha1, "dd44");
}

#[test]
fn plan_takes_the_windows_native_on_windows() {
    let tasks = plan(&descriptor(), "/inst", &platform("windows"));
    assert_eq!(tasks.len(), 4);
    assert_eq!(tasks[2].url, "https://example.invalid/lwjgl-windows.jar");
}

#[test]
fn asset_objects_map_to_content_addressed_tasks() {
    let objects = vec![AssetObject {
        name: "minecraft/sounds/ambient.ogg".to_string(),
        hash: "5be59f3cd4b2f2c2cb1a9c11f11e4e4bdcba5b31".to_string(),
        size: 1234,
    }];
    let tasks = plan_asset_object_tasks(&objects, "/inst");
    assert_eq!(tasks.len(), 1);
    assert_eq!(
        tasks[0].url,
        "https://resources.download.minecraft.net/5b/5be59f3cd4b2f2c2cb1a9c11f11e4e4bdcba5b31"
    );
    assert_eq!(
        tasks[0].dest,
        "/inst/assets/objects/5b/5be59f3cd4b2f2c2cb1a9c11f11e4e4bdcba5b31"
    );
    assert_eq!(tasks[0].sha1, "5be59f3cd4b2f2c2cb1a9c11f11e4e4bdcba5b31");
}

#[test]
fn native_jar_listing_follows_rules_and_classifiers() {
    let jars = native_jar_paths(&descriptor(), "/inst", &platform("linux"));
    assert_eq!(
        jars,
        vec!["/inst/libraries/org/lwjgl/lwjgl/3.3.3/lwjgl-3.3.3-natives-linux.jar"]
    );
    let none = native_jar_paths(&descriptor(), "/inst", &platform("osx"));
    assert!(none.is_empty());
}

#[test]
fn archive_entries_are_sanitized() {
    assert_eq!(entry_action("lib/liblwjgl.so"), EntryAction::Extract);
    assert_eq!(entry_action("liblwjgl.so"), EntryAction::Extract);
    assert_eq!(entry_action("META-INF/MANIFEST.MF"), EntryAction::Skip);
    assert_eq!(entry_action("../escape.so"), EntryAction::Skip);
    assert_eq!(entry_action("a/../../escape.so"), EntryAction::Skip);
    assert_eq!(entry_action("/absolute.so"), EntryAction::Skip);
    assert_eq!(entry_action(""), EntryAction::Skip);
}
