//! Launcher and per-launch configuration, with builder-style constructors.

use vstd::prelude::*;
use crate::auth::Account;
use crate::version::ModLoaderType;

verus! {

/// Main launcher configuration.
#[derive(Debug, Clone)]
pub struct LauncherConfig {
    /// Root directory for game files.
    pub minecraft_dir: String,
    /// Java executable path; found automatically when absent.
    pub java_path: Option<String>,
    /// JVM arguments.
    pub jvm_args: Vec<String>,
    /// Game arguments.
    pub game_args: Vec<String>,
    /// Minimum memory allocation, in MB.
    pub memory_min: u32,
    /// Maximum memory allocation, in MB.
    pub memory_max: u32,
    /// Download timeout in seconds.
    pub download_timeout: u64,
    /// Number of concurrent downloads.
    pub concurrent_downloads: usize,
    /// Custom environment variables, as (key, value) pairs.
    pub env_vars: Vec<(String, String)>,
    /// Whether debug logging is enabled.
    pub debug: bool,
}

/// The default JVM arguments of a new configuration.
pub open spec fn spec_default_jvm_args() -> Seq<Seq<char>> {
    seq![
        "-XX:+UnlockExperimentalVMOptions"@,
        "-XX:+UseG1GC"@,
        "-XX:G1NewSizePercent=20"@,
        "-XX:G1ReservePercent=20"@,
        "-XX:MaxGCPauseMillis=50"@,
        "-XX:G1HeapRegionSize=32M"@,
    ]
}

impl LauncherConfig {
    /// A configuration rooted at the given directory, with the default
    /// JVM arguments, 4–8 GB of memory, a five-minute download timeout,
    /// eight concurrent downloads, no extra environment and no debug
    /// logging.
    pub fn new(minecraft_dir: String) -> (r: Self)
        ensures
            r.minecraft_dir == minecraft_dir,
            r.java_path is None,
            crate::text::views(r.jvm_args@) == spec_default_jvm_args(),
            r.game_args@.len() == 0,
            r.memory_min == 4096u32,
            r.memory_max == 8192u32,
            r.download_timeout == 300u64,
            r.concurrent_downloads == 8usize,
            r.env_vars@.len() == 0,
            r.debug == false,
    {
        let mut jvm_args: Vec<String> = Vec::new();
        jvm_args.push(String::from_str("-XX:+UnlockExperimentalVMOptions"));
        jvm_args.push(String::from_str("-XX:+UseG1GC"));
        jvm_args.push(String::from_str("-XX:G1NewSizePercent=20"));
        jvm_args.push(String::from_str("-XX:G1ReservePercent=20"));
        jvm_args.push(String::from_str("-XX:MaxGCPauseMillis=50"));
        jvm_args.push(String::from_str("-XX:G1HeapRegionSize=32M"));
        assert(crate::text::views(jvm_args@) =~= spec_default_jvm_args());
        LauncherConfig {
            minecraft_dir,
            java_path: None,
            jvm_args,
            game_args: Vec::new(),
            memory_min: 4096,
            memory_max: 8192,
            download_timeout: 300,
            concurrent_downloads: 8,
            env_vars: Vec::new(),
            debug: false,
        }
    }

    /// Set the Java executable path.
    pub fn with_java_path(self, java_path: String) -> (r: Self)
        ensures
            r == (LauncherConfig { java_path: Some(java_path), ..self }),
    {
        LauncherConfig { java_path: Some(java_path), ..self }
    }

    /// Set the memory allocation bounds, in MB.
    pub fn with_memory(self, min_mb: u32, max_mb: u32) -> (r: Self)
        ensures
            r == (LauncherConfig { memory_min: min_mb, memory_max: max_mb, ..self }),
    {
        LauncherConfig { memory_min: min_mb, memory_max: max_mb, ..self }
    }

    /// Append JVM arguments.
    pub fn with_jvm_args(self, args: Vec<String>) -> (r: Self)
        ensures
            r.jvm_args@ == self.jvm_args@ + args@,
            r == (LauncherConfig { jvm_args: r.jvm_args, ..self }),
    {
        let mut r = self;
        let mut args = args;
        r.jvm_args.append(&mut args);
        r
    }

    /// Append game arguments.
    pub fn with_game_args(self, args: Vec<String>) -> (r: Self)
        ensures
            r.game_args@ == self.game_args@ + args@,
            r == (LauncherConfig { game_args: r.game_args, ..self }),
    {
        let mut r = self;
        let mut args = args;
        r.game_args.append(&mut args);
        r
    }

    /// Enable debug logging.
    pub fn with_debug(self) -> (r: Self)
        ensures
            r == (LauncherConfig { debug: true, ..self }),
    {
        LauncherConfig { debug: true, ..self }
    }

    /// Set the download timeout and concurrency.
    pub fn with_download_config(self, timeout: u64, concurrent: usize) -> (r: Self)
        ensures
            r == (LauncherConfig {
                download_timeout: timeout,
                concurrent_downloads: concurrent,
                ..self
            }),
    {
        LauncherConfig { download_timeout: timeout, concurrent_downloads: concurrent, ..self }
    }

    /// Append one environment variable.
    pub fn with_env_var(self, key: String, value: String) -> (r: Self)
        ensures
            r.env_vars@ == self.env_vars@.push((key, value)),
            r == (LauncherConfig { env_vars: r.env_vars, ..self }),
    {
        let mut r = self;
        r.env_vars.push((key, value));
        r
    }
}

/// Per-launch configuration of one game instance.
#[derive(Debug, Clone)]
pub struct LaunchConfig {
    /// Version to launch.
    pub version: String,
    /// Instance name, for organising multiple installations.
    pub instance_name: String,
    /// Account used for this launch.
    pub account: Account,
    /// Mod loader configuration.
    pub mod_loader: Option<ModLoaderConfig>,
    /// Custom mods directory.
    pub mods_dir: Option<String>,
    /// Resource packs directory.
    pub resource_packs_dir: Option<String>,
    /// Shader packs directory.
    pub shader_packs_dir: Option<String>,
    /// World saves directory.
    pub saves_dir: Option<String>,
    /// Custom game directory overriding the instance directory.
    pub custom_game_dir: Option<String>,
    /// Window configuration.
    pub window_config: WindowConfig,
    /// Whether to download missing assets.
    pub download_assets: bool,
    /// Whether to download missing libraries.
    pub download_libraries: bool,
    /// Additional JVM arguments for this launch.
    pub additional_jvm_args: Vec<String>,
    /// Additional game arguments for this launch.
    pub additional_game_args: Vec<String>,
}

/// Mod loader configuration of one launch.
#[derive(Debug, Clone)]
pub struct ModLoaderConfig {
    /// Loader kind.
    pub loader_type: ModLoaderType,
    /// Loader version.
    pub version: String,
    /// Whether the loader is enabled.
    pub enabled: bool,
}

/// Window configuration of the game.
#[derive(Debug, Clone)]
pub struct WindowConfig {
    /// Window width.
    pub width: u32,
    /// Window height.
    pub height: u32,
    /// Whether to start in fullscreen.
    pub fullscreen: bool,
}

impl Default for WindowConfig {
    /// The default window: 1280 by 720, windowed.
    fn default() -> (r: Self)
        ensures
            r.width == 1280u32,
            r.height == 720u32,
            r.fullscreen == false,
    {
        WindowConfig { width: 1280, height: 720, fullscreen: false }
    }
}

impl LaunchConfig {
    /// A launch configuration for the given version, instance and account,
    /// with downloads enabled, the default window, and nothing else set.
    pub fn new(version: String, instance_name: String, account: Account) -> (r: Self)
        ensures
            r.version == version,
            r.instance_name == instance_name,
            r.account == account,
            r.mod_loader is None,
            r.mods_dir is None,
            r.resource_packs_dir is None,
            r.shader_packs_dir is None,
            r.saves_dir is None,
            r.custom_game_dir is None,
            r.window_config.width == 1280u32,
            r.window_config.height == 720u32,
            r.window_config.fullscreen == false,
            r.download_assets == true,
            r.download_libraries == true,
            r.additional_jvm_args@.len() == 0,
            r.additional_game_args@.len() == 0,
    {
        LaunchConfig {
            version,
            instance_name,
            account,
            mod_loader: None,
            mods_dir: None,
            resource_packs_dir: None,
            shader_packs_dir: None,
            saves_dir: None,
            custom_game_dir: None,
            window_config: Default::default(),
            download_assets: true,
            download_libraries: true,
            additional_jvm_args: Vec::new(),
            additional_game_args: Vec::new(),
        }
    }

    /// Enable a mod loader of the given kind and version.
    pub fn with_mod_loader(self, loader_type: ModLoaderType, version: String) -> (r: Self)
        ensures
            r == (LaunchConfig {
                mod_loader: Some(ModLoaderConfig { loader_type, version, enabled: true }),
                ..self
            }),
    {
        LaunchConfig {
            mod_loader: Some(ModLoaderConfig { loader_type, version, enabled: true }),
            ..self
        }
    }

    /// Set the custom content directories.
    pub fn with_custom_dirs(
        self,
        mods: Option<String>,
        resource_packs: Option<String>,
        shader_packs: Option<String>,
        saves: Option<String>,
    ) -> (r: Self)
        ensures
            r == (LaunchConfig {
                mods_dir: mods,
                resource_packs_dir: resource_packs,
                shader_packs_dir: shader_packs,
                saves_dir: saves,
                ..self
            }),
    {
        LaunchConfig {
            mods_dir: mods,
            resource_packs_dir: resource_packs,
            shader_packs_dir: shader_packs,
            saves_dir: saves,
            ..self
        }
    }

    /// Set the window configuration.
    pub fn with_window(self, width: u32, height: u32, fullscreen: bool) -> (r: Self)
        ensures
            r == (LaunchConfig {
                window_config: WindowConfig { width, height, fullscreen },
                ..self
            }),
    {
        LaunchConfig { window_config: WindowConfig { width, height, fullscreen }, ..self }
    }

    /// Disable asset and library downloads.
    pub fn without_downloads(self) -> (r: Self)
        ensures
            r == (LaunchConfig { download_assets: false, download_libraries: false, ..self }),
    {
        LaunchConfig { download_assets: false, download_libraries: false, ..self }
    }

    /// Append additional JVM and game arguments.
    pub fn with_additional_args(self, jvm_args: Vec<String>, game_args: Vec<String>) -> (r: Self)
        ensures
            r.additional_jvm_args@ == self.additional_jvm_args@ + jvm_args@,
            r.additional_game_args@ == self.additional_game_args@ + game_args@,
            r == (LaunchConfig {
                additional_jvm_args: r.additional_jvm_args,
                additional_game_args: r.additional_game_args,
                ..self
            }),
    {
        let mut r = self;
        let mut jvm_args = jvm_args;
        let mut game_args = game_args;
        r.additional_jvm_args.append(&mut jvm_args);
        r.additional_game_args.append(&mut game_args);
        r
    }
}

} // verus!
