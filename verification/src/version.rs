//! Version manifest and per-version descriptor model, with version resolution.

use vstd::prelude::*;
use crate::error::LauncherError;
use crate::text::str_eq;

verus! {

/// Version manifest: the remote index of all available versions.
#[derive(Debug, Clone)]
pub struct VersionManifest {
    /// Latest version information.
    pub latest: LatestVersions,
    /// List of all available versions.
    pub versions: Vec<VersionEntry>,
}

/// Latest version information.
#[derive(Debug, Clone)]
pub struct LatestVersions {
    /// Latest release version.
    pub release: String,
    /// Latest snapshot version.
    pub snapshot: String,
}

/// Version entry in the manifest.
#[derive(Debug, Clone)]
pub struct VersionEntry {
    /// Version id (e.g. "1.21.4").
    pub id: String,
    /// Version type (release, snapshot, old_beta, old_alpha).
    pub version_type: String,
    /// URL of the per-version descriptor document.
    pub url: String,
    /// Release time, as rendered in the manifest.
    pub time: String,
    /// Release time in the alternate field, as rendered in the manifest.
    pub release_time: String,
    /// SHA-1 hash of the descriptor document.
    pub sha1: String,
    /// Compliance level.
    pub compliance_level: Option<i32>,
}

/// Complete per-version descriptor.
#[derive(Debug, Clone)]
pub struct VersionInfo {
    /// Structured arguments for the game and the JVM.
    pub arguments: Option<Arguments>,
    /// Asset index reference.
    pub asset_index: AssetIndex,
    /// Assets version.
    pub assets: String,
    /// Compliance level.
    pub compliance_level: Option<i32>,
    /// Download descriptors.
    pub downloads: Downloads,
    /// Version id.
    pub id: String,
    /// Java version requirement.
    pub java_version: Option<JavaVersion>,
    /// Libraries required by this version.
    pub libraries: Vec<Library>,
    /// Logging configuration.
    pub logging: Option<LoggingConfig>,
    /// Main class to launch.
    pub main_class: String,
    /// Legacy flat argument string.
    pub minecraft_arguments: Option<String>,
    /// Minimum launcher version.
    pub minimum_launcher_version: Option<i32>,
    /// Release time, as rendered in the descriptor.
    pub release_time: String,
    /// Time, as rendered in the descriptor.
    pub time: String,
    /// Version type.
    pub version_type: String,
}

/// Game and JVM arguments.
#[derive(Debug, Clone)]
pub struct Arguments {
    /// Game arguments.
    pub game: Vec<ArgumentValue>,
    /// JVM arguments.
    pub jvm: Vec<ArgumentValue>,
}

/// Argument item: a literal, or values gated by rules.
#[derive(Debug, Clone)]
pub enum ArgumentValue {
    /// A literal argument string.
    String(String),
    /// Values appended only when the rules evaluate to allow.
    Conditional {
        /// Rules gating the values.
        rules: Vec<Rule>,
        /// The values to append.
        value: Vec<String>,
    },
}

/// Rule for conditional arguments and libraries.
#[derive(Debug, Clone)]
pub struct Rule {
    /// Action to take ("allow" or "disallow").
    pub action: String,
    /// Operating-system predicate.
    pub os: Option<OsRule>,
    /// Feature-flag predicate, as (feature, required value) pairs.
    pub features: Option<Vec<(String, bool)>>,
}

/// Operating-system predicate of a rule.
#[derive(Debug, Clone)]
pub struct OsRule {
    /// OS name (windows, osx, linux).
    pub name: Option<String>,
    /// OS version pattern.
    pub version: Option<String>,
    /// OS architecture.
    pub arch: Option<String>,
}

/// Asset index reference.
#[derive(Debug, Clone)]
pub struct AssetIndex {
    /// Asset index id.
    pub id: String,
    /// SHA-1 hash of the index document.
    pub sha1: String,
    /// Size of the index document.
    pub size: u64,
    /// Total size of all assets.
    pub total_size: Option<u64>,
    /// Download URL of the index document.
    pub url: String,
}

/// Download descriptors of a version.
#[derive(Debug, Clone)]
pub struct Downloads {
    /// Client binary download.
    pub client: DownloadInfo,
    /// Client mappings.
    pub client_mappings: Option<DownloadInfo>,
    /// Server binary download.
    pub server: Option<DownloadInfo>,
    /// Server mappings.
    pub server_mappings: Option<DownloadInfo>,
    /// Windows server binary download.
    pub windows_server: Option<DownloadInfo>,
}

/// Download descriptor of one file.
#[derive(Debug, Clone)]
pub struct DownloadInfo {
    /// SHA-1 hash of the file.
    pub sha1: String,
    /// Size of the file.
    pub size: u64,
    /// Download URL.
    pub url: String,
}

/// Java version requirement of a version.
#[derive(Debug, Clone)]
pub struct JavaVersion {
    /// Runtime component name (e.g. "java-runtime-gamma").
    pub component: String,
    /// Required major version (e.g. 21).
    pub major_version: i32,
}

/// One library dependency of a version.
#[derive(Debug, Clone)]
pub struct Library {
    /// Library downloads.
    pub downloads: Option<LibraryDownloads>,
    /// Library name: a maven coordinate `group:artifact:version[:classifier]`.
    pub name: String,
    /// Rules gating whether this library applies.
    pub rules: Option<Vec<Rule>>,
    /// Native classifier names keyed by OS, as (os, classifier) pairs.
    pub natives: Option<Vec<(String, String)>>,
    /// Extraction directives for native bundles.
    pub extract: Option<ExtractInfo>,
}

/// Download descriptors of one library.
#[derive(Debug, Clone)]
pub struct LibraryDownloads {
    /// Direct artifact download.
    pub artifact: Option<DownloadInfo>,
    /// Native bundle downloads, as (classifier, download) pairs.
    pub classifiers: Option<Vec<(String, DownloadInfo)>>,
}

/// Extraction directives for native bundles.
#[derive(Debug, Clone)]
pub struct ExtractInfo {
    /// Entries to exclude from extraction.
    pub exclude: Option<Vec<String>>,
}

/// Logging configuration of a version.
#[derive(Debug, Clone)]
pub struct LoggingConfig {
    /// Client logging configuration.
    pub client: Option<LoggingClient>,
}

/// Client logging configuration.
#[derive(Debug, Clone)]
pub struct LoggingClient {
    /// Argument to pass to the JVM.
    pub argument: String,
    /// Configuration file download.
    pub file: DownloadInfo,
    /// Kind of logging configuration.
    pub logging_type: String,
}

/// Mod loader kinds.
#[derive(Debug, Clone, PartialEq, Eq, Structural)]
pub enum ModLoaderType {
    /// Forge.
    Forge,
    /// Fabric.
    Fabric,
    /// Quilt.
    Quilt,
    /// NeoForge.
    NeoForge,
    /// Legacy Fabric.
    LegacyFabric,
}

impl ModLoaderType {
    /// The loader's lower-case wire name.
    pub fn as_str(&self) -> (r: &'static str)
        ensures
            *self is Forge ==> r@ == "forge"@,
            *self is Fabric ==> r@ == "fabric"@,
            *self is Quilt ==> r@ == "quilt"@,
            *self is NeoForge ==> r@ == "neoforge"@,
            *self is LegacyFabric ==> r@ == "legacy-fabric"@,
    {
        match self {
            ModLoaderType::Forge => "forge",
            ModLoaderType::Fabric => "fabric",
            ModLoaderType::Quilt => "quilt",
            ModLoaderType::NeoForge => "neoforge",
            ModLoaderType::LegacyFabric => "legacy-fabric",
        }
    }
}

/// Mod loader information.
#[derive(Debug, Clone)]
pub struct ModLoader {
    /// Loader kind.
    pub loader_type: ModLoaderType,
    /// Loader version.
    pub version: String,
    /// Minecraft version this loader supports.
    pub minecraft_version: String,
    /// Whether this loader is stable.
    pub stable: bool,
    /// Build information.
    pub build_info: ModLoaderBuildInfo,
}

/// Mod loader build information.
#[derive(Debug, Clone)]
pub struct ModLoaderBuildInfo {
    /// Build number or version.
    pub build: String,
    /// Download URL.
    pub url: Option<String>,
    /// Maven coordinate.
    pub maven: Option<String>,
    /// Additional libraries required.
    pub libraries: Vec<Library>,
}

/// There is an entry with the given id among `versions`.
pub open spec fn has_version(versions: Seq<VersionEntry>, id: Seq<char>) -> bool {
    exists|i: int| 0 <= i < versions.len() && versions[i].id@ == id
}

impl VersionManifest {
    /// Resolve a version id to its manifest entry: the first entry whose id
    /// equals the argument, or a version-not-found error when none does.
    pub fn find_version(&self, version_id: &str) -> (r: Result<&VersionEntry, LauncherError>)
        ensures
            match r {
                Ok(e) => exists|i: int|
                    0 <= i < self.versions@.len() && self.versions@[i].id@ == version_id@
                        && *e == self.versions@[i] && (forall|j: int|
                        0 <= j < i ==> self.versions@[j].id@ != version_id@),
                Err(e) => !has_version(self.versions@, version_id@) && (e matches
                    LauncherError::VersionNotFound(v) && v@ == version_id@),
            },
    {
        let n = self.versions.len();
        for i in 0..n
            invariant
                n == self.versions@.len(),
                forall|j: int| 0 <= j < i ==> self.versions@[j].id@ != version_id@,
        {
            if str_eq(self.versions[i].id.as_str(), version_id) {
                return Ok(&self.versions[i]);
            }
        }
        Err(LauncherError::VersionNotFound(String::from_str(version_id)))
    }
}

} // verus!
