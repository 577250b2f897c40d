//! The types and pure helpers of the command layer: request and response
//! shapes, and mod loader name parsing.

use vstd::prelude::*;
use crate::auth::Account;
use crate::error::LauncherError;
use crate::version::ModLoaderType;

verus! {

/// The uniform response envelope of the command layer.
#[derive(Debug, Clone)]
pub struct LauncherResponse<T> {
    /// Whether the operation succeeded.
    pub success: bool,
    /// The payload of a successful operation.
    pub data: Option<T>,
    /// The message of a failed operation.
    pub error: Option<String>,
}

impl<T> LauncherResponse<T> {
    /// A successful response carrying its payload.
    pub fn success(data: T) -> (r: Self)
        ensures
            r.success == true,
            r.data == Some(data),
            r.error is None,
    {
        LauncherResponse { success: true, data: Some(data), error: None }
    }

    /// A failed response carrying its message.
    pub fn error(error: String) -> (r: Self)
        ensures
            r.success == false,
            r.data is None,
            r.error == Some(error),
    {
        LauncherResponse { success: false, data: None, error: Some(error) }
    }
}

/// Request to initialise the launcher.
#[derive(Debug, Clone)]
pub struct InitializeLauncherRequest {
    /// Root directory for game files.
    pub minecraft_dir: String,
    /// Minimum memory allocation, in MB.
    pub memory_min: Option<u32>,
    /// Maximum memory allocation, in MB.
    pub memory_max: Option<u32>,
    /// Java executable path.
    pub java_path: Option<String>,
    /// Number of concurrent downloads.
    pub concurrent_downloads: Option<usize>,
    /// Download timeout in seconds.
    pub download_timeout: Option<u64>,
}

/// Authenticator configuration of the command layer.
#[derive(Debug, Clone)]
pub struct AuthConfig {
    /// OAuth application client id.
    pub client_id: String,
    /// Redirect URI of the OAuth flow.
    pub redirect_uri: Option<String>,
}

/// Request to launch the game.
#[derive(Debug, Clone)]
pub struct LaunchRequest {
    /// Version to launch.
    pub version: String,
    /// Instance name.
    pub instance_name: Option<String>,
    /// Mod loader request.
    pub mod_loader: Option<ModLoaderRequest>,
    /// Window width.
    pub window_width: Option<u32>,
    /// Window height.
    pub window_height: Option<u32>,
    /// Whether to start in fullscreen.
    pub fullscreen: Option<bool>,
    /// Additional JVM arguments.
    pub additional_jvm_args: Option<Vec<String>>,
    /// Additional game arguments.
    pub additional_game_args: Option<Vec<String>>,
    /// Account to launch with.
    pub account: Account,
    /// Java executable path.
    pub java_path: Option<String>,
}

/// Mod loader selection of a launch request.
#[derive(Debug, Clone)]
pub struct ModLoaderRequest {
    /// Loader kind, by name.
    pub loader_type: String,
    /// Loader version.
    pub version: String,
}

/// Status of a supervised process, as the command layer reports it.
#[derive(Debug, Clone)]
pub struct ProcessStatusResponse {
    /// Whether the process is running.
    pub is_running: bool,
    /// The process id, while one is known.
    pub pid: Option<u32>,
}

/// A Java runtime path, as the command layer reports it.
#[derive(Debug, Clone)]
pub struct JavaRuntimeResponse {
    /// Path of the Java executable.
    pub path: String,
}

/// The ASCII lower-case counterpart of a character.
pub open spec fn lower_char(c: char) -> char {
    if c == 'A' { 'a' }
    else if c == 'B' { 'b' }
    else if c == 'C' { 'c' }
    else if c == 'D' { 'd' }
    else if c == 'E' { 'e' }
    else if c == 'F' { 'f' }
    else if c == 'G' { 'g' }
    else if c == 'H' { 'h' }
    else if c == 'I' { 'i' }
    else if c == 'J' { 'j' }
    else if c == 'K' { 'k' }
    else if c == 'L' { 'l' }
    else if c == 'M' { 'm' }
    else if c == 'N' { 'n' }
    else if c == 'O' { 'o' }
    else if c == 'P' { 'p' }
    else if c == 'Q' { 'q' }
    else if c == 'R' { 'r' }
    else if c == 'S' { 's' }
    else if c == 'T' { 't' }
    else if c == 'U' { 'u' }
    else if c == 'V' { 'v' }
    else if c == 'W' { 'w' }
    else if c == 'X' { 'x' }
    else if c == 'Y' { 'y' }
    else if c == 'Z' { 'z' }
    else { c }
}

/// `s` with every ASCII upper-case letter lowered.
pub open spec fn spec_ascii_lower(s: Seq<char>) -> Seq<char> {
    s.map(|_i: int, c: char| lower_char(c))
}

/// The ASCII lower-case counterpart of a character.
fn lower_of(c: char) -> (r: char)
    ensures
        r == lower_char(c),
{
    if c == 'A' { 'a' }
    else if c == 'B' { 'b' }
    else if c == 'C' { 'c' }
    else if c == 'D' { 'd' }
    else if c == 'E' { 'e' }
    else if c == 'F' { 'f' }
    else if c == 'G' { 'g' }
    else if c == 'H' { 'h' }
    else if c == 'I' { 'i' }
    else if c == 'J' { 'j' }
    else if c == 'K' { 'k' }
    else if c == 'L' { 'l' }
    else if c == 'M' { 'm' }
    else if c == 'N' { 'n' }
    else if c == 'O' { 'o' }
    else if c == 'P' { 'p' }
    else if c == 'Q' { 'q' }
    else if c == 'R' { 'r' }
    else if c == 'S' { 's' }
    else if c == 'T' { 't' }
    else if c == 'U' { 'u' }
    else if c == 'V' { 'v' }
    else if c == 'W' { 'w' }
    else if c == 'X' { 'x' }
    else if c == 'Y' { 'y' }
    else if c == 'Z' { 'z' }
    else { c }
}

/// `s` with every ASCII upper-case letter lowered.
pub fn ascii_lowercase(s: &str) -> (r: String)
    ensures
        r@ == spec_ascii_lower(s@),
{
    let n = s.unicode_len();
    let mut r = String::new();
    for i in 0..n
        invariant
            n == s@.len(),
            r@ == spec_ascii_lower(s@.subrange(0, i as int)),
    {
        crate::text::push_char(&mut r, lower_of(s.get_char(i)));
        assert(r@ =~= spec_ascii_lower(s@.subrange(0, i + 1)));
    }
    assert(s@.subrange(0, n as int) =~= s@);
    r
}

/// The loader kind a lowered name denotes, when it denotes one.
pub open spec fn spec_loader_of(lowered: Seq<char>) -> Option<ModLoaderType> {
    if lowered == "forge"@ {
        Some(ModLoaderType::Forge)
    } else if lowered == "fabric"@ {
        Some(ModLoaderType::Fabric)
    } else if lowered == "quilt"@ {
        Some(ModLoaderType::Quilt)
    } else if lowered == "neoforge"@ {
        Some(ModLoaderType::NeoForge)
    } else if lowered == "legacy-fabric"@ {
        Some(ModLoaderType::LegacyFabric)
    } else {
        None
    }
}

/// Parse a mod loader name, case-insensitively for ASCII letters: one of
/// "forge", "fabric", "quilt", "neoforge" and "legacy-fabric" names its
/// kind, anything else is a configuration error naming the input.
pub fn parse_mod_loader_type(loader_type: &str) -> (r: Result<ModLoaderType, LauncherError>)
    ensures
        match r {
            Ok(t) => spec_loader_of(spec_ascii_lower(loader_type@)) == Some(t),
            Err(e) => spec_loader_of(spec_ascii_lower(loader_type@)) is None && (e matches
                LauncherError::Config(m) && m@ == "Unknown mod loader type: "@ + loader_type@),
        },
{
    let lowered = ascii_lowercase(loader_type);
    if crate::text::str_eq(lowered.as_str(), "forge") {
        Ok(ModLoaderType::Forge)
    } else if crate::text::str_eq(lowered.as_str(), "fabric") {
        Ok(ModLoaderType::Fabric)
    } else if crate::text::str_eq(lowered.as_str(), "quilt") {
        Ok(ModLoaderType::Quilt)
    } else if crate::text::str_eq(lowered.as_str(), "neoforge") {
        Ok(ModLoaderType::NeoForge)
    } else if crate::text::str_eq(lowered.as_str(), "legacy-fabric") {
        Ok(ModLoaderType::LegacyFabric)
    } else {
        let mut msg = String::from_str("Unknown mod loader type: ");
        msg.append(loader_type);
        Err(LauncherError::config(msg))
    }
}

} // verus!
