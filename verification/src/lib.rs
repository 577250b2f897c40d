//! Core of a Minecraft launcher: version resolution, dependency planning,
//! verified downloads, native extraction, launch-argument assembly and
//! process supervision, with the decision logic specified and proved.

use vstd::prelude::*;

pub mod api;
pub mod args;
pub mod auth;
pub mod config;
pub mod error;
pub mod extractor;
pub mod text;
pub mod fetcher;
pub mod java;
pub mod layout;
pub mod maven;
pub mod planner;
pub mod process;
pub mod rules;
pub mod version;

pub use auth::{Account, AuthenticatorConfig};
pub use config::{LaunchConfig, LauncherConfig};
pub use error::LauncherError;
pub use process::{MinecraftProcess, ProcessStatus};
pub use version::{ModLoader, ModLoaderType, VersionInfo, VersionManifest};

verus! {

/// Library version.
pub const VERSION: &'static str = "0.1.0";

} // verus!
