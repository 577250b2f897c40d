//! The fixed directory tree of one instance, and the paths derived from it.
//! Paths are plain strings joined with slashes.

use vstd::prelude::*;
use crate::maven::{path_under, spec_under};
use crate::text::views;

verus! {

/// The directories of one instance, created in full before any download:
/// the instance root and its nine fixed subdirectories.
pub open spec fn spec_instance_directories(instance_dir: Seq<char>) -> Seq<Seq<char>> {
    seq![
        instance_dir,
        spec_under(instance_dir, "libraries"@),
        spec_under(instance_dir, "assets"@),
        spec_under(instance_dir, "versions"@),
        spec_under(instance_dir, "mods"@),
        spec_under(instance_dir, "resourcepacks"@),
        spec_under(instance_dir, "shaderpacks"@),
        spec_under(instance_dir, "saves"@),
        spec_under(instance_dir, "logs"@),
        spec_under(instance_dir, "crash-reports"@),
    ]
}

/// The directory of one named instance under the launcher root.
pub open spec fn spec_instance_dir(minecraft_dir: Seq<char>, instance_name: Seq<char>) -> Seq<
    char,
> {
    spec_under(spec_under(minecraft_dir, "instances"@), instance_name)
}

/// The libraries directory of an instance.
pub open spec fn spec_libraries_dir(instance_dir: Seq<char>) -> Seq<char> {
    spec_under(instance_dir, "libraries"@)
}

/// The client jar path of a version inside an instance:
/// `versions/<id>/<id>.jar` under the instance directory.
pub open spec fn spec_client_jar_path(instance_dir: Seq<char>, id: Seq<char>) -> Seq<char> {
    spec_under(spec_under(spec_under(instance_dir, "versions"@), id), id + ".jar"@)
}

/// The natives directory of a version inside an instance:
/// `versions/<id>/natives` under the instance directory.
pub open spec fn spec_natives_dir(instance_dir: Seq<char>, id: Seq<char>) -> Seq<char> {
    spec_under(spec_under(spec_under(instance_dir, "versions"@), id), "natives"@)
}

/// The asset index document path: `assets/indexes/<index id>.json` under the
/// instance directory.
pub open spec fn spec_asset_index_path(instance_dir: Seq<char>, index_id: Seq<char>) -> Seq<
    char,
> {
    spec_under(spec_under(spec_under(instance_dir, "assets"@), "indexes"@), index_id + ".json"@)
}

/// The content-addressed asset object path:
/// `assets/objects/<hash[0:2]>/<hash>` under the instance directory.
pub open spec fn spec_asset_object_path(instance_dir: Seq<char>, hash: Seq<char>) -> Seq<char> {
    spec_under(
        spec_under(spec_under(instance_dir, "assets"@), "objects"@),
        hash.subrange(0, 2) + "/"@ + hash,
    )
}

/// The content-addressed asset object URL on the asset host.
pub open spec fn spec_asset_object_url(hash: Seq<char>) -> Seq<char> {
    "https://resources.download.minecraft.net/"@ + hash.subrange(0, 2) + "/"@ + hash
}

/// The directories of one instance, in creation order.
pub fn instance_directories(instance_dir: &str) -> (r: Vec<String>)
    ensures
        views(r@) == spec_instance_directories(instance_dir@),
{
    let mut r: Vec<String> = Vec::new();
    r.push(String::from_str(instance_dir));
    r.push(path_under(instance_dir, "libraries"));
    r.push(path_under(instance_dir, "assets"));
    r.push(path_under(instance_dir, "versions"));
    r.push(path_under(instance_dir, "mods"));
    r.push(path_under(instance_dir, "resourcepacks"));
    r.push(path_under(instance_dir, "shaderpacks"));
    r.push(path_under(instance_dir, "saves"));
    r.push(path_under(instance_dir, "logs"));
    r.push(path_under(instance_dir, "crash-reports"));
    assert(views(r@) =~= spec_instance_directories(instance_dir@));
    r
}

/// The directory of one named instance under the launcher root.
pub fn get_instance_dir(minecraft_dir: &str, instance_name: &str) -> (r: String)
    ensures
        r@ == spec_instance_dir(minecraft_dir@, instance_name@),
{
    let instances = path_under(minecraft_dir, "instances");
    path_under(instances.as_str(), instance_name)
}

/// The libraries directory of an instance.
pub fn get_libraries_dir(instance_dir: &str) -> (r: String)
    ensures
        r@ == spec_libraries_dir(instance_dir@),
{
    path_under(instance_dir, "libraries")
}

/// The client jar path of a version inside an instance.
pub fn get_client_jar_path(instance_dir: &str, id: &str) -> (r: String)
    ensures
        r@ == spec_client_jar_path(instance_dir@, id@),
{
    let versions = path_under(instance_dir, "versions");
    let vdir = path_under(versions.as_str(), id);
    let mut jar = String::from_str(id);
    jar.append(".jar");
    path_under(vdir.as_str(), jar.as_str())
}

/// The natives directory of a version inside an instance.
pub fn get_natives_dir(instance_dir: &str, id: &str) -> (r: String)
    ensures
        r@ == spec_natives_dir(instance_dir@, id@),
{
    let versions = path_under(instance_dir, "versions");
    let vdir = path_under(versions.as_str(), id);
    path_under(vdir.as_str(), "natives")
}

/// The asset index document path inside an instance.
pub fn get_asset_index_path(instance_dir: &str, index_id: &str) -> (r: String)
    ensures
        r@ == spec_asset_index_path(instance_dir@, index_id@),
{
    let assets = path_under(instance_dir, "assets");
    let indexes = path_under(assets.as_str(), "indexes");
    let mut name = String::from_str(index_id);
    name.append(".json");
    path_under(indexes.as_str(), name.as_str())
}

/// The content-addressed asset object path inside an instance.
pub fn get_asset_object_path(instance_dir: &str, hash: &str) -> (r: String)
    requires
        hash@.len() >= 2,
    ensures
        r@ == spec_asset_object_path(instance_dir@, hash@),
{
    let assets = path_under(instance_dir, "assets");
    let objects = path_under(assets.as_str(), "objects");
    let prefix = hash.substring_char(0, 2);
    let mut rel = String::from_str(prefix);
    rel.append("/");
    rel.append(hash);
    let r = path_under(objects.as_str(), rel.as_str());
    assert(r@ =~= spec_asset_object_path(instance_dir@, hash@));
    r
}

/// The content-addressed asset object URL on the asset host.
pub fn get_asset_object_url(hash: &str) -> (r: String)
    requires
        hash@.len() >= 2,
    ensures
        r@ == spec_asset_object_url(hash@),
{
    let mut r = String::from_str("https://resources.download.minecraft.net/");
    let prefix = hash.substring_char(0, 2);
    r.append(prefix);
    r.append("/");
    r.append(hash);
    assert(r@ =~= spec_asset_object_url(hash@));
    r
}

/// The log file path of an instance: `logs/latest.log` under the working
/// directory.
pub fn get_log_path(working_dir: &str) -> (r: String)
    ensures
        r@ == spec_under(spec_under(working_dir@, "logs"@), "latest.log"@),
{
    let logs = path_under(working_dir, "logs");
    path_under(logs.as_str(), "latest.log")
}

/// The crash-reports directory of an instance.
pub fn get_crash_reports_dir(working_dir: &str) -> (r: String)
    ensures
        r@ == spec_under(working_dir@, "crash-reports"@),
{
    path_under(working_dir, "crash-reports")
}

} // verus!
