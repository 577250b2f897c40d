//! Dependency planning: turning a version descriptor plus platform facts
//! into the ordered list of fetch tasks for one launch.

use vstd::prelude::*;
use crate::layout::{
    get_asset_index_path, get_asset_object_path, get_asset_object_url, get_client_jar_path,
    get_libraries_dir, spec_asset_index_path, spec_asset_object_path, spec_asset_object_url,
    spec_client_jar_path, spec_libraries_dir,
};
use crate::maven::{get_library_path, get_native_path, spec_library_rel, spec_native_rel,
    spec_under};
use crate::rules::{is_native_for_os, library_applies, library_allowed, spec_native_for_os,
    Platform};
use crate::version::{DownloadInfo, Library, VersionInfo};

verus! {

/// One fetch task: source URL, destination path, expected content hash.
/// A task is idempotent: a destination that already holds content with the
/// expected hash needs no network traffic.
#[derive(Debug, Clone)]
pub struct FetchTask {
    /// Source URL.
    pub url: String,
    /// Destination path.
    pub dest: String,
    /// Expected SHA-1 hash of the content, in lower-case hex.
    pub sha1: String,
}

/// The mathematical content of a fetch task.
pub ghost struct FetchTaskView {
    /// Source URL.
    pub url: Seq<char>,
    /// Destination path.
    pub dest: Seq<char>,
    /// Expected content hash.
    pub sha1: Seq<char>,
}

impl View for FetchTask {
    type V = FetchTaskView;

    open spec fn view(&self) -> FetchTaskView {
        FetchTaskView { url: self.url@, dest: self.dest@, sha1: self.sha1@ }
    }
}

/// The views of a sequence of fetch tasks.
pub open spec fn task_views(ts: Seq<FetchTask>) -> Seq<FetchTaskView> {
    ts.map_values(|t: FetchTask| t@)
}

/// The task that fetches one named asset object: content-addressed URL and
/// destination, expected hash the object's own hash.
pub ghost struct AssetObjectView {
    /// Object name in the index.
    pub name: Seq<char>,
    /// Content hash of the object.
    pub hash: Seq<char>,
    /// Size of the object.
    pub size: u64,
}

/// One named object of a parsed asset index.
#[derive(Debug, Clone)]
pub struct AssetObject {
    /// Object name in the index.
    pub name: String,
    /// Content hash of the object, in lower-case hex.
    pub hash: String,
    /// Size of the object.
    pub size: u64,
}

impl View for AssetObject {
    type V = AssetObjectView;

    open spec fn view(&self) -> AssetObjectView {
        AssetObjectView { name: self.name@, hash: self.hash@, size: self.size }
    }
}

/// The task of the client binary: `versions/<id>/<id>.jar` under the
/// instance directory.
pub open spec fn spec_client_task(info: VersionInfo, instance_dir: Seq<char>) -> FetchTaskView {
    FetchTaskView {
        url: info.downloads.client.url@,
        dest: spec_client_jar_path(instance_dir, info.id@),
        sha1: info.downloads.client.sha1@,
    }
}

/// The task of one library's direct artifact, if it has one.
pub open spec fn spec_artifact_tasks(lib: Library, libs_dir: Seq<char>) -> Seq<FetchTaskView> {
    match lib.downloads {
        Option::None => Seq::empty(),
        Option::Some(d) => match d.artifact {
            Option::None => Seq::empty(),
            Option::Some(a) => seq![
                FetchTaskView {
                    url: a.url@,
                    dest: spec_under(libs_dir, spec_library_rel(lib.name@)),
                    sha1: a.sha1@,
                },
            ],
        },
    }
}

/// The tasks of one library's native bundles for the given OS, from pair
/// position `i` on.
pub open spec fn spec_classifier_tasks_from(
    pairs: Seq<(String, DownloadInfo)>,
    name: Seq<char>,
    libs_dir: Seq<char>,
    os: Seq<char>,
    i: int,
) -> Seq<FetchTaskView>
    decreases pairs.len() - i,
{
    if i < 0 || i >= pairs.len() {
        Seq::empty()
    } else {
        (if spec_native_for_os(pairs[i].0@, os) {
            seq![
                FetchTaskView {
                    url: pairs[i].1.url@,
                    dest: spec_under(libs_dir, spec_native_rel(name, pairs[i].0@)),
                    sha1: pairs[i].1.sha1@,
                },
            ]
        } else {
            Seq::empty()
        }) + spec_classifier_tasks_from(pairs, name, libs_dir, os, i + 1)
    }
}

/// The tasks of one library's native bundles for the given OS.
pub open spec fn spec_classifier_tasks(lib: Library, libs_dir: Seq<char>, os: Seq<char>) -> Seq<
    FetchTaskView,
> {
    match lib.downloads {
        Option::None => Seq::empty(),
        Option::Some(d) => match d.classifiers {
            Option::None => Seq::empty(),
            Option::Some(pairs) => spec_classifier_tasks_from(pairs@, lib.name@, libs_dir, os, 0),
        },
    }
}

/// The tasks of one library: nothing when its rules disallow it, else its
/// artifact task followed by its native-bundle tasks.
pub open spec fn spec_one_library_tasks(lib: Library, libs_dir: Seq<char>, os: Seq<char>) -> Seq<
    FetchTaskView,
> {
    if library_allowed(lib, os) {
        spec_artifact_tasks(lib, libs_dir) + spec_classifier_tasks(lib, libs_dir, os)
    } else {
        Seq::empty()
    }
}

/// The tasks of the libraries from position `i` on, in descriptor order.
pub open spec fn spec_library_tasks_from(
    libs: Seq<Library>,
    libs_dir: Seq<char>,
    os: Seq<char>,
    i: int,
) -> Seq<FetchTaskView>
    decreases libs.len() - i,
{
    if i < 0 || i >= libs.len() {
        Seq::empty()
    } else {
        spec_one_library_tasks(libs[i], libs_dir, os) + spec_library_tasks_from(
            libs,
            libs_dir,
            os,
            i + 1,
        )
    }
}

/// The task of the asset index document.
pub open spec fn spec_asset_index_task(info: VersionInfo, instance_dir: Seq<char>) -> FetchTaskView {
    FetchTaskView {
        url: info.asset_index.url@,
        dest: spec_asset_index_path(instance_dir, info.asset_index.id@),
        sha1: info.asset_index.sha1@,
    }
}

/// The full plan of a descriptor on a platform: the client binary, then each
/// allowed library's artifact and native bundles in descriptor order, then
/// the asset index document.
pub open spec fn spec_plan(info: VersionInfo, instance_dir: Seq<char>, os: Seq<char>) -> Seq<
    FetchTaskView,
> {
    seq![spec_client_task(info, instance_dir)] + spec_library_tasks_from(
        info.libraries@,
        spec_libraries_dir(instance_dir),
        os,
        0,
    ) + seq![spec_asset_index_task(info, instance_dir)]
}

/// Build the ordered fetch-task list of a descriptor on a platform: the
/// client binary, each allowed library's artifact and native bundles in
/// descriptor order, and the asset index document.
pub fn plan(info: &VersionInfo, instance_dir: &str, platform: &Platform) -> (r: Vec<FetchTask>)
    ensures
        task_views(r@) == spec_plan(*info, instance_dir@, platform.os@),
{
    let libs_dir = get_libraries_dir(instance_dir);
    let mut r: Vec<FetchTask> = Vec::new();
    r.push(
        FetchTask {
            url: crate::text::clone_string(&info.downloads.client.url),
            dest: get_client_jar_path(instance_dir, info.id.as_str()),
            sha1: crate::text::clone_string(&info.downloads.client.sha1),
        },
    );
    assert(task_views(r@) =~= seq![spec_client_task(*info, instance_dir@)]);
    let n = info.libraries.len();
    for i in 0..n
        invariant
            n == info.libraries@.len(),
            libs_dir@ == spec_libraries_dir(instance_dir@),
            seq![spec_client_task(*info, instance_dir@)] + spec_library_tasks_from(
                info.libraries@,
                libs_dir@,
                platform.os@,
                0,
            ) =~= task_views(r@) + spec_library_tasks_from(
                info.libraries@,
                libs_dir@,
                platform.os@,
                i as int,
            ),
    {
        push_one_library_tasks(&mut r, &info.libraries[i], libs_dir.as_str(), platform);
        proof {
            lemma_library_tasks_step(info.libraries@, libs_dir@, platform.os@, i as int);
        }
    }
    r.push(
        FetchTask {
            url: crate::text::clone_string(&info.asset_index.url),
            dest: get_asset_index_path(instance_dir, info.asset_index.id.as_str()),
            sha1: crate::text::clone_string(&info.asset_index.sha1),
        },
    );
    assert(task_views(r@) =~= spec_plan(*info, instance_dir@, platform.os@));
    r
}

/// Unfolding step: the tasks from position `i` are the tasks of library `i`
/// followed by the tasks from position `i + 1`.
proof fn lemma_library_tasks_step(libs: Seq<Library>, libs_dir: Seq<char>, os: Seq<char>, i: int)
    requires
        0 <= i < libs.len(),
    ensures
        spec_library_tasks_from(libs, libs_dir, os, i) == spec_one_library_tasks(
            libs[i],
            libs_dir,
            os,
        ) + spec_library_tasks_from(libs, libs_dir, os, i + 1),
{
}

/// Append the tasks of one library to the task list: nothing when its rules
/// disallow it, else its artifact task and its native-bundle tasks.
fn push_one_library_tasks(
    r: &mut Vec<FetchTask>,
    lib: &Library,
    libs_dir: &str,
    platform: &Platform,
)
    ensures
        task_views(final(r)@) == task_views(old(r)@) + spec_one_library_tasks(
            *lib,
            libs_dir@,
            platform.os@,
        ),
{
    let ghost pre = task_views(r@);
    if !library_applies(lib, platform) {
        assert(task_views(r@) =~= pre + spec_one_library_tasks(*lib, libs_dir@, platform.os@));
        return ;
    }
    match &lib.downloads {
        Option::None => {
            assert(task_views(r@) =~= pre + spec_one_library_tasks(*lib, libs_dir@, platform.os@));
        },
        Option::Some(d) => {
            match &d.artifact {
                Option::None => {},
                Option::Some(a) => {
                    r.push(
                        FetchTask {
                            url: crate::text::clone_string(&a.url),
                            dest: get_library_path(lib.name.as_str(), libs_dir),
                            sha1: crate::text::clone_string(&a.sha1),
                        },
                    );
                },
            }
            assert(task_views(r@) =~= pre + spec_artifact_tasks(*lib, libs_dir@));
            match &d.classifiers {
                Option::None => {
                    assert(spec_classifier_tasks(*lib, libs_dir@, platform.os@)
                        =~= Seq::<FetchTaskView>::empty());
                },
                Option::Some(pairs) => {
                    let ghost mid = task_views(r@);
                    let m = pairs.len();
                    for j in 0..m
                        invariant
                            m == pairs@.len(),
                            mid + spec_classifier_tasks_from(
                                pairs@,
                                lib.name@,
                                libs_dir@,
                                platform.os@,
                                0,
                            ) =~= task_views(r@) + spec_classifier_tasks_from(
                                pairs@,
                                lib.name@,
                                libs_dir@,
                                platform.os@,
                                j as int,
                            ),
                    {
                        if is_native_for_os(pairs[j].0.as_str(), platform) {
                            let ghost before = task_views(r@);
                            r.push(
                                FetchTask {
                                    url: crate::text::clone_string(&pairs[j].1.url),
                                    dest: get_native_path(
                                        lib.name.as_str(),
                                        pairs[j].0.as_str(),
                                        libs_dir,
                                    ),
                                    sha1: crate::text::clone_string(&pairs[j].1.sha1),
                                },
                            );
                            assert(task_views(r@) =~= before.push(r@.last()@));
                        }
                    }
                    assert(spec_classifier_tasks_from(
                        pairs@,
                        lib.name@,
                        libs_dir@,
                        platform.os@,
                        m as int,
                    ) =~= Seq::<FetchTaskView>::empty());
                },
            }
            assert(task_views(r@) =~= pre + spec_one_library_tasks(*lib, libs_dir@, platform.os@));
        },
    }
}

/// Build one fetch task per asset object: content-addressed URL and
/// destination, expected hash the object's own hash.
pub fn plan_asset_object_tasks(objects: &Vec<AssetObject>, instance_dir: &str) -> (r: Vec<
    FetchTask,
>)
    requires
        forall|i: int| 0 <= i < objects@.len() ==> objects@[i].hash@.len() >= 2,
    ensures
        r@.len() == objects@.len(),
        forall|i: int|
            0 <= i < objects@.len() ==> r@[i]@ == (FetchTaskView {
                url: spec_asset_object_url(objects@[i].hash@),
                dest: spec_asset_object_path(instance_dir@, objects@[i].hash@),
                sha1: objects@[i].hash@,
            }),
{
    let n = objects.len();
    let mut r: Vec<FetchTask> = Vec::new();
    for i in 0..n
        invariant
            n == objects@.len(),
            forall|k: int| 0 <= k < objects@.len() ==> objects@[k].hash@.len() >= 2,
            r@.len() == i,
            forall|k: int|
                0 <= k < i ==> r@[k]@ == (FetchTaskView {
                    url: spec_asset_object_url(objects@[k].hash@),
                    dest: spec_asset_object_path(instance_dir@, objects@[k].hash@),
                    sha1: objects@[k].hash@,
                }),
    {
        r.push(
            FetchTask {
                url: get_asset_object_url(objects[i].hash.as_str()),
                dest: get_asset_object_path(instance_dir, objects[i].hash.as_str()),
                sha1: crate::text::clone_string(&objects[i].hash),
            },
        );
    }
    r
}

} // verus!
