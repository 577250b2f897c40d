//! Native-archive extraction planning: which archives to open for a
//! version, and which entries of an archive may be written out. An entry
//! must never escape the destination directory, and the archive metadata
//! directory is never extracted.

use vstd::prelude::*;
use crate::maven::{get_native_path, spec_native_rel, spec_under};
use crate::rules::{is_native_for_os, library_applies, library_allowed, spec_native_for_os,
    Platform};
use crate::text::{spec_split, split_char, str_eq, views};
use crate::version::{DownloadInfo, Library, VersionInfo};

verus! {

/// What to do with one archive entry.
#[derive(Debug, Clone, Copy, PartialEq, Eq, Structural)]
pub enum EntryAction {
    /// Leave the entry alone.
    Skip,
    /// Write the entry under the natives directory.
    Extract,
}

/// The slash-separated components of an entry name.
pub open spec fn spec_entry_parts(name: Seq<char>) -> Seq<Seq<char>> {
    spec_split(name, '/')
}

/// An entry name that cannot escape the destination: non-empty, relative,
/// and without a parent-directory component.
pub open spec fn spec_entry_safe(name: Seq<char>) -> bool {
    &&& name.len() > 0
    &&& name[0] != '/'
    &&& forall|i: int|
        0 <= i < spec_entry_parts(name).len() ==> spec_entry_parts(name)[i] != ".."@
}

/// An entry that extraction leaves alone: one with an unsafe name, or one
/// rooted at the archive metadata directory.
pub open spec fn spec_entry_skipped(name: Seq<char>) -> bool {
    ||| !spec_entry_safe(name)
    ||| (spec_entry_parts(name).len() > 0 && spec_entry_parts(name)[0] == "META-INF"@)
}

/// Decide what to do with one archive entry: extract it unless its name
/// could escape the destination directory or it is rooted at "META-INF".
pub fn entry_action(name: &str) -> (r: EntryAction)
    ensures
        (r is Extract) == !spec_entry_skipped(name@),
{
    let n = name.unicode_len();
    if n == 0 {
        return EntryAction::Skip;
    }
    if name.get_char(0) == '/' {
        return EntryAction::Skip;
    }
    let parts = split_char(name, '/');
    let m = parts.len();
    for i in 0..m
        invariant
            m == parts@.len(),
            views(parts@) == spec_entry_parts(name@),
            forall|j: int| 0 <= j < i ==> views(parts@)[j] != ".."@,
    {
        assert(views(parts@)[i as int] == parts@[i as int]@);
        if str_eq(parts[i].as_str(), "..") {
            return EntryAction::Skip;
        }
    }
    if m > 0 {
        assert(views(parts@)[0] == parts@[0]@);
        if str_eq(parts[0].as_str(), "META-INF") {
            return EntryAction::Skip;
        }
    }
    EntryAction::Extract
}

/// The native archives of the libraries from position `i` on: for each
/// allowed library, the path of every native bundle matching the OS.
pub open spec fn spec_native_jars_from(
    libs: Seq<Library>,
    libs_dir: Seq<char>,
    os: Seq<char>,
    i: int,
) -> Seq<Seq<char>>
    decreases libs.len() - i,
{
    if i < 0 || i >= libs.len() {
        Seq::empty()
    } else {
        spec_one_library_jars(libs[i], libs_dir, os) + spec_native_jars_from(
            libs,
            libs_dir,
            os,
            i + 1,
        )
    }
}

/// The native archives of one library: nothing when its rules disallow it,
/// else the path of each native bundle matching the OS, in pair order.
pub open spec fn spec_one_library_jars(lib: Library, libs_dir: Seq<char>, os: Seq<char>) -> Seq<
    Seq<char>,
> {
    if library_allowed(lib, os) {
        match lib.downloads {
            Option::None => Seq::empty(),
            Option::Some(d) => match d.classifiers {
                Option::None => Seq::empty(),
                Option::Some(pairs) => spec_pair_jars_from(pairs@, lib.name@, libs_dir, os, 0),
            },
        }
    } else {
        Seq::empty()
    }
}

/// The native archive paths contributed by the classifier pairs from
/// position `i` on.
pub open spec fn spec_pair_jars_from(
    pairs: Seq<(String, DownloadInfo)>,
    name: Seq<char>,
    libs_dir: Seq<char>,
    os: Seq<char>,
    i: int,
) -> Seq<Seq<char>>
    decreases pairs.len() - i,
{
    if i < 0 || i >= pairs.len() {
        Seq::empty()
    } else {
        (if spec_native_for_os(pairs[i].0@, os) {
            seq![spec_under(libs_dir, spec_native_rel(name, pairs[i].0@))]
        } else {
            Seq::<Seq<char>>::empty()
        }) + spec_pair_jars_from(pairs, name, libs_dir, os, i + 1)
    }
}

/// List the native archives of a version on a platform: for each allowed
/// library, the on-disk path of every native bundle matching the OS, in
/// descriptor order. Each listed archive is opened and extracted into the
/// natives directory; a failure on any one aborts native setup.
pub fn native_jar_paths(info: &VersionInfo, instance_dir: &str, platform: &Platform) -> (r: Vec<
    String,
>)
    ensures
        views(r@) == spec_native_jars_from(
            info.libraries@,
            crate::layout::spec_libraries_dir(instance_dir@),
            platform.os@,
            0,
        ),
{
    let libs_dir = crate::layout::get_libraries_dir(instance_dir);
    let mut r: Vec<String> = Vec::new();
    assert(views(r@) =~= Seq::<Seq<char>>::empty());
    let n = info.libraries.len();
    for i in 0..n
        invariant
            n == info.libraries@.len(),
            libs_dir@ == crate::layout::spec_libraries_dir(instance_dir@),
            views(r@) + spec_native_jars_from(
                info.libraries@,
                libs_dir@,
                platform.os@,
                i as int,
            ) =~= spec_native_jars_from(info.libraries@, libs_dir@, platform.os@, 0),
    {
        let lib = &info.libraries[i];
        let ghost pre = views(r@);
        if library_applies(lib, platform) {
            match &lib.downloads {
                Option::None => {},
                Option::Some(d) => {
                    match &d.classifiers {
                        Option::None => {},
                        Option::Some(pairs) => {
                            let m = pairs.len();
                            for j in 0..m
                                invariant
                                    m == pairs@.len(),
                                    libs_dir@ == crate::layout::spec_libraries_dir(instance_dir@),
                                    pre + spec_pair_jars_from(
                                        pairs@,
                                        lib.name@,
                                        libs_dir@,
                                        platform.os@,
                                        0,
                                    ) =~= views(r@) + spec_pair_jars_from(
                                        pairs@,
                                        lib.name@,
                                        libs_dir@,
                                        platform.os@,
                                        j as int,
                                    ),
                            {
                                if is_native_for_os(pairs[j].0.as_str(), platform) {
                                    let ghost mid = views(r@);
                                    r.push(
                                        get_native_path(
                                            lib.name.as_str(),
                                            pairs[j].0.as_str(),
                                            libs_dir.as_str(),
                                        ),
                                    );
                                    assert(views(r@) =~= mid.push(r@.last()@));
                                }
                            }
                            assert(spec_pair_jars_from(
                                pairs@,
                                lib.name@,
                                libs_dir@,
                                platform.os@,
                                m as int,
                            ) =~= Seq::<Seq<char>>::empty());
                        },
                    }
                },
            }
        }
        assert(views(r@) =~= pre + spec_one_library_jars(*lib, libs_dir@, platform.os@));
    }
    assert(spec_native_jars_from(info.libraries@, libs_dir@, platform.os@, n as int)
        =~= Seq::<Seq<char>>::empty());
    r
}

} // verus!
