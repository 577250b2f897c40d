//! Maven-coordinate to on-disk path mapping. The layout is a pure function
//! of the coordinate and must match the maven repository layout, since
//! the classpath is built from these paths.

use vstd::prelude::*;
use crate::text::{dots_to_slashes, replace_dots, spec_split, split_char, views};

verus! {

/// The relative path of a library artifact under the libraries directory:
/// `group-dots-as-slashes/artifact/version/artifact-version[-classifier].jar`
/// for a coordinate of at least three colon-delimited segments, the raw
/// coordinate otherwise.
pub open spec fn spec_library_rel(name: Seq<char>) -> Seq<char> {
    let parts = spec_split(name, ':');
    if parts.len() >= 3 {
        dots_to_slashes(parts[0]) + "/"@ + parts[1] + "/"@ + parts[2] + "/"@ + parts[1] + "-"@
            + parts[2] + (if parts.len() > 3 {
            "-"@ + parts[3]
        } else {
            Seq::<char>::empty()
        }) + ".jar"@
    } else {
        name
    }
}

/// The relative path of a native bundle with an explicit classifier:
/// `group-dots-as-slashes/artifact/version/artifact-version-classifier.jar`
/// for a coordinate of at least three segments,
/// `name-classifier.jar` otherwise.
pub open spec fn spec_native_rel(name: Seq<char>, classifier: Seq<char>) -> Seq<char> {
    let parts = spec_split(name, ':');
    if parts.len() >= 3 {
        dots_to_slashes(parts[0]) + "/"@ + parts[1] + "/"@ + parts[2] + "/"@ + parts[1] + "-"@
            + parts[2] + "-"@ + classifier + ".jar"@
    } else {
        name + "-"@ + classifier + ".jar"@
    }
}

/// `dir` and `rel` joined with a slash.
pub open spec fn spec_under(dir: Seq<char>, rel: Seq<char>) -> Seq<char> {
    dir + "/"@ + rel
}

/// Join a directory path and a relative path with a slash.
pub fn path_under(dir: &str, rel: &str) -> (r: String)
    ensures
        r@ == spec_under(dir@, rel@),
{
    let mut r = String::from_str(dir);
    r.append("/");
    r.append(rel);
    r
}

/// The on-disk path of a library artifact under the libraries directory.
pub fn get_library_path(library_name: &str, libraries_dir: &str) -> (r: String)
    ensures
        r@ == spec_under(libraries_dir@, spec_library_rel(library_name@)),
{
    let parts = split_char(library_name, ':');
    if parts.len() >= 3 {
        let group = replace_dots(parts[0].as_str());
        let mut rel = group;
        rel.append("/");
        rel.append(parts[1].as_str());
        rel.append("/");
        rel.append(parts[2].as_str());
        rel.append("/");
        rel.append(parts[1].as_str());
        rel.append("-");
        rel.append(parts[2].as_str());
        if parts.len() > 3 {
            rel.append("-");
            rel.append(parts[3].as_str());
        }
        rel.append(".jar");
        proof {
            assert(views(parts@)[0] == parts@[0]@);
            assert(views(parts@)[1] == parts@[1]@);
            assert(views(parts@)[2] == parts@[2]@);
            if parts@.len() > 3 {
                assert(views(parts@)[3] == parts@[3]@);
            }
            assert(rel@ =~= spec_library_rel(library_name@));
        }
        path_under(libraries_dir, rel.as_str())
    } else {
        path_under(libraries_dir, library_name)
    }
}

/// The on-disk path of a native bundle with the given classifier under the
/// libraries directory.
pub fn get_native_path(library_name: &str, classifier: &str, libraries_dir: &str) -> (r: String)
    ensures
        r@ == spec_under(libraries_dir@, spec_native_rel(library_name@, classifier@)),
{
    let parts = split_char(library_name, ':');
    if parts.len() >= 3 {
        let group = replace_dots(parts[0].as_str());
        let mut rel = group;
        rel.append("/");
        rel.append(parts[1].as_str());
        rel.append("/");
        rel.append(parts[2].as_str());
        rel.append("/");
        rel.append(parts[1].as_str());
        rel.append("-");
        rel.append(parts[2].as_str());
        rel.append("-");
        rel.append(classifier);
        rel.append(".jar");
        proof {
            assert(views(parts@)[0] == parts@[0]@);
            assert(views(parts@)[1] == parts@[1]@);
            assert(views(parts@)[2] == parts@[2]@);
            assert(rel@ =~= spec_native_rel(library_name@, classifier@));
        }
        path_under(libraries_dir, rel.as_str())
    } else {
        let mut rel = String::from_str(library_name);
        rel.append("-");
        rel.append(classifier);
        rel.append(".jar");
        assert(rel@ =~= spec_native_rel(library_name@, classifier@));
        path_under(libraries_dir, rel.as_str())
    }
}

} // verus!
