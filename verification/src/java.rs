//! Java runtime support logic: the required major version for a game
//! version, parsing `java -version` output, and the download URL of a
//! runtime package. Running `java`, walking directories and unpacking
//! archives happen outside the library.

use vstd::prelude::*;
use crate::args::{replace_all, spec_replace};
use crate::error::LauncherError;
use crate::rules::Platform;
use crate::text::{
    contains_sub, match_at, spec_contains, spec_dec, spec_split, split_char, str_eq,
    u64_to_dec, views,
};

verus! {

/// A decimal digit.
pub open spec fn is_digit(c: char) -> bool {
    c == '0' || c == '1' || c == '2' || c == '3' || c == '4' || c == '5' || c == '6' || c == '7'
        || c == '8' || c == '9'
}

/// The value of a decimal digit.
pub open spec fn digit_val(c: char) -> nat {
    if c == '0' { 0 }
    else if c == '1' { 1 }
    else if c == '2' { 2 }
    else if c == '3' { 3 }
    else if c == '4' { 4 }
    else if c == '5' { 5 }
    else if c == '6' { 6 }
    else if c == '7' { 7 }
    else if c == '8' { 8 }
    else { 9 }
}

/// Every character is a decimal digit.
pub open spec fn all_digits(s: Seq<char>) -> bool {
    forall|i: int| 0 <= i < s.len() ==> is_digit(s[i])
}

/// The numeric value of a digit string.
pub open spec fn digits_val(s: Seq<char>) -> nat
    decreases s.len(),
{
    if s.len() == 0 {
        0
    } else {
        digits_val(s.drop_last()) * 10 + digit_val(s.last())
    }
}

/// The parse of a string as a `u32`: its value when it is a non-empty
/// digit string whose value fits, nothing otherwise.
pub open spec fn spec_parse_u32(s: Seq<char>) -> Option<u32> {
    if s.len() > 0 && all_digits(s) && digits_val(s) <= u32::MAX {
        Some(digits_val(s) as u32)
    } else {
        None
    }
}

/// The parse of a string as an `i32`, digits only.
pub open spec fn spec_parse_i32(s: Seq<char>) -> Option<i32> {
    if s.len() > 0 && all_digits(s) && digits_val(s) <= i32::MAX {
        Some(digits_val(s) as i32)
    } else {
        None
    }
}

/// The value of a digit string is at least the value of any prefix.
proof fn lemma_digits_val_prefix(s: Seq<char>, i: int)
    requires
        0 <= i <= s.len(),
    ensures
        digits_val(s.subrange(0, i)) <= digits_val(s),
    decreases s.len(),
{
    if i == s.len() {
        assert(s.subrange(0, i) =~= s);
    } else {
        assert(s.subrange(0, i) =~= s.drop_last().subrange(0, i));
        lemma_digits_val_prefix(s.drop_last(), i);
    }
}

/// The value of a decimal digit character.
fn digit_value(c: char) -> (d: u64)
    requires
        is_digit(c),
    ensures
        d == digit_val(c),
        d < 10,
{
    if c == '0' { 0 }
    else if c == '1' { 1 }
    else if c == '2' { 2 }
    else if c == '3' { 3 }
    else if c == '4' { 4 }
    else if c == '5' { 5 }
    else if c == '6' { 6 }
    else if c == '7' { 7 }
    else if c == '8' { 8 }
    else { 9 }
}

/// Parse a non-empty digit string as a `u32`; anything else, and any value
/// that does not fit, yields nothing.
pub fn parse_u32(s: &str) -> (r: Option<u32>)
    ensures
        r == spec_parse_u32(s@),
{
    let n = s.unicode_len();
    if n == 0 {
        return None;
    }
    let mut acc: u64 = 0;
    for i in 0..n
        invariant
            n == s@.len(),
            acc == digits_val(s@.subrange(0, i as int)),
            acc <= u32::MAX,
            all_digits(s@.subrange(0, i as int)),
    {
        let c = s.get_char(i);
        let digit = c == '0' || c == '1' || c == '2' || c == '3' || c == '4' || c == '5' || c
            == '6' || c == '7' || c == '8' || c == '9';
        if !digit {
            assert(!all_digits(s@));
            return None;
        }
        let d = digit_value(c);
        acc = acc * 10 + d;
        proof {
            assert(s@.subrange(0, i + 1).drop_last() =~= s@.subrange(0, i as int));
            assert(s@.subrange(0, i + 1).last() == s@[i as int]);
            assert(forall|j: int|
                0 <= j < i + 1 ==> is_digit(#[trigger] s@.subrange(0, i + 1)[j]));
        }
        if acc > 0xffff_ffff {
            proof {
                lemma_digits_val_prefix(s@, i + 1);
            }
            return None;
        }
    }
    assert(s@.subrange(0, n as int) =~= s@);
    Some(acc as u32)
}

/// Parse a non-empty digit string as an `i32`.
pub fn parse_i32_digits(s: &str) -> (r: Option<i32>)
    ensures
        r == spec_parse_i32(s@),
{
    match parse_u32(s) {
        Some(v) => {
            if v <= 0x7fff_ffff {
                Some(v as i32)
            } else {
                None
            }
        },
        None => None,
    }
}

/// The parse of a version segment, falling back to a default when the
/// segment does not parse.
pub open spec fn parse_or(s: Seq<char>, default: nat) -> nat {
    match spec_parse_u32(s) {
        Some(v) => v as nat,
        None => default,
    }
}

/// The Java major version a game version requires: for versions "1.minor"
/// and later segments, 21 from minor 20 on, 17 from minor 17 on, else 8;
/// any other shape requires 8.
pub open spec fn spec_required_java(version: Seq<char>) -> u32 {
    let parts = spec_split(version, '.');
    if parts.len() >= 2 {
        let major = parse_or(parts[0], 1);
        let minor = parse_or(parts[1], 0);
        if major == 1 {
            if minor >= 20 {
                21u32
            } else if minor >= 17 {
                17u32
            } else {
                8u32
            }
        } else {
            8u32
        }
    } else {
        8u32
    }
}

/// The Java major version the given game version requires.
pub fn get_required_java_version(version: &str) -> (r: u32)
    ensures
        r == spec_required_java(version@),
{
    let parts = split_char(version, '.');
    if parts.len() >= 2 {
        assert(views(parts@)[0] == parts@[0]@);
        assert(views(parts@)[1] == parts@[1]@);
        let major = match parse_u32(parts[0].as_str()) {
            Some(v) => v,
            None => 1,
        };
        let minor = match parse_u32(parts[1].as_str()) {
            Some(v) => v,
            None => 0,
        };
        if major == 1 {
            if minor >= 20 {
                21
            } else if minor >= 17 {
                17
            } else {
                8
            }
        } else {
            8
        }
    } else {
        8
    }
}

/// The OS and architecture names of the runtime download API: the OS as
/// the API writes it, and "x64" for both x86-64 and (for emulation) ARM64,
/// "x32" otherwise.
pub fn get_os_arch(platform: &Platform) -> (r: (String, String))
    ensures
        r.0@ == (if platform.os@ == "windows"@ {
            "windows"@
        } else if platform.os@ == "osx"@ {
            "macos"@
        } else {
            "linux"@
        }),
        r.1@ == (if platform.arch@ == "x86_64"@ || platform.arch@ == "aarch64"@ {
            "x64"@
        } else {
            "x32"@
        }),
{
    let os = if str_eq(platform.os.as_str(), "windows") {
        String::from_str("windows")
    } else if str_eq(platform.os.as_str(), "osx") {
        String::from_str("macos")
    } else {
        String::from_str("linux")
    };
    let arch = if str_eq(platform.arch.as_str(), "x86_64") || str_eq(
        platform.arch.as_str(),
        "aarch64",
    ) {
        String::from_str("x64")
    } else {
        String::from_str("x32")
    };
    (os, arch)
}

/// The runtime package query URL for a major version, OS and architecture.
pub fn azul_package_url(major_version: u32, os: &str, arch: &str) -> (r: String)
    ensures
        r@ == "https://api.azul.com/metadata/v1/zulu/packages"@ + "?java_version="@ + spec_dec(
            major_version as nat,
        ) + "&os="@ + os@ + "&arch="@ + arch@ + "&archive_type=zip&java_package_type=jre"@,
{
    let mut r = String::from_str("https://api.azul.com/metadata/v1/zulu/packages");
    r.append("?java_version=");
    let major = u64_to_dec(major_version as u64);
    r.append(major.as_str());
    r.append("&os=");
    r.append(os);
    r.append("&arch=");
    r.append(arch);
    r.append("&archive_type=zip&java_package_type=jre");
    r
}

/// The directory a downloaded archive extracts into: the file name with
/// its ".tar.gz" and ".zip" suffixes removed, each left to right.
pub fn get_extraction_dir_name(file_name: &str) -> (r: String)
    ensures
        r@ == spec_replace(spec_replace(file_name@, ".tar.gz"@, ""@), ".zip"@, ""@),
{
    let without_tar = replace_all(file_name, ".tar.gz", "");
    replace_all(without_tar.as_str(), ".zip", "")
}

/// Every split has at least one piece.
proof fn lemma_split_nonempty_from(
    s: Seq<char>,
    sep: char,
    i: int,
    cur: Seq<char>,
    acc: Seq<Seq<char>>,
)
    ensures
        crate::text::split_from(s, sep, i, cur, acc).len() >= acc.len() + 1,
    decreases s.len() - i,
{
    if i < 0 || i >= s.len() {
    } else if s[i] == sep {
        lemma_split_nonempty_from(s, sep, i + 1, Seq::empty(), acc.push(cur));
    } else {
        lemma_split_nonempty_from(s, sep, i + 1, cur.push(s[i]), acc);
    }
}

/// Every split has at least one piece.
pub proof fn lemma_split_nonempty(s: Seq<char>, sep: char)
    ensures
        spec_split(s, sep).len() >= 1,
{
    lemma_split_nonempty_from(s, sep, 0, Seq::empty(), Seq::empty());
}

/// Whether `java -version` output names the expected major version on its
/// first line, in the modern `"21` shape or the legacy `"1.8` shape.
pub open spec fn spec_check_java(output: Seq<char>, major: nat) -> bool {
    let first_line = spec_split(output, '\n')[0];
    spec_contains(first_line, seq!['"'] + spec_dec(major)) || spec_contains(
        first_line,
        seq!['"', '1', '.'] + spec_dec(major),
    )
}

/// Check `java -version` output against an expected major version: its
/// first line must name the version after a quote, in the modern or the
/// legacy shape.
pub fn check_java_version(version_output: &str, expected_major_version: u32) -> (r: bool)
    ensures
        r == spec_check_java(version_output@, expected_major_version as nat),
{
    let lines = split_char(version_output, '\n');
    proof {
        lemma_split_nonempty(version_output@, '\n');
        assert(views(lines@)[0] == lines@[0]@);
    }
    let first = &lines[0];
    let dec = u64_to_dec(expected_major_version as u64);
    let mut version_pattern = String::from_str("\"");
    version_pattern.append(dec.as_str());
    let mut legacy_pattern = String::from_str("\"1.");
    legacy_pattern.append(dec.as_str());
    proof {
        reveal_strlit("\"");
        reveal_strlit("\"1.");
        assert(version_pattern@ =~= seq!['"'] + spec_dec(expected_major_version as nat));
        assert(legacy_pattern@ =~= seq!['"', '1', '.'] + spec_dec(
            expected_major_version as nat,
        ));
    }
    contains_sub(first.as_str(), version_pattern.as_str()) || contains_sub(
        first.as_str(),
        legacy_pattern.as_str(),
    )
}

/// The first position at or after `i` where `c` occurs in `s`, or -1.
pub open spec fn first_at(s: Seq<char>, c: char, i: int) -> int
    decreases s.len() - i,
{
    if i < 0 || i >= s.len() {
        -1
    } else if s[i] == c {
        i
    } else {
        first_at(s, c, i + 1)
    }
}

/// The first position at or after `from` where `c` occurs in `s`.
fn find_char(s: &str, c: char, from: usize) -> (r: Option<usize>)
    requires
        from <= s@.len(),
    ensures
        match r {
            Some(k) => from <= k < s@.len() && k == first_at(s@, c, from as int),
            None => first_at(s@, c, from as int) == -1,
        },
{
    let n = s.unicode_len();
    let mut i: usize = from;
    while i < n
        invariant
            n == s@.len(),
            from <= i <= n,
            first_at(s@, c, from as int) == first_at(s@, c, i as int),
        decreases n - i,
    {
        if s.get_char(i) == c {
            return Some(i);
        }
        i = i + 1;
    }
    None
}

/// The text between the first pair of double quotes of a line.
pub open spec fn spec_version_string(line: Seq<char>) -> Option<Seq<char>> {
    let q1 = first_at(line, '"', 0);
    if q1 < 0 {
        None
    } else {
        let q2 = first_at(line, '"', q1 + 1);
        if q2 < 0 {
            None
        } else {
            Some(line.subrange(q1 + 1, q2))
        }
    }
}

/// The major version named by a quoted version string: the second
/// dot-separated segment of a legacy "1." string, the first segment
/// otherwise.
pub open spec fn spec_vs_major(vs: Seq<char>) -> Option<i32> {
    let parts = spec_split(vs, '.');
    if vs.len() >= 2 && vs.subrange(0, 2) == "1."@ {
        if parts.len() >= 2 {
            spec_parse_i32(parts[1])
        } else {
            None
        }
    } else {
        spec_parse_i32(parts[0])
    }
}

/// The major version named by one line of `java -version` output, when
/// the line names one.
pub open spec fn spec_line_major(line: Seq<char>) -> Option<i32> {
    if !spec_contains(line, "version"@) {
        None
    } else {
        match spec_version_string(line) {
            Option::None => None,
            Option::Some(vs) => spec_vs_major(vs),
        }
    }
}

/// The major version named by the first line that names one, from line
/// `i` on.
pub open spec fn spec_java_major_from(lines: Seq<Seq<char>>, i: int) -> Option<i32>
    decreases lines.len() - i,
{
    if i < 0 || i >= lines.len() {
        None
    } else {
        match spec_line_major(lines[i]) {
            Option::Some(m) => Some(m),
            Option::None => spec_java_major_from(lines, i + 1),
        }
    }
}

/// Parse the major version out of `java -version` output: the first line
/// that holds the word "version" and a quoted version string naming a
/// major version decides; with no such line the output is unparseable.
pub fn parse_java_major_version(version_output: &str) -> (r: Result<i32, LauncherError>)
    ensures
        match r {
            Ok(m) => spec_java_major_from(spec_split(version_output@, '\n'), 0) == Some(m),
            Err(e) => spec_java_major_from(spec_split(version_output@, '\n'), 0) is None && (
            e matches LauncherError::Config(msg) && msg@ == "Could not parse Java version"@),
        },
{
    let lines = split_char(version_output, '\n');
    let n = lines.len();
    let ghost lviews = views(lines@);
    for i in 0..n
        invariant
            n == lines@.len(),
            lviews == views(lines@),
            lviews == spec_split(version_output@, '\n'),
            spec_java_major_from(lviews, 0) == spec_java_major_from(lviews, i as int),
    {
        assert(lviews[i as int] == lines@[i as int]@);
        let line = lines[i].as_str();
        let line_len = line.unicode_len();
        if contains_sub(line, "version") {
            match find_char(line, '"', 0) {
                Option::None => {},
                Option::Some(q1) => {
                    match find_char(line, '"', q1 + 1) {
                        Option::None => {},
                        Option::Some(q2) => {
                            let vs = line.substring_char(q1 + 1, q2);
                            let ghost vsv = line@.subrange(q1 + 1, q2 as int);
                            let starts_legacy = vs.unicode_len() >= 2 && match_at(vs, "1.", 0);
                            proof {
                                reveal_strlit("1.");
                                assert(starts_legacy == (vsv.len() >= 2 && vsv.subrange(0, 2)
                                    == "1."@));
                            }
                            let parts = split_char(vs, '.');
                            if starts_legacy {
                                if parts.len() >= 2 {
                                    assert(views(parts@)[1] == parts@[1]@);
                                    match parse_i32_digits(parts[1].as_str()) {
                                        Option::Some(m) => {
                                            return Ok(m);
                                        },
                                        Option::None => {},
                                    }
                                }
                            } else {
                                proof {
                                    lemma_split_nonempty(vsv, '.');
                                    assert(views(parts@)[0] == parts@[0]@);
                                }
                                match parse_i32_digits(parts[0].as_str()) {
                                    Option::Some(m) => {
                                        return Ok(m);
                                    },
                                    Option::None => {},
                                }
                            }
                        },
                    }
                },
            }
        }
    }
    Err(LauncherError::config(String::from_str("Could not parse Java version")))
}

} // verus!
