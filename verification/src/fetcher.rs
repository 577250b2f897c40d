//! The verified-download decision logic: content hashing, the idempotence
//! check that skips intact files, hash validation of downloaded bytes, and
//! the all-settle failure aggregation.

use vstd::prelude::*;
use crate::error::LauncherError;
use crate::text::str_eq;

verus! {

/// The SHA-1 digest of a byte sequence.
pub uninterp spec fn sha1_of(bytes: Seq<u8>) -> Seq<u8>;

/// Relies on `sha1::Sha1` through the `Digest` trait: the SHA-1 digest of
/// the input, 20 bytes, a function of the input bytes alone.
#[verifier::external_body]
fn sha1_digest(bytes: &[u8]) -> (r: Vec<u8>)
    ensures
        r@ == sha1_of(bytes@),
        r@.len() == 20,
{
    let digest = <sha1::Sha1 as sha1::Digest>::digest(bytes);
    digest.to_vec()
}

/// The lower-case hex character of a value below sixteen.
pub open spec fn hex_char(d: nat) -> char {
    if d < 10 {
        crate::text::digit_char(d)
    } else if d == 10 { 'a' }
    else if d == 11 { 'b' }
    else if d == 12 { 'c' }
    else if d == 13 { 'd' }
    else if d == 14 { 'e' }
    else { 'f' }
}

/// The lower-case hex rendering of a byte sequence, two characters per byte.
pub open spec fn spec_hex_lower(bytes: Seq<u8>) -> Seq<char>
    decreases bytes.len(),
{
    if bytes.len() == 0 {
        Seq::empty()
    } else {
        spec_hex_lower(bytes.drop_last()) + seq![
            hex_char((bytes.last() / 16) as nat),
            hex_char((bytes.last() % 16) as nat),
        ]
    }
}

/// The lower-case hex SHA-1 of a byte sequence, the form in which the
/// remote manifests render content hashes.
pub open spec fn spec_sha1_hex(bytes: Seq<u8>) -> Seq<char> {
    spec_hex_lower(sha1_of(bytes))
}

/// The lower-case hex character of a value below sixteen.
fn hex_of(d: u8) -> (c: char)
    requires
        d < 16,
    ensures
        c == hex_char(d as nat),
{
    if d < 10 {
        crate::text::digit_of(d as u64)
    } else if d == 10 { 'a' }
    else if d == 11 { 'b' }
    else if d == 12 { 'c' }
    else if d == 13 { 'd' }
    else if d == 14 { 'e' }
    else { 'f' }
}

/// The lower-case hex rendering of a byte sequence.
pub fn to_hex_lower(bytes: &Vec<u8>) -> (r: String)
    ensures
        r@ == spec_hex_lower(bytes@),
{
    let n = bytes.len();
    let mut r = String::new();
    for i in 0..n
        invariant
            n == bytes@.len(),
            r@ == spec_hex_lower(bytes@.subrange(0, i as int)),
    {
        let b = bytes[i];
        crate::text::push_char(&mut r, hex_of(b / 16));
        crate::text::push_char(&mut r, hex_of(b % 16));
        proof {
            assert(bytes@.subrange(0, i + 1).drop_last() =~= bytes@.subrange(0, i as int));
            assert(bytes@.subrange(0, i + 1).last() == bytes@[i as int]);
            assert(r@ =~= spec_hex_lower(bytes@.subrange(0, i + 1)));
        }
    }
    assert(bytes@.subrange(0, n as int) =~= bytes@);
    r
}

/// The lower-case hex SHA-1 of the given content.
pub fn calculate_sha1(content: &[u8]) -> (r: String)
    ensures
        r@ == spec_sha1_hex(content@),
{
    let digest = sha1_digest(content);
    to_hex_lower(&digest)
}

/// Whether the given content hashes to the expected lower-case hex SHA-1.
pub fn hash_matches(content: &[u8], expected: &str) -> (r: bool)
    ensures
        r == (spec_sha1_hex(content@) == expected@),
{
    let actual = calculate_sha1(content);
    str_eq(actual.as_str(), expected)
}

/// Whether a task must touch the network: false exactly when the destination
/// already holds content whose hash equals the expectation, which makes the
/// task a no-op.
pub fn needs_fetch(existing: &Option<Vec<u8>>, expected: &str) -> (r: bool)
    ensures
        r == !(existing matches Some(content) && spec_sha1_hex(content@) == expected@),
{
    match existing {
        Option::None => true,
        Option::Some(content) => !hash_matches(content.as_slice(), expected),
    }
}

/// Validate downloaded bytes against the expected hash: accepted exactly
/// when the hash matches; a mismatch is a validation error, after which the
/// caller must discard the temporary file and leave the destination alone.
pub fn validate_download(content: &[u8], expected: &str, dest: &str) -> (r: Result<
    (),
    LauncherError,
>)
    ensures
        r is Ok <==> spec_sha1_hex(content@) == expected@,
        r matches Err(e) ==> e.is_validation(),
{
    if hash_matches(content, expected) {
        Ok(())
    } else {
        let mut msg = String::from_str("Hash mismatch for ");
        msg.append(dest);
        msg.append(": expected ");
        msg.append(expected);
        msg.append(", got ");
        let actual = calculate_sha1(content);
        msg.append(actual.as_str());
        Err(LauncherError::validation(msg))
    }
}

/// An aggregated download failure: how many tasks failed and the first
/// error in submission order.
#[derive(Debug, Clone)]
pub struct DownloadFailure {
    /// Number of tasks that failed.
    pub count: usize,
    /// The first error, in submission order.
    pub first: LauncherError,
}

/// The number of failed outcomes in the sequence.
pub open spec fn count_failures(outcomes: Seq<Option<LauncherError>>) -> nat
    decreases outcomes.len(),
{
    if outcomes.len() == 0 {
        0
    } else {
        count_failures(outcomes.drop_last()) + (if outcomes.last() is Some {
            1nat
        } else {
            0nat
        })
    }
}

/// Aggregate the settled outcomes of a batch of fetch tasks, one outcome per
/// task in submission order, with a success as `None` and a failure as the
/// task's error. The batch succeeds exactly when every task did; otherwise
/// the aggregate reports the failure count and the first error, after every
/// task has settled.
pub fn aggregate_outcomes(outcomes: Vec<Option<LauncherError>>) -> (r: Result<
    (),
    DownloadFailure,
>)
    ensures
        r is Ok <==> count_failures(outcomes@) == 0,
        r matches Err(f) ==> f.count == count_failures(outcomes@) && exists|i: int|
            0 <= i < outcomes@.len() && outcomes@[i] == Some(f.first) && (forall|j: int|
                0 <= j < i ==> outcomes@[j] is None),
{
    let n = outcomes.len();
    let mut count: usize = 0;
    let mut first_idx: usize = n;
    for i in 0..n
        invariant
            n == outcomes@.len(),
            count == count_failures(outcomes@.subrange(0, i as int)),
            count <= i,
            first_idx == n || (first_idx < i && outcomes@[first_idx as int] is Some && (
            forall|j: int| 0 <= j < first_idx ==> outcomes@[j] is None)),
            first_idx == n ==> forall|j: int| 0 <= j < i ==> outcomes@[j] is None,
            count == 0 <==> first_idx == n,
    {
        proof {
            assert(outcomes@.subrange(0, i + 1).drop_last() =~= outcomes@.subrange(0, i as int));
            assert(outcomes@.subrange(0, i + 1).last() == outcomes@[i as int]);
        }
        if outcomes[i].is_some() {
            if first_idx == n {
                first_idx = i;
            }
            count = count + 1;
        }
    }
    assert(outcomes@.subrange(0, n as int) =~= outcomes@);
    if count == 0 {
        Ok(())
    } else {
        let mut rest = outcomes;
        let first_opt = rest.remove(first_idx);
        match first_opt {
            Option::Some(first) => Err(DownloadFailure { count, first }),
            Option::None => {
                proof {
                    assert(false);
                }
                Ok(())
            },
        }
    }
}

} // verus!
