//! Content digests of the form `sha256:<hex>`.

use crate::error::RegError;
use crate::text::starts_with;
use vstd::prelude::*;
use vstd::string::*;

verus! {

/// The characters `sha256:`.
pub open spec fn sha256_prefix() -> Seq<char> {
    seq!['s', 'h', 'a', '2', '5', '6', ':']
}

/// Whether a digest names its algorithm.
pub open spec fn is_prefixed(digest: Seq<char>) -> bool {
    sha256_prefix().is_prefix_of(digest)
}

/// A digest with `sha256:` before it, unless it is there already.
pub open spec fn normalized(digest: Seq<char>) -> Seq<char> {
    if is_prefixed(digest) {
        digest
    } else {
        sha256_prefix() + digest
    }
}

/// Whether the reported digest fails to confirm the expected one. Without
/// an expected digest there is nothing to confirm. With one, the registry
/// has to report a digest, and it has to be the expected one, normalized: a
/// registry that reports none confirms nothing.
pub open spec fn mismatch(expected: Option<Seq<char>>, reported: Option<Seq<char>>) -> bool {
    match expected {
        Some(e) => reported != Some(normalized(e)),
        None => false,
    }
}

/// What `verify` returns for an expected and a reported digest.
pub open spec fn verified(expected: Option<Seq<char>>, reported: Option<Seq<char>>) -> Result<
    (),
    RegError,
> {
    if mismatch(expected, reported) {
        Err(RegError::IntegrityMismatch)
    } else {
        Ok(())
    }
}

/// Puts `sha256:` before a digest that lacks it.
pub fn normalize(digest: String) -> (full: String)
    ensures
        full@ == normalized(digest@),
{
    proof {
        reveal_strlit("sha256:");
        assert("sha256:"@ =~= sha256_prefix());
    }
    if starts_with(digest.as_str(), "sha256:") {
        digest
    } else {
        String::from_str("sha256:").concat(digest.as_str())
    }
}

/// Holds the digest that the caller expects against the one that the registry
/// reports. Without an expected digest every report passes, also none. With
/// one, the registry has to report the expected digest, normalized,
/// character for character: another digest is an `IntegrityMismatch`, and so
/// is no digest at all.
pub fn verify(expected: Option<String>, reported: &Option<String>) -> (outcome: Result<
    (),
    RegError,
>)
    ensures
        outcome == verified(expected.deep_view(), reported.deep_view()),
{
    match expected {
        None => Ok(()),
        Some(e) => {
            let full = normalize(e);
            match reported {
                Some(r) => {
                    if full != *r {
                        Err(RegError::IntegrityMismatch)
                    } else {
                        Ok(())
                    }
                },
                None => Err(RegError::IntegrityMismatch),
            }
        },
    }
}

/// Normalizing a digest that has its prefix changes nothing, and normalizing
/// twice is normalizing once.
pub proof fn lemma_normalize_idempotent(digest: Seq<char>)
    ensures
        normalized(normalized(digest)) == normalized(digest),
        is_prefixed(normalized(digest)),
        is_prefixed(digest) ==> normalized(digest) == digest,
{
    if !is_prefixed(digest) {
        assert((sha256_prefix() + digest).subrange(0, sha256_prefix().len() as int)
            =~= sha256_prefix());
    }
}

/// Without an expected digest every reported digest passes, and so does
/// none.
pub proof fn lemma_nothing_expected_passes(reported: Option<Seq<char>>)
    ensures
        verified(None, reported) == Ok::<(), RegError>(()),
{
}

/// With an expected digest, verification passes if the registry reports
/// that digest, normalized, and fails with `IntegrityMismatch` on every other
/// report, the missing one among them.
pub proof fn lemma_verify_compares_normalized(expected: Seq<char>, reported: Option<Seq<char>>)
    ensures
        reported == Some(normalized(expected)) ==> verified(Some(expected), reported) == Ok::<
            (),
            RegError,
        >(()),
        reported != Some(normalized(expected)) ==> verified(Some(expected), reported) == Err::<
            (),
            RegError,
        >(RegError::IntegrityMismatch),
        verified(Some(expected), None) == Err::<(), RegError>(RegError::IntegrityMismatch),
{
}

} // verus!
