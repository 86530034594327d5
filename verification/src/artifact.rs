//! Artifacts and the per-attempt fetch protocol.
//!
//! An artifact is one fetchable unit: a remote location, a local
//! destination, an optional expected digest and size, and a kind tag.
//! The fetch protocol decides, from what the I/O layer observed of the
//! local file, whether to keep it, delete and refetch it, or fetch it
//! fresh, and then whether fetched bytes may be moved to the final path.

use vstd::prelude::*;

use crate::digest::{DigestAlgorithm, digest_of, compute_digest, digests_match};
use crate::error::DownloadError;

verus! {

/// The kind tag of an artifact; all kinds share one capability set.
#[derive(Clone, Copy, PartialEq, Eq, Structural, Debug)]
pub enum ArtifactKind {
    CorePackage,
    Library,
    LooseResource,
    Index,
}

/// One fetchable unit. Immutable once constructed.
#[derive(Debug, Clone)]
pub struct Artifact {
    pub remote_url: String,
    pub local_path: String,
    /// Absent means: accept whatever is fetched, or already local,
    /// without verification.
    pub expected_digest: Option<Vec<u8>>,
    /// Used only as a progress hint.
    pub expected_size: Option<u64>,
    pub kind: ArtifactKind,
}

impl Artifact {
    pub fn new(
        remote_url: String,
        local_path: String,
        expected_digest: Option<Vec<u8>>,
        expected_size: Option<u64>,
        kind: ArtifactKind,
    ) -> (r: Artifact)
        ensures
            r.remote_url == remote_url,
            r.local_path == local_path,
            r.expected_digest == expected_digest,
            r.expected_size == expected_size,
            r.kind == kind,
    {
        Artifact { remote_url, local_path, expected_digest, expected_size, kind }
    }

    /// This artifact's contribution to the byte progress estimate.
    pub open spec fn spec_size_hint(&self) -> u64 {
        match self.expected_size {
            Some(n) => n,
            None => 0,
        }
    }

    pub fn size_hint(&self) -> (r: u64)
        ensures
            r == self.spec_size_hint(),
    {
        match self.expected_size {
            Some(n) => n,
            None => 0,
        }
    }
}

/// What the I/O layer observed of an artifact's local file.
pub enum LocalFile {
    /// No file at the local path.
    Missing,
    /// A file exists but its contents could not be read, so a declared
    /// digest cannot be verified against it.
    Unreadable,
    /// A file exists with these contents.
    Contents(Vec<u8>),
}

/// The probe states of the fetch protocol.
#[derive(Clone, Copy, PartialEq, Eq, Structural, Debug)]
pub enum LocalProbe {
    /// The local file satisfies the artifact: skip the network entirely.
    Valid,
    /// No local file: fetch.
    Absent,
    /// The local file mismatches or cannot be verified: delete it, then
    /// fetch.
    Stale,
}

/// What the I/O layer must do next for this artifact.
#[derive(Clone, Copy, PartialEq, Eq, Structural, Debug)]
pub enum FetchPlan {
    /// Cache hit: issue no request and leave the file unchanged.
    UseLocal,
    /// Delete the stale local file, then fetch to a temporary location.
    DeleteThenFetch,
    /// Fetch to a temporary location.
    Fetch,
}

/// The probe the protocol prescribes for a local observation.
pub open spec fn probe_result(
    alg: DigestAlgorithm,
    local: &LocalFile,
    expected: &Option<Vec<u8>>,
) -> LocalProbe {
    match local {
        LocalFile::Missing => LocalProbe::Absent,
        LocalFile::Unreadable => match expected {
            Option::None => LocalProbe::Valid,
            Option::Some(_) => LocalProbe::Stale,
        },
        LocalFile::Contents(bytes) => match expected {
            Option::None => LocalProbe::Valid,
            Option::Some(d) => if digest_of(alg, bytes@) == d@ {
                LocalProbe::Valid
            } else {
                LocalProbe::Stale
            },
        },
    }
}

/// Probes the local file against the expected digest.
pub fn probe_local(
    alg: DigestAlgorithm,
    local: &LocalFile,
    expected: &Option<Vec<u8>>,
) -> (r: LocalProbe)
    ensures
        r == probe_result(alg, local, expected),
{
    match local {
        LocalFile::Missing => LocalProbe::Absent,
        LocalFile::Unreadable => match expected {
            Option::None => LocalProbe::Valid,
            Option::Some(_) => LocalProbe::Stale,
        },
        LocalFile::Contents(bytes) => match expected {
            Option::None => LocalProbe::Valid,
            Option::Some(d) => {
                let actual = compute_digest(alg, bytes.as_slice());
                if digests_match(d, &actual) {
                    LocalProbe::Valid
                } else {
                    LocalProbe::Stale
                }
            },
        },
    }
}

/// The action each probe state prescribes.
pub open spec fn plan_of_probe(p: LocalProbe) -> FetchPlan {
    match p {
        LocalProbe::Valid => FetchPlan::UseLocal,
        LocalProbe::Absent => FetchPlan::Fetch,
        LocalProbe::Stale => FetchPlan::DeleteThenFetch,
    }
}

/// Decides one attempt's opening move from the local observation.
pub fn plan_attempt(
    alg: DigestAlgorithm,
    local: &LocalFile,
    expected: &Option<Vec<u8>>,
) -> (r: FetchPlan)
    ensures
        r == plan_of_probe(probe_result(alg, local, expected)),
{
    match probe_local(alg, local, expected) {
        LocalProbe::Valid => FetchPlan::UseLocal,
        LocalProbe::Absent => FetchPlan::Fetch,
        LocalProbe::Stale => FetchPlan::DeleteThenFetch,
    }
}

/// Copies a digest so another owner can hold it.
pub fn clone_digest(v: &Vec<u8>) -> (r: Vec<u8>)
    ensures
        r@ == v@,
{
    let mut out: Vec<u8> = Vec::new();
    let mut i: usize = 0;
    while i < v.len()
        invariant
            i <= v.len(),
            out@ == v@.subrange(0, i as int),
        decreases v.len() - i,
    {
        out.push(v[i]);
        proof {
            assert(out@ =~= v@.subrange(0, i as int + 1));
        }
        i += 1;
    }
    proof {
        assert(out@ =~= v@);
    }
    out
}

/// Verifies fetched bytes against the expected digest: a mismatch means
/// the temporary file must be deleted and the attempt has failed with a
/// checksum mismatch; otherwise the bytes may be moved to the final path.
pub fn verify_fetched(
    alg: DigestAlgorithm,
    bytes: &Vec<u8>,
    expected: &Option<Vec<u8>>,
) -> (r: Result<(), DownloadError>)
    ensures
        r is Ok <==> (expected is None || digest_of(alg, bytes@) == expected->Some_0@),
        (r matches Err(e) ==> e matches DownloadError::ChecksumMismatch { expected: we, actual: wa }
            && we@ == expected->Some_0@ && wa@ == digest_of(alg, bytes@)),
{
    match expected {
        Option::None => Ok(()),
        Option::Some(d) => {
            let actual = compute_digest(alg, bytes.as_slice());
            if digests_match(d, &actual) {
                Ok(())
            } else {
                Err(DownloadError::ChecksumMismatch { expected: clone_digest(d), actual })
            }
        },
    }
}

/// Cache-hit law: a local file whose digest matches the expected digest
/// makes the protocol skip the network and leave the file untouched.
pub proof fn lemma_cache_hit(
    alg: DigestAlgorithm,
    local: &LocalFile,
    expected: &Option<Vec<u8>>,
)
    requires
        local matches LocalFile::Contents(b) && expected matches Some(d)
            && digest_of(alg, b@) == d@,
    ensures
        probe_result(alg, local, expected) == LocalProbe::Valid,
        plan_of_probe(probe_result(alg, local, expected)) == FetchPlan::UseLocal,
{
}

/// Self-heal law: a local file whose digest mismatches is deleted and
/// refetched, and fetched bytes whose digest matches verify cleanly, so
/// the attempt ends with a digest-valid file at the final path.
pub proof fn lemma_corruption_self_heal(
    alg: DigestAlgorithm,
    local: &LocalFile,
    expected: &Option<Vec<u8>>,
    fresh: Seq<u8>,
)
    requires
        local matches LocalFile::Contents(b) && expected matches Some(d)
            && digest_of(alg, b@) != d@,
        digest_of(alg, fresh) == expected->Some_0@,
    ensures
        probe_result(alg, local, expected) == LocalProbe::Stale,
        plan_of_probe(probe_result(alg, local, expected)) == FetchPlan::DeleteThenFetch,
        expected is None || digest_of(alg, fresh) == expected->Some_0@,
{
}

} // verus!
