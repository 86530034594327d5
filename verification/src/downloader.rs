//! The client downloader: resolves the resource index and sequences the
//! dependent download batches under one shared policy and one shared
//! progress stream.

use vstd::prelude::*;

use crate::artifact::{Artifact, FetchPlan, LocalFile, plan_attempt, plan_of_probe, probe_result,
    verify_fetched};
use crate::digest::{DigestAlgorithm, digest_of};
use crate::error::DownloadError;
use crate::job::{DownloadJob, JobConfig, JobResult, Phase, count_phase,
    lemma_count_phase_partition, paths_unique, row_always_fails};
use crate::progress::ProgressReporter;

verus! {

/// The summed byte hints of a batch, as an unbounded integer.
pub open spec fn sum_size_hints(s: Seq<Artifact>) -> int
    decreases s.len(),
{
    if s.len() == 0 {
        0
    } else {
        sum_size_hints(s.drop_last()) + s.last().spec_size_hint()
    }
}

/// What the version manifest declares about the resource index: its
/// identifier, its digest, and where to fetch it.
#[derive(Debug, Clone)]
pub struct AssetIndexInfo {
    pub id: String,
    pub sha1: Vec<u8>,
    pub url: String,
}

/// Orchestrates the full download sequence: core package and libraries
/// first, then the loose resources expanded from the verified index.
#[derive(Debug)]
pub struct ClientDownloader {
    pub concurrent_downloads: usize,
    pub max_download_attempts: usize,
    pub reporter: ProgressReporter,
}

impl ClientDownloader {
    /// Limits must be positive, and small enough for the job builder's
    /// narrow configuration types.
    pub open spec fn wf(&self) -> bool {
        &&& 1 <= self.concurrent_downloads <= u16::MAX
        &&& 1 <= self.max_download_attempts <= u8::MAX
        &&& self.reporter.wf()
    }

    pub fn new(
        parallel_downloads: usize,
        max_download_attempts: usize,
        reporter: ProgressReporter,
    ) -> (r: ClientDownloader)
        requires
            1 <= parallel_downloads <= u16::MAX,
            1 <= max_download_attempts <= u8::MAX,
            reporter.wf(),
        ensures
            r.wf(),
            r.concurrent_downloads == parallel_downloads,
            r.max_download_attempts == max_download_attempts,
            r.reporter == reporter,
    {
        ClientDownloader {
            concurrent_downloads: parallel_downloads,
            max_download_attempts,
            reporter,
        }
    }

    /// A fresh fail-fast job carrying this downloader's shared policy.
    pub fn create_download_job(&self, name: &str) -> (r: DownloadJob)
        requires
            self.wf(),
        ensures
            r.wf(),
            r.fresh(),
            r.artifacts@.len() == 0,
            r.name@ == name@,
            r.config == (JobConfig {
                concurrency_limit: self.concurrent_downloads,
                max_attempts: self.max_download_attempts,
                ignore_failures: false,
            }),
    {
        DownloadJob::new(name).ignore_failures(false).concurrent_downloads(
            self.concurrent_downloads as u16,
        ).max_download_attempts(self.max_download_attempts as u8)
    }

    /// The index reference is a prerequisite: a manifest without one
    /// fails immediately and is not retried.
    pub fn require_index_info(info: Option<AssetIndexInfo>) -> (r: Result<
        AssetIndexInfo,
        DownloadError,
    >)
        ensures
            (info matches Some(v) ==> (r matches Ok(o) && o == v)),
            (info is None ==> (r matches Err(e) && e == DownloadError::MissingPrerequisite)),
    {
        match info {
            Some(v) => Ok(v),
            None => Err(DownloadError::MissingPrerequisite),
        }
    }

    /// The verify-or-refetch step for the cached index document: keep a
    /// cached copy whose digest matches the declared one, delete a
    /// mismatching or unverifiable copy before refetching, and fetch
    /// outright when none is cached.
    pub fn plan_index_resolution(local: &LocalFile, expected: &Vec<u8>) -> (r: FetchPlan)
        ensures
            r == plan_of_probe(
                probe_result(DigestAlgorithm::Sha1, local, &Some(*expected)),
            ),
            (local matches LocalFile::Contents(b) && digest_of(DigestAlgorithm::Sha1, b@)
                == expected@ ==> r == FetchPlan::UseLocal),
    {
        let owned: Option<Vec<u8>> = Some(crate::artifact::clone_digest(expected));
        let r = plan_attempt(DigestAlgorithm::Sha1, local, &owned);
        proof {
            assert(owned->Some_0@ == expected@);
        }
        r
    }

    /// Accepts freshly fetched index bytes only when their digest
    /// matches the declared one; a mismatch reports both digests and is
    /// retryable, unlike a later parse failure of accepted bytes.
    pub fn verify_index_bytes(bytes: &Vec<u8>, expected: &Vec<u8>) -> (r: Result<
        (),
        DownloadError,
    >)
        ensures
            r is Ok <==> digest_of(DigestAlgorithm::Sha1, bytes@) == expected@,
            (r matches Err(e) ==> e matches DownloadError::ChecksumMismatch {
                expected: we,
                actual: wa,
            } && we@ == expected@ && wa@ == digest_of(DigestAlgorithm::Sha1, bytes@)),
    {
        let owned: Option<Vec<u8>> = Some(crate::artifact::clone_digest(expected));
        let r = verify_fetched(DigestAlgorithm::Sha1, bytes, &owned);
        proof {
            assert(owned->Some_0@ == expected@);
        }
        r
    }

    /// Byte estimate of a batch for the progress display: the summed
    /// size hints, saturating at the counter's maximum.
    fn estimate_bytes(artifacts: &Vec<Artifact>) -> (r: u64)
        ensures
            r as int == (if sum_size_hints(artifacts@) <= u64::MAX {
                sum_size_hints(artifacts@)
            } else {
                u64::MAX as int
            }),
    {
        let mut total: u64 = 0;
        let mut i: usize = 0;
        proof {
            assert(artifacts@.subrange(0, 0) =~= Seq::<Artifact>::empty());
        }
        while i < artifacts.len()
            invariant
                i <= artifacts@.len(),
                sum_size_hints(artifacts@.subrange(0, i as int)) >= 0,
                total as int == (if sum_size_hints(artifacts@.subrange(0, i as int)) <= u64::MAX {
                    sum_size_hints(artifacts@.subrange(0, i as int))
                } else {
                    u64::MAX as int
                }),
            decreases artifacts@.len() - i,
        {
            proof {
                assert(artifacts@.subrange(0, i as int + 1).drop_last() =~= artifacts@.subrange(
                    0,
                    i as int,
                ));
                assert(artifacts@.subrange(0, i as int + 1).last() == artifacts@[i as int]);
            }
            total = total.saturating_add(artifacts[i].size_hint());
            i += 1;
        }
        proof {
            assert(artifacts@.subrange(0, artifacts@.len() as int) =~= artifacts@);
        }
        total
    }

    /// Runs the two dependent batches strictly in order against
    /// scripted attempt outcomes: the version-and-libraries batch, and
    /// only if it succeeds, the loose-resource batch. Both run fail-fast
    /// under this downloader's shared policy and progress stream.
    ///
    /// Batch-ordering law: the resource batch is started if and only if
    /// the first batch has no artifact whose whole attempt budget fails;
    /// when the first batch fails, its failure is returned at once and
    /// no resource artifact is ever attempted or registered.
    ///
    /// Each returned failure names the exhausted artifact by its local
    /// path and shows exactly the whole attempt budget consumed; each
    /// completed batch reports every one of its artifacts verified, and
    /// the shared completed-count then equals the number of artifacts
    /// both batches brought to a terminal state.
    pub fn download_version(
        &mut self,
        version_artifacts: Vec<Artifact>,
        asset_artifacts: Vec<Artifact>,
        version_outcomes: &Vec<Vec<bool>>,
        asset_outcomes: &Vec<Vec<bool>>,
    ) -> (r: (JobResult, Option<JobResult>))
        requires
            old(self).wf(),
            paths_unique(version_artifacts@),
            paths_unique(asset_artifacts@),
            version_outcomes@.len() == version_artifacts@.len(),
            asset_outcomes@.len() == asset_artifacts@.len(),
            forall|i: int|
                0 <= i < version_outcomes@.len() ==> (#[trigger] version_outcomes@[i])@.len()
                    >= old(self).max_download_attempts,
            forall|i: int|
                0 <= i < asset_outcomes@.len() ==> (#[trigger] asset_outcomes@[i])@.len() >= old(
                    self,
                ).max_download_attempts,
            old(self).reporter.total_items + version_artifacts@.len() + asset_artifacts@.len()
                <= usize::MAX,
        ensures
            final(self).wf(),
            final(self).concurrent_downloads == old(self).concurrent_downloads,
            final(self).max_download_attempts == old(self).max_download_attempts,
            ((r.0 matches JobResult::Failed { .. }) <==> r.1 is None),
            ((exists|i: int|
                0 <= i < version_outcomes@.len() && row_always_fails(
                    (#[trigger] version_outcomes@[i])@,
                    old(self).max_download_attempts as nat,
                )) <==> r.1 is None),
            (r.0 matches JobResult::Failed { first } ==> first.attempts
                == old(self).max_download_attempts && first.cause == (DownloadError::NetworkFailure {
                status: None,
            }) && exists|i: int|
                0 <= i < version_outcomes@.len() && row_always_fails(
                    (#[trigger] version_outcomes@[i])@,
                    old(self).max_download_attempts as nat,
                ) && first.local_path@ == version_artifacts@[i].local_path@),
            (r.0 matches JobResult::Completed { verified, failures } ==> verified
                == version_artifacts@.len() && failures@.len() == 0),
            (r.1 matches Some(a) ==> ((a matches JobResult::Failed { .. }) <==> exists|i: int|
                0 <= i < asset_outcomes@.len() && row_always_fails(
                    (#[trigger] asset_outcomes@[i])@,
                    old(self).max_download_attempts as nat,
                ))),
            (r.1 matches Some(a) ==> (a matches JobResult::Failed { first } ==> first.attempts
                == old(self).max_download_attempts && first.cause
                == (DownloadError::NetworkFailure { status: None }) && exists|i: int|
                0 <= i < asset_outcomes@.len() && row_always_fails(
                    (#[trigger] asset_outcomes@[i])@,
                    old(self).max_download_attempts as nat,
                ) && first.local_path@ == asset_artifacts@[i].local_path@)),
            (r.1 matches Some(a) ==> (a matches JobResult::Completed { verified, failures }
                ==> verified == asset_artifacts@.len() && failures@.len() == 0)),
            final(self).reporter.total_items == old(self).reporter.total_items
                + version_artifacts@.len() + (if r.1 is Some {
                asset_artifacts@.len() as int
            } else {
                0
            }),
            (r.1 is Some ==> final(self).reporter.completed_items
                >= old(self).reporter.completed_items + version_artifacts@.len()),
            (r.1 matches Some(a) ==> (a matches JobResult::Completed { .. }
                ==> final(self).reporter.completed_items == old(self).reporter.completed_items
                    + version_artifacts@.len() + asset_artifacts@.len())),
            (r.1 is None ==> final(self).reporter.completed_items
                <= old(self).reporter.completed_items + version_artifacts@.len()),
            final(self).reporter.completed_items >= old(self).reporter.completed_items,
    {
        let vbytes = Self::estimate_bytes(&version_artifacts);
        let ghost va = version_artifacts@;
        self.reporter.register_batch(version_artifacts.len(), vbytes);
        let mut vjob = self.create_download_job("Version & Libraries").add_downloadables(
            version_artifacts,
        );
        proof {
            assert(vjob.artifacts@ =~= va);
        }
        vjob.run_scripted(version_outcomes, &mut self.reporter);
        proof {
            lemma_count_phase_partition(vjob.status@);
        }
        let ghost gv = vjob;
        let vres = vjob.result();
        match vres {
            JobResult::Failed { first } => {
                proof {
                    assert(gv.failures@[0].attempts == gv.config.max_attempts);
                    let iw = choose|iw: int|
                        0 <= iw < gv.artifacts@.len() && (#[trigger] gv.status@[iw]) is DoneFailed
                            && gv.failures@[0].local_path@ == gv.artifacts@[iw].local_path@;
                    assert(row_always_fails(
                        version_outcomes@[iw]@,
                        self.max_download_attempts as nat,
                    ));
                }
                (JobResult::Failed { first }, None)
            },
            JobResult::Completed { verified, failures } => {
                let abytes = Self::estimate_bytes(&asset_artifacts);
                let ghost aa = asset_artifacts@;
                self.reporter.register_batch(asset_artifacts.len(), abytes);
                let mut ajob = self.create_download_job("Resources").add_downloadables(
                    asset_artifacts,
                );
                proof {
                    assert(ajob.artifacts@ =~= aa);
                }
                ajob.run_scripted(asset_outcomes, &mut self.reporter);
                let ghost ga = ajob;
                let ares = ajob.result();
                proof {
                    if ga.failures@.len() > 0 {
                        assert(ga.failures@[0].attempts == ga.config.max_attempts);
                        let iw = choose|iw: int|
                            0 <= iw < ga.artifacts@.len() && (#[trigger] ga.status@[iw])
                                is DoneFailed && ga.failures@[0].local_path@
                                == ga.artifacts@[iw].local_path@;
                        assert(row_always_fails(
                            asset_outcomes@[iw]@,
                            self.max_download_attempts as nat,
                        ));
                    }
                }
                (JobResult::Completed { verified, failures }, Some(ares))
            },
        }
    }
}

} // verus!
