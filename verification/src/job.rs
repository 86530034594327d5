//! Download jobs: a named batch of artifacts run under bounded
//! concurrency and bounded per-artifact retry.
//!
//! The job is a state machine. The I/O layer asks it which artifact to
//! start next (`start_next`), performs one fetch attempt for it, and
//! reports the attempt's outcome back (`complete_attempt`). The machine
//! enforces the concurrency bound, the retry budget, the fail-fast
//! policy and the progress accounting; the scripted runner `run_scripted` executes a
//! whole batch against a table of attempt outcomes.

use vstd::prelude::*;

use crate::artifact::Artifact;
use crate::error::{ArtifactFailure, DownloadError};
use crate::progress::ProgressReporter;

verus! {

/// Default bound on concurrent fetches.
pub const DEFAULT_CONCURRENT_DOWNLOADS: u16 = 16;

/// Default attempt budget per artifact.
pub const DEFAULT_DOWNLOAD_ATTEMPTS: u8 = 5;

/// Where one artifact stands within its job.
#[derive(Clone, Copy, PartialEq, Eq, Structural, Debug)]
pub enum Phase {
    /// Not yet admitted, or sent back for a retry.
    Waiting,
    /// Admitted: fetching or verifying right now.
    Active,
    /// Terminal: verified at its final path.
    DoneValid,
    /// Terminal: its attempt budget is exhausted.
    DoneFailed,
}

/// How many entries of `s` are in phase `p`.
pub open spec fn count_phase(s: Seq<Phase>, p: Phase) -> nat
    decreases s.len(),
{
    if s.len() == 0 {
        0
    } else {
        count_phase(s.drop_last(), p) + (if s.last() == p {
            1nat
        } else {
            0nat
        })
    }
}

proof fn lemma_count_phase_push(s: Seq<Phase>, v: Phase, p: Phase)
    ensures
        count_phase(s.push(v), p) == count_phase(s, p) + (if v == p {
            1nat
        } else {
            0nat
        }),
{
    assert(s.push(v).drop_last() =~= s);
    assert(s.push(v).last() == v);
}

proof fn lemma_count_phase_update(s: Seq<Phase>, i: int, v: Phase, p: Phase)
    requires
        0 <= i < s.len(),
    ensures
        count_phase(s.update(i, v), p) + (if s[i] == p {
            1nat
        } else {
            0nat
        }) == count_phase(s, p) + (if v == p {
            1nat
        } else {
            0nat
        }),
    decreases s.len(),
{
    if i == s.len() - 1 {
        assert(s.update(i, v).drop_last() =~= s.drop_last());
        assert(s.update(i, v).last() == v);
        assert(s.last() == s[i]);
    } else {
        assert(s.update(i, v).drop_last() =~= s.drop_last().update(i, v));
        assert(s.update(i, v).last() == s.last());
        lemma_count_phase_update(s.drop_last(), i, v, p);
        assert(s.drop_last()[i] == s[i]);
    }
}

/// An entry in phase `p` makes the count positive.
proof fn lemma_count_phase_pos(s: Seq<Phase>, i: int, p: Phase)
    requires
        0 <= i < s.len(),
        s[i] == p,
    ensures
        count_phase(s, p) >= 1,
    decreases s.len(),
{
    if i == s.len() - 1 {
        assert(s.last() == s[i]);
    } else {
        lemma_count_phase_pos(s.drop_last(), i, p);
    }
}

/// A positive count exhibits an entry in phase `p`.
proof fn lemma_count_phase_exists(s: Seq<Phase>, p: Phase)
    requires
        count_phase(s, p) >= 1,
    ensures
        exists|i: int| 0 <= i < s.len() && s[i] == p,
    decreases s.len(),
{
    if s.len() > 0 {
        if s.last() == p {
            assert(s[s.len() - 1] == p);
        } else {
            lemma_count_phase_exists(s.drop_last(), p);
            let i = choose|i: int| 0 <= i < s.drop_last().len() && s.drop_last()[i] == p;
            assert(s[i] == p);
        }
    }
}

/// A count of zero means no entry is in phase `p`.
proof fn lemma_count_phase_zero(s: Seq<Phase>, p: Phase)
    requires
        forall|i: int| 0 <= i < s.len() ==> s[i] != p,
    ensures
        count_phase(s, p) == 0,
    decreases s.len(),
{
    if s.len() > 0 {
        assert(forall|i: int| 0 <= i < s.drop_last().len() ==> s.drop_last()[i] == s[i]);
        lemma_count_phase_zero(s.drop_last(), p);
        assert(s.last() == s[s.len() - 1]);
    }
}

/// The four phases partition the batch.
pub proof fn lemma_count_phase_partition(s: Seq<Phase>)
    ensures
        count_phase(s, Phase::Waiting) + count_phase(s, Phase::Active) + count_phase(
            s,
            Phase::DoneValid,
        ) + count_phase(s, Phase::DoneFailed) == s.len(),
    decreases s.len(),
{
    if s.len() > 0 {
        lemma_count_phase_partition(s.drop_last());
    }
}

/// A terminal phase: the artifact is done, valid or failed.
pub open spec fn is_terminal(p: Phase) -> bool {
    p is DoneValid || p is DoneFailed
}

/// A count covering every entry means every entry is in phase `p`.
proof fn lemma_count_phase_full(s: Seq<Phase>, p: Phase)
    requires
        forall|i: int| 0 <= i < s.len() ==> s[i] == p,
    ensures
        count_phase(s, p) == s.len(),
    decreases s.len(),
{
    if s.len() > 0 {
        assert(forall|i: int| 0 <= i < s.drop_last().len() ==> s.drop_last()[i] == s[i]);
        lemma_count_phase_full(s.drop_last(), p);
        assert(s.last() == s[s.len() - 1]);
    }
}

/// The summed byte hints of the artifacts that reached a terminal
/// phase.
pub open spec fn sum_terminal_hints(artifacts: Seq<Artifact>, status: Seq<Phase>) -> int
    decreases status.len(),
{
    if status.len() == 0 || artifacts.len() != status.len() {
        0
    } else {
        sum_terminal_hints(artifacts.drop_last(), status.drop_last()) + (if is_terminal(
            status.last(),
        ) {
            artifacts.last().spec_size_hint() as int
        } else {
            0
        })
    }
}

proof fn lemma_sum_terminal_nonneg(artifacts: Seq<Artifact>, status: Seq<Phase>)
    ensures
        sum_terminal_hints(artifacts, status) >= 0,
    decreases status.len(),
{
    if status.len() > 0 && artifacts.len() == status.len() {
        lemma_sum_terminal_nonneg(artifacts.drop_last(), status.drop_last());
    }
}

proof fn lemma_sum_terminal_zero(artifacts: Seq<Artifact>, status: Seq<Phase>)
    requires
        artifacts.len() == status.len(),
        forall|i: int| 0 <= i < status.len() ==> !is_terminal(#[trigger] status[i]),
    ensures
        sum_terminal_hints(artifacts, status) == 0,
    decreases status.len(),
{
    if status.len() > 0 {
        assert(forall|i: int|
            0 <= i < status.drop_last().len() ==> status.drop_last()[i] == status[i]);
        lemma_sum_terminal_zero(artifacts.drop_last(), status.drop_last());
        assert(status.last() == status[status.len() - 1]);
    }
}

proof fn lemma_sum_terminal_update(artifacts: Seq<Artifact>, s: Seq<Phase>, i: int, v: Phase)
    requires
        artifacts.len() == s.len(),
        0 <= i < s.len(),
    ensures
        sum_terminal_hints(artifacts, s.update(i, v)) == sum_terminal_hints(artifacts, s) - (
        if is_terminal(s[i]) {
            artifacts[i].spec_size_hint() as int
        } else {
            0
        }) + (if is_terminal(v) {
            artifacts[i].spec_size_hint() as int
        } else {
            0
        }),
    decreases s.len(),
{
    if i == s.len() - 1 {
        assert(s.update(i, v).drop_last() =~= s.drop_last());
        assert(s.update(i, v).last() == v);
        assert(s.last() == s[i]);
        assert(artifacts.last() == artifacts[i]);
    } else {
        assert(s.update(i, v).drop_last() =~= s.drop_last().update(i, v));
        assert(s.update(i, v).last() == s.last());
        lemma_sum_terminal_update(artifacts.drop_last(), s.drop_last(), i, v);
        assert(s.drop_last()[i] == s[i]);
        assert(artifacts.drop_last()[i] == artifacts[i]);
    }
}

/// The policy a job runs under.
#[derive(Clone, Copy, PartialEq, Eq, Structural, Debug)]
pub struct JobConfig {
    /// At most this many artifacts are fetching or verifying at once.
    pub concurrency_limit: usize,
    /// Per-artifact attempt budget.
    pub max_attempts: usize,
    /// Record terminal failures and keep going, rather than halting the
    /// batch at the first one.
    pub ignore_failures: bool,
}

impl JobConfig {
    pub open spec fn wf(&self) -> bool {
        &&& 1 <= self.concurrency_limit
        &&& 1 <= self.max_attempts
    }
}

/// No two artifacts of a batch may target the same local path.
pub open spec fn paths_unique(s: Seq<Artifact>) -> bool {
    forall|i: int, j: int|
        0 <= i < j < s.len() ==> (#[trigger] s[i].local_path)@ != (#[trigger] s[j].local_path)@
}

/// A named batch of artifacts under one policy. Single-use: built,
/// run once, then consumed by `result`.
#[derive(Debug)]
pub struct DownloadJob {
    pub name: String,
    pub artifacts: Vec<Artifact>,
    pub status: Vec<Phase>,
    pub attempts: Vec<usize>,
    pub failures: Vec<ArtifactFailure>,
    pub config: JobConfig,
    /// A terminal failure was seen under the fail-fast policy: start no
    /// further artifacts.
    pub halted: bool,
    /// Cached count of artifacts in `Phase::Active`.
    pub active_count: usize,
}

/// The overall result of a batch.
#[derive(Debug)]
pub enum JobResult {
    /// Every started artifact ran to a terminal state; `verified` of
    /// them are valid, and `failures` records the exhausted ones (empty
    /// unless failures were ignored).
    Completed { verified: usize, failures: Vec<ArtifactFailure> },
    /// Fail-fast: the first terminal failure, with its cause and its
    /// attempt count.
    Failed { first: ArtifactFailure },
}

impl DownloadJob {
    /// Per-artifact consistency: the attempt budget is respected, and a
    /// terminal failure means the budget is exhausted exactly.
    pub open spec fn slot_ok(&self, i: int) -> bool {
        &&& self.attempts@[i] <= self.config.max_attempts
        &&& ((self.status@[i] is Waiting || self.status@[i] is Active) ==> self.attempts@[i]
            < self.config.max_attempts)
        &&& (self.status@[i] is DoneFailed ==> self.attempts@[i] == self.config.max_attempts)
        &&& (self.status@[i] is DoneValid ==> 1 <= self.attempts@[i])
    }

    /// Well-formedness: the concurrency bound and retry budget hold, the
    /// failure list mirrors the failed artifacts, and local paths are
    /// unique within the batch.
    pub open spec fn wf(&self) -> bool {
        &&& self.config.wf()
        &&& self.status@.len() == self.artifacts@.len()
        &&& self.attempts@.len() == self.artifacts@.len()
        &&& self.active_count == count_phase(self.status@, Phase::Active)
        &&& count_phase(self.status@, Phase::Active) <= self.config.concurrency_limit
        &&& forall|i: int| 0 <= i < self.status@.len() ==> #[trigger] self.slot_ok(i)
        &&& self.failures@.len() == count_phase(self.status@, Phase::DoneFailed)
        &&& (self.halted ==> !self.config.ignore_failures)
        &&& (!self.config.ignore_failures && !self.halted ==> count_phase(
            self.status@,
            Phase::DoneFailed,
        ) == 0)
        &&& paths_unique(self.artifacts@)
    }

    /// The batch has not started: everything waits with a fresh budget.
    pub open spec fn fresh(&self) -> bool {
        &&& forall|i: int|
            0 <= i < self.status@.len() ==> (#[trigger] self.status@[i]) is Waiting
        &&& forall|i: int| 0 <= i < self.attempts@.len() ==> (#[trigger] self.attempts@[i]) == 0
        &&& !self.halted
        &&& self.failures@.len() == 0
    }

    /// A fresh, empty job under the default policy.
    pub fn new(name: &str) -> (r: DownloadJob)
        ensures
            r.wf(),
            r.fresh(),
            r.name@ == name@,
            r.artifacts@.len() == 0,
            r.config.concurrency_limit == DEFAULT_CONCURRENT_DOWNLOADS as usize,
            r.config.max_attempts == DEFAULT_DOWNLOAD_ATTEMPTS as usize,
            !r.config.ignore_failures,
    {
        let r = DownloadJob {
            name: name.to_owned(),
            artifacts: Vec::new(),
            status: Vec::new(),
            attempts: Vec::new(),
            failures: Vec::new(),
            config: JobConfig {
                concurrency_limit: DEFAULT_CONCURRENT_DOWNLOADS as usize,
                max_attempts: DEFAULT_DOWNLOAD_ATTEMPTS as usize,
                ignore_failures: false,
            },
            halted: false,
            active_count: 0,
        };
        r
    }

    /// Chooses the failure policy; part of the fluent configuration.
    pub fn ignore_failures(self, v: bool) -> (r: DownloadJob)
        requires
            self.wf(),
            self.fresh(),
        ensures
            r.wf(),
            r.fresh(),
            r.config == (JobConfig { ignore_failures: v, ..self.config }),
            r.name == self.name,
            r.artifacts == self.artifacts,
            r.status == self.status,
            r.attempts == self.attempts,
    {
        DownloadJob { config: JobConfig { ignore_failures: v, ..self.config }, ..self }
    }

    /// Sets the concurrency bound; part of the fluent configuration.
    pub fn concurrent_downloads(self, v: u16) -> (r: DownloadJob)
        requires
            self.wf(),
            self.fresh(),
            v >= 1,
        ensures
            r.wf(),
            r.fresh(),
            r.config == (JobConfig { concurrency_limit: v as usize, ..self.config }),
            r.name == self.name,
            r.artifacts == self.artifacts,
            r.status == self.status,
            r.attempts == self.attempts,
    {
        proof {
            lemma_count_phase_zero(self.status@, Phase::Active);
        }
        DownloadJob { config: JobConfig { concurrency_limit: v as usize, ..self.config }, ..self }
    }

    /// Sets the per-artifact attempt budget; part of the fluent
    /// configuration.
    pub fn max_download_attempts(self, v: u8) -> (r: DownloadJob)
        requires
            self.wf(),
            self.fresh(),
            v >= 1,
        ensures
            r.wf(),
            r.fresh(),
            r.config == (JobConfig { max_attempts: v as usize, ..self.config }),
            r.name == self.name,
            r.artifacts == self.artifacts,
            r.status == self.status,
            r.attempts == self.attempts,
    {
        DownloadJob { config: JobConfig { max_attempts: v as usize, ..self.config }, ..self }
    }

    /// Appends a batch of artifacts, each waiting with a fresh budget.
    /// Handing two artifacts the same local path is a configuration
    /// error, ruled out by the precondition.
    pub fn add_downloadables(self, items: Vec<Artifact>) -> (r: DownloadJob)
        requires
            self.wf(),
            self.fresh(),
            paths_unique(self.artifacts@ + items@),
        ensures
            r.wf(),
            r.fresh(),
            r.artifacts@ == self.artifacts@ + items@,
            r.config == self.config,
            r.name == self.name,
    {
        let mut out = self;
        let mut items = items;
        let n = items.len();
        let ghost old_artifacts = out.artifacts@;
        let ghost old_status = out.status@;
        let ghost items_view = items@;
        out.artifacts.append(&mut items);
        proof {
            lemma_count_phase_zero(out.status@, Phase::Active);
            lemma_count_phase_zero(out.status@, Phase::DoneFailed);
        }
        let mut j: usize = 0;
        while j < n
            invariant
                out.artifacts@ == old_artifacts + items_view,
                out.config == self.config,
                out.name == self.name,
                out.failures == self.failures,
                !out.halted,
                out.active_count == 0,
                old_status.len() == old_artifacts.len(),
                items_view.len() == n,
                out.status@.len() == old_status.len() + j,
                out.attempts@.len() == old_status.len() + j,
                forall|k: int| 0 <= k < old_status.len() ==> (#[trigger] out.status@[k])
                    == old_status[k],
                forall|k: int|
                    old_status.len() <= k < out.status@.len() ==> (#[trigger] out.status@[k])
                        is Waiting,
                forall|k: int|
                    0 <= k < out.attempts@.len() ==> (#[trigger] out.attempts@[k]) == 0,
                count_phase(out.status@, Phase::Active) == 0,
                count_phase(out.status@, Phase::DoneFailed) == 0,
                j <= n,
            decreases n - j,
        {
            proof {
                lemma_count_phase_push(out.status@, Phase::Waiting, Phase::Active);
                lemma_count_phase_push(out.status@, Phase::Waiting, Phase::DoneFailed);
            }
            out.status.push(Phase::Waiting);
            out.attempts.push(0);
            j += 1;
        }
        out
    }
}

impl DownloadJob {
    /// Starts the first waiting artifact, if the batch is not halted
    /// and the concurrency bound leaves room; the started artifact moves
    /// to the fetching/verifying phase.
    pub fn start_next(&mut self) -> (r: Option<usize>)
        requires
            old(self).wf(),
        ensures
            final(self).wf(),
            final(self).artifacts == old(self).artifacts,
            final(self).attempts == old(self).attempts,
            final(self).failures == old(self).failures,
            final(self).config == old(self).config,
            final(self).name == old(self).name,
            final(self).halted == old(self).halted,
            match r {
                Some(i) => {
                    &&& i < old(self).status@.len()
                    &&& old(self).status@[i as int] is Waiting
                    &&& forall|j: int|
                        0 <= j < i ==> !((#[trigger] old(self).status@[j]) is Waiting)
                    &&& final(self).status@ == old(self).status@.update(i as int, Phase::Active)
                    &&& !old(self).halted
                    &&& count_phase(old(self).status@, Phase::Active) < old(
                        self,
                    ).config.concurrency_limit
                },
                None => {
                    &&& final(self).status == old(self).status
                    &&& (old(self).halted || count_phase(old(self).status@, Phase::Active) >= old(
                        self,
                    ).config.concurrency_limit || count_phase(old(self).status@, Phase::Waiting)
                        == 0)
                },
            },
    {
        if self.halted {
            return None;
        }
        if self.active_count >= self.config.concurrency_limit {
            return None;
        }
        let n = self.status.len();
        let mut i: usize = 0;
        while i < n
            invariant
                *self == *old(self),
                old(self).wf(),
                !old(self).halted,
                old(self).active_count < old(self).config.concurrency_limit,
                n == self.status@.len(),
                i <= n,
                forall|j: int| 0 <= j < i ==> !((#[trigger] self.status@[j]) is Waiting),
            decreases n - i,
        {
            let here = self.status[i];
            match here {
                Phase::Waiting => {
                    proof {
                        lemma_count_phase_update(self.status@, i as int, Phase::Active,
                            Phase::Active);
                        lemma_count_phase_update(self.status@, i as int, Phase::Active,
                            Phase::DoneFailed);
                    }
                    self.status.set(i, Phase::Active);
                    self.active_count = self.active_count + 1;
                    proof {
                        assert(forall|k: int|
                            0 <= k < self.status@.len() && k != i ==> self.slot_ok(k) == old(
                                self,
                            ).slot_ok(k));
                    }
                    return Some(i);
                },
                _ => {
                    i = i + 1;
                },
            }
        }
        proof {
            lemma_count_phase_zero(self.status@, Phase::Waiting);
        }
        None
    }

    /// Whether this attempt outcome is terminal for an artifact whose
    /// budget stood at `attempts_before` when it was started.
    pub open spec fn terminal_outcome(
        &self,
        attempts_before: nat,
        outcome: Option<DownloadError>,
    ) -> bool {
        outcome is None || attempts_before + 1 == self.config.max_attempts
    }

    /// The attempt succeeded: the artifact is terminal and valid.
    pub open spec fn step_valid(pre: DownloadJob, post: DownloadJob, i: int) -> bool {
        &&& post.status@ == pre.status@.update(i, Phase::DoneValid)
        &&& post.failures == pre.failures
        &&& post.halted == pre.halted
    }

    /// The attempt failed with budget remaining: the artifact goes back
    /// to waiting.
    pub open spec fn step_retry(pre: DownloadJob, post: DownloadJob, i: int) -> bool {
        &&& post.status@ == pre.status@.update(i, Phase::Waiting)
        &&& post.failures == pre.failures
        &&& post.halted == pre.halted
    }

    /// The attempt failed and exhausted the budget: the failure is
    /// recorded with its cause and attempt count, and under fail-fast
    /// the batch halts.
    pub open spec fn step_exhausted(
        pre: DownloadJob,
        post: DownloadJob,
        i: int,
        e: DownloadError,
    ) -> bool {
        &&& post.status@ == pre.status@.update(i, Phase::DoneFailed)
        &&& post.failures@.len() == pre.failures@.len() + 1
        &&& post.failures@.last().local_path@ == pre.artifacts@[i].local_path@
        &&& post.failures@.last().cause == e
        &&& post.failures@.last().attempts == pre.config.max_attempts
        &&& post.failures@.drop_last() == pre.failures@
        &&& post.halted == (pre.halted || !pre.config.ignore_failures)
    }

    /// Records the outcome of one fetch attempt for the active artifact
    /// `i`. A success is terminal and valid; a retryable failure sends
    /// the artifact back to waiting while budget remains, and exhausts
    /// it otherwise, recording the failure and - under fail-fast -
    /// stopping further starts. Exactly one progress update is applied
    /// when, and only when, the artifact reaches a terminal state.
    pub fn complete_attempt(
        &mut self,
        i: usize,
        outcome: Option<DownloadError>,
        progress: &mut ProgressReporter,
    )
        requires
            old(self).wf(),
            i < old(self).status@.len(),
            old(self).status@[i as int] is Active,
            (outcome matches Some(e) ==> e.spec_is_retryable()),
            old(progress).wf(),
            old(progress).completed_items < old(progress).total_items,
        ensures
            final(self).wf(),
            final(self).artifacts == old(self).artifacts,
            final(self).config == old(self).config,
            final(self).name == old(self).name,
            final(self).attempts@ == old(self).attempts@.update(
                i as int,
                (old(self).attempts@[i as int] + 1) as usize,
            ),
            (outcome is None ==> Self::step_valid(*old(self), *final(self), i as int)),
            (outcome is Some && old(self).attempts@[i as int] + 1 < old(self).config.max_attempts
                ==> Self::step_retry(*old(self), *final(self), i as int)),
            (outcome matches Some(e) ==> (old(self).attempts@[i as int] + 1 == old(
                self,
            ).config.max_attempts ==> Self::step_exhausted(*old(self), *final(self), i as int, e))),
            (old(self).terminal_outcome(old(self).attempts@[i as int] as nat, outcome)
                ==> final(progress).completed_items == old(progress).completed_items + 1
                    && final(progress).current_label@
                    == old(self).artifacts@[i as int].local_path@
                    && final(progress).completed_bytes == (if old(progress).completed_bytes + old(
                    self,
                ).artifacts@[i as int].spec_size_hint() <= old(progress).total_bytes {
                    old(progress).completed_bytes + old(self).artifacts@[i as int].spec_size_hint()
                } else {
                    old(progress).total_bytes as int
                })),
            (!old(self).terminal_outcome(old(self).attempts@[i as int] as nat, outcome)
                ==> *final(progress) == *old(progress)),
            final(progress).wf(),
            final(progress).total_items == old(progress).total_items,
            final(progress).total_bytes == old(progress).total_bytes,
            final(progress).completed_items >= old(progress).completed_items,
    {
        proof {
            assert(old(self).slot_ok(i as int));
        }
        let a = self.attempts[i];
        let a1 = a + 1;
        self.attempts.set(i, a1);
        proof {
            lemma_count_phase_pos(self.status@, i as int, Phase::Active);
        }
        self.active_count = self.active_count - 1;
        let terminal: bool;
        match outcome {
            None => {
                proof {
                    lemma_count_phase_update(self.status@, i as int, Phase::DoneValid,
                        Phase::Active);
                    lemma_count_phase_update(self.status@, i as int, Phase::DoneValid,
                        Phase::DoneFailed);
                }
                self.status.set(i, Phase::DoneValid);
                terminal = true;
            },
            Some(e) => {
                if a1 < self.config.max_attempts {
                    proof {
                        lemma_count_phase_update(self.status@, i as int, Phase::Waiting,
                            Phase::Active);
                        lemma_count_phase_update(self.status@, i as int, Phase::Waiting,
                            Phase::DoneFailed);
                    }
                    self.status.set(i, Phase::Waiting);
                    terminal = false;
                } else {
                    proof {
                        lemma_count_phase_update(self.status@, i as int, Phase::DoneFailed,
                            Phase::Active);
                        lemma_count_phase_update(self.status@, i as int, Phase::DoneFailed,
                            Phase::DoneFailed);
                    }
                    self.status.set(i, Phase::DoneFailed);
                    let path = self.artifacts[i].local_path.clone();
                    self.failures.push(ArtifactFailure { local_path: path, cause: e, attempts: a1 });
                    proof {
                        assert(self.failures@.drop_last() =~= old(self).failures@);
                    }
                    if !self.config.ignore_failures {
                        self.halted = true;
                    }
                    terminal = true;
                }
            },
        }
        proof {
            assert forall|k: int| 0 <= k < self.status@.len() && k != i implies self.slot_ok(k)
                == old(self).slot_ok(k) by {
                assert(self.status@[k] == old(self).status@[k]);
                assert(self.attempts@[k] == old(self).attempts@[k]);
            }
        }
        if terminal {
            let label = self.artifacts[i].local_path.clone();
            let bytes = self.artifacts[i].size_hint();
            progress.complete_one(bytes, label);
        }
    }

    /// The batch is finished: nothing is in flight, and either it was
    /// halted or nothing still waits.
    pub open spec fn spec_finished(&self) -> bool {
        &&& count_phase(self.status@, Phase::Active) == 0
        &&& (self.halted || count_phase(self.status@, Phase::Waiting) == 0)
    }

    pub fn is_finished(&self) -> (r: bool)
        requires
            self.wf(),
        ensures
            r == self.spec_finished(),
    {
        if self.active_count != 0 {
            return false;
        }
        if self.halted {
            return true;
        }
        let n = self.status.len();
        let mut i: usize = 0;
        while i < n
            invariant
                self.wf(),
                !self.halted,
                self.active_count == 0,
                n == self.status@.len(),
                i <= n,
                forall|j: int| 0 <= j < i ==> !((#[trigger] self.status@[j]) is Waiting),
            decreases n - i,
        {
            let here = self.status[i];
            match here {
                Phase::Waiting => {
                    proof {
                        lemma_count_phase_pos(self.status@, i as int, Phase::Waiting);
                    }
                    return false;
                },
                _ => {
                    i = i + 1;
                },
            }
        }
        proof {
            lemma_count_phase_zero(self.status@, Phase::Waiting);
        }
        true
    }

    /// Counts the artifacts that reached `Phase::DoneValid`.
    fn count_verified(&self) -> (r: usize)
        ensures
            r == count_phase(self.status@, Phase::DoneValid),
    {
        let n = self.status.len();
        let mut r: usize = 0;
        let mut i: usize = 0;
        proof {
            assert(self.status@.subrange(0, 0) =~= Seq::<Phase>::empty());
        }
        while i < n
            invariant
                n == self.status@.len(),
                i <= n,
                r <= i,
                r == count_phase(self.status@.subrange(0, i as int), Phase::DoneValid),
            decreases n - i,
    {
            proof {
                assert(self.status@.subrange(0, i as int + 1).drop_last() =~= self.status@.subrange(
                    0,
                    i as int,
                ));
                assert(self.status@.subrange(0, i as int + 1).last() == self.status@[i as int]);
            }
            let here = self.status[i];
            match here {
                Phase::DoneValid => {
                    r = r + 1;
                },
                _ => {},
            }
            i = i + 1;
        }
        proof {
            assert(self.status@.subrange(0, n as int) =~= self.status@);
        }
        r
    }

    /// The batch result, available once the job is finished; the job is
    /// single-use and is consumed here. Under fail-fast a recorded
    /// failure makes the whole batch fail with the first fatal cause;
    /// otherwise the batch completes, reporting how many artifacts were
    /// verified together with the collected failures.
    pub fn result(self) -> (r: JobResult)
        requires
            self.wf(),
            self.spec_finished(),
        ensures
            (!self.config.ignore_failures && self.failures@.len() > 0 ==> (r matches
                JobResult::Failed { first } && first == self.failures@[0])),
            (self.config.ignore_failures || self.failures@.len() == 0 ==> (r matches
                JobResult::Completed { verified, failures } && verified == count_phase(
                self.status@,
                Phase::DoneValid,
            ) && failures@ == self.failures@)),
    {
        let verified = self.count_verified();
        let mut failures = self.failures;
        if !self.config.ignore_failures && failures.len() > 0 {
            let first = failures.remove(0);
            JobResult::Failed { first }
        } else {
            JobResult::Completed { verified, failures }
        }
    }
}

/// A scripted attempt row on which every attempt within the budget
/// fails.
pub open spec fn row_always_fails(row: Seq<bool>, max: nat) -> bool {
    forall|k: int| 0 <= k < max ==> !row[k]
}

/// Every failure record of a scripted run is fully determined: it names
/// a terminally failed artifact of the batch by its local path, carries
/// the scripted stand-in cause, and shows the whole attempt budget
/// consumed.
pub open spec fn scripted_failures_ok(job: DownloadJob) -> bool {
    forall|j: int|
        0 <= j < job.failures@.len() ==> ((#[trigger] job.failures@[j]).attempts
            == job.config.max_attempts && job.failures@[j].cause == (DownloadError::NetworkFailure {
            status: None,
        }) && exists|i: int|
            0 <= i < job.artifacts@.len() && (#[trigger] job.status@[i]) is DoneFailed
                && job.failures@[j].local_path@ == job.artifacts@[i].local_path@)
}

impl DownloadJob {
    /// Runs the whole batch against a table of scripted attempt
    /// outcomes: entry `k` of row `i` says whether the `k+1`-th fetch
    /// attempt of artifact `i` succeeds. Artifacts run one at a time in
    /// batch order through the same machine the concurrent runner uses.
    ///
    /// Retry-exhaustion law: an artifact whose attempts all fail ends
    /// `DoneFailed` with exactly `max_attempts` attempts consumed, never
    /// more, never fewer; one with a succeeding attempt within the
    /// budget never ends `DoneFailed`.
    ///
    /// Failure-policy law: ignoring failures, every artifact reaches a
    /// terminal state and the batch never halts; failing fast, the batch
    /// halts exactly when some row fails its whole budget.
    ///
    /// Progress law: completed items grow by exactly the number of
    /// terminal artifacts.
    pub fn run_scripted(&mut self, outcomes: &Vec<Vec<bool>>, progress: &mut ProgressReporter)
        requires
            old(self).wf(),
            old(self).fresh(),
            outcomes@.len() == old(self).artifacts@.len(),
            forall|i: int|
                0 <= i < outcomes@.len() ==> (#[trigger] outcomes@[i])@.len() >= old(
                    self,
                ).config.max_attempts,
            old(progress).wf(),
            old(progress).total_items - old(progress).completed_items >= old(
                self,
            ).artifacts@.len(),
        ensures
            final(self).wf(),
            final(self).spec_finished(),
            final(self).artifacts == old(self).artifacts,
            final(self).config == old(self).config,
            final(self).name == old(self).name,
            forall|i: int|
                0 <= i < final(self).status@.len() ==> ((#[trigger] final(self).status@[i])
                    is DoneValid ==> !row_always_fails(
                    outcomes@[i]@,
                    old(self).config.max_attempts as nat,
                )),
            forall|i: int|
                0 <= i < final(self).status@.len() ==> ((#[trigger] final(self).status@[i])
                    is DoneFailed ==> row_always_fails(
                    outcomes@[i]@,
                    old(self).config.max_attempts as nat,
                ) && final(self).attempts@[i] == old(self).config.max_attempts),
            (old(self).config.ignore_failures ==> !final(self).halted && forall|i: int|
                0 <= i < final(self).status@.len() ==> ((#[trigger] final(self).status@[i])
                    is DoneValid || final(self).status@[i] is DoneFailed)),
            (!old(self).config.ignore_failures ==> (final(self).halted <==> exists|i: int|
                0 <= i < outcomes@.len() && row_always_fails(
                    (#[trigger] outcomes@[i])@,
                    old(self).config.max_attempts as nat,
                ))),
            (!final(self).halted ==> forall|i: int|
                0 <= i < final(self).status@.len() ==> ((#[trigger] final(self).status@[i])
                    is DoneValid || final(self).status@[i] is DoneFailed)),
            (final(self).halted ==> final(self).failures@.len() >= 1),
            scripted_failures_ok(*final(self)),
            (!old(self).config.ignore_failures && !final(self).halted ==> count_phase(
                final(self).status@,
                Phase::DoneValid,
            ) == old(self).artifacts@.len() && final(self).failures@.len() == 0),
            final(progress).wf(),
            final(progress).total_items == old(progress).total_items,
            final(progress).total_bytes == old(progress).total_bytes,
            final(progress).completed_items == old(progress).completed_items + count_phase(
                final(self).status@,
                Phase::DoneValid,
            ) + count_phase(final(self).status@, Phase::DoneFailed),
            final(progress).completed_bytes == (if old(progress).completed_bytes
                + sum_terminal_hints(old(self).artifacts@, final(self).status@) <= old(
                progress,
            ).total_bytes {
                old(progress).completed_bytes + sum_terminal_hints(
                    old(self).artifacts@,
                    final(self).status@,
                )
            } else {
                old(progress).total_bytes as int
            }),
    {
        let ghost base_completed = old(progress).completed_items as int;
        let ghost base_bytes = old(progress).completed_bytes as int;
        let ghost total_bytes = old(progress).total_bytes as int;
        let ghost max = old(self).config.max_attempts as nat;
        let n = self.artifacts.len();
        proof {
            lemma_count_phase_zero(self.status@, Phase::Active);
            lemma_count_phase_zero(self.status@, Phase::DoneValid);
            lemma_count_phase_zero(self.status@, Phase::DoneFailed);
            lemma_sum_terminal_zero(self.artifacts@, self.status@);
        }
        let ghost mut p: int = 0;
        let mut stopped = false;
        while !stopped
            invariant
                self.wf(),
                self.artifacts == old(self).artifacts,
                self.config == old(self).config,
                self.name == old(self).name,
                max == self.config.max_attempts,
                outcomes@.len() == n,
                forall|i: int|
                    0 <= i < outcomes@.len() ==> (#[trigger] outcomes@[i])@.len() >= max,
                n == self.status@.len(),
                n == self.artifacts@.len(),
                0 <= p <= n,
                self.active_count == 0,
                count_phase(self.status@, Phase::Active) == 0,
                forall|j: int|
                    0 <= j < p ==> ((#[trigger] self.status@[j]) is DoneValid || self.status@[j]
                        is DoneFailed),
                forall|j: int| p <= j < n ==> (#[trigger] self.status@[j]) is Waiting,
                forall|j: int|
                    0 <= j < n ==> ((#[trigger] self.status@[j]) is DoneValid ==> self.attempts@[j]
                        >= 1 && outcomes@[j]@[self.attempts@[j] - 1]),
                forall|j: int|
                    0 <= j < n ==> ((#[trigger] self.status@[j]) is DoneFailed ==> row_always_fails(
                        outcomes@[j]@,
                        max,
                    )),
                forall|j: int|
                    0 <= j < n ==> ((#[trigger] self.status@[j]) is Waiting ==> forall|k: int|
                        0 <= k < self.attempts@[j] ==> !outcomes@[j]@[k]),
                (self.halted ==> count_phase(self.status@, Phase::DoneFailed) >= 1),
                scripted_failures_ok(*self),
                progress.completed_items == base_completed + count_phase(
                    self.status@,
                    Phase::DoneValid,
                ) + count_phase(self.status@, Phase::DoneFailed),
                sum_terminal_hints(self.artifacts@, self.status@) >= 0,
                progress.completed_bytes == (if base_bytes + sum_terminal_hints(
                    self.artifacts@,
                    self.status@,
                ) <= total_bytes {
                    base_bytes + sum_terminal_hints(self.artifacts@, self.status@)
                } else {
                    total_bytes
                }),
                progress.total_items == old(progress).total_items,
                progress.total_bytes == old(progress).total_bytes,
                total_bytes == old(progress).total_bytes,
                base_bytes == old(progress).completed_bytes,
                progress.wf(),
                old(progress).total_items - base_completed >= n,
                base_completed == old(progress).completed_items,
                (stopped ==> self.halted || count_phase(self.status@, Phase::Waiting) == 0),
            decreases
                (if stopped { 0int } else { 1int }),
                n - p,
                (if p < n { max - self.attempts@[p] } else { 0int }),
        {
            let ghost pre0 = *self;
            let next = self.start_next();
            match next {
                None => {
                    stopped = true;
                },
                Some(i) => {
                    proof {
                        assert(i as int == p) by {
                            if (i as int) < p {
                                assert(pre0.status@[i as int] is DoneValid || pre0.status@[i as int]
                                    is DoneFailed);
                            }
                            if (i as int) > p {
                                assert(pre0.status@[p] is Waiting);
                                assert(!(pre0.status@[p] is Waiting));
                            }
                        }
                        lemma_count_phase_update(pre0.status@, i as int, Phase::Active,
                            Phase::DoneValid);
                        lemma_count_phase_update(pre0.status@, i as int, Phase::Active,
                            Phase::DoneFailed);
                        lemma_count_phase_update(pre0.status@, i as int, Phase::Active,
                            Phase::Waiting);
                        lemma_count_phase_update(pre0.status@, i as int, Phase::Active,
                            Phase::Active);
                        lemma_sum_terminal_update(pre0.artifacts@, pre0.status@, i as int,
                            Phase::Active);
                        assert(self.wf());
                        assert(self.slot_ok(i as int));
                        lemma_count_phase_partition(self.status@);
                        lemma_count_phase_pos(self.status@, i as int, Phase::Active);
                    }
                    let k = self.attempts[i];
                    let row: &Vec<bool> = &outcomes[i];
                    let ok = row[k];
                    let outcome = if ok {
                        None
                    } else {
                        Some(DownloadError::NetworkFailure { status: None })
                    };
                    let ghost pre = *self;
                    self.complete_attempt(i, outcome, progress);
                    proof {
                        let newph = if ok {
                            Phase::DoneValid
                        } else if k + 1 < pre.config.max_attempts {
                            Phase::Waiting
                        } else {
                            Phase::DoneFailed
                        };
                        assert(self.status@ == pre.status@.update(i as int, newph));
                        lemma_count_phase_update(pre.status@, i as int, newph, Phase::DoneValid);
                        lemma_count_phase_update(pre.status@, i as int, newph, Phase::DoneFailed);
                        lemma_count_phase_update(pre.status@, i as int, newph, Phase::Waiting);
                        lemma_count_phase_update(pre.status@, i as int, newph, Phase::Active);
                        lemma_sum_terminal_update(pre.artifacts@, pre.status@, i as int, newph);
                        if newph is DoneFailed {
                            lemma_count_phase_pos(self.status@, i as int, Phase::DoneFailed);
                        }
                        assert forall|j: int| 0 <= j < self.failures@.len() implies ((
                        #[trigger] self.failures@[j]).attempts == self.config.max_attempts
                            && self.failures@[j].cause == (DownloadError::NetworkFailure {
                            status: None,
                        }) && exists|iw: int|
                            0 <= iw < self.artifacts@.len() && (#[trigger] self.status@[iw])
                                is DoneFailed && self.failures@[j].local_path@
                                == self.artifacts@[iw].local_path@) by {
                            if j < pre.failures@.len() {
                                assert(scripted_failures_ok(pre0));
                                assert(pre0.failures@[j] == self.failures@[j]);
                                assert((pre0.failures@[j].attempts == pre0.config.max_attempts));
                                let iw = choose|iw: int|
                                    0 <= iw < pre0.artifacts@.len() && (#[trigger] pre0.status@[iw])
                                        is DoneFailed && pre0.failures@[j].local_path@
                                        == pre0.artifacts@[iw].local_path@;
                                assert(iw != i);
                                assert(self.status@[iw] is DoneFailed);
                            } else {
                                assert(self.failures@[j] == self.failures@.last());
                                assert(self.status@[i as int] is DoneFailed);
                            }
                        }
                        if ok || k + 1 == pre.config.max_attempts {
                            p = p + 1;
                        }
                    }
                },
            }
        }
        proof {
            assert(self.halted || count_phase(self.status@, Phase::Waiting) == 0);
            if !self.halted {
                if p < n {
                    lemma_count_phase_pos(self.status@, p, Phase::Waiting);
                }
                assert(p == n);
            }
            assert forall|i: int|
                0 <= i < self.status@.len() && (#[trigger] self.status@[i]) is DoneValid implies
                !row_always_fails(outcomes@[i]@, max) by {
                assert(self.slot_ok(i));
                let a = self.attempts@[i] as int;
                assert(outcomes@[i]@[a - 1]);
                assert(0 <= a - 1 < max);
            }
            assert forall|i: int|
                0 <= i < self.status@.len() && (#[trigger] self.status@[i]) is DoneFailed implies
                row_always_fails(outcomes@[i]@, max) && self.attempts@[i]
                    == self.config.max_attempts by {
                assert(self.slot_ok(i));
            }
            if self.halted {
                lemma_count_phase_exists(self.status@, Phase::DoneFailed);
            }
            if !self.config.ignore_failures && !self.halted {
                assert forall|i: int| 0 <= i < self.status@.len() implies (
                #[trigger] self.status@[i]) is DoneValid by {
                    if self.status@[i] is DoneFailed {
                        lemma_count_phase_pos(self.status@, i, Phase::DoneFailed);
                    }
                }
                lemma_count_phase_full(self.status@, Phase::DoneValid);
            }
            if !self.config.ignore_failures && !self.halted {
                assert forall|i: int|
                    0 <= i < outcomes@.len() implies !row_always_fails(
                    (#[trigger] outcomes@[i])@,
                    max,
                ) by {
                    assert(self.status@[i] is Waiting || self.status@[i] is Active
                        || self.status@[i] is DoneValid || self.status@[i] is DoneFailed);
                    if self.status@[i] is DoneFailed {
                        lemma_count_phase_pos(self.status@, i, Phase::DoneFailed);
                    }
                    assert(self.status@[i] is DoneValid);
                    assert(self.slot_ok(i));
                    if row_always_fails(outcomes@[i]@, max) {
                        let a = self.attempts@[i] as int;
                        assert(outcomes@[i]@[a - 1]);
                        assert(0 <= a - 1 < max);
                        assert(!outcomes@[i]@[a - 1]);
                    }
                }
            }
        }
    }
}

/// Concurrency-bound law: a well-formed job never has more artifacts in
/// the fetching/verifying phase than its configured limit. Every
/// operation of the job preserves well-formedness, so the bound holds at
/// every instant of a run.
pub proof fn lemma_concurrency_bound(job: &DownloadJob)
    requires
        job.wf(),
    ensures
        count_phase(job.status@, Phase::Active) <= job.config.concurrency_limit,
{
}

} // verus!
