//! The per-cycle orchestration decisions: when a build is warranted,
//! what one repository's observations amount to, how a whole cycle's
//! repositories are sequenced, and how long to sleep before the next
//! cycle.

use vstd::prelude::*;
use crate::sync::{CommitId, SyncError, SyncOutcome};

verus! {

/// The build-trigger rule: a build is warranted when the build-output
/// directory is missing, or the local tip moved during this cycle — an
/// inclusive or, so a repository with no prior output is built even
/// when its ref stood still.
pub fn build_needed(dist_exists: bool, ref_before: &CommitId, ref_after: &CommitId) -> (b: bool)
    ensures
        b == (!dist_exists || ref_before@ != ref_after@),
{
    !dist_exists || !ref_before.equals(ref_after)
}

/// Everything the orchestrator learned about one repository during one
/// cycle, before any decision about it is made.
#[derive(Debug)]
pub enum RepoObservation {
    /// The working copy could not be opened; every later step for this
    /// repository is skipped this cycle.
    OpenFailed,
    /// The local branch tip could not be resolved; every later step for
    /// this repository is skipped this cycle.
    TipUnresolved,
    /// Synchronization ran: the local tip before and after it, what it
    /// reported, and whether the build-output directory exists.
    Synced {
        ref_before: CommitId,
        outcome: SyncOutcome,
        ref_after: CommitId,
        dist_exists: bool,
    },
}

/// What one cycle concluded about one repository: the outcome to log,
/// and whether to run its build before moving to the next repository.
#[derive(Debug)]
pub struct RepoReport {
    pub outcome: SyncOutcome,
    pub build: bool,
}

/// The report a given observation must produce.  A repository that
/// could not be opened or resolved yields a recoverable error and no
/// build; an observed synchronization — successful or not — yields its
/// outcome and the build-trigger rule applied to what was observed.
pub open spec fn report_of(obs: RepoObservation) -> RepoReport {
    match obs {
        RepoObservation::OpenFailed => RepoReport {
            outcome: SyncOutcome::Error(SyncError::OpenFailed),
            build: false,
        },
        RepoObservation::TipUnresolved => RepoReport {
            outcome: SyncOutcome::Error(SyncError::BranchNotResolved),
            build: false,
        },
        RepoObservation::Synced { ref_before, outcome, ref_after, dist_exists } => RepoReport {
            outcome,
            build: !dist_exists || ref_before@ != ref_after@,
        },
    }
}

/// Decides one repository's report from what was observed about it.
/// Total: every observation, failures included, has a report, which is
/// how a single repository's failure stays its own.
pub fn process_repo(obs: RepoObservation) -> (r: RepoReport)
    ensures
        r == report_of(obs),
{
    match obs {
        RepoObservation::OpenFailed => RepoReport {
            outcome: SyncOutcome::Error(SyncError::OpenFailed),
            build: false,
        },
        RepoObservation::TipUnresolved => RepoReport {
            outcome: SyncOutcome::Error(SyncError::BranchNotResolved),
            build: false,
        },
        RepoObservation::Synced { ref_before, outcome, ref_after, dist_exists } => {
            let build = build_needed(dist_exists, &ref_before, &ref_after);
            RepoReport { outcome, build }
        },
    }
}

/// The reports of a whole cycle: one per observed repository, in the
/// config store's enumeration order.
pub open spec fn cycle_reports(obss: Seq<RepoObservation>) -> Seq<RepoReport> {
    obss.map_values(|o: RepoObservation| report_of(o))
}

/// Processes one whole cycle's observations, one repository after
/// another, in the order the config store enumerated them.
pub fn run_cycle(obss: Vec<RepoObservation>) -> (r: Vec<RepoReport>)
    ensures
        r@ == cycle_reports(obss@),
{
    let ghost orig = obss@;
    let mut rest = obss;
    let mut out: Vec<RepoReport> = Vec::new();
    assert(out@ + cycle_reports(orig) =~= cycle_reports(orig));
    while rest.len() > 0
        invariant
            out@ + cycle_reports(rest@) == cycle_reports(orig),
        decreases rest.len(),
    {
        let ghost rest_old = rest@;
        let obs = rest.remove(0);
        let report = process_repo(obs);
        proof {
            assert(cycle_reports(rest_old) =~= seq![report_of(obs)] + cycle_reports(rest@));
            assert(out@.push(report) + cycle_reports(rest@) =~= out@ + cycle_reports(rest_old));
        }
        out.push(report);
    }
    proof {
        assert(cycle_reports(rest@) =~= Seq::<RepoReport>::empty());
        assert(out@ + cycle_reports(rest@) =~= out@);
    }
    out
}

/// Per-repository isolation: in one cycle every repository's report is
/// a function of that repository's own observation alone, so a failure
/// observed for one repository — an unopenable working copy, say —
/// leaves every other repository's processing, build decision and all,
/// exactly what its own observation dictates.
pub proof fn lemma_per_repo_isolation(obss: Seq<RepoObservation>, i: int)
    requires
        0 <= i < obss.len(),
    ensures
        cycle_reports(obss).len() == obss.len(),
        cycle_reports(obss)[i] == report_of(obss[i]),
{
}

/// Chooses the pause before each cycle: the very first cycle of a run
/// starts immediately, every later cycle waits the configured poll
/// interval.
#[derive(Clone, Copy, Debug, PartialEq, Eq, Structural)]
pub struct CycleScheduler {
    pub interval: u64,
    pub started: bool,
}

/// The delay the scheduler orders before the cycle that is about to
/// start.
pub open spec fn scheduled_delay(s: CycleScheduler) -> u64 {
    if s.started {
        s.interval
    } else {
        0
    }
}

/// The scheduler after a cycle has been started.
pub open spec fn after_cycle(s: CycleScheduler) -> CycleScheduler {
    CycleScheduler { interval: s.interval, started: true }
}

impl CycleScheduler {
    /// A scheduler for a fresh run with the given poll interval.
    pub fn new(interval: u64) -> (s: CycleScheduler)
        ensures
            s.interval == interval,
            !s.started,
    {
        CycleScheduler { interval, started: false }
    }

    /// The seconds to sleep before the cycle that is about to start:
    /// zero the first time, the configured interval ever after.
    pub fn next_delay(&mut self) -> (d: u64)
        ensures
            d == scheduled_delay(*old(self)),
            *final(self) == after_cycle(*old(self)),
    {
        let d = if self.started {
            self.interval
        } else {
            0
        };
        self.started = true;
        d
    }
}

/// Cycle cadence: a fresh scheduler lets the first cycle begin without
/// waiting, and from then on every consecutive pair of cycle starts is
/// separated by at least the configured interval of ordered sleep —
/// whatever state the scheduler is in after a cycle, the next delay it
/// orders is the full interval.
pub proof fn lemma_cycle_cadence(interval: u64, s: CycleScheduler)
    ensures
        scheduled_delay(CycleScheduler { interval, started: false }) == 0,
        scheduled_delay(after_cycle(s)) == s.interval,
{
}

} // verus!
