//! Fast-forward synchronization: commit identifiers, merge analysis,
//! the decision of what a sync step does, and the laws it obeys.

use vstd::prelude::*;

verus! {

/// A commit identifier: the raw object-id bytes of a tip.
#[derive(Debug)]
pub struct CommitId {
    pub bytes: Vec<u8>,
}

impl View for CommitId {
    type V = Seq<u8>;

    open spec fn view(&self) -> Seq<u8> {
        self.bytes@
    }
}

impl CommitId {
    /// Byte-for-byte equality of two commit identifiers.
    pub fn equals(&self, other: &CommitId) -> (r: bool)
        ensures
            r == (self@ == other@),
    {
        if self.bytes.len() != other.bytes.len() {
            return false;
        }
        let n = self.bytes.len();
        let mut i: usize = 0;
        while i < n
            invariant
                n == self.bytes.len() == other.bytes.len(),
                0 <= i <= n,
                forall|j: int| 0 <= j < i ==> self.bytes@[j] == other.bytes@[j],
            decreases n - i,
        {
            if self.bytes[i] != other.bytes[i] {
                return false;
            }
            i += 1;
        }
        assert(self@ =~= other@);
        true
    }

    /// An owned copy of this identifier.
    pub fn duplicate(&self) -> (r: CommitId)
        ensures
            r@ == self@,
    {
        let mut out: Vec<u8> = Vec::new();
        let n = self.bytes.len();
        let mut i: usize = 0;
        while i < n
            invariant
                n == self.bytes.len(),
                0 <= i <= n,
                out@ == self.bytes@.take(i as int),
            decreases n - i,
        {
            out.push(self.bytes[i]);
            assert(out@ =~= self.bytes@.take(i + 1 as int));
            i += 1;
        }
        assert(out@ =~= self.bytes@);
        CommitId { bytes: out }
    }
}

/// The three possible results of the merge analysis between the local
/// branch tip and the fetched remote tip, as the version-control
/// capability reports them.
#[derive(Clone, Copy, Debug, PartialEq, Eq, Structural)]
pub enum MergeAnalysis {
    /// The local tip already equals the remote tip.
    UpToDate,
    /// The remote tip is a linear descendant of the local tip.
    FastForwardable,
    /// Neither tip is an ancestor of the other, or the local tip is
    /// ahead: no fast-forward exists.
    Diverged,
}

/// Why a repository's synchronization step failed this cycle.  Every
/// one of these is recoverable: it is logged and the daemon moves on.
#[derive(Clone, Copy, Debug, PartialEq, Eq, Structural)]
pub enum SyncError {
    /// The working copy could not be opened as a repository.
    OpenFailed,
    /// The local branch tip could not be resolved.
    BranchNotResolved,
    /// The configured remote does not exist in the repository.
    RemoteNotFound,
    /// The fetched reference could not be resolved for analysis.
    ReferenceNotResolved,
    /// Moving the ref or checking the working copy out failed.
    UpdateFailed,
}

/// What one synchronization attempt amounted to, reported per
/// repository per cycle and never persisted.
#[derive(Debug)]
pub enum SyncOutcome {
    /// Local and remote tips already agreed; nothing was touched.
    UpToDate,
    /// The local ref was moved from the first tip to the second, and the
    /// working copy checked out to match.
    FastForwarded(CommitId, CommitId),
    /// The tips have diverged; by policy nothing is ever merged, so
    /// nothing was touched.
    Diverged,
    /// Some step failed; the repository's prior state is untouched.
    Error(SyncError),
}

/// What the orchestrator should do with a repository after merge
/// analysis: the outcome to report, and the tip to move the local ref
/// to — present exactly when the analysis allows a fast-forward.
pub struct SyncDecision {
    pub outcome: SyncOutcome,
    pub update_to: Option<CommitId>,
}

/// Decides the synchronization step from the merge analysis and the two
/// tips.  Fast-forward-only policy: an update is ordered exactly when
/// the remote tip linearly descends from the local tip, and it moves
/// the local ref to exactly the remote tip.  A diverged repository is
/// never touched.
pub fn sync_decision(analysis: MergeAnalysis, local: &CommitId, remote: &CommitId) -> (d:
    SyncDecision)
    ensures
        analysis is UpToDate ==> d.outcome is UpToDate && d.update_to is None,
        analysis is FastForwardable ==> (d.outcome matches SyncOutcome::FastForwarded(before, after)
            && before@ == local@ && after@ == remote@),
        analysis is FastForwardable ==> (d.update_to matches Some(t) && t@ == remote@),
        analysis is Diverged ==> d.outcome is Diverged && d.update_to is None,
    {
    match analysis {
        MergeAnalysis::UpToDate => SyncDecision { outcome: SyncOutcome::UpToDate, update_to: None },
        MergeAnalysis::FastForwardable => SyncDecision {
            outcome: SyncOutcome::FastForwarded(local.duplicate(), remote.duplicate()),
            update_to: Some(remote.duplicate()),
        },
        MergeAnalysis::Diverged => SyncDecision { outcome: SyncOutcome::Diverged, update_to: None },
    }
}

/// Ghost model of the synchronized slice of one repository: the local
/// branch tip, the remote tracking tip as of the last fetch, and the
/// tip the working copy is checked out at.
pub struct RepoModel {
    pub local: Seq<u8>,
    pub remote: Seq<u8>,
    pub workdir: Seq<u8>,
}

/// Whether analysis `a` is the one the version-control capability must
/// report for a repository in state `m`, given that `strict_anc(x, y)`
/// says commit `x` is a strict ancestor of commit `y`: up-to-date means
/// the tips are equal, fast-forwardable means the remote tip strictly
/// descends from a different local tip, and diverged covers the rest.
pub open spec fn analysis_matches(
    m: RepoModel,
    strict_anc: spec_fn(Seq<u8>, Seq<u8>) -> bool,
    a: MergeAnalysis,
) -> bool {
    &&& (a is UpToDate <==> m.local == m.remote)
    &&& (a is FastForwardable <==> (m.local != m.remote && strict_anc(m.local, m.remote)))
}

/// What one synchronization step does to the repository model: only a
/// fast-forward mutates, moving the local ref and the working copy to
/// the remote tip; the remote tracking tip itself never moves here.
pub open spec fn apply_sync(m: RepoModel, a: MergeAnalysis) -> RepoModel {
    if a is FastForwardable {
        RepoModel { local: m.remote, remote: m.remote, workdir: m.remote }
    } else {
        m
    }
}

/// Idempotence: if a synchronization succeeds — it found the repository
/// up to date or fast-forwarded it — and the remote does not move
/// before the next attempt, that next attempt finds the repository up
/// to date and changes nothing.
pub proof fn lemma_sync_idempotent(
    m: RepoModel,
    strict_anc: spec_fn(Seq<u8>, Seq<u8>) -> bool,
    a1: MergeAnalysis,
    a2: MergeAnalysis,
)
    requires
        analysis_matches(m, strict_anc, a1),
        a1 is UpToDate || a1 is FastForwardable,
        analysis_matches(apply_sync(m, a1), strict_anc, a2),
    ensures
        a2 is UpToDate,
        apply_sync(apply_sync(m, a1), a2) == apply_sync(m, a1),
{
}

/// Idempotence from a current state: a repository whose tips already
/// agree reports up-to-date on two successive synchronizations with an
/// unchanged remote, and its local ref never moves.
pub proof fn lemma_sync_idempotent_from_current(
    m: RepoModel,
    strict_anc: spec_fn(Seq<u8>, Seq<u8>) -> bool,
    a1: MergeAnalysis,
    a2: MergeAnalysis,
)
    requires
        m.local == m.remote,
        analysis_matches(m, strict_anc, a1),
        analysis_matches(apply_sync(m, a1), strict_anc, a2),
    ensures
        a1 is UpToDate,
        a2 is UpToDate,
        apply_sync(m, a1) == m,
        apply_sync(apply_sync(m, a1), a2) == m,
{
}

/// Fast-forward correctness: when the local tip is a strict ancestor of
/// the fetched remote tip, synchronization moves the local ref to
/// exactly the remote tip and leaves the working copy checked out at
/// that same tip.
pub proof fn lemma_fast_forward_correct(
    m: RepoModel,
    strict_anc: spec_fn(Seq<u8>, Seq<u8>) -> bool,
    a: MergeAnalysis,
)
    requires
        analysis_matches(m, strict_anc, a),
        m.local != m.remote,
        strict_anc(m.local, m.remote),
    ensures
        a is FastForwardable,
        apply_sync(m, a).local == m.remote,
        apply_sync(m, a).workdir == m.remote,
        apply_sync(m, a).remote == m.remote,
{
}

/// Divergence safety: when neither tip is an ancestor of the other,
/// the analysis is the diverged one and synchronization performs no
/// mutation at all.
pub proof fn lemma_divergence_safe(
    m: RepoModel,
    strict_anc: spec_fn(Seq<u8>, Seq<u8>) -> bool,
    a: MergeAnalysis,
)
    requires
        analysis_matches(m, strict_anc, a),
        m.local != m.remote,
        !strict_anc(m.local, m.remote),
        !strict_anc(m.remote, m.local),
    ensures
        a is Diverged,
        apply_sync(m, a) == m,
{
}

} // verus!
