//! Commit-reveal randomness rounds. Participants first publish commitments
//! to secrets, then reveal the secrets, and the round's random value is
//! derived from all revealed secrets once the reveal deadline has passed.

use vstd::prelude::*;
use crate::crypto::{
    commitment_of, finalize_randomness, randomness_of, verify_commitment, CryptoError,
    MIN_RANDOMNESS_PARTICIPANTS,
};
use crate::primitives::{AccountId, Digest};

verus! {

/// The phase a round is in.
#[derive(Debug, Clone, Copy, PartialEq, Eq, Structural)]
pub enum RandomnessStatus {
    Committing,
    Revealing,
    Finalized,
    Failed,
}

/// A participant's published commitment.
#[derive(Debug, Clone, Copy, PartialEq, Eq)]
pub struct CommitEntry {
    pub committer: AccountId,
    pub commit_hash: Digest,
}

/// A participant's revealed secret.
#[derive(Debug, Clone, Copy, PartialEq, Eq)]
pub struct RevealEntry {
    pub revealer: AccountId,
    pub secret: [u8; 32],
}

/// One commit-reveal round.
#[derive(Debug, Clone, PartialEq, Eq)]
pub struct CommitRevealRound {
    pub round_id: u64,
    pub commit_deadline: u32,
    pub reveal_deadline: u32,
    pub commits: Vec<CommitEntry>,
    pub reveals: Vec<RevealEntry>,
    pub final_random: Option<Digest>,
    pub status: RandomnessStatus,
}

/// A round as plain values.
pub struct RoundView {
    pub round_id: u64,
    pub commit_deadline: u32,
    pub reveal_deadline: u32,
    pub commits: Seq<CommitEntry>,
    pub reveals: Seq<RevealEntry>,
    pub final_random: Option<Digest>,
    pub status: RandomnessStatus,
}

impl View for CommitRevealRound {
    type V = RoundView;

    open spec fn view(&self) -> RoundView {
        RoundView {
            round_id: self.round_id,
            commit_deadline: self.commit_deadline,
            reveal_deadline: self.reveal_deadline,
            commits: self.commits@,
            reveals: self.reveals@,
            final_random: self.final_random,
            status: self.status,
        }
    }
}

/// `a + b`, capped at `u32::MAX`.
pub open spec fn saturating_add_u32(a: u32, b: u32) -> u32 {
    if a + b > u32::MAX { u32::MAX } else { (a + b) as u32 }
}

/// Whether `who` has a commitment among `commits`.
pub open spec fn has_committed(commits: Seq<CommitEntry>, who: Seq<u8>) -> bool {
    exists|i: int| 0 <= i < commits.len() && (#[trigger] commits[i]).committer@ == who
}

/// Whether `who` has a revealed secret among `reveals`.
pub open spec fn has_revealed(reveals: Seq<RevealEntry>, who: Seq<u8>) -> bool {
    exists|i: int| 0 <= i < reveals.len() && (#[trigger] reveals[i]).revealer@ == who
}

/// The commitment of the first entry of `commits` made by `who`, if any.
pub open spec fn commitment_by(commits: Seq<CommitEntry>, who: Seq<u8>) -> Option<Digest>
    decreases commits.len(),
{
    if commits.len() == 0 {
        None
    } else if commits[0].committer@ == who {
        Some(commits[0].commit_hash)
    } else {
        commitment_by(commits.drop_first(), who)
    }
}

/// The secrets of `reveals`, in reveal order.
pub open spec fn revealed_secrets(reveals: Seq<RevealEntry>) -> Seq<[u8; 32]> {
    reveals.map_values(|r: RevealEntry| r.secret)
}

/// A round as `create_round` makes it.
pub open spec fn new_round(round_id: u64, current_block: u32, commit_blocks: u32, reveal_blocks: u32) -> RoundView {
    RoundView {
        round_id,
        commit_deadline: saturating_add_u32(current_block, commit_blocks),
        reveal_deadline: saturating_add_u32(saturating_add_u32(current_block, commit_blocks), reveal_blocks),
        commits: Seq::empty(),
        reveals: Seq::empty(),
        final_random: None,
        status: RandomnessStatus::Committing,
    }
}

/// The round and the answer after `committer` commits `commit_hash` at
/// `current_block`: accepted only while committing, up to the commit
/// deadline, and once per account.
pub open spec fn add_commit_step(r: RoundView, committer: AccountId, commit_hash: Digest, current_block: u32) -> (RoundView, Result<(), CryptoError>) {
    if r.status != RandomnessStatus::Committing || current_block > r.commit_deadline {
        (r, Err(CryptoError::InvalidRandomnessPhase))
    } else if has_committed(r.commits, committer@) {
        (r, Err(CryptoError::InvalidRandomnessPhase))
    } else {
        (RoundView { commits: r.commits.push(CommitEntry { committer, commit_hash }), ..r }, Ok(()))
    }
}

/// The round and the answer after asking to start revealing at
/// `current_block`: only while committing and after the commit deadline;
/// with too few commitments the round fails instead.
pub open spec fn start_reveal_step(r: RoundView, current_block: u32) -> (RoundView, Result<(), CryptoError>) {
    if r.status != RandomnessStatus::Committing {
        (r, Err(CryptoError::InvalidRandomnessPhase))
    } else if current_block <= r.commit_deadline {
        (r, Err(CryptoError::InvalidRandomnessPhase))
    } else if r.commits.len() < MIN_RANDOMNESS_PARTICIPANTS {
        (RoundView { status: RandomnessStatus::Failed, ..r }, Err(CryptoError::InsufficientReveals))
    } else {
        (RoundView { status: RandomnessStatus::Revealing, ..r }, Ok(()))
    }
}

/// The round and the answer after `revealer` reveals `secret` at
/// `current_block`: only while revealing and up to the reveal deadline, by
/// an account that committed, with a secret matching its first commitment,
/// and once per account.
pub open spec fn add_reveal_step(r: RoundView, revealer: AccountId, secret: [u8; 32], current_block: u32) -> (RoundView, Result<(), CryptoError>) {
    if r.status != RandomnessStatus::Revealing || current_block > r.reveal_deadline {
        (r, Err(CryptoError::InvalidRandomnessPhase))
    } else {
        match commitment_by(r.commits, revealer@) {
            None => (r, Err(CryptoError::InvalidRandomnessPhase)),
            Some(commitment) => if commitment@ != commitment_of(secret@, revealer@) {
                (r, Err(CryptoError::CommitMismatch))
            } else if has_revealed(r.reveals, revealer@) {
                (r, Err(CryptoError::InvalidRandomnessPhase))
            } else {
                (RoundView { reveals: r.reveals.push(RevealEntry { revealer, secret }), ..r }, Ok(()))
            },
        }
    }
}

/// Whether `d` is the random value that the revealed secrets of `r` yield.
pub open spec fn is_round_randomness(r: RoundView, d: Digest) -> bool {
    d@ == randomness_of(revealed_secrets(r.reveals))
}

/// Whether `(next, result)` is the outcome of finalizing `r` at
/// `current_block`: only while revealing and after the reveal deadline; with
/// too few reveals the round fails; otherwise the random value derived from
/// the revealed secrets is recorded and returned.
pub open spec fn finalize_outcome(r: RoundView, current_block: u32, next: RoundView, result: Result<Digest, CryptoError>) -> bool {
    if r.status != RandomnessStatus::Revealing || current_block <= r.reveal_deadline {
        next == r && result == Err::<Digest, CryptoError>(CryptoError::InvalidRandomnessPhase)
    } else if r.reveals.len() < MIN_RANDOMNESS_PARTICIPANTS {
        next == (RoundView { status: RandomnessStatus::Failed, ..r })
            && result == Err::<Digest, CryptoError>(CryptoError::InsufficientReveals)
    } else {
        exists|d: Digest| #![trigger is_round_randomness(r, d)]
            is_round_randomness(r, d)
            && next == (RoundView { final_random: Some(d), status: RandomnessStatus::Finalized, ..r })
            && result == Ok::<Digest, CryptoError>(d)
    }
}

/// Create a new commitment-reveal round.
pub fn create_round(round_id: u64, current_block: u32, commit_blocks: u32, reveal_blocks: u32) -> (round: CommitRevealRound)
    ensures
        round@ == new_round(round_id, current_block, commit_blocks, reveal_blocks),
{
    CommitRevealRound {
        round_id,
        commit_deadline: current_block.saturating_add(commit_blocks),
        reveal_deadline: current_block.saturating_add(commit_blocks).saturating_add(reveal_blocks),
        commits: Vec::new(),
        reveals: Vec::new(),
        final_random: None,
        status: RandomnessStatus::Committing,
    }
}

/// The commitment of the first entry of `commits` made by `who`, if any.
fn find_commitment(commits: &Vec<CommitEntry>, who: &AccountId) -> (found: Option<Digest>)
    ensures
        found == commitment_by(commits@, who@),
{
    let mut i: usize = 0;
    assert(commits@.subrange(0, commits@.len() as int) =~= commits@);
    while i < commits.len()
        invariant
            0 <= i <= commits@.len(),
            commitment_by(commits@, who@) == commitment_by(commits@.subrange(i as int, commits@.len() as int), who@),
        decreases commits@.len() - i,
    {
        let ghost rest = commits@.subrange(i as int, commits@.len() as int);
        assert(rest.drop_first() =~= commits@.subrange(i + 1, commits@.len() as int));
        if commits[i].committer == *who {
            return Some(commits[i].commit_hash);
        }
        i = i + 1;
    }
    None
}

/// Whether `commits` holds a commitment by `who`.
fn any_commit_by(commits: &Vec<CommitEntry>, who: &AccountId) -> (found: bool)
    ensures
        found == has_committed(commits@, who@),
{
    let mut i: usize = 0;
    while i < commits.len()
        invariant
            0 <= i <= commits@.len(),
            forall|j: int| 0 <= j < i ==> (#[trigger] commits@[j]).committer@ != who@,
        decreases commits@.len() - i,
    {
        if commits[i].committer == *who {
            return true;
        }
        i = i + 1;
    }
    false
}

/// Whether `reveals` holds a reveal by `who`.
fn any_reveal_by(reveals: &Vec<RevealEntry>, who: &AccountId) -> (found: bool)
    ensures
        found == has_revealed(reveals@, who@),
{
    let mut i: usize = 0;
    while i < reveals.len()
        invariant
            0 <= i <= reveals@.len(),
            forall|j: int| 0 <= j < i ==> (#[trigger] reveals@[j]).revealer@ != who@,
        decreases reveals@.len() - i,
    {
        if reveals[i].revealer == *who {
            return true;
        }
        i = i + 1;
    }
    false
}

/// Whether `count` participants fall short of the minimum.
fn below_minimum(count: usize) -> (short: bool)
    ensures
        short == (count < MIN_RANDOMNESS_PARTICIPANTS),
{
    count < MIN_RANDOMNESS_PARTICIPANTS as usize
}

/// Add a commitment to a round during the commit phase.
pub fn add_commit(round: &mut CommitRevealRound, committer: AccountId, commit_hash: Digest, current_block: u32) -> (result: Result<(), CryptoError>)
    ensures
        (final(round)@, result) == add_commit_step(old(round)@, committer, commit_hash, current_block),
{
    if round.status != RandomnessStatus::Committing || current_block > round.commit_deadline {
        return Err(CryptoError::InvalidRandomnessPhase);
    }
    // Prevent duplicate commits from the same account
    if any_commit_by(&round.commits, &committer) {
        return Err(CryptoError::InvalidRandomnessPhase);
    }
    round.commits.push(CommitEntry { committer, commit_hash });
    Ok(())
}

/// Transition round from committing to revealing phase.
pub fn start_reveal_phase(round: &mut CommitRevealRound, current_block: u32) -> (result: Result<(), CryptoError>)
    ensures
        (final(round)@, result) == start_reveal_step(old(round)@, current_block),
{
    if round.status != RandomnessStatus::Committing {
        return Err(CryptoError::InvalidRandomnessPhase);
    }
    if current_block <= round.commit_deadline {
        return Err(CryptoError::InvalidRandomnessPhase);
    }
    if below_minimum(round.commits.len()) {
        round.status = RandomnessStatus::Failed;
        return Err(CryptoError::InsufficientReveals);
    }
    round.status = RandomnessStatus::Revealing;
    Ok(())
}

/// Reveal a secret during the reveal phase. Verifies against the commitment.
pub fn add_reveal(round: &mut CommitRevealRound, revealer: AccountId, secret: [u8; 32], current_block: u32) -> (result: Result<(), CryptoError>)
    ensures
        (final(round)@, result) == add_reveal_step(old(round)@, revealer, secret, current_block),
{
    if round.status != RandomnessStatus::Revealing || current_block > round.reveal_deadline {
        return Err(CryptoError::InvalidRandomnessPhase);
    }
    // Find the matching commitment
    let commitment = match find_commitment(&round.commits, &revealer) {
        Some(c) => c,
        None => return Err(CryptoError::InvalidRandomnessPhase),
    };
    // Verify the reveal matches the commitment
    if !verify_commitment(&secret, &revealer, &commitment) {
        return Err(CryptoError::CommitMismatch);
    }
    // Prevent duplicate reveals
    if any_reveal_by(&round.reveals, &revealer) {
        return Err(CryptoError::InvalidRandomnessPhase);
    }
    round.reveals.push(RevealEntry { revealer, secret });
    Ok(())
}

/// Finalize the round and compute the random value from all revealed secrets.
pub fn finalize_round(round: &mut CommitRevealRound, current_block: u32) -> (result: Result<Digest, CryptoError>)
    ensures
        finalize_outcome(old(round)@, current_block, final(round)@, result),
{
    if round.status != RandomnessStatus::Revealing {
        return Err(CryptoError::InvalidRandomnessPhase);
    }
    if current_block <= round.reveal_deadline {
        // Can only finalize after reveal deadline to prevent early finalization attacks
        return Err(CryptoError::InvalidRandomnessPhase);
    }
    if below_minimum(round.reveals.len()) {
        round.status = RandomnessStatus::Failed;
        return Err(CryptoError::InsufficientReveals);
    }
    let mut secrets: Vec<[u8; 32]> = Vec::new();
    let mut i: usize = 0;
    while i < round.reveals.len()
        invariant
            0 <= i <= round.reveals@.len(),
            secrets@ == revealed_secrets(round.reveals@.take(i as int)),
        decreases round.reveals@.len() - i,
    {
        secrets.push(round.reveals[i].secret);
        assert(revealed_secrets(round.reveals@.take(i + 1)) =~= revealed_secrets(round.reveals@.take(i as int)).push(round.reveals@[i as int].secret));
        i = i + 1;
    }
    assert(round.reveals@.take(round.reveals@.len() as int) =~= round.reveals@);
    let random = finalize_randomness(secrets.as_slice());
    let ghost before = round@;
    round.final_random = Some(random);
    round.status = RandomnessStatus::Finalized;
    assert(is_round_randomness(before, random));
    assert(round@ == (RoundView { final_random: Some(random), status: RandomnessStatus::Finalized, ..before }));
    Ok(random)
}


/// Whether `r`'s revealed entry `i` matches its revealer's commitment.
pub open spec fn reveal_matches_commitment(r: RoundView, i: int) -> bool {
    match commitment_by(r.commits, r.reveals[i].revealer@) {
        Some(c) => c@ == commitment_of(r.reveals[i].secret@, r.reveals[i].revealer@),
        None => false,
    }
}

/// What every round that the operations build keeps: the reveal deadline
/// is not before the commit deadline, no account commits or reveals twice,
/// every revealed secret matches its revealer's commitment, nothing is
/// revealed while committing, a revealing or finalized round had enough
/// commitments, and a random value is recorded exactly when the round is
/// finalized, derived from the revealed secrets.
pub open spec fn round_well_formed(r: RoundView) -> bool {
    &&& r.commit_deadline <= r.reveal_deadline
    &&& forall|i: int, j: int|
        0 <= i < r.commits.len() && 0 <= j < r.commits.len() && i != j
            ==> (#[trigger] r.commits[i]).committer@ != (#[trigger] r.commits[j]).committer@
    &&& forall|i: int, j: int|
        0 <= i < r.reveals.len() && 0 <= j < r.reveals.len() && i != j
            ==> (#[trigger] r.reveals[i]).revealer@ != (#[trigger] r.reveals[j]).revealer@
    &&& forall|i: int| 0 <= i < r.reveals.len() ==> #[trigger] reveal_matches_commitment(r, i)
    &&& (r.status == RandomnessStatus::Committing ==> r.reveals.len() == 0)
    &&& (r.status == RandomnessStatus::Revealing || r.status == RandomnessStatus::Finalized
        ==> r.commits.len() >= MIN_RANDOMNESS_PARTICIPANTS)
    &&& (r.status == RandomnessStatus::Finalized ==> r.reveals.len() >= MIN_RANDOMNESS_PARTICIPANTS)
    &&& (r.final_random is Some <==> r.status == RandomnessStatus::Finalized)
    &&& (r.final_random is Some ==> is_round_randomness(r, r.final_random->0))
}

/// Whether a round may move from status `a` to status `b`: committing
/// leads to revealing or failure, revealing to finalization or failure, and
/// finalized and failed rounds stay as they are.
pub open spec fn status_may_follow(a: RandomnessStatus, b: RandomnessStatus) -> bool {
    a == b || match a {
        RandomnessStatus::Committing => b == RandomnessStatus::Revealing || b == RandomnessStatus::Failed,
        RandomnessStatus::Revealing => b == RandomnessStatus::Finalized || b == RandomnessStatus::Failed,
        _ => false,
    }
}

/// A newly created round is well formed.
pub proof fn lemma_new_round_well_formed(round_id: u64, current_block: u32, commit_blocks: u32, reveal_blocks: u32)
    ensures
        round_well_formed(new_round(round_id, current_block, commit_blocks, reveal_blocks)),
{
}

/// Adding a commitment keeps a round well formed and its status.
pub proof fn lemma_add_commit_keeps_well_formed(r: RoundView, committer: AccountId, commit_hash: Digest, current_block: u32)
    requires
        round_well_formed(r),
    ensures
        round_well_formed(add_commit_step(r, committer, commit_hash, current_block).0),
        add_commit_step(r, committer, commit_hash, current_block).0.status == r.status,
{
    let n = add_commit_step(r, committer, commit_hash, current_block).0;
    if n != r {
        assert forall|i: int, j: int|
            0 <= i < n.commits.len() && 0 <= j < n.commits.len() && i != j
                implies (#[trigger] n.commits[i]).committer@ != (#[trigger] n.commits[j]).committer@ by {
            if i == r.commits.len() {
                assert(r.commits[j] == n.commits[j]);
            } else if j == r.commits.len() {
                assert(r.commits[i] == n.commits[i]);
            } else {
                assert(r.commits[i] == n.commits[i]);
                assert(r.commits[j] == n.commits[j]);
            }
        }
    }
}

/// Starting the reveal phase keeps a round well formed, and moves its
/// status only forward.
pub proof fn lemma_start_reveal_keeps_well_formed(r: RoundView, current_block: u32)
    requires
        round_well_formed(r),
    ensures
        round_well_formed(start_reveal_step(r, current_block).0),
        status_may_follow(r.status, start_reveal_step(r, current_block).0.status),
{
}

/// Adding a reveal keeps a round well formed and its status.
pub proof fn lemma_add_reveal_keeps_well_formed(r: RoundView, revealer: AccountId, secret: [u8; 32], current_block: u32)
    requires
        round_well_formed(r),
    ensures
        round_well_formed(add_reveal_step(r, revealer, secret, current_block).0),
        add_reveal_step(r, revealer, secret, current_block).0.status == r.status,
{
    let n = add_reveal_step(r, revealer, secret, current_block).0;
    if n != r {
        assert(n.commits == r.commits);
        assert forall|i: int, j: int|
            0 <= i < n.reveals.len() && 0 <= j < n.reveals.len() && i != j
                implies (#[trigger] n.reveals[i]).revealer@ != (#[trigger] n.reveals[j]).revealer@ by {
            if i == r.reveals.len() {
                assert(r.reveals[j] == n.reveals[j]);
            } else if j == r.reveals.len() {
                assert(r.reveals[i] == n.reveals[i]);
            } else {
                assert(r.reveals[i] == n.reveals[i]);
                assert(r.reveals[j] == n.reveals[j]);
            }
        }
        assert forall|i: int| 0 <= i < n.reveals.len() implies #[trigger] reveal_matches_commitment(n, i) by {
            if i < r.reveals.len() {
                assert(r.reveals[i] == n.reveals[i]);
                assert(reveal_matches_commitment(r, i));
            }
        }
    }
}

/// Finalizing keeps a round well formed, and moves its status only forward.
pub proof fn lemma_finalize_keeps_well_formed(r: RoundView, current_block: u32, next: RoundView, result: Result<Digest, CryptoError>)
    requires
        round_well_formed(r),
        finalize_outcome(r, current_block, next, result),
    ensures
        round_well_formed(next),
        status_may_follow(r.status, next.status),
{
    if r.status == RandomnessStatus::Revealing && current_block > r.reveal_deadline {
        if r.reveals.len() >= MIN_RANDOMNESS_PARTICIPANTS {
            let d = choose|d: Digest| #![trigger is_round_randomness(r, d)]
                is_round_randomness(r, d)
                && next == (RoundView { final_random: Some(d), status: RandomnessStatus::Finalized, ..r })
                && result == Ok::<Digest, CryptoError>(d);
            assert(next.reveals == r.reveals && next.commits == r.commits);
            assert(is_round_randomness(next, d));
        }
        assert(next.reveals == r.reveals && next.commits == r.commits);
        assert forall|i: int| 0 <= i < next.reveals.len() implies #[trigger] reveal_matches_commitment(next, i) by {
            assert(reveal_matches_commitment(r, i));
        }
    }
}

/// An account that has committed cannot commit again: the second attempt
/// is refused and changes nothing.
pub proof fn lemma_commit_only_once(
    r: RoundView,
    committer: AccountId,
    first: Digest,
    second: Digest,
    block1: u32,
    block2: u32,
)
    requires
        add_commit_step(r, committer, first, block1).1 is Ok,
    ensures
        ({
            let after = add_commit_step(r, committer, first, block1).0;
            add_commit_step(after, committer, second, block2) == (after, Err::<(), CryptoError>(CryptoError::InvalidRandomnessPhase))
        }),
{
    let after = add_commit_step(r, committer, first, block1).0;
    assert(after.commits[r.commits.len() as int].committer@ == committer@);
}

/// An account that has revealed cannot reveal again: the second attempt is
/// refused and changes nothing.
pub proof fn lemma_reveal_only_once(
    r: RoundView,
    revealer: AccountId,
    first: [u8; 32],
    second: [u8; 32],
    block1: u32,
    block2: u32,
)
    requires
        add_reveal_step(r, revealer, first, block1).1 is Ok,
    ensures
        ({
            let after = add_reveal_step(r, revealer, first, block1).0;
            add_reveal_step(after, revealer, second, block2).1 is Err
                && add_reveal_step(after, revealer, second, block2).0 == after
        }),
{
    let after = add_reveal_step(r, revealer, first, block1).0;
    assert(after.reveals[r.reveals.len() as int].revealer@ == revealer@);
}

/// A finalized or failed round refuses every operation and stays as it is.
pub proof fn lemma_closed_round_refuses_everything(
    r: RoundView,
    who: AccountId,
    commit_hash: Digest,
    secret: [u8; 32],
    current_block: u32,
    next: RoundView,
    result: Result<Digest, CryptoError>,
)
    requires
        r.status == RandomnessStatus::Finalized || r.status == RandomnessStatus::Failed,
    ensures
        add_commit_step(r, who, commit_hash, current_block) == (r, Err::<(), CryptoError>(CryptoError::InvalidRandomnessPhase)),
        start_reveal_step(r, current_block) == (r, Err::<(), CryptoError>(CryptoError::InvalidRandomnessPhase)),
        add_reveal_step(r, who, secret, current_block) == (r, Err::<(), CryptoError>(CryptoError::InvalidRandomnessPhase)),
        finalize_outcome(r, current_block, next, result) ==> next == r
            && result == Err::<Digest, CryptoError>(CryptoError::InvalidRandomnessPhase),
{
}

/// Each phase keeps to its deadlines: commitments and reveals are accepted
/// only up to their deadlines, and revealing and finalization start only
/// after them.
pub proof fn lemma_deadlines_hold(
    r: RoundView,
    who: AccountId,
    commit_hash: Digest,
    secret: [u8; 32],
    current_block: u32,
    next: RoundView,
    result: Result<Digest, CryptoError>,
)
    ensures
        add_commit_step(r, who, commit_hash, current_block).1 is Ok ==> current_block <= r.commit_deadline,
        start_reveal_step(r, current_block).1 is Ok ==> current_block > r.commit_deadline,
        add_reveal_step(r, who, secret, current_block).1 is Ok ==> current_block <= r.reveal_deadline,
        finalize_outcome(r, current_block, next, result) && result is Ok ==> current_block > r.reveal_deadline,
{
}

/// The same revealed secrets always finalize to the same value.
pub proof fn lemma_finalization_is_deterministic(
    r1: RoundView,
    b1: u32,
    n1: RoundView,
    d1: Digest,
    r2: RoundView,
    b2: u32,
    n2: RoundView,
    d2: Digest,
)
    requires
        finalize_outcome(r1, b1, n1, Ok(d1)),
        finalize_outcome(r2, b2, n2, Ok(d2)),
        revealed_secrets(r1.reveals) == revealed_secrets(r2.reveals),
    ensures
        d1 == d2,
{
    assert(d1.0@ =~= d2.0@);
    vstd::array::axiom_array_ext_equal(d1.0, d2.0);
}


/// The revealed secrets are every reveal's secret, one per reveal, in
/// reveal order.
pub proof fn lemma_revealed_secrets_are_all_reveals(reveals: Seq<RevealEntry>)
    ensures
        revealed_secrets(reveals).len() == reveals.len(),
        forall|i: int| 0 <= i < reveals.len() ==> #[trigger] revealed_secrets(reveals)[i] == reveals[i].secret,
{
}

/// Finalizing yields the random value of all revealed secrets: for every
/// list that holds each reveal's secret, in reveal order, the returned and
/// recorded value is the randomness of that list, the value
/// `finalize_randomness` gives for it.
pub proof fn lemma_finalized_value_uses_every_reveal(
    r: RoundView,
    current_block: u32,
    next: RoundView,
    d: Digest,
    secrets: Seq<[u8; 32]>,
)
    requires
        finalize_outcome(r, current_block, next, Ok(d)),
        secrets.len() == r.reveals.len(),
        forall|i: int| 0 <= i < secrets.len() ==> secrets[i] == (#[trigger] r.reveals[i]).secret,
    ensures
        d@ == randomness_of(secrets),
        next.final_random == Some(d),
        next.status == RandomnessStatus::Finalized,
        next.reveals == r.reveals,
        next.commits == r.commits,
        r.reveals.len() >= MIN_RANDOMNESS_PARTICIPANTS,
        current_block > r.reveal_deadline,
{
    assert(secrets =~= revealed_secrets(r.reveals));
}

/// A newly created round commits until `current_block + commit_blocks` and
/// reveals until that deadline plus `reveal_blocks`, each capped at the
/// largest block number, and starts empty in the commit phase.
pub proof fn lemma_new_round_deadlines(round_id: u64, current_block: u32, commit_blocks: u32, reveal_blocks: u32)
    ensures
        ({
            let r = new_round(round_id, current_block, commit_blocks, reveal_blocks);
            &&& r.round_id == round_id
            &&& r.commit_deadline as int == if current_block + commit_blocks <= u32::MAX {
                current_block + commit_blocks
            } else {
                u32::MAX as int
            }
            &&& r.reveal_deadline as int == if r.commit_deadline + reveal_blocks <= u32::MAX {
                r.commit_deadline + reveal_blocks
            } else {
                u32::MAX as int
            }
            &&& r.commits.len() == 0
            &&& r.reveals.len() == 0
            &&& r.final_random is None
            &&& r.status == RandomnessStatus::Committing
        }),
{
}

/// An accepted commitment is recorded last, for the given account and
/// hash, after all earlier ones, and nothing else changes.
pub proof fn lemma_commit_records_its_arguments(r: RoundView, committer: AccountId, commit_hash: Digest, current_block: u32)
    ensures
        ({
            let (n, res) = add_commit_step(r, committer, commit_hash, current_block);
            res is Ok ==> {
                &&& n.commits.len() == r.commits.len() + 1
                &&& n.commits.last().committer == committer
                &&& n.commits.last().commit_hash == commit_hash
                &&& n.commits.drop_last() == r.commits
                &&& !has_committed(r.commits, committer@)
                &&& n.reveals == r.reveals
                &&& n.status == r.status
                &&& n.final_random == r.final_random
                &&& n.commit_deadline == r.commit_deadline
                &&& n.reveal_deadline == r.reveal_deadline
            }
        }),
{
    let (n, res) = add_commit_step(r, committer, commit_hash, current_block);
    if res is Ok {
        assert(n.commits.drop_last() =~= r.commits);
    }
}

/// An accepted reveal is recorded last, for the given account and secret,
/// after all earlier ones; its secret matches the account's commitment, and
/// nothing else changes.
pub proof fn lemma_reveal_records_its_arguments(r: RoundView, revealer: AccountId, secret: [u8; 32], current_block: u32)
    ensures
        ({
            let (n, res) = add_reveal_step(r, revealer, secret, current_block);
            res is Ok ==> {
                &&& n.reveals.len() == r.reveals.len() + 1
                &&& n.reveals.last().revealer == revealer
                &&& n.reveals.last().secret == secret
                &&& n.reveals.drop_last() == r.reveals
                &&& has_committed(r.commits, revealer@)
                &&& commitment_by(r.commits, revealer@)->0@ == commitment_of(secret@, revealer@)
                &&& !has_revealed(r.reveals, revealer@)
                &&& n.commits == r.commits
                &&& n.status == r.status
                &&& n.final_random == r.final_random
            }
        }),
{
    let (n, res) = add_reveal_step(r, revealer, secret, current_block);
    if res is Ok {
        assert(n.reveals.drop_last() =~= r.reveals);
        lemma_commitment_by_means_committed(r.commits, revealer@);
    }
}

/// An account has a first commitment exactly when it has committed.
pub proof fn lemma_commitment_by_means_committed(commits: Seq<CommitEntry>, who: Seq<u8>)
    ensures
        commitment_by(commits, who) is Some <==> has_committed(commits, who),
    decreases commits.len(),
{
    if commits.len() > 0 {
        lemma_commitment_by_means_committed(commits.drop_first(), who);
        if has_committed(commits.drop_first(), who) {
            let i = choose|i: int| 0 <= i < commits.drop_first().len() && (#[trigger] commits.drop_first()[i]).committer@ == who;
            assert(commits[i + 1] == commits.drop_first()[i]);
        }
        if has_committed(commits, who) && commits[0].committer@ != who {
            let i = choose|i: int| 0 <= i < commits.len() && (#[trigger] commits[i]).committer@ == who;
            assert(commits.drop_first()[i - 1] == commits[i]);
        }
    }
}

/// Starting the reveal phase either opens it, with enough commitments, or
/// fails the round for having too few; it never does so before the commit
/// deadline, and changes nothing but the status.
pub proof fn lemma_start_reveal_outcome(r: RoundView, current_block: u32)
    requires
        r.status == RandomnessStatus::Committing,
        current_block > r.commit_deadline,
    ensures
        ({
            let (n, res) = start_reveal_step(r, current_block);
            &&& (r.commits.len() >= MIN_RANDOMNESS_PARTICIPANTS ==> res is Ok && n.status == RandomnessStatus::Revealing)
            &&& (r.commits.len() < MIN_RANDOMNESS_PARTICIPANTS ==> res == Err::<(), CryptoError>(CryptoError::InsufficientReveals)
                && n.status == RandomnessStatus::Failed)
            &&& n.commits == r.commits
            &&& n.reveals == r.reveals
            &&& n.final_random == r.final_random
        }),
{
}

} // verus!
