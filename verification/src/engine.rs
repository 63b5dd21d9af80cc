//! The generator's engine: one atomic state word, changed by compare-and-swap
//! alone, and the loops that mint identifiers from it.

use crate::allocator::{
    lemma_commit_run, lemma_issued_pairs_distinct, lemma_issued_pairs_ordered, outcome, reserve,
    reserve_spec, state_after, within_word, Request, Reservation,
};
use crate::bits::lemma_pow2_word;
use crate::clock::{counted_from, pause, since_epoch, unix_millis};
use crate::error::TinyIdError;
use crate::layout::IdLayout;
use std::sync::atomic::{AtomicU64, Ordering};
use vstd::arithmetic::power2::pow2;
use vstd::prelude::*;
use vstd::string::StringExecFns;

verus! {

/// How far the clock may stand behind the state, in milliseconds, before a
/// caller gives up instead of waiting.
pub const DEFAULT_TOLERANCE_MS: u64 = 5;

/// How often one call looks at the clock and the state before it gives up.
/// Each look takes time, so the limit cannot be reached while the clock runs.
pub const RETRY_LIMIT: u64 = 0xffff_ffff_ffff_ffff;

/// How one look at the clock and the state word ended.
#[derive(Clone, Copy, Debug, PartialEq, Eq, Structural)]
pub enum Attempt {
    /// The clock is behind the state by `delta` milliseconds, more than the
    /// tolerance.
    Failed { delta: u64 },
    /// Nothing was taken: the clock is a little behind, the millisecond is
    /// used up, or another caller changed the state first.
    Retry,
    /// The sequence numbers `first .. first + count` of millisecond
    /// `timestamp` now belong to the caller.
    Issued { timestamp: u64, first: u64, count: u64 },
}

/// Whether a reservation takes the sequence numbers `first .. first + count`
/// of millisecond `timestamp`.
pub open spec fn takes(r: Reservation, timestamp: u64, first: u64, count: u64) -> bool {
    r matches Reservation::Commit { timestamp: t, first: f, count: c, .. } && t == timestamp && f
        == first && c == count
}

/// Whether the reservation rule, for the clock reading `now` and some state
/// word, lets a caller that wants `want` sequence numbers take those from
/// `first` on, `count` of them.
pub open spec fn can_issue(
    sequence_bits: nat,
    tolerance: u64,
    now: u64,
    want: u64,
    first: u64,
    count: u64,
) -> bool {
    exists|current: u64|
        takes(
            #[trigger] reserve_spec(sequence_bits, tolerance, now, current, want),
            now,
            first,
            count,
        )
}

/// Whether the reservation rule, for the clock reading `now` and some state
/// word, tells a caller that the clock is behind by `delta`.
pub open spec fn can_fail(sequence_bits: nat, tolerance: u64, now: u64, want: u64, delta: u64) -> bool {
    exists|current: u64| #[trigger]
        reserve_spec(sequence_bits, tolerance, now, current, want) == (Reservation::ClockBehind {
            delta,
        })
}

/// Whether an identifier is the one that a caller mints who asks for one
/// sequence number, at some clock reading and some state word.
pub open spec fn minted_alone(layout: IdLayout, tolerance: u64, id: u64) -> bool {
    exists|now: u64, first: u64| #[trigger]
        can_issue(layout.sequence_bits as nat, tolerance, now, 1, first, 1) && id
            == layout.assemble_bits(now, first as u32)
}

/// Whether an error is one of those with which minting fails: the clock
/// stood behind the state by more than the tolerance, as the reservation
/// rule tells it for some clock reading and some state word, or the clock
/// could not be read or the retry limit was reached.
pub open spec fn minting_failure(layout: IdLayout, tolerance: u64, want: u64, e: TinyIdError) -> bool {
    match e {
        TinyIdError::ClockMovedBackwards(delta) => delta > tolerance && exists|
            now: u64,
            asked: u64,
        | 1 <= asked <= want && #[trigger] can_fail(
                layout.sequence_bits as nat,
                tolerance,
                now,
                asked,
                delta,
            ),
        TinyIdError::InternalError(_) => true,
        _ => false,
    }
}

/// Whether an identifier carries the identities of a layout's node.
pub open spec fn minted_by(layout: IdLayout, id: u64) -> bool {
    &&& layout.id_datacenter(id) == layout.datacenter_id
    &&& layout.id_worker(id) == layout.worker_id
}

/// An identifier with a sequence number that fits its field carries the
/// identities of the layout's node, and that sequence number.
pub proof fn lemma_minted(layout: IdLayout, timestamp: u64, sequence: u32)
    requires
        layout.wf(),
        sequence <= layout.max_sequence(),
    ensures
        minted_by(layout, layout.assemble_bits(timestamp, sequence)),
        layout.id_sequence(layout.assemble_bits(timestamp, sequence)) == sequence,
        layout.id_timestamp(layout.assemble_bits(timestamp, sequence)) == timestamp as nat % pow2(
            layout.timestamp_bits as nat,
        ),
{
    let t = timestamp as nat % pow2(layout.timestamp_bits as nat);
    vstd::arithmetic::power2::lemma_pow2_pos(layout.timestamp_bits as nat);
    vstd::arithmetic::div_mod::lemma_mod_bound(
        timestamp as int,
        pow2(layout.timestamp_bits as nat) as int,
    );
    layout.lemma_assemble_bits_is_compose(timestamp, sequence);
    layout.lemma_compose_fields(t, sequence as nat);
}

/// The identifiers of a run: those of millisecond `timestamp` with the
/// sequence numbers `first .. first + count`, in that order.
pub open spec fn run_ids(layout: IdLayout, timestamp: u64, first: u64, count: nat) -> Seq<u64> {
    Seq::new(count, |i: int| layout.assemble_bits(timestamp, (first + i) as u32))
}

/// A run of sequence numbers of one millisecond.
#[derive(Clone, Copy, Debug, PartialEq, Eq, Structural)]
pub struct Run {
    pub timestamp: u64,
    pub first: u64,
    pub count: u64,
}

/// The identifiers of several runs, one run after the other.
pub open spec fn runs_ids(layout: IdLayout, runs: Seq<Run>) -> Seq<u64>
    decreases runs.len(),
{
    if runs.len() == 0 {
        Seq::empty()
    } else {
        runs_ids(layout, runs.drop_last()) + run_ids(
            layout,
            runs.last().timestamp,
            runs.last().first,
            runs.last().count as nat,
        )
    }
}

/// Whether a run is what the reservation rule lets a caller take, at the
/// clock reading that is the run's millisecond, for some state word and
/// some number of sequence numbers wanted.
pub open spec fn run_reserved(layout: IdLayout, tolerance: u64, run: Run) -> bool {
    exists|want: u64|
        want >= 1 && #[trigger] can_issue(
            layout.sequence_bits as nat,
            tolerance,
            run.timestamp,
            want,
            run.first,
            run.count,
        )
}

/// Whether each run was reserved by the rule, holds at least one sequence
/// number and none beyond the largest.
pub open spec fn runs_fit(layout: IdLayout, tolerance: u64, runs: Seq<Run>) -> bool {
    forall|k: int|
        0 <= k < runs.len() ==> (#[trigger] runs[k]).count >= 1 && runs[k].first + runs[k].count
            <= pow2(layout.sequence_bits as nat) && run_reserved(layout, tolerance, runs[k])
}

/// Whether identifiers are what a call for `count` of them mints: as many
/// as were asked for, each with the identities of the node, and all of them
/// the identifiers of reserved runs, one run after the other.
pub open spec fn minted_together(layout: IdLayout, tolerance: u64, count: usize, ids: Seq<u64>) -> bool {
    &&& ids.len() == count
    &&& forall|i: int| 0 <= i < ids.len() ==> minted_by(layout, #[trigger] ids[i])
    &&& exists|runs: Seq<Run>|
        runs_fit(layout, tolerance, runs) && ids == #[trigger] runs_ids(layout, runs)
}

/// The most sequence numbers that one look of a call for `count`
/// identifiers asks for.
pub open spec fn most_wanted(count: usize) -> u64 {
    if count >= 1 {
        count as u64
    } else {
        1
    }
}

/// Uniqueness of identifiers: in a history of reservations on one state
/// word, with clock readings that fit the timestamp field, no identifier is
/// handed out twice, whether by one request or by two.
pub proof fn lemma_issued_ids_distinct(
    layout: IdLayout,
    tolerance: u64,
    start: u64,
    requests: Seq<Request>,
    k1: nat,
    j1: nat,
    k2: nat,
    j2: nat,
)
    requires
        layout.wf(),
        within_word(layout.sequence_bits as nat, tolerance, start, requests),
        k1 <= k2 < requests.len(),
        requests[k1 as int].now <= layout.max_timestamp(),
        requests[k2 as int].now <= layout.max_timestamp(),
        outcome(layout.sequence_bits as nat, tolerance, start, requests, k1) is Commit,
        outcome(layout.sequence_bits as nat, tolerance, start, requests, k2) is Commit,
        j1 < outcome(layout.sequence_bits as nat, tolerance, start, requests, k1)->count,
        j2 < outcome(layout.sequence_bits as nat, tolerance, start, requests, k2)->count,
        k1 != k2 || j1 != j2,
    ensures
        ({
            let r1 = outcome(layout.sequence_bits as nat, tolerance, start, requests, k1);
            let r2 = outcome(layout.sequence_bits as nat, tolerance, start, requests, k2);
            layout.assemble_bits(r1->timestamp, (r1->first + j1) as u32) != layout.assemble_bits(
                r2->timestamp,
                (r2->first + j2) as u32,
            )
        }),
{
    let bits = layout.sequence_bits as nat;
    let r1 = outcome(bits, tolerance, start, requests, k1);
    let r2 = outcome(bits, tolerance, start, requests, k2);
    lemma_issued_pairs_distinct(bits, tolerance, start, requests, k1, j1, k2, j2);
    lemma_commit_run(
        bits,
        tolerance,
        requests[k1 as int].now,
        state_after(bits, tolerance, start, requests, k1),
        requests[k1 as int].want,
    );
    lemma_commit_run(
        bits,
        tolerance,
        requests[k2 as int].now,
        state_after(bits, tolerance, start, requests, k2),
        requests[k2 as int].want,
    );
    lemma_pow2_word(bits);
    let s1 = (r1->first + j1) as u32;
    let s2 = (r2->first + j2) as u32;
    if layout.assemble_bits(r1->timestamp, s1) == layout.assemble_bits(r2->timestamp, s2) {
        layout.lemma_assemble_injective(r1->timestamp, s1, r2->timestamp, s2);
    }
}

/// Order of issue of identifiers: in a history of reservations on one state
/// word, with clock readings that fit the timestamp field, an identifier
/// that is handed out later is greater than one handed out before it. So
/// the identifiers of a batch grow from one to the next, within a run and
/// from one run to the run after it.
pub proof fn lemma_issued_ids_ordered(
    layout: IdLayout,
    tolerance: u64,
    start: u64,
    requests: Seq<Request>,
    k1: nat,
    j1: nat,
    k2: nat,
    j2: nat,
)
    requires
        layout.wf(),
        within_word(layout.sequence_bits as nat, tolerance, start, requests),
        k1 <= k2 < requests.len(),
        requests[k1 as int].now <= layout.max_timestamp(),
        requests[k2 as int].now <= layout.max_timestamp(),
        outcome(layout.sequence_bits as nat, tolerance, start, requests, k1) is Commit,
        outcome(layout.sequence_bits as nat, tolerance, start, requests, k2) is Commit,
        j1 < outcome(layout.sequence_bits as nat, tolerance, start, requests, k1)->count,
        j2 < outcome(layout.sequence_bits as nat, tolerance, start, requests, k2)->count,
        k1 < k2 || j1 < j2,
    ensures
        ({
            let r1 = outcome(layout.sequence_bits as nat, tolerance, start, requests, k1);
            let r2 = outcome(layout.sequence_bits as nat, tolerance, start, requests, k2);
            layout.assemble_bits(r1->timestamp, (r1->first + j1) as u32) < layout.assemble_bits(
                r2->timestamp,
                (r2->first + j2) as u32,
            )
        }),
{
    let bits = layout.sequence_bits as nat;
    let r1 = outcome(bits, tolerance, start, requests, k1);
    let r2 = outcome(bits, tolerance, start, requests, k2);
    lemma_issued_pairs_ordered(bits, tolerance, start, requests, k1, j1, k2, j2);
    lemma_commit_run(
        bits,
        tolerance,
        requests[k1 as int].now,
        state_after(bits, tolerance, start, requests, k1),
        requests[k1 as int].want,
    );
    lemma_commit_run(
        bits,
        tolerance,
        requests[k2 as int].now,
        state_after(bits, tolerance, start, requests, k2),
        requests[k2 as int].want,
    );
    lemma_pow2_word(bits);
    layout.lemma_assemble_monotone(
        r1->timestamp,
        (r1->first + j1) as u32,
        r2->timestamp,
        (r2->first + j2) as u32,
    );
}

/// Appends the identifiers of a run to `ids`.
pub fn push_run(layout: &IdLayout, ids: &mut Vec<u64>, timestamp: u64, first: u64, count: u64)
    requires
        layout.wf(),
        first + count <= pow2(layout.sequence_bits as nat),
    ensures
        final(ids)@ == old(ids)@ + run_ids(*layout, timestamp, first, count as nat),
{
    proof {
        lemma_pow2_word(layout.sequence_bits as nat);
    }
    let mut i: u64 = 0;
    while i < count
        invariant
            layout.wf(),
            i <= count,
            first + count <= pow2(layout.sequence_bits as nat),
            pow2(layout.sequence_bits as nat) <= 0x1_0000_0000,
            ids@ == old(ids)@ + run_ids(*layout, timestamp, first, i as nat),
        decreases count - i,
    {
        let sequence: u32 = (first + i) as u32;
        let id = layout.assemble(timestamp, sequence);
        ids.push(id);
        i += 1;
        assert(ids@ =~= old(ids)@ + run_ids(*layout, timestamp, first, i as nat));
    }
}

/// The atomic state of a generator together with what it needs to mint
/// identifiers from it.
///
/// Every successful compare-and-swap replaces the word that a reservation
/// started from by the word it ends at. So the words that the state holds
/// over time form a history as the reservation rule describes it, whichever
/// callers made the swaps and in whichever order they came.
#[derive(Debug)]
pub struct Engine {
    layout: IdLayout,
    tolerance_ms: u64,
    state: AtomicU64,
}

impl Engine {
    #[verifier::type_invariant]
    spec fn well_formed(self) -> bool {
        self.layout.wf()
    }

    /// The layout of the identifiers that this engine mints.
    pub closed spec fn layout_spec(self) -> IdLayout {
        self.layout
    }

    /// The tolerance for a clock that stands behind the state.
    pub closed spec fn tolerance_spec(self) -> u64 {
        self.tolerance_ms
    }

    /// An engine with a zeroed state word.
    pub fn new(layout: IdLayout, tolerance_ms: u64) -> (engine: Engine)
        requires
            layout.wf(),
        ensures
            engine.layout_spec() == layout,
            engine.layout_spec().wf(),
            engine.tolerance_spec() == tolerance_ms,
    {
        Engine { layout, tolerance_ms, state: AtomicU64::new(0) }
    }

    /// The layout of the identifiers that this engine mints.
    pub fn layout(&self) -> (layout: IdLayout)
        ensures
            layout == self.layout_spec(),
            layout.wf(),
    {
        proof {
            use_type_invariant(self);
        }
        self.layout
    }

    /// The tolerance for a clock that stands behind the state.
    pub fn tolerance_ms(&self) -> (tolerance: u64)
        ensures
            tolerance == self.tolerance_spec(),
    {
        self.tolerance_ms
    }

    /// The state word as it stands now. Other callers may change it at any
    /// time, so nothing is known of the value.
    pub fn state_word(&self) -> u64 {
        self.state.load(Ordering::Acquire)
    }

    /// Installs `next` if the state word still holds `current`, and says
    /// whether it did.
    fn swap_state(&self, current: u64, next: u64) -> bool {
        let swapped = self.state.compare_exchange(
            current,
            next,
            Ordering::AcqRel,
            Ordering::Acquire,
        );
        swapped.is_ok()
    }

    /// Decides, for a state word that was read before and the clock reading
    /// `now`, what to take of up to `want` sequence numbers, and takes it if
    /// the state word still stands as it was read.
    ///
    /// The word is read before the clock, so that a reading is never older
    /// than the word it is held against: a clock that only runs forward can
    /// then not seem to stand behind the state.
    pub fn attempt_from(&self, current: u64, now: u64, want: u64) -> (r: Attempt)
        ensures
            match r {
                Attempt::Failed { delta } => {
                    &&& delta > self.tolerance_spec()
                    &&& reserve_spec(
                        self.layout_spec().sequence_bits as nat,
                        self.tolerance_spec(),
                        now,
                        current,
                        want,
                    ) == (Reservation::ClockBehind { delta })
                },
                Attempt::Retry => !(reserve_spec(
                    self.layout_spec().sequence_bits as nat,
                    self.tolerance_spec(),
                    now,
                    current,
                    want,
                ) is ClockBehind),
                Attempt::Issued { timestamp, first, count } => {
                    &&& timestamp == now
                    &&& count <= want
                    &&& want >= 1 ==> count >= 1
                    &&& first + count <= pow2(self.layout_spec().sequence_bits as nat)
                    &&& takes(
                        reserve_spec(
                            self.layout_spec().sequence_bits as nat,
                            self.tolerance_spec(),
                            now,
                            current,
                            want,
                        ),
                        now,
                        first,
                        count,
                    )
                },
            },
    {
        proof {
            use_type_invariant(self);
        }
        let decision = reserve(self.layout.sequence_bits, self.tolerance_ms, now, current, want);
        match decision {
            Reservation::ClockBehind { delta } => {
                proof {
                    crate::allocator::lemma_state_fields(current, self.layout.sequence_bits as nat);
                }
                Attempt::Failed { delta }
            },
            Reservation::Wait => Attempt::Retry,
            Reservation::Commit { next, timestamp, first, count } => {
                proof {
                    lemma_commit_run(
                        self.layout.sequence_bits as nat,
                        self.tolerance_ms,
                        now,
                        current,
                        want,
                    );
                }
                if self.swap_state(current, next) {
                    Attempt::Issued { timestamp, first, count }
                } else {
                    Attempt::Retry
                }
            },
        }
    }

    /// Looks at the state word once, with the clock reading `now`, and tries
    /// to take up to `want` sequence numbers.
    ///
    /// Whatever the state word held, the outcome is what the reservation rule
    /// gives for `now` and some state word.
    pub fn attempt(&self, now: u64, want: u64) -> (r: Attempt)
        ensures
            match r {
                Attempt::Failed { delta } => {
                    &&& delta > self.tolerance_spec()
                    &&& can_fail(
                        self.layout_spec().sequence_bits as nat,
                        self.tolerance_spec(),
                        now,
                        want,
                        delta,
                    )
                },
                Attempt::Retry => true,
                Attempt::Issued { timestamp, first, count } => {
                    &&& timestamp == now
                    &&& count <= want
                    &&& want >= 1 ==> count >= 1
                    &&& first + count <= pow2(self.layout_spec().sequence_bits as nat)
                    &&& can_issue(
                        self.layout_spec().sequence_bits as nat,
                        self.tolerance_spec(),
                        now,
                        want,
                        first,
                        count,
                    )
                },
            },
    {
        let current = self.state_word();
        self.attempt_from(current, now, want)
    }

    /// The clock's reading as the timestamp the engine works with:
    /// milliseconds since the layout's epoch, zero before it. The error is
    /// `InternalError`, which comes when the clock cannot be read.
    pub fn current_timestamp(&self) -> (r: Result<u64, TinyIdError>)
        ensures
            match r {
                Ok(timestamp) => counted_from(self.layout_spec().epoch, timestamp),
                Err(e) => e is InternalError,
            },
    {
        match unix_millis() {
            Ok(millis) => Ok(since_epoch(millis, self.layout.epoch)),
            Err(text) => Err(TinyIdError::InternalError(text)),
        }
    }

    /// Mints one identifier.
    ///
    /// Each look reads the state word, then the clock, and takes one
    /// sequence number if the rule allows it and no other caller was first.
    /// The identifier carries the node's identities. The call fails with
    /// `ClockMovedBackwards` when the clock stands behind the state by more
    /// than the tolerance, the error holding the gap, and with
    /// `InternalError` when the clock cannot be read or the retry limit is
    /// reached.
    pub fn next_id(&self) -> (r: Result<u64, TinyIdError>)
        ensures
            match r {
                Ok(id) => minted_by(self.layout_spec(), id) && minted_alone(
                    self.layout_spec(),
                    self.tolerance_spec(),
                    id,
                ),
                Err(e) => minting_failure(self.layout_spec(), self.tolerance_spec(), 1, e),
            },
    {
        proof {
            use_type_invariant(self);
        }
        let layout = self.layout();
        let tolerance = self.tolerance_ms();
        let mut budget: u64 = RETRY_LIMIT;
        while budget > 0
            invariant
                layout == self.layout_spec(),
                tolerance == self.tolerance_spec(),
                layout.wf(),
            decreases budget,
        {
            budget -= 1;
            let current = self.state_word();
            let now = match self.current_timestamp() {
                Ok(now) => now,
                Err(e) => {
                    return Err(e);
                },
            };
            match self.attempt_from(current, now, 1) {
                Attempt::Failed { delta } => {
                    proof {
                        assert(can_fail(layout.sequence_bits as nat, tolerance, now, 1, delta));
                    }
                    return Err(TinyIdError::ClockMovedBackwards(delta));
                },
                Attempt::Retry => {
                    pause();
                },
                Attempt::Issued { timestamp, first, count } => {
                    proof {
                        lemma_pow2_word(layout.sequence_bits as nat);
                        lemma_minted(layout, timestamp, first as u32);
                        assert(can_issue(layout.sequence_bits as nat, tolerance, now, 1, first, 1));
                    }
                    return Ok(layout.assemble(timestamp, first as u32));
                },
            }
        }
        Err(TinyIdError::InternalError(String::from_str("retry limit reached")))
    }

    /// Mints `count` identifiers, in the order in which they were issued.
    ///
    /// Each run of sequence numbers is reserved with one change of the state
    /// word. The call fails as `next_id` does, and then hands out nothing. A
    /// call for no identifier looks at neither the clock nor the state and
    /// succeeds with none.
    pub fn generate_ids_batch(&self, count: usize) -> (r: Result<Vec<u64>, TinyIdError>)
        ensures
            count == 0 ==> (r matches Ok(ids) && ids@.len() == 0),
            match r {
                Ok(ids) => minted_together(self.layout_spec(), self.tolerance_spec(), count, ids@),
                Err(e) => minting_failure(
                    self.layout_spec(),
                    self.tolerance_spec(),
                    most_wanted(count),
                    e,
                ),
            },
    {
        proof {
            use_type_invariant(self);
        }
        let layout = self.layout();
        let tolerance = self.tolerance_ms();
        let mut ids: Vec<u64> = Vec::new();
        let mut remaining: u64 = count as u64;
        let mut budget: u64 = RETRY_LIMIT;
        let ghost mut runs: Seq<Run> = Seq::empty();
        while remaining > 0 && budget > 0
            invariant
                layout == self.layout_spec(),
                tolerance == self.tolerance_spec(),
                layout.wf(),
                ids.len() + remaining == count,
                runs_fit(layout, tolerance, runs),
                ids@ == runs_ids(layout, runs),
                forall|i: int| 0 <= i < ids.len() ==> minted_by(layout, #[trigger] ids[i]),
            decreases budget,
        {
            budget -= 1;
            let current = self.state_word();
            let now = match self.current_timestamp() {
                Ok(now) => now,
                Err(e) => {
                    return Err(e);
                },
            };
            let ghost wanted = remaining;
            match self.attempt_from(current, now, remaining) {
                Attempt::Failed { delta } => {
                    proof {
                        // the look that failed asked for what was still wanted
                        assert(1 <= wanted <= most_wanted(count) && can_fail(
                            layout.sequence_bits as nat,
                            tolerance,
                            now,
                            wanted,
                            delta,
                        ));
                        assert(exists|now: u64, asked: u64|
                            1 <= asked <= most_wanted(count) && #[trigger] can_fail(
                                layout.sequence_bits as nat,
                                tolerance,
                                now,
                                asked,
                                delta,
                            ));
                    }
                    return Err(TinyIdError::ClockMovedBackwards(delta));
                },
                Attempt::Retry => {
                    pause();
                },
                Attempt::Issued { timestamp, first, count: taken } => {
                    let ghost before = ids@;
                    push_run(&layout, &mut ids, timestamp, first, taken);
                    remaining -= taken;
                    proof {
                        let run = Run { timestamp, first, count: taken };
                        assert(wanted >= 1 && can_issue(
                            layout.sequence_bits as nat,
                            tolerance,
                            run.timestamp,
                            wanted,
                            run.first,
                            run.count,
                        ));
                        assert(run_reserved(layout, tolerance, run));
                        assert(runs.push(run).drop_last() =~= runs);
                        runs = runs.push(run);
                        lemma_pow2_word(layout.sequence_bits as nat);
                        assert forall|i: int| 0 <= i < ids.len() implies minted_by(
                            layout,
                            #[trigger] ids[i],
                        ) by {
                            if i >= before.len() {
                                let k = i - before.len();
                                assert(ids[i] == run_ids(layout, timestamp, first, taken as nat)[k]);
                                lemma_minted(layout, timestamp, (first + k) as u32);
                            } else {
                                assert(ids[i] == before[i]);
                            }
                        }
                    }
                },
            }
        }
        if remaining > 0 {
            return Err(TinyIdError::InternalError(String::from_str("retry limit reached")));
        }
        Ok(ids)
    }
}

} // verus!
