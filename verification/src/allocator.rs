//! The rule by which identifiers are reserved: given the clock and the packed
//! state word, what a caller may take and which word it must install.
//!
//! The state word counts slots. Slot `timestamp * 2^sequence_bits + sequence`
//! stands for one sequence number of one millisecond, and the word holds the
//! next free slot. A reservation takes a run of slots from the word on and
//! installs the slot after the run, so a millisecond that was taken whole
//! leaves the word at the first slot of the millisecond after it.

use crate::bits::{
    field_max, high_bits, lemma_join_ordered, lemma_pow2_word, low_bits, shift_up, word_size,
};
use vstd::arithmetic::div_mod::{
    lemma_add_mod_noop, lemma_fundamental_div_mod, lemma_mod_bound, lemma_small_mod,
};
use vstd::arithmetic::mul::lemma_mul_is_commutative;
use vstd::arithmetic::power2::{lemma_pow2_adds, lemma_pow2_pos, pow2};
use vstd::prelude::*;

verus! {

/// What a caller does after one look at the clock and the state word.
#[derive(Clone, Copy, Debug, PartialEq, Eq, Structural)]
pub enum Reservation {
    /// The clock is behind the state by more than the tolerance: give up.
    ClockBehind { delta: u64 },
    /// Nothing can be taken now: look again.
    Wait,
    /// Take `count` sequence numbers of millisecond `timestamp`, from `first`
    /// on, if the state word can be swapped from what was read to `next`.
    Commit { next: u64, timestamp: u64, first: u64, count: u64 },
}

/// The millisecond a state word stands in.
pub open spec fn state_timestamp(word: u64, sequence_bits: nat) -> nat {
    word as nat / pow2(sequence_bits)
}

/// The next free sequence number of a state word.
pub open spec fn state_sequence(word: u64, sequence_bits: nat) -> nat {
    word as nat % pow2(sequence_bits)
}

/// The slot of a sequence number of a millisecond.
pub open spec fn slot(timestamp: nat, sequence: nat, sequence_bits: nat) -> nat {
    timestamp * pow2(sequence_bits) + sequence
}

/// The smaller of two numbers.
pub open spec fn least(a: nat, b: nat) -> nat {
    if a < b {
        a
    } else {
        b
    }
}

/// The reservation rule.
///
/// Behind the state's millisecond the caller waits, or gives up if the gap
/// exceeds `tolerance`. In the state's millisecond it takes what is left
/// below the largest sequence number. In a later millisecond it takes from
/// sequence number zero, at most the whole millisecond.
pub open spec fn reserve_spec(
    sequence_bits: nat,
    tolerance: u64,
    now: u64,
    current: u64,
    want: u64,
) -> Reservation {
    let cur_ts = state_timestamp(current, sequence_bits);
    let cur_seq = state_sequence(current, sequence_bits);
    let max_seq = (pow2(sequence_bits) - 1) as nat;
    if now < cur_ts {
        if cur_ts - now > tolerance {
            Reservation::ClockBehind { delta: (cur_ts - now) as u64 }
        } else {
            Reservation::Wait
        }
    } else if now == cur_ts {
        if cur_seq >= max_seq {
            Reservation::Wait
        } else {
            let take = least(want as nat, (max_seq - cur_seq) as nat);
            Reservation::Commit {
                next: (current + take) as u64,
                timestamp: now,
                first: cur_seq as u64,
                count: take as u64,
            }
        }
    } else {
        let take = least(want as nat, max_seq + 1);
        Reservation::Commit {
            next: (slot(now as nat, take, sequence_bits) % word_size()) as u64,
            timestamp: now,
            first: 0,
            count: take as u64,
        }
    }
}

/// A state word is the slot of its millisecond and its sequence number, and
/// both fit their fields.
pub proof fn lemma_state_fields(word: u64, sequence_bits: nat)
    requires
        sequence_bits <= 32,
    ensures
        word == slot(
            state_timestamp(word, sequence_bits),
            state_sequence(word, sequence_bits),
            sequence_bits,
        ),
        state_sequence(word, sequence_bits) <= pow2(sequence_bits) - 1,
        state_timestamp(word, sequence_bits) < pow2((64 - sequence_bits) as nat),
        pow2((64 - sequence_bits) as nat) * pow2(sequence_bits) == word_size(),
{
    let p = pow2(sequence_bits);
    let q = pow2((64 - sequence_bits) as nat);
    lemma_pow2_pos(sequence_bits);
    lemma_pow2_word(64);
    lemma_pow2_adds((64 - sequence_bits) as nat, sequence_bits);
    lemma_fundamental_div_mod(word as int, p as int);
    lemma_mod_bound(word as int, p as int);
    let ts = state_timestamp(word, sequence_bits);
    lemma_mul_is_commutative(p as int, ts as int);
    if ts >= q {
        assert(ts * p >= q * p) by (nonlinear_arith)
            requires
                ts >= q,
                p > 0,
        ;
    }
}

/// State words are ordered as their pairs of millisecond and sequence
/// number are, the millisecond first.
pub proof fn lemma_word_order(a: u64, b: u64, sequence_bits: nat)
    requires
        sequence_bits <= 32,
    ensures
        a <= b <==> state_timestamp(a, sequence_bits) < state_timestamp(b, sequence_bits) || (
        state_timestamp(a, sequence_bits) == state_timestamp(b, sequence_bits) && state_sequence(
            a,
            sequence_bits,
        ) <= state_sequence(b, sequence_bits)),
{
    lemma_state_fields(a, sequence_bits);
    lemma_state_fields(b, sequence_bits);
    let ta = state_timestamp(a, sequence_bits);
    let sa = state_sequence(a, sequence_bits);
    let tb = state_timestamp(b, sequence_bits);
    let sb = state_sequence(b, sequence_bits);
    if ta < tb {
        lemma_join_ordered(ta, sa, tb, sb, sequence_bits);
    }
    if tb < ta {
        lemma_join_ordered(tb, sb, ta, sa, sequence_bits);
    }
}

/// Decides what to do with one reading of the clock and of the state word.
pub fn reserve(sequence_bits: u32, tolerance: u64, now: u64, current: u64, want: u64) -> (r:
    Reservation)
    requires
        sequence_bits <= 32,
    ensures
        r == reserve_spec(sequence_bits as nat, tolerance, now, current, want),
{
    let bits: u64 = sequence_bits as u64;
    let max_seq = field_max(bits);
    let cur_ts = high_bits(current, bits);
    let cur_seq = low_bits(current, bits);
    proof {
        lemma_state_fields(current, sequence_bits as nat);
        lemma_pow2_word(sequence_bits as nat);
    }
    if now < cur_ts {
        let delta: u64 = cur_ts - now;
        if delta > tolerance {
            Reservation::ClockBehind { delta }
        } else {
            Reservation::Wait
        }
    } else if now == cur_ts {
        if cur_seq >= max_seq {
            Reservation::Wait
        } else {
            let available: u64 = max_seq - cur_seq;
            let take: u64 = if want < available {
                want
            } else {
                available
            };
            assert(current + take <= u64::MAX) by {
                let p = pow2(sequence_bits as nat);
                let q = pow2((64 - sequence_bits) as nat);
                assert((cur_ts + 1) * p <= q * p) by (nonlinear_arith)
                    requires
                        cur_ts + 1 <= q,
                        p > 0,
                ;
                assert((cur_ts + 1) * p == cur_ts * p + p) by (nonlinear_arith);
            }
            Reservation::Commit { next: current + take, timestamp: now, first: cur_seq, count: take }
        }
    } else {
        let whole: u64 = max_seq + 1;
        let take: u64 = if want < whole {
            want
        } else {
            whole
        };
        let base = shift_up(now, bits);
        let next = base.wrapping_add(take);
        proof {
            let p = pow2(sequence_bits as nat);
            let x = (now as nat * p) as int;
            lemma_add_mod_noop(x, take as int, word_size() as int);
            lemma_small_mod(take as nat, word_size());
            lemma_mod_bound(x, word_size() as int);
            if base + take > u64::MAX {
                // base + take is below twice the word's size, so it wraps once
                vstd::arithmetic::div_mod::lemma_mod_multiples_vanish(
                    -1,
                    (base + take) as int,
                    word_size() as int,
                );
                lemma_small_mod((base + take - word_size()) as nat, word_size());
            } else {
                lemma_small_mod((base + take) as nat, word_size());
            }
        }
        Reservation::Commit { next, timestamp: now, first: 0, count: take }
    }
}

/// The slot after the run that a reservation takes, before it is reduced to
/// the word's size.
pub open spec fn reservation_end(r: Reservation, sequence_bits: nat) -> nat {
    match r {
        Reservation::Commit { timestamp, first, count, .. } => slot(
            timestamp as nat,
            (first + count) as nat,
            sequence_bits,
        ),
        _ => 0,
    }
}

/// A reservation takes at most what was asked for, only sequence numbers up
/// to the largest one, in the millisecond the clock showed, and no slot below
/// the state word it started from. The word it installs is the slot after its
/// run, reduced to the word's size.
pub proof fn lemma_commit_run(sequence_bits: nat, tolerance: u64, now: u64, current: u64, want: u64)
    requires
        sequence_bits <= 32,
        reserve_spec(sequence_bits, tolerance, now, current, want) is Commit,
    ensures
        ({
            let r = reserve_spec(sequence_bits, tolerance, now, current, want);
            &&& r->timestamp == now
            &&& r->count <= want
            &&& want >= 1 ==> r->count >= 1
            &&& r->first + r->count <= pow2(sequence_bits)
            &&& current <= slot(now as nat, r->first as nat, sequence_bits)
            &&& r->next == reservation_end(r, sequence_bits) % word_size()
            &&& state_timestamp(current, sequence_bits) == now ==> reservation_end(
                r,
                sequence_bits,
            ) < word_size()
        }),
{
    let p = pow2(sequence_bits);
    let r = reserve_spec(sequence_bits, tolerance, now, current, want);
    let cur_ts = state_timestamp(current, sequence_bits);
    let cur_seq = state_sequence(current, sequence_bits);
    lemma_state_fields(current, sequence_bits);
    lemma_pow2_word(sequence_bits);
    if now == cur_ts {
        let q = pow2((64 - sequence_bits) as nat);
        assert((cur_ts + 1) * p <= q * p) by (nonlinear_arith)
            requires
                cur_ts + 1 <= q,
                p > 0,
        ;
        assert((cur_ts + 1) * p == cur_ts * p + p) by (nonlinear_arith);
        lemma_small_mod(reservation_end(r, sequence_bits), word_size());
    } else {
        lemma_join_ordered(cur_ts, cur_seq, now as nat, 0, sequence_bits);
    }
}

/// Clock rollback: while the clock stands behind the millisecond of the
/// state, nothing is taken. The caller gives up with the gap, which is the
/// state's millisecond less the clock's reading, if the gap exceeds the
/// tolerance, and waits otherwise.
pub proof fn lemma_rollback(sequence_bits: nat, tolerance: u64, now: u64, current: u64, want: u64)
    requires
        sequence_bits <= 32,
        now < state_timestamp(current, sequence_bits),
    ensures
        state_timestamp(current, sequence_bits) - now <= u64::MAX,
        state_timestamp(current, sequence_bits) - now > tolerance ==> reserve_spec(
            sequence_bits,
            tolerance,
            now,
            current,
            want,
        ) == (Reservation::ClockBehind {
            delta: (state_timestamp(current, sequence_bits) - now) as u64,
        }),
        state_timestamp(current, sequence_bits) - now <= tolerance ==> reserve_spec(
            sequence_bits,
            tolerance,
            now,
            current,
            want,
        ) == Reservation::Wait,
{
    lemma_state_fields(current, sequence_bits);
    lemma_pow2_word((64 - sequence_bits) as nat);
}

/// A millisecond taken whole: a reservation that takes every sequence
/// number of a millisecond leaves the state word at the first slot of the
/// millisecond after it. A caller who comes while the clock still shows the
/// millisecond that was taken finds the state one millisecond ahead: it
/// waits if the tolerance is at least 1, and with a tolerance of 0 it is
/// told that the clock is behind by 1.
pub proof fn lemma_after_whole_millisecond(
    sequence_bits: nat,
    tolerance: u64,
    now: u64,
    current: u64,
    want: u64,
)
    requires
        sequence_bits <= 32,
        state_timestamp(current, sequence_bits) < now,
        want >= pow2(sequence_bits),
        slot(now as nat + 1, 0, sequence_bits) < word_size(),
    ensures
        ({
            let taken = reserve_spec(sequence_bits, tolerance, now, current, want);
            let after = slot(now as nat + 1, 0, sequence_bits) as u64;
            &&& taken == (Reservation::Commit {
                next: after,
                timestamp: now,
                first: 0,
                count: pow2(sequence_bits) as u64,
            })
            &&& state_timestamp(after, sequence_bits) == now + 1
            &&& state_sequence(after, sequence_bits) == 0
            &&& forall|asked: u64|
                #[trigger] reserve_spec(sequence_bits, tolerance, now, after, asked) == (
                if tolerance >= 1 {
                    Reservation::Wait
                } else {
                    Reservation::ClockBehind { delta: 1 }
                })
        }),
{
    let p = pow2(sequence_bits);
    lemma_pow2_word(sequence_bits);
    let after = slot(now as nat + 1, 0, sequence_bits);
    assert(slot(now as nat, p, sequence_bits) == after) by (nonlinear_arith)
        requires
            after == (now + 1) * p + 0,
            slot(now as nat, p, sequence_bits) == now * p + p,
    ;
    lemma_small_mod(after, word_size());
    vstd::arithmetic::div_mod::lemma_fundamental_div_mod_converse(
        after as int,
        p as int,
        now + 1,
        0,
    );
}

/// Every committed state is ahead of the one it replaced: unless the slots
/// of the state word are used up, a reservation that takes anything installs
/// a pair of millisecond and sequence number that is greater, ordered by the
/// millisecond first. The sequence number of a state word never exceeds the
/// largest sequence number.
pub proof fn lemma_state_advances(
    sequence_bits: nat,
    tolerance: u64,
    now: u64,
    current: u64,
    want: u64,
)
    requires
        sequence_bits <= 32,
        want >= 1,
        reserve_spec(sequence_bits, tolerance, now, current, want) is Commit,
        reservation_end(
            reserve_spec(sequence_bits, tolerance, now, current, want),
            sequence_bits,
        ) < word_size(),
    ensures
        ({
            let next = reserve_spec(sequence_bits, tolerance, now, current, want)->next;
            let t0 = state_timestamp(current, sequence_bits);
            let s0 = state_sequence(current, sequence_bits);
            let t1 = state_timestamp(next, sequence_bits);
            let s1 = state_sequence(next, sequence_bits);
            &&& current < next
            &&& t0 < t1 || (t0 == t1 && s0 < s1)
            &&& s1 <= pow2(sequence_bits) - 1
        }),
{
    let r = reserve_spec(sequence_bits, tolerance, now, current, want);
    let next = r->next;
    lemma_commit_run(sequence_bits, tolerance, now, current, want);
    lemma_small_mod(reservation_end(r, sequence_bits), word_size());
    assert(current < next);
    lemma_state_fields(current, sequence_bits);
    lemma_state_fields(next, sequence_bits);
    let t0 = state_timestamp(current, sequence_bits);
    let s0 = state_sequence(current, sequence_bits);
    let t1 = state_timestamp(next, sequence_bits);
    let s1 = state_sequence(next, sequence_bits);
    if t1 < t0 {
        lemma_join_ordered(t1, s1, t0, s0, sequence_bits);
    }
}

/// One look at the clock by some caller: the reading, and how many
/// identifiers the caller still wanted. A history lists the looks of all
/// callers of one generator in the order in which they took effect on its
/// state word.
#[derive(Clone, Copy, Debug, PartialEq, Eq, Structural)]
pub struct Request {
    pub now: u64,
    pub want: u64,
}

/// The state word after the first `k` requests of a history were served one
/// after the other, starting from the word `start`. A request that waits or
/// gives up leaves the word as it is.
pub open spec fn state_after(
    sequence_bits: nat,
    tolerance: u64,
    start: u64,
    requests: Seq<Request>,
    k: nat,
) -> u64
    decreases k,
{
    if k == 0 {
        start
    } else {
        let before = state_after(sequence_bits, tolerance, start, requests, (k - 1) as nat);
        match reserve_spec(
            sequence_bits,
            tolerance,
            requests[k - 1].now,
            before,
            requests[k - 1].want,
        ) {
            Reservation::Commit { next, .. } => next,
            _ => before,
        }
    }
}

/// What request `k` of a history is answered.
pub open spec fn outcome(
    sequence_bits: nat,
    tolerance: u64,
    start: u64,
    requests: Seq<Request>,
    k: nat,
) -> Reservation {
    reserve_spec(
        sequence_bits,
        tolerance,
        requests[k as int].now,
        state_after(sequence_bits, tolerance, start, requests, k),
        requests[k as int].want,
    )
}

/// No reservation of the history runs past the last slot of the state word.
pub open spec fn within_word(
    sequence_bits: nat,
    tolerance: u64,
    start: u64,
    requests: Seq<Request>,
) -> bool {
    forall|k: nat|
        k < requests.len() ==> reservation_end(
            #[trigger] outcome(sequence_bits, tolerance, start, requests, k),
            sequence_bits,
        ) < word_size()
}

/// Monotonicity of state: along a history the pair of millisecond and
/// sequence number in the state word never goes back, the millisecond
/// counting first.
pub proof fn lemma_history_monotone(
    sequence_bits: nat,
    tolerance: u64,
    start: u64,
    requests: Seq<Request>,
    i: nat,
    j: nat,
)
    requires
        sequence_bits <= 32,
        within_word(sequence_bits, tolerance, start, requests),
        i <= j <= requests.len(),
    ensures
        state_after(sequence_bits, tolerance, start, requests, i) <= state_after(
            sequence_bits,
            tolerance,
            start,
            requests,
            j,
        ),
        ({
            let before = state_after(sequence_bits, tolerance, start, requests, i);
            let after = state_after(sequence_bits, tolerance, start, requests, j);
            state_timestamp(before, sequence_bits) < state_timestamp(after, sequence_bits) || (
            state_timestamp(before, sequence_bits) == state_timestamp(after, sequence_bits)
                && state_sequence(before, sequence_bits) <= state_sequence(after, sequence_bits))
        }),
    decreases j,
{
    lemma_word_order(
        state_after(sequence_bits, tolerance, start, requests, i),
        state_after(sequence_bits, tolerance, start, requests, j),
        sequence_bits,
    );
    if i < j {
        let k = (j - 1) as nat;
        lemma_history_monotone(sequence_bits, tolerance, start, requests, i, k);
        let before = state_after(sequence_bits, tolerance, start, requests, k);
        let r = outcome(sequence_bits, tolerance, start, requests, k);
        if r is Commit {
            lemma_commit_run(sequence_bits, tolerance, requests[k as int].now, before, requests[k as int].want);
            lemma_small_mod(reservation_end(r, sequence_bits), word_size());
        }
    }
}

/// Uniqueness: in a history of reservations on one state word, no pair of
/// millisecond and sequence number is handed out twice, whether by one
/// request or by two.
pub proof fn lemma_issued_pairs_distinct(
    sequence_bits: nat,
    tolerance: u64,
    start: u64,
    requests: Seq<Request>,
    k1: nat,
    j1: nat,
    k2: nat,
    j2: nat,
)
    requires
        sequence_bits <= 32,
        within_word(sequence_bits, tolerance, start, requests),
        k1 <= k2 < requests.len(),
        outcome(sequence_bits, tolerance, start, requests, k1) is Commit,
        outcome(sequence_bits, tolerance, start, requests, k2) is Commit,
        j1 < outcome(sequence_bits, tolerance, start, requests, k1)->count,
        j2 < outcome(sequence_bits, tolerance, start, requests, k2)->count,
        k1 != k2 || j1 != j2,
    ensures
        ({
            let r1 = outcome(sequence_bits, tolerance, start, requests, k1);
            let r2 = outcome(sequence_bits, tolerance, start, requests, k2);
            r1->timestamp != r2->timestamp || r1->first + j1 != r2->first + j2
        }),
{
    let r1 = outcome(sequence_bits, tolerance, start, requests, k1);
    let r2 = outcome(sequence_bits, tolerance, start, requests, k2);
    if k1 != k2 {
        let s1 = state_after(sequence_bits, tolerance, start, requests, k1);
        let s2 = state_after(sequence_bits, tolerance, start, requests, k2);
        lemma_commit_run(sequence_bits, tolerance, requests[k1 as int].now, s1, requests[k1 as int].want);
        lemma_commit_run(sequence_bits, tolerance, requests[k2 as int].now, s2, requests[k2 as int].want);
        lemma_small_mod(reservation_end(r1, sequence_bits), word_size());
        // the run of the first request ends where the word stood after it
        assert(state_after(sequence_bits, tolerance, start, requests, k1 + 1) == r1->next);
        lemma_history_monotone(sequence_bits, tolerance, start, requests, k1 + 1, k2);
        assert(slot(r1->timestamp as nat, (r1->first + j1) as nat, sequence_bits) < r1->next);
        assert(s2 <= slot(r2->timestamp as nat, (r2->first + j2) as nat, sequence_bits));
    }
}

/// Order of issue: in a history of reservations on one state word, what is
/// handed out later is greater than what was handed out before it, as a
/// pair of millisecond and sequence number with the millisecond counting
/// first. Within one request the sequence numbers grow; a later request
/// takes a later millisecond, or later sequence numbers of the same one.
pub proof fn lemma_issued_pairs_ordered(
    sequence_bits: nat,
    tolerance: u64,
    start: u64,
    requests: Seq<Request>,
    k1: nat,
    j1: nat,
    k2: nat,
    j2: nat,
)
    requires
        sequence_bits <= 32,
        within_word(sequence_bits, tolerance, start, requests),
        k1 <= k2 < requests.len(),
        outcome(sequence_bits, tolerance, start, requests, k1) is Commit,
        outcome(sequence_bits, tolerance, start, requests, k2) is Commit,
        j1 < outcome(sequence_bits, tolerance, start, requests, k1)->count,
        j2 < outcome(sequence_bits, tolerance, start, requests, k2)->count,
        k1 < k2 || j1 < j2,
    ensures
        ({
            let r1 = outcome(sequence_bits, tolerance, start, requests, k1);
            let r2 = outcome(sequence_bits, tolerance, start, requests, k2);
            r1->timestamp < r2->timestamp || (r1->timestamp == r2->timestamp && r1->first + j1
                < r2->first + j2)
        }),
{
    let r1 = outcome(sequence_bits, tolerance, start, requests, k1);
    let r2 = outcome(sequence_bits, tolerance, start, requests, k2);
    let s1 = state_after(sequence_bits, tolerance, start, requests, k1);
    let s2 = state_after(sequence_bits, tolerance, start, requests, k2);
    lemma_commit_run(sequence_bits, tolerance, requests[k1 as int].now, s1, requests[k1 as int].want);
    lemma_commit_run(sequence_bits, tolerance, requests[k2 as int].now, s2, requests[k2 as int].want);
    let slot1 = slot(r1->timestamp as nat, (r1->first + j1) as nat, sequence_bits);
    let slot2 = slot(r2->timestamp as nat, (r2->first + j2) as nat, sequence_bits);
    if k1 != k2 {
        lemma_small_mod(reservation_end(r1, sequence_bits), word_size());
        // the run of the first request ends where the word stood after it
        assert(state_after(sequence_bits, tolerance, start, requests, k1 + 1) == r1->next);
        lemma_history_monotone(sequence_bits, tolerance, start, requests, k1 + 1, k2);
        assert(slot1 < r1->next);
        assert(s2 <= slot2);
    }
    assert(slot1 < slot2);
    // slots are ordered as their pairs are
    if r2->timestamp < r1->timestamp {
        lemma_join_ordered(
            r2->timestamp as nat,
            (r2->first + j2) as nat,
            r1->timestamp as nat,
            (r1->first + j1) as nat,
            sequence_bits,
        );
    }
}

/// What a reservation leaves in the state word: the sequence number after
/// its run, in its own millisecond, or, where the run ends with the largest
/// sequence number, sequence number zero of the millisecond after it. So a
/// caller that takes one sequence number below the largest leaves the state
/// at the sequence number after its own.
pub proof fn lemma_state_after_commit(
    sequence_bits: nat,
    tolerance: u64,
    now: u64,
    current: u64,
    want: u64,
)
    requires
        sequence_bits <= 32,
        reserve_spec(sequence_bits, tolerance, now, current, want) is Commit,
        reservation_end(
            reserve_spec(sequence_bits, tolerance, now, current, want),
            sequence_bits,
        ) < word_size(),
    ensures
        ({
            let r = reserve_spec(sequence_bits, tolerance, now, current, want);
            let t = state_timestamp(r->next, sequence_bits);
            let s = state_sequence(r->next, sequence_bits);
            if r->first + r->count < pow2(sequence_bits) {
                t == now && s == r->first + r->count
            } else {
                t == now + 1 && s == 0
            }
        }),
{
    let p = pow2(sequence_bits);
    let r = reserve_spec(sequence_bits, tolerance, now, current, want);
    lemma_commit_run(sequence_bits, tolerance, now, current, want);
    lemma_pow2_word(sequence_bits);
    lemma_small_mod(reservation_end(r, sequence_bits), word_size());
    if r->first + r->count < p {
        vstd::arithmetic::div_mod::lemma_fundamental_div_mod_converse(
            r->next as int,
            p as int,
            now as int,
            (r->first + r->count) as int,
        );
    } else {
        assert(r->next == (now + 1) * p + 0) by (nonlinear_arith)
            requires
                r->next == now * p + (r->first + r->count),
                r->first + r->count == p,
        ;
        vstd::arithmetic::div_mod::lemma_fundamental_div_mod_converse(
            r->next as int,
            p as int,
            now + 1,
            0,
        );
    }
}

/// A clock that stands at or after the millisecond of the state is never
/// taken for one that went back. In the state's millisecond a caller goes
/// on from the state's sequence number, or waits where none is left below
/// the largest; in a later millisecond it starts at sequence number zero.
pub proof fn lemma_clock_at_or_after(
    sequence_bits: nat,
    tolerance: u64,
    now: u64,
    current: u64,
    want: u64,
)
    requires
        sequence_bits <= 32,
        now >= state_timestamp(current, sequence_bits),
    ensures
        ({
            let r = reserve_spec(sequence_bits, tolerance, now, current, want);
            let ts = state_timestamp(current, sequence_bits);
            let seq = state_sequence(current, sequence_bits);
            &&& !(r is ClockBehind)
            &&& now == ts && seq >= pow2(sequence_bits) - 1 ==> r is Wait
            &&& now == ts && seq < pow2(sequence_bits) - 1 ==> r is Commit && r->timestamp == ts
                && r->first == seq
            &&& now > ts ==> r is Commit && r->timestamp == now && r->first == 0
        }),
{
    lemma_state_fields(current, sequence_bits);
    lemma_pow2_word(sequence_bits);
}

/// The state word after `n` requests for one identifier each, all made at the
/// clock reading `now`, starting from the word `current`.
pub open spec fn state_after_singles(
    sequence_bits: nat,
    tolerance: u64,
    now: u64,
    current: u64,
    n: nat,
) -> u64
    decreases n,
{
    if n == 0 {
        current
    } else {
        let before = state_after_singles(sequence_bits, tolerance, now, current, (n - 1) as nat);
        match reserve_spec(sequence_bits, tolerance, now, before, 1) {
            Reservation::Commit { next, .. } => next,
            _ => before,
        }
    }
}

/// Batch equivalence: a reservation of `n` identifiers that stays below the
/// largest sequence number, and within the slots of the state word, hands
/// out what `n` requests for one identifier would, made one after the other
/// at the same clock reading: the same millisecond, the same sequence numbers
/// in the same order, and the same state word at the end.
pub proof fn lemma_batch_is_singles(
    sequence_bits: nat,
    tolerance: u64,
    now: u64,
    current: u64,
    n: u64,
    k: nat,
)
    requires
        sequence_bits <= 32,
        n >= 1,
        reserve_spec(sequence_bits, tolerance, now, current, n) is Commit,
        reserve_spec(sequence_bits, tolerance, now, current, n)->first + n <= pow2(sequence_bits)
            - 1 || n == 1,
        reservation_end(
            reserve_spec(sequence_bits, tolerance, now, current, n),
            sequence_bits,
        ) < word_size(),
        k < n,
    ensures
        ({
            let batch = reserve_spec(sequence_bits, tolerance, now, current, n);
            let before = state_after_singles(sequence_bits, tolerance, now, current, k);
            let single = reserve_spec(sequence_bits, tolerance, now, before, 1);
            &&& batch->count == n
            &&& single is Commit
            &&& single->timestamp == batch->timestamp
            &&& single->first == batch->first + k
            &&& single->count == 1
            &&& single->next == state_after_singles(
                sequence_bits,
                tolerance,
                now,
                current,
                k + 1,
            )
            &&& k + 1 == n ==> single->next == batch->next
        }),
    decreases k,
{
    let p = pow2(sequence_bits);
    let batch = reserve_spec(sequence_bits, tolerance, now, current, n);
    lemma_state_fields(current, sequence_bits);
    lemma_pow2_word(sequence_bits);
    lemma_commit_run(sequence_bits, tolerance, now, current, n);
    let base = slot(now as nat, batch->first as nat, sequence_bits);
    // the batch is served whole, from `base` on
    assert(batch->count == n);
    assert(base + n == reservation_end(batch, sequence_bits));
    assert(now < pow2((64 - sequence_bits) as nat)) by {
        let q = pow2((64 - sequence_bits) as nat);
        if now >= q {
            assert(now * p >= q * p) by (nonlinear_arith)
                requires
                    now >= q,
                    p > 0,
            ;
        }
    }
    lemma_small_mod((base + n) as nat, word_size());
    assert(batch->count == n);
    assert(batch->next == base + n);
    // after k singles the word stands at `base + k`
    let before = state_after_singles(sequence_bits, tolerance, now, current, k);
    if k == 0 {
        assert(before == current);
    } else {
        lemma_batch_is_singles(sequence_bits, tolerance, now, current, n, (k - 1) as nat);
        assert(before == base + k) by {
            let prev = state_after_singles(sequence_bits, tolerance, now, current, (k - 1) as nat);
            lemma_commit_run(sequence_bits, tolerance, now, prev, 1);
            let single_prev = reserve_spec(sequence_bits, tolerance, now, prev, 1);
            lemma_small_mod(reservation_end(single_prev, sequence_bits), word_size());
            assert(reservation_end(single_prev, sequence_bits) == base + k);
        }
        // `before` is slot (now, first + k)
        vstd::arithmetic::div_mod::lemma_fundamental_div_mod_converse(
            before as int,
            p as int,
            now as int,
            (batch->first + k) as int,
        );
    }
    let single = reserve_spec(sequence_bits, tolerance, now, before, 1);
    lemma_commit_run(sequence_bits, tolerance, now, before, 1);
    lemma_small_mod(reservation_end(single, sequence_bits), word_size());
}

} // verus!
