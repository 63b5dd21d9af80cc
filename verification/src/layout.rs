//! The bit layout of an identifier: timestamp, datacenter, worker and sequence,
//! from the highest bits to the lowest.

use crate::bits::{
    high_bits, join, lemma_join_bound, lemma_join_split, lemma_or_is_add, lemma_pow2_monotone,
    lemma_pow2_word, lemma_shl_truncates, low_bits, word_size,
};
use vstd::arithmetic::div_mod::{lemma_mod_multiples_basic, lemma_small_mod};
use vstd::arithmetic::power2::{lemma_pow2_adds, lemma_pow2_pos, pow2};
use vstd::prelude::*;

verus! {

/// The widths of the four fields of an identifier, the two identities that
/// every identifier of a node carries, and the instant its timestamps count from.
#[derive(Clone, Copy, Debug, PartialEq, Eq, Structural)]
pub struct IdLayout {
    pub timestamp_bits: u32,
    pub datacenter_id_bits: u32,
    pub worker_id_bits: u32,
    pub sequence_bits: u32,
    pub datacenter_id: u32,
    pub worker_id: u32,
    pub epoch: u64,
}

impl IdLayout {
    /// The four widths partition the 64-bit word, the timestamp has at least
    /// one bit, the other fields fit 32-bit values, and both identities fit
    /// their fields.
    pub open spec fn wf(self) -> bool {
        &&& self.timestamp_bits + self.datacenter_id_bits + self.worker_id_bits
            + self.sequence_bits == 64
        &&& self.timestamp_bits >= 1
        &&& self.datacenter_id_bits <= 32
        &&& self.worker_id_bits <= 32
        &&& self.sequence_bits <= 32
        &&& self.datacenter_id < pow2(self.datacenter_id_bits as nat)
        &&& self.worker_id < pow2(self.worker_id_bits as nat)
    }

    /// The position of the worker field.
    pub open spec fn worker_shift(self) -> nat {
        self.sequence_bits as nat
    }

    /// The position of the datacenter field.
    pub open spec fn datacenter_shift(self) -> nat {
        (self.worker_id_bits + self.sequence_bits) as nat
    }

    /// The position of the timestamp field.
    pub open spec fn timestamp_shift(self) -> nat {
        (self.datacenter_id_bits + self.worker_id_bits + self.sequence_bits) as nat
    }

    /// The largest sequence number of a millisecond.
    pub open spec fn max_sequence(self) -> nat {
        (pow2(self.sequence_bits as nat) - 1) as nat
    }

    /// The largest timestamp an identifier can hold.
    pub open spec fn max_timestamp(self) -> nat {
        (pow2(self.timestamp_bits as nat) - 1) as nat
    }

    /// The identifier as the machine builds it: each field shifted to its
    /// position, all of them joined bit by bit.
    pub open spec fn assemble_bits(self, timestamp: u64, sequence: u32) -> u64 {
        (timestamp << (self.timestamp_shift() as u64)) | ((self.datacenter_id as u64) << (
        self.datacenter_shift() as u64)) | ((self.worker_id as u64) << (self.worker_shift() as u64))
            | (sequence as u64)
    }

    /// The identifier as a number: the four fields weighted by their positions.
    pub open spec fn compose(self, timestamp: nat, sequence: nat) -> nat {
        timestamp * pow2(self.timestamp_shift()) + (self.datacenter_id as nat) * pow2(
            self.datacenter_shift(),
        ) + (self.worker_id as nat) * pow2(self.worker_shift()) + sequence
    }

    /// The timestamp field of an identifier.
    pub open spec fn id_timestamp(self, id: u64) -> nat {
        id as nat / pow2(self.timestamp_shift())
    }

    /// The datacenter field of an identifier.
    pub open spec fn id_datacenter(self, id: u64) -> nat {
        (id as nat / pow2(self.datacenter_shift())) % pow2(self.datacenter_id_bits as nat)
    }

    /// The worker field of an identifier.
    pub open spec fn id_worker(self, id: u64) -> nat {
        (id as nat / pow2(self.worker_shift())) % pow2(self.worker_id_bits as nat)
    }

    /// The sequence field of an identifier.
    pub open spec fn id_sequence(self, id: u64) -> nat {
        id as nat % pow2(self.sequence_bits as nat)
    }

    /// What parsing an identifier gives: the instant it was minted at, counted
    /// from the Unix epoch and reduced to 64 bits, and its sequence number.
    pub open spec fn parse_spec(self, id: u64) -> (u64, u32) {
        (
            ((self.id_timestamp(id) + self.epoch as nat) % word_size()) as u64,
            self.id_sequence(id) as u32,
        )
    }

    /// The number of an identifier is its fields joined one after another.
    pub proof fn lemma_compose_is_join(self, timestamp: nat, sequence: nat)
        requires
            self.wf(),
        ensures
            self.compose(timestamp, sequence) == join(
                join(
                    join(timestamp, self.datacenter_id as nat, self.datacenter_id_bits as nat),
                    self.worker_id as nat,
                    self.worker_id_bits as nat,
                ),
                sequence,
                self.sequence_bits as nat,
            ),
    {
        let db = self.datacenter_id_bits as nat;
        let wb = self.worker_id_bits as nat;
        let sb = self.sequence_bits as nat;
        lemma_pow2_adds(wb, sb);
        lemma_pow2_adds(db, wb + sb);
        let a = pow2(db);
        let b = pow2(wb);
        let c = pow2(sb);
        let t = timestamp;
        let d = self.datacenter_id as nat;
        let w = self.worker_id as nat;
        assert(((t * a + d) * b + w) * c == t * (a * (b * c)) + d * (b * c) + w * c)
            by (nonlinear_arith);
    }

    /// Within the configured ranges the identifier is below `2^64`, and each
    /// field can be read back from it.
    pub proof fn lemma_compose_fields(self, timestamp: nat, sequence: nat)
        requires
            self.wf(),
            timestamp <= self.max_timestamp(),
            sequence <= self.max_sequence(),
        ensures
            self.compose(timestamp, sequence) < word_size(),
            self.id_timestamp(self.compose(timestamp, sequence) as u64) == timestamp,
            self.id_datacenter(self.compose(timestamp, sequence) as u64) == self.datacenter_id,
            self.id_worker(self.compose(timestamp, sequence) as u64) == self.worker_id,
            self.id_sequence(self.compose(timestamp, sequence) as u64) == sequence,
    {
        let tb = self.timestamp_bits as nat;
        let db = self.datacenter_id_bits as nat;
        let wb = self.worker_id_bits as nat;
        let sb = self.sequence_bits as nat;
        let d = self.datacenter_id as nat;
        let w = self.worker_id as nat;
        lemma_pow2_pos(tb);
        lemma_pow2_pos(sb);
        self.lemma_compose_is_join(timestamp, sequence);
        let j1 = join(timestamp, d, db);
        let j2 = join(j1, w, wb);
        let j3 = join(j2, sequence, sb);
        lemma_join_bound(timestamp, d, tb, db);
        lemma_join_bound(j1, w, tb + db, wb);
        lemma_join_bound(j2, sequence, tb + db + wb, sb);
        lemma_pow2_word(64);
        assert(j3 < word_size());
        lemma_join_split(j2, sequence, sb);
        lemma_join_split(j1, w, wb);
        lemma_join_split(timestamp, d, db);
        // j3 / 2^(wb + sb) == j1 and j3 / 2^(db + wb + sb) == timestamp
        lemma_pow2_adds(wb, sb);
        lemma_pow2_adds(db, wb + sb);
        lemma_pow2_pos(wb);
        lemma_pow2_pos(db);
        vstd::arithmetic::div_mod::lemma_div_denominator(
            j3 as int,
            pow2(sb) as int,
            pow2(wb) as int,
        );
        vstd::arithmetic::div_mod::lemma_div_denominator(
            j3 as int,
            pow2(wb + sb) as int,
            pow2(db) as int,
        );
        assert(pow2(sb) * pow2(wb) == pow2(wb + sb)) by (nonlinear_arith)
            requires
                pow2(wb) * pow2(sb) == pow2(wb + sb),
        ;
        assert(pow2(wb + sb) * pow2(db) == pow2(db + wb + sb)) by (nonlinear_arith)
            requires
                pow2(db) * pow2(wb + sb) == pow2(db + (wb + sb)),
                db + (wb + sb) == db + wb + sb,
        ;
        lemma_small_mod(timestamp, pow2(tb));
    }

    /// With a sequence number that fits its field, joining the shifted fields
    /// bit by bit gives the identifier's number; timestamp bits that do not
    /// fit the timestamp field are dropped.
    pub proof fn lemma_assemble_bits_is_compose(self, timestamp: u64, sequence: u32)
        requires
            self.wf(),
            sequence <= self.max_sequence(),
        ensures
            self.assemble_bits(timestamp, sequence) == self.compose(
                timestamp as nat % pow2(self.timestamp_bits as nat),
                sequence as nat,
            ),
    {
        let tb = self.timestamp_bits as nat;
        let db = self.datacenter_id_bits as nat;
        let wb = self.worker_id_bits as nat;
        let sb = self.sequence_bits as nat;
        let ts_shift = self.timestamp_shift() as u64;
        let dc_shift = self.datacenter_shift() as u64;
        let w_shift = self.worker_shift() as u64;
        let dc = self.datacenter_id as u64;
        let wk = self.worker_id as u64;
        let seq = sequence as u64;
        let t = (timestamp as nat % pow2(tb)) as nat;
        lemma_pow2_pos(tb);
        lemma_pow2_pos(sb);
        lemma_pow2_word(64);
        // The shifted fields as numbers.
        lemma_shl_truncates(timestamp, ts_shift);
        let top: u64 = timestamp << ts_shift;
        assert(top == t * pow2(ts_shift as nat));
        lemma_pow2_monotone(db, (64 - dc_shift) as nat);
        lemma_shl_truncates(dc, dc_shift);
        lemma_small_mod(dc as nat, pow2((64 - dc_shift) as nat));
        let mid: u64 = dc << dc_shift;
        assert(mid == dc * pow2(dc_shift as nat));
        lemma_pow2_monotone(wb, (64 - w_shift) as nat);
        lemma_shl_truncates(wk, w_shift);
        lemma_small_mod(wk as nat, pow2((64 - w_shift) as nat));
        let low: u64 = wk << w_shift;
        assert(low == wk * pow2(w_shift as nat));
        // Bounds of the partial joins.
        self.lemma_compose_is_join(t, seq as nat);
        let j1 = join(t, dc as nat, db);
        let j2 = join(j1, wk as nat, wb);
        lemma_join_bound(t, dc as nat, tb, db);
        lemma_join_bound(j1, wk as nat, tb + db, wb);
        lemma_join_bound(j2, seq as nat, tb + db + wb, sb);
        lemma_pow2_adds(wb, sb);
        lemma_pow2_adds(db, wb + sb);
        let pd = pow2(db);
        let pw = pow2(wb);
        let ps = pow2(sb);
        // top | mid
        assert(mid < pow2(ts_shift as nat)) by {
            assert((dc + 1) * pow2(dc_shift as nat) <= pd * pow2(dc_shift as nat)) by (nonlinear_arith)
                requires
                    dc + 1 <= pd,
            ;
            assert((dc + 1) * pow2(dc_shift as nat) == dc * pow2(dc_shift as nat) + pow2(
                dc_shift as nat,
            )) by (nonlinear_arith);
            lemma_pow2_pos(dc_shift as nat);
        }
        assert(top as nat % pow2(ts_shift as nat) == 0) by {
            lemma_pow2_pos(ts_shift as nat);
            lemma_mod_multiples_basic(t as int, pow2(ts_shift as nat) as int);
        }
        lemma_or_is_add(top, mid, ts_shift);
        let a1: u64 = top | mid;
        assert(a1 == top + mid);
        assert(a1 == j1 * pow2(dc_shift as nat)) by (nonlinear_arith)
            requires
                a1 == t * pow2(ts_shift as nat) + dc * pow2(dc_shift as nat),
                pow2(ts_shift as nat) == pd * pow2(dc_shift as nat),
                j1 == t * pd + dc,
        ;
        // (top | mid) | low
        assert(low < pow2(dc_shift as nat)) by {
            assert((wk + 1) * ps <= pw * ps) by (nonlinear_arith)
                requires
                    wk + 1 <= pw,
            ;
            assert((wk + 1) * ps == wk * ps + ps) by (nonlinear_arith);
        }
        assert(a1 as nat % pow2(dc_shift as nat) == 0) by {
            lemma_pow2_pos(dc_shift as nat);
            lemma_mod_multiples_basic(j1 as int, pow2(dc_shift as nat) as int);
        }
        lemma_or_is_add(a1, low, dc_shift);
        let a2: u64 = a1 | low;
        assert(a2 == j2 * ps) by (nonlinear_arith)
            requires
                a2 == j1 * pow2(dc_shift as nat) + wk * ps,
                pow2(dc_shift as nat) == pw * ps,
                j2 == j1 * pw + wk,
        ;
        // ((top | mid) | low) | sequence
        assert(a2 as nat % ps == 0) by {
            lemma_mod_multiples_basic(j2 as int, ps as int);
        }
        lemma_or_is_add(a2, seq, w_shift);
        assert(self.assemble_bits(timestamp, sequence) == a2 | seq);
    }

    /// Parsing an identifier that was assembled from a timestamp and a
    /// sequence number within the configured ranges gives both back, the
    /// timestamp counted from the Unix epoch.
    pub proof fn lemma_round_trip(self, timestamp: u64, sequence: u32)
        requires
            self.wf(),
            timestamp <= self.max_timestamp(),
            sequence <= self.max_sequence(),
        ensures
            self.id_timestamp(self.assemble_bits(timestamp, sequence)) == timestamp,
            self.id_sequence(self.assemble_bits(timestamp, sequence)) == sequence,
            self.id_datacenter(self.assemble_bits(timestamp, sequence)) == self.datacenter_id,
            self.id_worker(self.assemble_bits(timestamp, sequence)) == self.worker_id,
            timestamp + self.epoch <= u64::MAX ==> self.parse_spec(
                self.assemble_bits(timestamp, sequence),
            ) == ((timestamp + self.epoch) as u64, sequence),
    {
        lemma_pow2_pos(self.timestamp_bits as nat);
        lemma_small_mod(timestamp as nat, pow2(self.timestamp_bits as nat));
        self.lemma_assemble_bits_is_compose(timestamp, sequence);
        self.lemma_compose_fields(timestamp as nat, sequence as nat);
        if timestamp + self.epoch <= u64::MAX {
            lemma_small_mod((timestamp + self.epoch) as nat, word_size());
        }
    }

    /// Two identifiers of one layout, assembled within the configured ranges,
    /// are equal only if their timestamps and sequence numbers are.
    pub proof fn lemma_assemble_injective(self, t1: u64, s1: u32, t2: u64, s2: u32)
        requires
            self.wf(),
            t1 <= self.max_timestamp(),
            t2 <= self.max_timestamp(),
            s1 <= self.max_sequence(),
            s2 <= self.max_sequence(),
            self.assemble_bits(t1, s1) == self.assemble_bits(t2, s2),
        ensures
            t1 == t2,
            s1 == s2,
    {
        self.lemma_round_trip(t1, s1);
        self.lemma_round_trip(t2, s2);
    }

    /// Identifiers of one layout grow with time: of two that were assembled
    /// within the configured ranges, the one with the later timestamp is the
    /// greater, and of two with one timestamp the one with the greater
    /// sequence number.
    pub proof fn lemma_assemble_monotone(self, t1: u64, s1: u32, t2: u64, s2: u32)
        requires
            self.wf(),
            t1 <= self.max_timestamp(),
            t2 <= self.max_timestamp(),
            s1 <= self.max_sequence(),
            s2 <= self.max_sequence(),
            t1 < t2 || (t1 == t2 && s1 < s2),
        ensures
            self.assemble_bits(t1, s1) < self.assemble_bits(t2, s2),
    {
        let tb = self.timestamp_bits as nat;
        let db = self.datacenter_id_bits as nat;
        let wb = self.worker_id_bits as nat;
        let sb = self.sequence_bits as nat;
        let d = self.datacenter_id as nat;
        let w = self.worker_id as nat;
        lemma_pow2_pos(tb);
        lemma_pow2_pos(sb);
        lemma_small_mod(t1 as nat, pow2(tb));
        lemma_small_mod(t2 as nat, pow2(tb));
        self.lemma_assemble_bits_is_compose(t1, s1);
        self.lemma_assemble_bits_is_compose(t2, s2);
        self.lemma_compose_is_join(t1 as nat, s1 as nat);
        self.lemma_compose_is_join(t2 as nat, s2 as nat);
        if t1 < t2 {
            crate::bits::lemma_join_ordered(t1 as nat, d, t2 as nat, d, db);
            crate::bits::lemma_join_ordered(
                join(t1 as nat, d, db),
                w,
                join(t2 as nat, d, db),
                w,
                wb,
            );
            crate::bits::lemma_join_ordered(
                join(join(t1 as nat, d, db), w, wb),
                s1 as nat,
                join(join(t2 as nat, d, db), w, wb),
                s2 as nat,
                sb,
            );
        }
    }

    /// Assembles an identifier from a timestamp, counted from the layout's
    /// epoch, and a sequence number.
    pub fn assemble(&self, timestamp: u64, sequence: u32) -> (id: u64)
        requires
            self.wf(),
        ensures
            id == self.assemble_bits(timestamp, sequence),
            sequence <= self.max_sequence() ==> id == self.compose(
                timestamp as nat % pow2(self.timestamp_bits as nat),
                sequence as nat,
            ),
    {
        let sequence_shift: u64 = self.sequence_bits as u64;
        let datacenter_shift: u64 = self.worker_id_bits as u64 + self.sequence_bits as u64;
        let timestamp_shift: u64 = self.datacenter_id_bits as u64 + self.worker_id_bits as u64
            + self.sequence_bits as u64;
        proof {
            if sequence <= self.max_sequence() {
                self.lemma_assemble_bits_is_compose(timestamp, sequence);
            }
        }
        (timestamp << timestamp_shift) | ((self.datacenter_id as u64) << datacenter_shift) | ((
        self.worker_id as u64) << sequence_shift) | (sequence as u64)
    }

    /// Splits an identifier into the instant it was minted at, in
    /// milliseconds since the Unix epoch, and its sequence number.
    pub fn parse(&self, id: u64) -> (r: (u64, u32))
        requires
            self.wf(),
        ensures
            r == self.parse_spec(id),
            r.1 <= self.max_sequence(),
    {
        let timestamp_shift: u64 = self.datacenter_id_bits as u64 + self.worker_id_bits as u64
            + self.sequence_bits as u64;
        let timestamp = high_bits(id, timestamp_shift);
        let sequence = low_bits(id, self.sequence_bits as u64);
        proof {
            lemma_pow2_word(self.sequence_bits as nat);
        }
        (timestamp.wrapping_add(self.epoch), sequence as u32)
    }
}

/// Why a set of configured values describes no layout.
#[derive(Clone, Copy, Debug, PartialEq, Eq, Structural)]
pub enum ConfigFault {
    /// The worker identity exceeds the configured maximum.
    WorkerIdTooLarge,
    /// The datacenter identity exceeds the configured maximum.
    DatacenterIdTooLarge,
    /// The four widths do not add up to 64, or the timestamp has no bit.
    WidthsDoNotPartition,
    /// A configured maximum is not the largest value of its field.
    MaximaDoNotMatch,
}

/// The first fault of a set of configured values, if there is one. The
/// identities are looked at first, then the widths, then the maxima.
pub open spec fn layout_fault(
    worker_id: u32,
    datacenter_id: u32,
    sequence_bits: u32,
    worker_id_bits: u32,
    datacenter_id_bits: u32,
    timestamp_bits: u32,
    max_sequence: u32,
    max_worker_id: u32,
    max_datacenter_id: u32,
) -> Option<ConfigFault> {
    if worker_id > max_worker_id {
        Some(ConfigFault::WorkerIdTooLarge)
    } else if datacenter_id > max_datacenter_id {
        Some(ConfigFault::DatacenterIdTooLarge)
    } else if timestamp_bits + datacenter_id_bits + worker_id_bits + sequence_bits != 64
        || timestamp_bits == 0 {
        Some(ConfigFault::WidthsDoNotPartition)
    } else if max_sequence != pow2(sequence_bits as nat) - 1 || max_worker_id != pow2(
        worker_id_bits as nat,
    ) - 1 || max_datacenter_id != pow2(datacenter_id_bits as nat) - 1 {
        Some(ConfigFault::MaximaDoNotMatch)
    } else {
        None
    }
}

/// Whether `max` is the largest value of a field of `bits` bits.
pub fn is_field_max(bits: u32, max: u32) -> (r: bool)
    ensures
        r == (max == pow2(bits as nat) - 1),
        r ==> bits <= 32,
{
    if bits > 32 {
        proof {
            lemma_pow2_monotone(33, bits as nat);
            vstd::arithmetic::power2::lemma2_to64_rest();
        }
        false
    } else {
        proof {
            lemma_pow2_word(bits as nat);
        }
        max as u64 == crate::bits::field_max(bits as u64)
    }
}

/// Checks a set of configured values and gives the layout they describe, or
/// their first fault.
pub fn check_layout(
    worker_id: u32,
    datacenter_id: u32,
    sequence_bits: u32,
    worker_id_bits: u32,
    datacenter_id_bits: u32,
    timestamp_bits: u32,
    epoch: u64,
    max_sequence: u32,
    max_worker_id: u32,
    max_datacenter_id: u32,
) -> (r: Result<IdLayout, ConfigFault>)
    ensures
        match r {
            Ok(layout) => {
                &&& layout_fault(
                    worker_id,
                    datacenter_id,
                    sequence_bits,
                    worker_id_bits,
                    datacenter_id_bits,
                    timestamp_bits,
                    max_sequence,
                    max_worker_id,
                    max_datacenter_id,
                ) is None
                &&& layout.wf()
                &&& layout == (IdLayout {
                    timestamp_bits,
                    datacenter_id_bits,
                    worker_id_bits,
                    sequence_bits,
                    datacenter_id,
                    worker_id,
                    epoch,
                })
                &&& layout.max_sequence() == max_sequence
            },
            Err(fault) => layout_fault(
                worker_id,
                datacenter_id,
                sequence_bits,
                worker_id_bits,
                datacenter_id_bits,
                timestamp_bits,
                max_sequence,
                max_worker_id,
                max_datacenter_id,
            ) == Some(fault),
        },
{
    if worker_id > max_worker_id {
        return Err(ConfigFault::WorkerIdTooLarge);
    }
    if datacenter_id > max_datacenter_id {
        return Err(ConfigFault::DatacenterIdTooLarge);
    }
    let total: u64 = timestamp_bits as u64 + datacenter_id_bits as u64 + worker_id_bits as u64
        + sequence_bits as u64;
    if total != 64 || timestamp_bits == 0 {
        return Err(ConfigFault::WidthsDoNotPartition);
    }
    if !is_field_max(sequence_bits, max_sequence) || !is_field_max(worker_id_bits, max_worker_id)
        || !is_field_max(datacenter_id_bits, max_datacenter_id) {
        return Err(ConfigFault::MaximaDoNotMatch);
    }
    Ok(
        IdLayout {
            timestamp_bits,
            datacenter_id_bits,
            worker_id_bits,
            sequence_bits,
            datacenter_id,
            worker_id,
            epoch,
        },
    )
}

/// Configured values without a fault describe a well-formed layout whose
/// largest sequence number is the configured one.
pub proof fn lemma_faultless_layout(layout: IdLayout, max_sequence: u32, max_worker_id: u32, max_datacenter_id: u32)
    requires
        layout_fault(
            layout.worker_id,
            layout.datacenter_id,
            layout.sequence_bits,
            layout.worker_id_bits,
            layout.datacenter_id_bits,
            layout.timestamp_bits,
            max_sequence,
            max_worker_id,
            max_datacenter_id,
        ) is None,
    ensures
        layout.wf(),
        layout.max_sequence() == max_sequence,
{
    vstd::arithmetic::power2::lemma2_to64_rest();
    if layout.sequence_bits > 32 {
        lemma_pow2_monotone(33, layout.sequence_bits as nat);
    }
    if layout.worker_id_bits > 32 {
        lemma_pow2_monotone(33, layout.worker_id_bits as nat);
    }
    if layout.datacenter_id_bits > 32 {
        lemma_pow2_monotone(33, layout.datacenter_id_bits as nat);
    }
}

} // verus!
