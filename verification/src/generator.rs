//! The stand-alone generator and its configuration.

use crate::clock::counted_from;
use crate::engine::{minted_alone, minted_by, minting_failure, Engine, DEFAULT_TOLERANCE_MS};
use crate::error::TinyIdError;
use crate::layout::{
    check_layout, layout_fault, lemma_faultless_layout, ConfigFault, IdLayout,
};
use vstd::prelude::*;
use vstd::string::StringExecFns;

verus! {

/// The configured values of a generator.
#[derive(Clone, Copy, Debug)]
pub struct GeneratorConfig {
    /// Identity of the node within its datacenter.
    pub worker_id: u32,
    /// Identity of the datacenter.
    pub datacenter_id: u32,
    /// Width of the sequence field.
    pub sequence_bits: u32,
    /// Width of the worker field.
    pub worker_id_bits: u32,
    /// Width of the datacenter field.
    pub datacenter_id_bits: u32,
    /// Width of the timestamp field.
    pub timestamp_bits: u32,
    /// The instant timestamps count from, in milliseconds since the Unix
    /// epoch. Counting from a recent instant keeps the timestamp field from
    /// running out for longer.
    pub epoch: u64,
    /// Largest sequence number.
    pub max_sequence: u32,
    /// Largest worker identity.
    pub max_worker_id: u32,
    /// Largest datacenter identity.
    pub max_datacenter_id: u32,
}

impl GeneratorConfig {
    /// Whether four widths partition the 64 bits of an identifier.
    pub fn validate(
        timestamp_bits: u32,
        datacenter_id_bits: u32,
        worker_id_bits: u32,
        sequence_bits: u32,
    ) -> (valid: bool)
        ensures
            valid == (timestamp_bits + datacenter_id_bits + worker_id_bits + sequence_bits == 64),
    {
        let total: u64 = timestamp_bits as u64 + datacenter_id_bits as u64 + worker_id_bits as u64
            + sequence_bits as u64;
        total == 64
    }

    /// The first fault of the configured values, if there is one.
    pub open spec fn fault(self) -> Option<ConfigFault> {
        layout_fault(
            self.worker_id,
            self.datacenter_id,
            self.sequence_bits,
            self.worker_id_bits,
            self.datacenter_id_bits,
            self.timestamp_bits,
            self.max_sequence,
            self.max_worker_id,
            self.max_datacenter_id,
        )
    }

    /// The layout that the configured values describe.
    pub open spec fn layout(self) -> IdLayout {
        IdLayout {
            timestamp_bits: self.timestamp_bits,
            datacenter_id_bits: self.datacenter_id_bits,
            worker_id_bits: self.worker_id_bits,
            sequence_bits: self.sequence_bits,
            datacenter_id: self.datacenter_id,
            worker_id: self.worker_id,
            epoch: self.epoch,
        }
    }

    /// Checks the configured values and gives their layout, or their first
    /// fault.
    pub fn check(&self) -> (r: Result<IdLayout, ConfigFault>)
        ensures
            match r {
                Ok(layout) => self.fault() is None && layout == self.layout() && layout.wf()
                    && layout.max_sequence() == self.max_sequence,
                Err(fault) => self.fault() == Some(fault),
            },
    {
        check_layout(
            self.worker_id,
            self.datacenter_id,
            self.sequence_bits,
            self.worker_id_bits,
            self.datacenter_id_bits,
            self.timestamp_bits,
            self.epoch,
            self.max_sequence,
            self.max_worker_id,
            self.max_datacenter_id,
        )
    }
}

impl Default for GeneratorConfig {
    /// Worker 0 of datacenter 0, with 41 bits of timestamp counted from the
    /// first instant of 2021, 5 bits of datacenter, 6 of worker and 12 of
    /// sequence.
    fn default() -> (cfg: Self)
        ensures
            cfg == (GeneratorConfig {
                worker_id: 0,
                datacenter_id: 0,
                sequence_bits: 12,
                worker_id_bits: 6,
                datacenter_id_bits: 5,
                timestamp_bits: 41,
                epoch: 1609459200000,
                max_sequence: 4095,
                max_worker_id: 63,
                max_datacenter_id: 31,
            }),
            cfg.fault() is None,
    {
        let timestamp_bits: u32 = 41;
        let datacenter_id_bits: u32 = 5;
        let worker_id_bits: u32 = 6;
        let sequence_bits: u32 = 12;
        proof {
            vstd::arithmetic::power2::lemma2_to64();
        }
        assert((1u32 << 12u32) - 1 == 4095) by (bit_vector);
        assert((1u32 << 6u32) - 1 == 63) by (bit_vector);
        assert((1u32 << 5u32) - 1 == 31) by (bit_vector);
        GeneratorConfig {
            worker_id: 0,
            timestamp_bits,
            datacenter_id_bits,
            worker_id_bits,
            sequence_bits,
            datacenter_id: 0,
            epoch: 1609459200000,
            max_sequence: (1u32 << sequence_bits) - 1,
            max_worker_id: (1u32 << worker_id_bits) - 1,
            max_datacenter_id: (1u32 << datacenter_id_bits) - 1,
        }
    }
}

/// The text of a fault of the widths or of the maxima.
pub open spec fn fault_text(fault: ConfigFault) -> Seq<char> {
    match fault {
        ConfigFault::WorkerIdTooLarge => "worker_id is too large"@,
        ConfigFault::DatacenterIdTooLarge => "datacenter_id is too large"@,
        ConfigFault::WidthsDoNotPartition => "bit widths must add up to 64"@,
        ConfigFault::MaximaDoNotMatch => "maxima must match the bit widths"@,
    }
}

/// The text of a fault.
pub fn fault_message(fault: ConfigFault) -> (text: String)
    ensures
        text@ == fault_text(fault),
{
    match fault {
        ConfigFault::WorkerIdTooLarge => String::from_str("worker_id is too large"),
        ConfigFault::DatacenterIdTooLarge => String::from_str("datacenter_id is too large"),
        ConfigFault::WidthsDoNotPartition => String::from_str("bit widths must add up to 64"),
        ConfigFault::MaximaDoNotMatch => String::from_str("maxima must match the bit widths"),
    }
}

/// The error with which the stand-alone generator refuses a configuration.
pub open spec fn refusal(cfg: GeneratorConfig, e: TinyIdError) -> bool {
    match cfg.fault() {
        Some(ConfigFault::WorkerIdTooLarge) => e == TinyIdError::InvalidWorkerId(cfg.worker_id),
        Some(ConfigFault::DatacenterIdTooLarge) => e == TinyIdError::InvalidDatacenterId(
            cfg.datacenter_id,
        ),
        Some(fault) => e matches TinyIdError::ConfigError(text) && text@ == fault_text(fault),
        None => false,
    }
}

/// A generator of 64-bit identifiers that are unique for its node and grow
/// with time.
#[derive(Debug)]
pub struct TinyIdGenerator {
    config: GeneratorConfig,
    engine: Engine,
}

impl TinyIdGenerator {
    #[verifier::type_invariant]
    spec fn well_formed(self) -> bool {
        &&& self.config.fault() is None
        &&& self.engine.layout_spec() == self.config.layout()
        &&& self.engine.tolerance_spec() == DEFAULT_TOLERANCE_MS
    }

    /// The configuration the generator was made with.
    pub closed spec fn config_spec(self) -> GeneratorConfig {
        self.config
    }

    /// Makes a generator with a zeroed state, or refuses a configuration
    /// that has a fault.
    pub fn new(cfg: GeneratorConfig) -> (r: Result<Self, TinyIdError>)
        ensures
            match r {
                Ok(generator) => cfg.fault() is None && generator.config_spec() == cfg,
                Err(e) => refusal(cfg, e),
            },
    {
        match cfg.check() {
            Ok(layout) => Ok(
                TinyIdGenerator { config: cfg, engine: Engine::new(layout, DEFAULT_TOLERANCE_MS) },
            ),
            Err(ConfigFault::WorkerIdTooLarge) => Err(TinyIdError::InvalidWorkerId(cfg.worker_id)),
            Err(ConfigFault::DatacenterIdTooLarge) => Err(
                TinyIdError::InvalidDatacenterId(cfg.datacenter_id),
            ),
            Err(fault) => Err(TinyIdError::ConfigError(fault_message(fault))),
        }
    }

    /// The configuration the generator was made with.
    pub fn config(&self) -> (cfg: GeneratorConfig)
        ensures
            cfg == self.config_spec(),
            cfg.fault() is None,
            cfg.layout().wf(),
    {
        proof {
            use_type_invariant(self);
            lemma_faultless_layout(
                self.config.layout(),
                self.config.max_sequence,
                self.config.max_worker_id,
                self.config.max_datacenter_id,
            );
        }
        self.config
    }

    /// Mints one identifier.
    ///
    /// The identifier carries the node's identities. The call fails with
    /// `ClockMovedBackwards` when the clock stands behind the state by more
    /// than the tolerance, the error holding the gap, and with
    /// `InternalError` when the clock cannot be read or the retry limit is
    /// reached.
    pub fn next_id(&self) -> (r: Result<u64, TinyIdError>)
        ensures
            match r {
                Ok(id) => minted_by(self.config_spec().layout(), id) && minted_alone(
                    self.config_spec().layout(),
                    DEFAULT_TOLERANCE_MS,
                    id,
                ),
                Err(e) => minting_failure(self.config_spec().layout(), DEFAULT_TOLERANCE_MS, 1, e),
            },
    {
        proof {
            use_type_invariant(self);
        }
        self.engine.next_id()
    }

    /// The clock's reading in milliseconds since the configured epoch, zero
    /// before it. The error is `InternalError`, which comes when the clock
    /// cannot be read.
    pub fn get_current_timestamp(&self) -> (r: Result<u64, TinyIdError>)
        ensures
            match r {
                Ok(timestamp) => counted_from(self.config_spec().epoch, timestamp),
                Err(e) => e is InternalError,
            },
    {
        proof {
            use_type_invariant(self);
        }
        self.engine.current_timestamp()
    }

    /// Assembles an identifier of this node from a timestamp, counted from
    /// the configured epoch, and a sequence number.
    pub fn assemble_id(&self, timestamp: u64, sequence: u32) -> (id: u64)
        ensures
            id == self.config_spec().layout().assemble_bits(timestamp, sequence),
            sequence <= self.config_spec().max_sequence ==> minted_by(
                self.config_spec().layout(),
                id,
            ) && self.config_spec().layout().id_sequence(id) == sequence,
    {
        proof {
            use_type_invariant(self);
        }
        let layout = self.engine.layout();
        proof {
            lemma_faultless_layout(
                self.config.layout(),
                self.config.max_sequence,
                self.config.max_worker_id,
                self.config.max_datacenter_id,
            );
            if sequence <= self.config.max_sequence {
                crate::engine::lemma_minted(layout, timestamp, sequence);
            }
        }
        layout.assemble(timestamp, sequence)
    }
}

} // verus!
