//! The generator of the service, and the repositories built on it.

use crate::biz::{HelloWorldRepo, User, UserDemoRepo, UserRepo};
use crate::config::{IdGeneratorConfig, ServerConfig};
use crate::clock::counted_from;
use crate::engine::{
    can_fail, can_issue, minted_alone, minted_by, minted_together, minting_failure, most_wanted,
    Attempt, Engine, DEFAULT_TOLERANCE_MS,
};
use crate::error::{TinyIdError, UserError};
use crate::generator::{fault_message, fault_text};
use crate::layout::lemma_faultless_layout;
use std::sync::atomic::{AtomicU64, Ordering};
use vstd::prelude::*;
use vstd::string::StringExecFns;

verus! {

/// The generator of the service: a lock-free source of 64-bit identifiers
/// that are unique for its node and grow with time.
#[derive(Debug)]
pub struct IDGenerator {
    cfg: IdGeneratorConfig,
    engine: Engine,
    total_generated: AtomicU64,
}

impl IDGenerator {
    #[verifier::type_invariant]
    spec fn well_formed(self) -> bool {
        &&& self.cfg.fault() is None
        &&& self.engine.layout_spec() == self.cfg.layout()
    }

    /// The configuration the generator was made with.
    pub closed spec fn config_spec(self) -> IdGeneratorConfig {
        self.cfg
    }

    /// How far the clock may stand behind the state before a call fails.
    pub closed spec fn tolerance_spec(self) -> u64 {
        self.engine.tolerance_spec()
    }

    /// Makes a generator with a zeroed state and the default tolerance, or
    /// refuses a configuration that has a fault.
    pub fn new(cfg: IdGeneratorConfig) -> (r: Result<Self, TinyIdError>)
        ensures
            match r {
                Ok(generator) => cfg.fault() is None && generator.config_spec() == cfg
                    && generator.tolerance_spec() == DEFAULT_TOLERANCE_MS,
                Err(e) => cfg.fault() matches Some(fault) && e matches TinyIdError::ConfigError(
                    text,
                ) && text@ == fault_text(fault),
            },
    {
        Self::with_tolerance(cfg, DEFAULT_TOLERANCE_MS)
    }

    /// Makes a generator that waits while the clock stands behind the state
    /// by at most `tolerance_ms` milliseconds, and fails beyond that.
    ///
    /// With a tolerance of 0 every look that finds the clock behind the
    /// state fails. That includes the look of a caller who comes in a
    /// millisecond that a batch has taken whole: the state then stands at
    /// the millisecond after it, and the caller is told that the clock is
    /// behind by 1. A tolerance of at least 1 lets that caller wait for the
    /// clock.
    pub fn with_tolerance(cfg: IdGeneratorConfig, tolerance_ms: u64) -> (r: Result<
        Self,
        TinyIdError,
    >)
        ensures
            match r {
                Ok(generator) => cfg.fault() is None && generator.config_spec() == cfg
                    && generator.tolerance_spec() == tolerance_ms,
                Err(e) => cfg.fault() matches Some(fault) && e matches TinyIdError::ConfigError(
                    text,
                ) && text@ == fault_text(fault),
            },
    {
        match cfg.check() {
            Ok(layout) => Ok(
                IDGenerator {
                    cfg,
                    engine: Engine::new(layout, tolerance_ms),
                    total_generated: AtomicU64::new(0),
                },
            ),
            Err(fault) => Err(TinyIdError::ConfigError(fault_message(fault))),
        }
    }

    /// The configuration the generator was made with.
    pub fn config(&self) -> (cfg: IdGeneratorConfig)
        ensures
            cfg == self.config_spec(),
            cfg.fault() is None,
            cfg.layout().wf(),
    {
        proof {
            use_type_invariant(self);
            lemma_faultless_layout(
                self.cfg.layout(),
                self.cfg.max_sequence,
                self.cfg.max_worker_id,
                self.cfg.max_datacenter_id,
            );
        }
        self.cfg
    }

    /// How far the clock may stand behind the state before a call fails.
    pub fn tolerance_ms(&self) -> (tolerance: u64)
        ensures
            tolerance == self.tolerance_spec(),
    {
        self.engine.tolerance_ms()
    }

    /// How many identifiers were counted so far. Other callers count too, so
    /// nothing is known of the number.
    pub fn total_generated(&self) -> u64 {
        self.total_generated.load(Ordering::Relaxed)
    }

    /// Counts `issued` more identifiers.
    fn count_generated(&self, issued: u64) {
        let _ = self.total_generated.fetch_add(issued, Ordering::Relaxed);
    }

    /// Mints one identifier.
    ///
    /// The identifier carries the node's identities. The call fails with
    /// `ClockMovedBackwards` when the clock stands behind the state by more
    /// than the tolerance, the error holding the gap, and with
    /// `InternalError` when the clock cannot be read or the retry limit is
    /// reached.
    pub fn next_id(&self) -> (r: Result<u64, TinyIdError>)
        ensures
            match r {
                Ok(id) => minted_by(self.config_spec().layout(), id) && minted_alone(
                    self.config_spec().layout(),
                    self.tolerance_spec(),
                    id,
                ),
                Err(e) => minting_failure(
                    self.config_spec().layout(),
                    self.tolerance_spec(),
                    1,
                    e,
                ),
            },
    {
        proof {
            use_type_invariant(self);
        }
        let r = self.engine.next_id();
        if r.is_ok() {
            self.count_generated(1);
        }
        r
    }

    /// Mints `count` identifiers, in the order in which they were issued.
    ///
    /// Each run of sequence numbers is reserved with one change of the state
    /// word. The call fails as `next_id` does, and then hands out nothing. A
    /// call for no identifier looks at neither the clock nor the state and
    /// succeeds with none.
    pub fn generate_ids_batch(&self, count: usize) -> (r: Result<Vec<u64>, TinyIdError>)
        ensures
            count == 0 ==> (r matches Ok(ids) && ids@.len() == 0),
            match r {
                Ok(ids) => minted_together(
                    self.config_spec().layout(),
                    self.tolerance_spec(),
                    count,
                    ids@,
                ),
                Err(e) => minting_failure(
                    self.config_spec().layout(),
                    self.tolerance_spec(),
                    most_wanted(count),
                    e,
                ),
            },
    {
        proof {
            use_type_invariant(self);
        }
        let r = self.engine.generate_ids_batch(count);
        if r.is_ok() {
            self.count_generated(count as u64);
        }
        r
    }

    /// Looks at the state once, with the clock reading `now`, and tries to
    /// take up to `want` sequence numbers. See [`Engine::attempt`].
    pub fn attempt(&self, now: u64, want: u64) -> (r: Attempt)
        ensures
            r matches Attempt::Failed { delta } ==> delta > self.tolerance_spec() && can_fail(
                self.config_spec().sequence_bits as nat,
                self.tolerance_spec(),
                now,
                want,
                delta,
            ),
            r matches Attempt::Issued { timestamp, first, count } ==> timestamp == now && count
                <= want && (want >= 1 ==> count >= 1) && first + count
                <= self.config_spec().max_sequence + 1 && can_issue(
                self.config_spec().sequence_bits as nat,
                self.tolerance_spec(),
                now,
                want,
                first,
                count,
            ),
    {
        proof {
            use_type_invariant(self);
            lemma_faultless_layout(
                self.cfg.layout(),
                self.cfg.max_sequence,
                self.cfg.max_worker_id,
                self.cfg.max_datacenter_id,
            );
            vstd::arithmetic::power2::lemma_pow2_pos(self.cfg.sequence_bits as nat);
        }
        self.engine.attempt(now, want)
    }

    /// The clock's reading in milliseconds since the configured epoch, zero
    /// before it. The error is `InternalError`, which comes when the clock
    /// cannot be read.
    pub fn get_current_timestamp(&self) -> (r: Result<u64, TinyIdError>)
        ensures
            match r {
                Ok(timestamp) => counted_from(self.config_spec().epoch, timestamp),
                Err(e) => e is InternalError,
            },
    {
        proof {
            use_type_invariant(self);
        }
        self.engine.current_timestamp()
    }

    /// Assembles an identifier of this node from a timestamp, counted from
    /// the configured epoch, and a sequence number.
    pub fn assemble_id(&self, timestamp: u64, sequence: u32) -> (id: u64)
        ensures
            id == self.config_spec().layout().assemble_bits(timestamp, sequence),
            sequence <= self.config_spec().max_sequence ==> minted_by(
                self.config_spec().layout(),
                id,
            ) && self.config_spec().layout().id_sequence(id) == sequence,
    {
        proof {
            use_type_invariant(self);
        }
        let layout = self.engine.layout();
        proof {
            lemma_faultless_layout(
                self.cfg.layout(),
                self.cfg.max_sequence,
                self.cfg.max_worker_id,
                self.cfg.max_datacenter_id,
            );
            if sequence <= self.cfg.max_sequence {
                crate::engine::lemma_minted(layout, timestamp, sequence);
            }
        }
        layout.assemble(timestamp, sequence)
    }

    /// Splits an identifier into the instant it was minted at, in
    /// milliseconds since the Unix epoch, and its sequence number.
    pub fn parse_id(&self, id: u64) -> (r: (u64, u32))
        ensures
            r == self.config_spec().layout().parse_spec(id),
            r.1 <= self.config_spec().max_sequence,
    {
        proof {
            use_type_invariant(self);
            lemma_faultless_layout(
                self.cfg.layout(),
                self.cfg.max_sequence,
                self.cfg.max_worker_id,
                self.cfg.max_datacenter_id,
            );
        }
        let layout = self.engine.layout();
        layout.parse(id)
    }
}

/// The repository of the identifier service: it mints identifiers with the
/// configured generator.
#[derive(Debug)]
pub struct HelloWorldRepoImpl {
    id_generator: IDGenerator,
}

impl HelloWorldRepoImpl {
    /// The generator's configuration.
    pub closed spec fn config_spec(self) -> IdGeneratorConfig {
        self.id_generator.config_spec()
    }

    /// How far the clock may stand behind the generator's state before
    /// minting fails.
    pub closed spec fn tolerance_spec(self) -> u64 {
        self.id_generator.tolerance_spec()
    }

    /// Makes the repository for a server's configuration, or refuses a
    /// generator configuration that has a fault.
    pub fn new(cfg: &ServerConfig) -> (r: Result<Self, TinyIdError>)
        ensures
            match r {
                Ok(repo) => cfg.id_generator.fault() is None && repo.config_spec()
                    == cfg.id_generator && repo.tolerance_spec() == DEFAULT_TOLERANCE_MS,
                Err(e) => cfg.id_generator.fault() matches Some(fault)
                    && e matches TinyIdError::ConfigError(text) && text@ == fault_text(fault),
            },
    {
        match IDGenerator::new(cfg.id_generator) {
            Ok(id_generator) => Ok(HelloWorldRepoImpl { id_generator }),
            Err(e) => Err(e),
        }
    }
}

impl HelloWorldRepo for HelloWorldRepoImpl {
    /// Mints one identifier with the generator.
    fn generate_id(&self) -> (r: Result<u64, TinyIdError>)
        ensures
            match r {
                Ok(id) => minted_by(self.config_spec().layout(), id) && minted_alone(
                    self.config_spec().layout(),
                    self.tolerance_spec(),
                    id,
                ),
                Err(e) => minting_failure(
                    self.config_spec().layout(),
                    self.tolerance_spec(),
                    1,
                    e,
                ),
            },
    {
        self.id_generator.next_id()
    }
}

/// A user repository that knows one user, whatever the identity asked for.
#[derive(Clone, Copy, Debug)]
pub struct UserDemoRepoImpl {}

impl UserDemoRepoImpl {
    pub fn new() -> (repo: Self) {
        UserDemoRepoImpl {  }
    }
}

impl UserDemoRepo for UserDemoRepoImpl {
    /// The one user, under the identity asked for: called `test`, aged 18.
    fn get_user(&self, id: u64) -> (r: Result<User, TinyIdError>)
        ensures
            r matches Ok(user) && user.id == id && user.name@ == "test"@ && user.email@
                == Seq::<char>::empty() && user.age == 18 && user.created_at == 0
                && user.updated_at == 0,
    {
        Ok(
            User {
                id,
                name: String::from_str("test"),
                email: String::new(),
                age: 18,
                created_at: 0,
                updated_at: 0,
            },
        )
    }
}

/// The repository of the user service. It knows one user, whatever the
/// identity asked for.
#[derive(Clone, Copy, Debug)]
pub struct UserRepoImpl {}

impl UserRepoImpl {
    pub fn new() -> (repo: Self) {
        UserRepoImpl {  }
    }
}

impl UserRepo for UserRepoImpl {
    /// The one user, under the identity asked for: called `test`, with the
    /// address `test`, aged 18, made now.
    fn get_user(&self, id: u64) -> (r: Result<User, UserError>)
        ensures
            r matches Ok(user) && user.id == id && user.name@ == "test"@ && user.email@ == "test"@
                && user.age == 18 && user.created_at == user.updated_at,
    {
        Ok(User::new(id, String::from_str("test"), String::from_str("test"), 18))
    }
}

} // verus!
