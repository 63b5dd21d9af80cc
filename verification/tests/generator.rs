use std::collections::HashSet;
use std::time::{Duration, SystemTime, UNIX_EPOCH};

use tinyid::allocator::{reserve, Reservation};
use tinyid::clock::since_epoch;
use tinyid::config::{IdGeneratorConfig, ServerConfig};
use tinyid::data::{HelloWorldRepoImpl, IDGenerator};
use tinyid::biz::HelloWorldRepo;
use tinyid::engine::{Attempt, Engine, DEFAULT_TOLERANCE_MS};
use tinyid::error::TinyIdError;
use tinyid::generator::{GeneratorConfig, TinyIdGenerator};
use tinyid::layout::{check_layout, ConfigFault, IdLayout};

fn create_test_config() -> IdGeneratorConfig {
    IdGeneratorConfig {
        worker_id: 1,
        datacenter_id: 1,
        sequence_bits: 12,
        worker_id_bits: 5,
        datacenter_id_bits: 5,
        timestamp_bits: 42,
        epoch: 1640995200000, // 2022-01-01 00:00:00 UTC
        max_sequence: (1 << 12) - 1,
        max_worker_id: (1 << 5) - 1,
        max_datacenter_id: (1 << 5) - 1,
    }
}

fn create_test_server_config() -> ServerConfig {
    let mut cfg = ServerConfig::new("127.0.0.1".to_string(), 8080, vec![]);
    cfg.id_generator = create_test_config();
    cfg
}

fn create_invalid_worker_id_config() -> IdGeneratorConfig {
    let mut cfg = create_test_config();
    cfg.worker_id = cfg.max_worker_id + 1;
    cfg
}

fn create_invalid_datacenter_id_config() -> IdGeneratorConfig {
    let mut cfg = create_test_config();
    cfg.datacenter_id = cfg.max_datacenter_id + 1;
    cfg
}

fn test_layout() -> IdLayout {
    create_test_config().check().unwrap()
}

#[test]
fn test_generator_creation_and_basic_id_generation() {
    let config = GeneratorConfig::default();
    let generator = TinyIdGenerator::new(config).unwrap();

    let id1 = generator.next_id().unwrap();
    assert!(id1 > 0, "Generated ID should be positive");

    let id2 = generator.next_id().unwrap();
    assert!(id2 > 0, "Generated ID should be positive");

    assert_ne!(id1, id2, "Generated IDs should be unique");

    assert!(
        id2 > id1,
        "Generated IDs should be monotonically increasing"
    );

    println!("✅ Test passed: Generated IDs - id1: {}, id2: {}", id1, id2);
}

#[test]
fn test_id_generator_new_success() {
    let cfg = create_test_config();
    let result = IDGenerator::new(cfg);
    assert!(result.is_ok());

    let generator = result.unwrap();
    assert_eq!(generator.config().worker_id, 1);
    assert_eq!(generator.config().datacenter_id, 1);
}

#[test]
fn test_id_generator_new_invalid_worker_id() {
    let cfg = create_invalid_worker_id_config();
    let result = IDGenerator::new(cfg);
    assert!(result.is_err());

    let error_msg = result.unwrap_err().to_string();
    assert!(error_msg.contains("worker_id is too large"));
}

#[test]
fn test_id_generator_new_invalid_datacenter_id() {
    let cfg = create_invalid_datacenter_id_config();
    let result = IDGenerator::new(cfg);
    assert!(result.is_err());

    let error_msg = result.unwrap_err().to_string();
    assert!(error_msg.contains("datacenter_id is too large"));
}

#[test]
fn test_generate_single_id() {
    let cfg = create_test_config();
    let generator = IDGenerator::new(cfg).unwrap();

    let id = generator.next_id().unwrap();
    assert!(id > 0);

    let sequence_mask = (1 << generator.config().sequence_bits) - 1;
    let worker_id_mask = (1 << generator.config().worker_id_bits) - 1;
    let datacenter_id_mask = (1 << generator.config().datacenter_id_bits) - 1;

    let sequence = (id & sequence_mask) as u32;
    let worker_id = ((id >> generator.config().sequence_bits) & worker_id_mask) as u32;
    let datacenter_id = ((id
        >> (generator.config().sequence_bits + generator.config().worker_id_bits))
        & datacenter_id_mask) as u32;

    assert_eq!(worker_id, generator.config().worker_id);
    assert_eq!(datacenter_id, generator.config().datacenter_id);
    assert!(sequence <= generator.config().max_sequence);
}

#[test]
fn test_generate_multiple_unique_ids() {
    let cfg = create_test_config();
    let generator = IDGenerator::new(cfg).unwrap();

    let mut ids = HashSet::new();
    let count = 1000;

    for _ in 0..count {
        let id = generator.next_id().unwrap();
        assert!(ids.insert(id), "生成了重复的ID: {}", id);
    }

    assert_eq!(ids.len(), count);
}

#[test]
fn test_generate_id_sequential_ordering() {
    let cfg = create_test_config();
    let generator = IDGenerator::new(cfg).unwrap();

    let mut prev_id = 0u64;
    for _ in 0..100 {
        let id = generator.next_id().unwrap();
        assert!(id > prev_id, "ID不是递增的: {} <= {}", id, prev_id);
        prev_id = id;
    }
}

#[test]
fn test_get_current_timestamp() {
    let cfg = create_test_config();
    let generator = IDGenerator::new(cfg).unwrap();

    let timestamp1 = generator.get_current_timestamp().unwrap();
    let started = std::time::Instant::now();
    while started.elapsed() < Duration::from_millis(1) {
        std::hint::spin_loop();
    }
    let timestamp2 = generator.get_current_timestamp().unwrap();

    assert!(timestamp2 >= timestamp1);
}

#[test]
fn test_assemble_id() {
    let cfg = create_test_config();
    let generator = IDGenerator::new(cfg).unwrap();

    let timestamp = 1000u64;
    let sequence = 100u32;

    let id = generator.assemble_id(timestamp, sequence);

    let sequence_mask = (1 << generator.config().sequence_bits) - 1;
    let worker_id_mask = (1 << generator.config().worker_id_bits) - 1;
    let datacenter_id_mask = (1 << generator.config().datacenter_id_bits) - 1;

    let extracted_sequence = (id & sequence_mask) as u32;
    let extracted_worker_id = ((id >> generator.config().sequence_bits) & worker_id_mask) as u32;
    let extracted_datacenter_id = ((id
        >> (generator.config().sequence_bits + generator.config().worker_id_bits))
        & datacenter_id_mask) as u32;

    assert_eq!(extracted_sequence, sequence);
    assert_eq!(extracted_worker_id, generator.config().worker_id);
    assert_eq!(extracted_datacenter_id, generator.config().datacenter_id);
}

#[test]
fn test_id_components_boundary_values() {
    let cfg = create_test_config();
    let generator = IDGenerator::new(cfg).unwrap();

    let id = generator.assemble_id(1000, generator.config().max_sequence);
    let sequence_mask = (1 << generator.config().sequence_bits) - 1;
    let extracted_sequence = (id & sequence_mask) as u32;
    assert_eq!(extracted_sequence, generator.config().max_sequence);

    let id = generator.assemble_id(1000, 0);
    let extracted_sequence = (id & sequence_mask) as u32;
    assert_eq!(extracted_sequence, 0);
}

#[test]
fn test_hello_world_repo_impl_new() {
    let server_cfg = create_test_server_config();
    let result = HelloWorldRepoImpl::new(&server_cfg);
    assert!(result.is_ok());
}

#[test]
fn test_hello_world_repo_impl_new_invalid_config() {
    let mut server_cfg = create_test_server_config();
    server_cfg.id_generator.worker_id = server_cfg.id_generator.max_worker_id + 1;

    let result = HelloWorldRepoImpl::new(&server_cfg);
    assert!(result.is_err());
}

#[test]
fn test_hello_world_repo_generate_id() {
    let server_cfg = create_test_server_config();
    let repo = HelloWorldRepoImpl::new(&server_cfg).unwrap();

    let result = repo.generate_id();
    assert!(result.is_ok());

    let id = result.unwrap();
    assert!(id > 0);
}

#[test]
fn test_hello_world_repo_generate_multiple_ids() {
    let server_cfg = create_test_server_config();
    let repo = HelloWorldRepoImpl::new(&server_cfg).unwrap();

    let mut ids = HashSet::new();
    for _ in 0..100 {
        let id = repo.generate_id().unwrap();
        assert!(ids.insert(id), "生成了重复的ID: {}", id);
    }

    assert_eq!(ids.len(), 100);
}

#[test]
fn test_id_generator_performance() {
    let cfg = create_test_config();
    let generator = IDGenerator::new(cfg).unwrap();

    let start = std::time::Instant::now();
    let count = 10000;
    let mut unique_ids = HashSet::new();

    for _ in 0..count {
        let id = generator.next_id().expect("ID generation failed");
        assert!(
            unique_ids.insert(id),
            "发现重复ID: {:?}",
            generator.parse_id(id)
        );
    }

    let duration = start.elapsed();
    let ids_per_sec = count as f64 / duration.as_secs_f64();

    println!("生成了 {} 个ID，用时 {:?}", count, duration);
    println!("性能: {:.0} IDs/sec", ids_per_sec);

    assert!(ids_per_sec > 1000.0, "性能太低: {:.0} IDs/sec", ids_per_sec);
}

#[test]
fn test_id_format_consistency() {
    let cfg = create_test_config();
    let generator = IDGenerator::new(cfg).unwrap();

    for _ in 0..10 {
        let id = generator.next_id().unwrap();

        assert!(id > 0);
        assert!(id < u64::MAX / 2);

        let bit_count = 64 - id.leading_zeros();
        assert!(bit_count <= 64, "ID使用了超过64位: {}", id);
    }
}

#[test]
fn test_default_config_validity() {
    let default_cfg = IdGeneratorConfig::default();
    let result = IDGenerator::new(default_cfg);
    assert!(result.is_ok(), "默认配置应该是有效的");

    let generator = result.unwrap();
    let id = generator.next_id().unwrap();
    assert!(id > 0);
}

#[test]
fn test_edge_case_epoch_time() {
    let mut cfg = create_test_config();
    cfg.epoch = SystemTime::now()
        .duration_since(UNIX_EPOCH)
        .unwrap()
        .as_millis() as u64;

    let generator = IDGenerator::new(cfg).unwrap();
    // the first identifier of the epoch's own millisecond is zero but for the identities
    let id = generator.next_id().unwrap();
    assert!(id > 0);
}

#[test]
fn test_next_id_method() {
    let cfg = create_test_config();
    let generator = IDGenerator::new(cfg).unwrap();

    let id1 = generator.next_id().unwrap();
    let id2 = generator.next_id().unwrap();

    assert!(id1 > 0);
    assert!(id2 > 0);
    assert_ne!(id1, id2);
}

// ---- bit layout ----

#[test]
fn assemble_gives_the_exact_identifier() {
    let layout = test_layout();
    // 1000 << 22 | 1 << 17 | 1 << 12 | 100
    assert_eq!(layout.assemble(1000, 100), 4_194_304_000 + 131_072 + 4096 + 100);
    assert_eq!(layout.assemble(0, 0), 131_072 + 4096);
}

#[test]
fn parse_gives_back_what_was_assembled() {
    let layout = test_layout();
    for &(timestamp, sequence) in
        [(0u64, 0u32), (1, 1), (1000, 100), (123_456_789, 4095), ((1u64 << 42) - 1, 4095)].iter()
    {
        let id = layout.assemble(timestamp, sequence);
        assert_eq!(layout.parse(id), (timestamp + layout.epoch, sequence));
    }
}

#[test]
fn parse_id_reads_timestamp_and_sequence() {
    let generator = IDGenerator::new(create_test_config()).unwrap();
    let id = generator.assemble_id(5, 7);
    assert_eq!(generator.parse_id(id), (1640995200005, 7));
}

#[test]
fn boundary_sequences_survive_the_round_trip() {
    let layout = test_layout();
    let top = layout.assemble(1000, 4095);
    let bottom = layout.assemble(1000, 0);
    assert_eq!(layout.parse(top).1, 4095);
    assert_eq!(layout.parse(bottom).1, 0);
    assert_eq!(top - bottom, 4095);
}

#[test]
fn a_timestamp_beyond_its_field_loses_its_high_bits() {
    let layout = test_layout();
    assert_eq!(layout.assemble((1u64 << 42) + 5, 1), layout.assemble(5, 1));
}

#[test]
fn identifiers_grow_with_time_and_then_with_the_sequence() {
    let layout = test_layout();
    assert!(layout.assemble(5, 4095) < layout.assemble(6, 0));
    assert!(layout.assemble(5, 7) < layout.assemble(5, 8));
    assert!(layout.assemble(0, 0) < layout.assemble(0, 1));
    assert!(layout.assemble((1 << 42) - 2, 4095) < layout.assemble((1 << 42) - 1, 0));
}

#[test]
fn since_epoch_counts_from_the_epoch_and_stops_at_zero() {
    assert_eq!(since_epoch(1_640_995_200_123, 1_640_995_200_000), 123);
    assert_eq!(since_epoch(5, 10), 0);
    assert_eq!(since_epoch(10, 10), 0);
    assert_eq!(since_epoch((1u128 << 64) + 7, 2), 5);
}

// ---- configuration ----

#[test]
fn boundary_identities_are_accepted() {
    let mut cfg = create_test_config();
    cfg.worker_id = cfg.max_worker_id;
    cfg.datacenter_id = cfg.max_datacenter_id;
    assert!(IDGenerator::new(cfg).is_ok());

    let mut cfg = GeneratorConfig::default();
    cfg.worker_id = cfg.max_worker_id;
    cfg.datacenter_id = cfg.max_datacenter_id;
    assert!(TinyIdGenerator::new(cfg).is_ok());
}

#[test]
fn identities_past_the_boundary_are_refused() {
    let mut cfg = GeneratorConfig::default();
    cfg.worker_id = cfg.max_worker_id + 1;
    assert!(matches!(
        TinyIdGenerator::new(cfg).err(),
        Some(TinyIdError::InvalidWorkerId(64))
    ));

    let mut cfg = GeneratorConfig::default();
    cfg.datacenter_id = cfg.max_datacenter_id + 1;
    assert!(matches!(
        TinyIdGenerator::new(cfg).err(),
        Some(TinyIdError::InvalidDatacenterId(32))
    ));
}

#[test]
fn widths_that_do_not_add_up_to_64_are_refused() {
    let mut cfg = create_test_config();
    cfg.timestamp_bits = 41;
    assert_eq!(cfg.check(), Err(ConfigFault::WidthsDoNotPartition));
    let error = IDGenerator::new(cfg).err().unwrap();
    assert_eq!(error.to_string(), "configuration error:bit widths must add up to 64");

    let mut cfg = GeneratorConfig::default();
    cfg.timestamp_bits = 42;
    assert!(matches!(
        TinyIdGenerator::new(cfg).err(),
        Some(TinyIdError::ConfigError(_))
    ));
    assert!(GeneratorConfig::validate(41, 5, 6, 12));
    assert!(!GeneratorConfig::validate(41, 5, 5, 12));
    assert!(!GeneratorConfig::validate(u32::MAX, u32::MAX, u32::MAX, 67));
}

#[test]
fn maxima_that_do_not_match_the_widths_are_refused() {
    let mut cfg = create_test_config();
    cfg.max_sequence = 4094;
    assert_eq!(cfg.check(), Err(ConfigFault::MaximaDoNotMatch));
    let mut cfg = create_test_config();
    cfg.max_worker_id = 63;
    assert_eq!(cfg.check(), Err(ConfigFault::MaximaDoNotMatch));
    assert_eq!(
        check_layout(0, 0, 40, 4, 4, 16, 0, u32::MAX, 15, 15),
        Err(ConfigFault::MaximaDoNotMatch)
    );
    assert_eq!(
        check_layout(0, 0, 32, 16, 16, 0, 0, u32::MAX, 65535, 65535),
        Err(ConfigFault::WidthsDoNotPartition)
    );
}

#[test]
fn the_worker_is_looked_at_before_the_datacenter() {
    let mut cfg = create_test_config();
    cfg.worker_id = 32;
    cfg.datacenter_id = 32;
    assert_eq!(cfg.check(), Err(ConfigFault::WorkerIdTooLarge));
    cfg.worker_id = 31;
    assert_eq!(cfg.check(), Err(ConfigFault::DatacenterIdTooLarge));
}

#[test]
fn the_default_configurations_have_no_fault() {
    let cfg = GeneratorConfig::default();
    assert_eq!(
        (cfg.timestamp_bits, cfg.datacenter_id_bits, cfg.worker_id_bits, cfg.sequence_bits),
        (41, 5, 6, 12)
    );
    assert_eq!((cfg.max_sequence, cfg.max_worker_id, cfg.max_datacenter_id), (4095, 63, 31));
    assert_eq!(cfg.epoch, 1609459200000);
    assert!(cfg.check().is_ok());

    let cfg = IdGeneratorConfig::default();
    assert_eq!(
        (cfg.timestamp_bits, cfg.datacenter_id_bits, cfg.worker_id_bits, cfg.sequence_bits),
        (42, 3, 7, 12)
    );
    assert_eq!((cfg.max_sequence, cfg.max_worker_id, cfg.max_datacenter_id), (4095, 127, 7));
    assert_eq!(cfg.epoch, 1735689600000);
    assert!(cfg.check().is_ok());
}

// ---- the reservation rule ----

const BITS: u32 = 12;

fn word(timestamp: u64, sequence: u64) -> u64 {
    (timestamp << BITS) + sequence
}

#[test]
fn a_clock_far_behind_fails_with_the_gap() {
    assert_eq!(
        reserve(BITS, 5, 994, word(1000, 3), 1),
        Reservation::ClockBehind { delta: 6 }
    );
    assert_eq!(
        reserve(BITS, 5, 0, word(1000, 0), 7),
        Reservation::ClockBehind { delta: 1000 }
    );
}

#[test]
fn a_clock_a_little_behind_waits() {
    assert_eq!(reserve(BITS, 5, 995, word(1000, 3), 1), Reservation::Wait);
    assert_eq!(reserve(BITS, 5, 999, word(1000, 3), 1), Reservation::Wait);
    assert_eq!(reserve(BITS, 0, 999, word(1000, 3), 1), Reservation::ClockBehind { delta: 1 });
}

#[test]
fn the_same_millisecond_goes_on_from_the_state() {
    assert_eq!(
        reserve(BITS, 5, 1000, word(1000, 3), 1),
        Reservation::Commit { next: word(1000, 4), timestamp: 1000, first: 3, count: 1 }
    );
    assert_eq!(
        reserve(BITS, 5, 1000, word(1000, 3), 10),
        Reservation::Commit { next: word(1000, 13), timestamp: 1000, first: 3, count: 10 }
    );
    // only what is left below the largest sequence number
    assert_eq!(
        reserve(BITS, 5, 1000, word(1000, 4000), 1000),
        Reservation::Commit { next: word(1000, 4095), timestamp: 1000, first: 4000, count: 95 }
    );
}

#[test]
fn a_millisecond_that_is_used_up_waits() {
    assert_eq!(reserve(BITS, 5, 1000, word(1000, 4095), 1), Reservation::Wait);
    assert_eq!(reserve(BITS, 5, 1000, word(1000, 4095), 50), Reservation::Wait);
}

#[test]
fn a_new_millisecond_starts_at_zero() {
    assert_eq!(
        reserve(BITS, 5, 1001, word(1000, 3), 1),
        Reservation::Commit { next: word(1001, 1), timestamp: 1001, first: 0, count: 1 }
    );
    assert_eq!(
        reserve(BITS, 5, 2000, word(1000, 4095), 100),
        Reservation::Commit { next: word(2000, 100), timestamp: 2000, first: 0, count: 100 }
    );
    assert_eq!(
        reserve(BITS, 5, 7, 0, 1),
        Reservation::Commit { next: word(7, 1), timestamp: 7, first: 0, count: 1 }
    );
}

#[test]
fn a_whole_millisecond_leaves_the_state_at_the_next_one() {
    // the sequence number after the largest is never in a state
    assert_eq!(
        reserve(BITS, 5, 1001, word(1000, 3), 5000),
        Reservation::Commit { next: word(1002, 0), timestamp: 1001, first: 0, count: 4096 }
    );
    let next = word(1002, 0);
    assert_eq!(next & 4095, 0);
    assert_eq!(next >> BITS, 1002);
    // and the caller that comes in the same millisecond waits for the clock
    assert_eq!(reserve(BITS, 5, 1001, next, 1), Reservation::Wait);
}

#[test]
fn the_rule_holds_at_the_narrowest_and_the_widest_sequence_field() {
    // no bit of sequence: one identifier to a millisecond
    assert_eq!(
        reserve(0, 5, 7, 0, 3),
        Reservation::Commit { next: 8, timestamp: 7, first: 0, count: 1 }
    );
    assert_eq!(reserve(0, 5, 7, 8, 1), Reservation::Wait);
    assert_eq!(reserve(0, 5, 7, 7, 1), Reservation::Wait);
    assert_eq!(reserve(0, 5, 1, 8, 1), Reservation::ClockBehind { delta: 7 });
    // 32 bits of sequence
    assert_eq!(
        reserve(32, 5, 1, 0, u64::MAX),
        Reservation::Commit { next: 2 << 32, timestamp: 1, first: 0, count: 1 << 32 }
    );
    assert_eq!(
        reserve(32, 5, 1, (1 << 32) + 10, 5),
        Reservation::Commit { next: (1 << 32) + 15, timestamp: 1, first: 10, count: 5 }
    );
}

#[test]
fn a_clock_beyond_the_state_word_wraps_around() {
    // the last millisecond the state word can hold, taken whole
    let last = (1u64 << 52) - 1;
    assert_eq!(
        reserve(BITS, 5, last, 0, 4096),
        Reservation::Commit { next: 0, timestamp: last, first: 0, count: 4096 }
    );
    assert_eq!(
        reserve(BITS, 5, last, 0, 4095),
        Reservation::Commit { next: u64::MAX, timestamp: last, first: 0, count: 4095 }
    );
    // a reading that does not fit the word loses its high bits there
    assert_eq!(
        reserve(BITS, 5, (1u64 << 52) + 3, 0, 1),
        Reservation::Commit { next: word(3, 1), timestamp: (1u64 << 52) + 3, first: 0, count: 1 }
    );
}

#[test]
fn committed_states_only_grow() {
    let mut state = 0u64;
    let requests: [(u64, u64); 9] = [
        (10, 1),
        (10, 1),
        (10, 4000),
        (10, 200),
        (10, 1),
        (11, 5000),
        (11, 1),
        (12, 3),
        (12, 1),
    ];
    let mut seen = HashSet::new();
    for &(now, want) in requests.iter() {
        match reserve(BITS, 5, now, state, want) {
            Reservation::Commit { next, timestamp, first, count } => {
                assert!(next > state);
                assert!((next >> BITS, next & 4095) > (state >> BITS, state & 4095));
                for sequence in first..first + count {
                    assert!(sequence <= 4095);
                    assert!(seen.insert((timestamp, sequence)));
                }
                state = next;
            }
            Reservation::Wait => {}
            Reservation::ClockBehind { .. } => panic!("the clock never ran behind"),
        }
    }
    assert_eq!(seen.len(), 1 + 1 + 4000 + 93 + 4096 + 3 + 1);
}

#[test]
fn a_batch_takes_what_single_requests_would() {
    let cases: [(u64, u64, u64); 4] =
        [(1000, word(1000, 3), 50), (1001, word(1000, 3), 50), (5, 0, 4095), (9, word(9, 0), 1)];
    for &(now, start, n) in cases.iter() {
        let batch = reserve(BITS, 5, now, start, n);
        let (batch_next, batch_first) = match batch {
            Reservation::Commit { next, timestamp, first, count } => {
                assert_eq!(timestamp, now);
                assert_eq!(count, n);
                (next, first)
            }
            _ => panic!("the batch was not served"),
        };
        let mut state = start;
        for k in 0..n {
            match reserve(BITS, 5, now, state, 1) {
                Reservation::Commit { next, timestamp, first, count } => {
                    assert_eq!((timestamp, first, count), (now, batch_first + k, 1));
                    state = next;
                }
                _ => panic!("a single request was not served"),
            }
        }
        assert_eq!(state, batch_next);
    }
}

// ---- the generator with a clock that the test holds ----

#[test]
fn a_rollback_beyond_the_tolerance_fails_with_the_gap() {
    let generator = IDGenerator::new(create_test_config()).unwrap();
    assert_eq!(generator.tolerance_ms(), DEFAULT_TOLERANCE_MS);
    assert_eq!(
        generator.attempt(1000, 1),
        Attempt::Issued { timestamp: 1000, first: 0, count: 1 }
    );
    assert_eq!(generator.attempt(994, 1), Attempt::Failed { delta: 6 });
    assert_eq!(generator.attempt(900, 1), Attempt::Failed { delta: 100 });
    // nothing was taken meanwhile
    assert_eq!(
        generator.attempt(1000, 1),
        Attempt::Issued { timestamp: 1000, first: 1, count: 1 }
    );
}

#[test]
fn a_rollback_within_the_tolerance_waits_and_then_succeeds() {
    let generator = IDGenerator::new(create_test_config()).unwrap();
    assert_eq!(
        generator.attempt(1000, 1),
        Attempt::Issued { timestamp: 1000, first: 0, count: 1 }
    );
    assert_eq!(generator.attempt(995, 1), Attempt::Retry);
    assert_eq!(generator.attempt(999, 1), Attempt::Retry);
    assert_eq!(
        generator.attempt(1000, 1),
        Attempt::Issued { timestamp: 1000, first: 1, count: 1 }
    );
    assert_eq!(
        generator.attempt(1001, 1),
        Attempt::Issued { timestamp: 1001, first: 0, count: 1 }
    );
}

#[test]
fn the_tolerance_can_be_chosen() {
    let generator = IDGenerator::with_tolerance(create_test_config(), 50).unwrap();
    assert_eq!(generator.tolerance_ms(), 50);
    assert_eq!(
        generator.attempt(1000, 1),
        Attempt::Issued { timestamp: 1000, first: 0, count: 1 }
    );
    assert_eq!(generator.attempt(950, 1), Attempt::Retry);
    assert_eq!(generator.attempt(949, 1), Attempt::Failed { delta: 51 });
}

#[test]
fn without_tolerance_a_millisecond_taken_whole_fails_the_next_caller() {
    let strict = IDGenerator::with_tolerance(create_test_config(), 0).unwrap();
    assert_eq!(
        strict.attempt(100, 4096),
        Attempt::Issued { timestamp: 100, first: 0, count: 4096 }
    );
    assert_eq!(strict.attempt(100, 1), Attempt::Failed { delta: 1 });
    assert_eq!(
        strict.attempt(101, 1),
        Attempt::Issued { timestamp: 101, first: 0, count: 1 }
    );

    let lenient = IDGenerator::with_tolerance(create_test_config(), 1).unwrap();
    assert_eq!(
        lenient.attempt(100, 4096),
        Attempt::Issued { timestamp: 100, first: 0, count: 4096 }
    );
    assert_eq!(lenient.attempt(100, 1), Attempt::Retry);
    assert_eq!(
        lenient.attempt(101, 1),
        Attempt::Issued { timestamp: 101, first: 0, count: 1 }
    );
}

#[test]
fn a_batch_of_none_succeeds_and_takes_nothing() {
    let generator = IDGenerator::new(create_test_config()).unwrap();
    assert_eq!(generator.generate_ids_batch(0).unwrap(), Vec::<u64>::new());
    assert_eq!(generator.total_generated(), 0);
    // nothing was reserved: the next caller gets sequence number zero
    assert_eq!(
        generator.attempt(1, 1),
        Attempt::Issued { timestamp: 1, first: 0, count: 1 }
    );
    let engine = Engine::new(test_layout(), 5);
    assert_eq!(engine.generate_ids_batch(0).unwrap(), Vec::<u64>::new());
    assert_eq!(engine.state_word(), 0);
}

#[test]
fn a_state_ahead_of_the_wall_clock_fails_next_id() {
    let generator = IDGenerator::new(create_test_config()).unwrap();
    let now = generator.get_current_timestamp().unwrap();
    let ahead = now + 3_600_000;
    assert_eq!(
        generator.attempt(ahead, 1),
        Attempt::Issued { timestamp: ahead, first: 0, count: 1 }
    );
    match generator.next_id() {
        Err(TinyIdError::ClockMovedBackwards(delta)) => {
            assert!(delta > 3_590_000 && delta <= 3_600_000);
        }
        other => panic!("expected a clock error, got {:?}", other),
    }
    match generator.generate_ids_batch(3) {
        Err(TinyIdError::ClockMovedBackwards(delta)) => {
            assert!(delta > 3_590_000 && delta <= 3_600_000);
        }
        other => panic!("expected a clock error, got {:?}", other),
    }
}

#[test]
fn a_state_a_little_ahead_of_the_wall_clock_is_waited_for() {
    let generator = IDGenerator::new(create_test_config()).unwrap();
    let now = generator.get_current_timestamp().unwrap();
    let ahead = now + 3;
    assert_eq!(
        generator.attempt(ahead, 1),
        Attempt::Issued { timestamp: ahead, first: 0, count: 1 }
    );
    let id = generator.next_id().unwrap();
    let (instant, sequence) = generator.parse_id(id);
    assert!(instant - generator.config().epoch >= ahead);
    assert!(instant - generator.config().epoch > ahead || sequence == 1);
}

#[test]
fn the_engine_starts_from_a_zeroed_state() {
    let engine = Engine::new(test_layout(), 5);
    assert_eq!(engine.state_word(), 0);
    assert_eq!(engine.layout(), test_layout());
    assert_eq!(engine.tolerance_ms(), 5);
    assert_eq!(engine.attempt(3, 2), Attempt::Issued { timestamp: 3, first: 0, count: 2 });
    assert_eq!(engine.state_word(), (3 << 12) + 2);
    assert_eq!(engine.attempt(3, 1), Attempt::Issued { timestamp: 3, first: 2, count: 1 });
    assert_eq!(engine.state_word(), (3 << 12) + 3);
}

#[test]
fn a_look_that_lost_the_race_takes_nothing() {
    let engine = Engine::new(test_layout(), 5);
    let seen = engine.state_word();
    assert_eq!(engine.attempt(9, 1), Attempt::Issued { timestamp: 9, first: 0, count: 1 });
    // the word that was seen is gone: nothing is swapped
    let state = engine.state_word();
    assert_eq!(engine.attempt_from(seen, 9, 1), Attempt::Retry);
    assert_eq!(engine.state_word(), state);
    // with the word as it stands the look succeeds
    assert_eq!(
        engine.attempt_from(state, 9, 3),
        Attempt::Issued { timestamp: 9, first: 1, count: 3 }
    );
    assert_eq!(engine.attempt_from(engine.state_word(), 2, 1), Attempt::Failed { delta: 7 });
    assert_eq!(engine.attempt_from(engine.state_word(), 4, 1), Attempt::Retry);
}

#[test]
fn waiting_and_failing_leave_the_state_alone() {
    let engine = Engine::new(test_layout(), 5);
    assert_eq!(engine.attempt(100, 4096), Attempt::Issued { timestamp: 100, first: 0, count: 4096 });
    let state = engine.state_word();
    assert_eq!(state, 101 << 12);
    assert_eq!(engine.attempt(100, 1), Attempt::Retry);
    assert_eq!(engine.attempt(10, 1), Attempt::Failed { delta: 91 });
    assert_eq!(engine.state_word(), state);
}

// ---- batches ----

#[test]
fn a_batch_has_as_many_identifiers_as_were_asked_for() {
    let generator = IDGenerator::new(create_test_config()).unwrap();
    for &count in [0usize, 1, 2, 100, 4096, 5000, 10000].iter() {
        let ids = generator.generate_ids_batch(count).unwrap();
        assert_eq!(ids.len(), count);
    }
    assert_eq!(generator.total_generated(), 1 + 2 + 100 + 4096 + 5000 + 10000);
}

#[test]
fn batches_and_single_identifiers_never_collide() {
    let generator = IDGenerator::new(create_test_config()).unwrap();
    let mut seen = HashSet::new();
    for round in 0..20 {
        for id in generator.generate_ids_batch(300 + round).unwrap() {
            assert!(seen.insert(id));
        }
        for _ in 0..50 {
            assert!(seen.insert(generator.next_id().unwrap()));
        }
    }
    assert_eq!(seen.len(), 20 * 300 + 190 + 20 * 50);
}

#[test]
fn a_batch_comes_in_the_order_of_issue() {
    let generator = IDGenerator::new(create_test_config()).unwrap();
    let ids = generator.generate_ids_batch(6000).unwrap();
    for pair in ids.windows(2) {
        assert!(pair[0] < pair[1]);
        let (t0, s0) = generator.parse_id(pair[0]);
        let (t1, s1) = generator.parse_id(pair[1]);
        // contiguous within a millisecond, from zero in a new one
        assert!((t1 == t0 && s1 == s0 + 1) || (t1 > t0 && s1 == 0));
    }
    for &id in ids.iter() {
        assert_eq!((id >> 12) & 31, 1);
        assert_eq!((id >> 17) & 31, 1);
    }
}

#[test]
fn a_batch_parses_to_what_single_calls_give() {
    // two generators fed the same clock readings
    let batch = IDGenerator::new(create_test_config()).unwrap();
    let single = IDGenerator::new(create_test_config()).unwrap();
    let issued = match batch.attempt(77, 40) {
        Attempt::Issued { timestamp, first, count } => {
            assert_eq!((timestamp, first, count), (77, 0, 40));
            (0..40u32).map(|s| batch.parse_id(batch.assemble_id(77, s))).collect::<Vec<_>>()
        }
        other => panic!("the batch was not served: {:?}", other),
    };
    let mut one_by_one = Vec::new();
    for _ in 0..40 {
        match single.attempt(77, 1) {
            Attempt::Issued { timestamp, first, count } => {
                assert_eq!(count, 1);
                one_by_one.push(single.parse_id(single.assemble_id(timestamp, first as u32)));
            }
            other => panic!("a single identifier was not served: {:?}", other),
        }
    }
    assert_eq!(issued, one_by_one);
}

#[test]
fn the_counter_counts_what_was_minted() {
    let generator = IDGenerator::new(create_test_config()).unwrap();
    assert_eq!(generator.total_generated(), 0);
    generator.next_id().unwrap();
    generator.next_id().unwrap();
    generator.generate_ids_batch(10).unwrap();
    assert_eq!(generator.total_generated(), 12);
}

#[test]
fn the_standalone_generator_assembles_with_its_own_layout() {
    let generator = TinyIdGenerator::new(GeneratorConfig::default()).unwrap();
    assert_eq!(generator.config().worker_id_bits, 6);
    // 7 << 23 | 0 << 18 | 0 << 12 | 9
    assert_eq!(generator.assemble_id(7, 9), (7 << 23) + 9);
    assert!(generator.get_current_timestamp().unwrap() > 0);
}
