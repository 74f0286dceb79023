//! Values and small rules: durations, retry policies, errors, states,
//! metadata, keys and instance IDs.

use memable::clock;
use memable::keys;
use memable::metadata;
use memable::textmap::TextMap;
use memable::{
    ChildError, Duration, EngineError, MetadataStatus, RetryPolicy, StateError, StepError,
    SubscribeError, WorkflowMetadata, WorkflowState, Write,
};

#[test]
fn duration_parts() {
    let d = Duration::from_parts(3, 250_000_000);
    assert_eq!(d.as_secs(), 3);
    assert_eq!(d.subsec_nanos(), 250_000_000);
    assert_eq!(d.as_millis(), 3250);
    assert_eq!(Duration::from_millis(3250), d);
    assert_eq!(Duration::from_secs(3).subsec_nanos(), 0);
}

#[test]
fn duration_saturates_like_std() {
    let longest = Duration::from_parts(u64::MAX, 999_999_999);
    assert_eq!(Duration::from_secs(u64::MAX).saturating_mul(2), longest);
    assert_eq!(longest.saturating_mul(1), longest);
    for (secs, nanos, factor) in [(0, 1, 3), (1, 999_999_999, 7), (u64::MAX / 2, 5, 2), (9, 0, u32::MAX)] {
        let ours = Duration::from_parts(secs, nanos).saturating_mul(factor);
        let std = std::time::Duration::new(secs, nanos).saturating_mul(factor);
        assert_eq!((ours.as_secs(), ours.subsec_nanos()), (std.as_secs(), std.subsec_nanos()));
    }
    assert_eq!(Duration::from_secs(2).min(Duration::from_secs(1)), Duration::from_secs(1));
}

#[test]
fn fixed_delay_never_changes() {
    let policy = RetryPolicy::fixed(3, Duration::from_secs(1));
    assert_eq!(policy.max_retries(), 3);
    for attempt in [0, 1, 2, 63, u32::MAX] {
        assert_eq!(policy.delay_for(attempt), Duration::from_secs(1));
    }
}

#[test]
fn exponential_delays_double_up_to_the_cap() {
    let policy = RetryPolicy::exponential(5, Duration::from_secs(1));
    let delays: Vec<u64> = (0..7).map(|n| policy.delay_for(n).as_secs()).collect();
    assert_eq!(delays, vec![1, 2, 4, 8, 16, 30, 30]);
}

#[test]
fn max_delay_replaces_the_cap() {
    let policy = RetryPolicy::exponential(5, Duration::from_secs(1))
        .with_max_delay(Duration::from_secs(10));
    let delays: Vec<u64> = (0..6).map(|n| policy.delay_for(n).as_secs()).collect();
    assert_eq!(delays, vec![1, 2, 4, 8, 10, 10]);
    let fixed = RetryPolicy::fixed(1, Duration::from_secs(20)).with_max_delay(Duration::from_secs(10));
    assert_eq!(fixed.delay_for(0), Duration::from_secs(20));
}

#[test]
fn exponential_delays_double_however_many_attempts() {
    let policy = RetryPolicy::exponential(40, Duration::from_parts(0, 1));
    assert_eq!(policy.delay_for(31), Duration::from_parts(2, 147_483_648));
    assert_eq!(policy.delay_for(32), Duration::from_parts(4, 294_967_296));
    assert_eq!(policy.delay_for(33), Duration::from_parts(8, 589_934_592));
    assert_eq!(policy.delay_for(34), Duration::from_parts(17, 179_869_184));
    assert_eq!(policy.delay_for(35), Duration::from_secs(30));
    assert_eq!(policy.delay_for(u32::MAX), Duration::from_secs(30));

    let longest = Duration::from_parts(u64::MAX, 999_999_999);
    let policy = policy.with_max_delay(longest);
    assert_eq!(policy.delay_for(64), Duration::from_parts(18_446_744_073, 709_551_616));
    assert_eq!(policy.delay_for(94), longest);
    assert_eq!(policy.delay_for(u32::MAX), longest);

    let none = RetryPolicy::exponential(3, Duration::from_secs(0));
    assert_eq!(none.delay_for(u32::MAX), Duration::from_secs(0));
}

#[test]
fn cloned_policy_has_the_same_delays() {
    let policy = RetryPolicy::exponential(4, Duration::from_millis(10));
    let copy = policy.clone();
    assert_eq!(copy.max_retries(), 4);
    assert_eq!(copy.delay_for(3), Duration::from_millis(80));
}

#[test]
fn engine_error_messages() {
    let cases = [
        (EngineError::Storage("disk full".into()), "storage error: disk full"),
        (
            EngineError::Serialization { key: "k".into(), source: "bad".into() },
            "serialization error for step 'k': bad",
        ),
        (EngineError::step_failed("my-step", "boom", false), "step 'my-step' failed: boom"),
        (EngineError::NotStarted, "engine has not been started"),
        (EngineError::WorkflowNotFound("wf".into()), "workflow 'wf' is not registered"),
        (
            EngineError::StepTimeout { key: "slow".into(), duration: Duration::from_millis(100) },
            "step 'slow' timed out after 100ms",
        ),
        (
            EngineError::StepTimeout { key: "slow".into(), duration: Duration::from_millis(1500) },
            "step 'slow' timed out after 1.5s",
        ),
        (
            EngineError::InvalidKey { label: "instance_id", value: "a/b".into() },
            "invalid key component (instance_id): 'a/b' must not contain '/'",
        ),
        (
            EngineError::TypeMismatch {
                key: "approval:v1".into(),
                expected: "i32".into(),
                found: "alloc::string::String".into(),
            },
            "type mismatch for step 'approval:v1': expected `i32`, found `alloc::string::String`",
        ),
        (
            EngineError::SignalRejected { key: "k".into(), reason: "step does not exist".into() },
            "signal rejected for step 'k': step does not exist",
        ),
        (
            EngineError::SignalSuperseded { key: "approval:v1".into() },
            "signal superseded for step 'approval:v1': another caller already claimed it",
        ),
        (
            EngineError::SuspendedStepConflict { key: "approval:v1".into() },
            "step 'approval:v1' has a suspended entry but was called as a regular step — the workflow code likely changed while an instance was suspended",
        ),
        (
            EngineError::retries_exhausted("fetch:v1", 3, "connection refused"),
            "step 'fetch:v1' failed after 3 attempts: connection refused",
        ),
        (EngineError::Suspended { key: "gate".into() }, "workflow suspended at step 'gate'"),
    ];
    for (error, text) in cases {
        assert_eq!(error.to_string(), text);
    }
    let missing = EngineError::InputMissing { workflow: "greet".into() };
    assert!(missing.to_string().contains("greet"));
}

#[test]
fn error_constructors_keep_their_arguments() {
    assert_eq!(
        EngineError::step_failed("s", "boom", true),
        EngineError::StepFailed { key: "s".into(), source: "boom".into(), retryable: true }
    );
    assert_eq!(
        EngineError::retries_exhausted("s", 7, "boom"),
        EngineError::RetriesExhausted { key: "s".into(), attempts: 7, source: "boom".into() }
    );
    assert_eq!(StepError::retryable("timeout").to_string(), "retryable: timeout");
    assert_eq!(StepError::permanent("bad input").to_string(), "permanent: bad input");
}

#[test]
fn query_error_messages() {
    let not_found =
        SubscribeError::NotFound { workflow_name: "etl".into(), instance_id: "run-42".into() };
    assert_eq!(
        not_found.to_string(),
        "no instance found for workflow 'etl' with id 'run-42'"
    );
    let stale =
        SubscribeError::StaleRunning { workflow_name: "etl".into(), instance_id: "run-42".into() };
    assert_eq!(
        stale.to_string(),
        "instance 'run-42' of workflow 'etl' has stale Running metadata (likely crashed) — consider calling resume()"
    );
    assert_eq!(SubscribeError::Storage("io".into()).to_string(), "storage error: io");
    let missing = StateError::NotFound { workflow_name: "etl".into(), instance_id: "7".into() };
    assert!(missing.to_string().contains("'etl'") && missing.to_string().contains("'7'"));
    assert_eq!(StateError::Storage("io".into()).to_string(), "storage error: io");
    let child = ChildError::new("p/c-0", "broke".to_string());
    assert_eq!((child.instance_id(), child.message()), ("p/c-0", "broke"));
}

#[test]
fn state_texts_and_messages() {
    let cases: Vec<(WorkflowState, &str, Option<&str>, bool)> = vec![
        (WorkflowState::Started, "started", None, false),
        (
            WorkflowState::InProgress("syncing records".into()),
            "in progress: syncing records",
            Some("syncing records"),
            false,
        ),
        (
            WorkflowState::Suspended { key: "gate".into(), status: "waiting".into() },
            "suspended (gate): waiting",
            Some("waiting"),
            false,
        ),
        (WorkflowState::Completed(None), "completed", None, true),
        (WorkflowState::Completed(Some("done".into())), "completed: done", Some("done"), true),
        (WorkflowState::Failed("err".into()), "failed: err", Some("err"), true),
    ];
    for (state, text, message, terminal) in cases {
        assert_eq!(state.to_string(), text);
        assert_eq!(state.message(), message);
        assert_eq!(state.is_terminal(), terminal);
        assert_eq!(state.clone(), state);
    }
}

#[test]
fn metadata_status_texts() {
    let cases: Vec<(MetadataStatus, &str, bool)> = vec![
        (MetadataStatus::Running, "running", false),
        (
            MetadataStatus::Suspended { key: "gate".into(), status: "waiting".into() },
            "suspended: waiting",
            false,
        ),
        (MetadataStatus::Completed(None), "completed", true),
        (MetadataStatus::Completed(Some("done".into())), "completed: done", true),
        (MetadataStatus::Failed("connection reset".into()), "failed: connection reset", true),
    ];
    for (status, text, terminal) in cases {
        assert_eq!(status.to_string(), text);
        assert_eq!(status.is_terminal(), terminal);
        assert_eq!(status.clone(), status);
    }
}

#[test]
fn completion_time_is_set_for_terminal_statuses_only() {
    let before = clock::now_unix_secs().expect("after the epoch");
    let done = WorkflowMetadata::new(MetadataStatus::Completed(None)).expect("after the epoch");
    let after = clock::now_unix_secs().expect("after the epoch");
    let at = done.completed_at().expect("terminal");
    assert!(before <= at && at <= after);
    assert!(before > 1_600_000_000);
    let running = WorkflowMetadata::new(MetadataStatus::Running).expect("not terminal");
    assert_eq!(running.completed_at(), None);
    let failed = WorkflowMetadata::new_at(MetadataStatus::Failed("x".into()), 77);
    assert_eq!(failed.completed_at(), Some(77));
    assert_eq!(failed.status(), &MetadataStatus::Failed("x".into()));
}

#[test]
fn metadata_rows_read_back() {
    let statuses = vec![
        MetadataStatus::Running,
        MetadataStatus::Suspended { key: "gate:v1".into(), status: "häng".into() },
        MetadataStatus::Completed(None),
        MetadataStatus::Completed(Some("done".into())),
        MetadataStatus::Failed(String::new()),
    ];
    for status in statuses {
        let meta = WorkflowMetadata::new_at(status, 1_700_000_000);
        let bytes = meta.encode();
        assert_eq!(WorkflowMetadata::decode(&bytes), Ok(meta));
    }
}

#[test]
fn metadata_rows_have_the_format_of_the_derived_encoding() {
    let meta = WorkflowMetadata::new_at(
        MetadataStatus::Suspended { key: "k".into(), status: "st".into() },
        9,
    );
    assert_eq!(meta.encode(), vec![1, 1, b'k', 2, b's', b't', 0]);
    let done = WorkflowMetadata::new_at(MetadataStatus::Completed(Some("x".into())), 300);
    assert_eq!(done.encode(), vec![2, 1, 1, b'x', 1, 0xAC, 0x02]);
    let failed = WorkflowMetadata::new_at(MetadataStatus::Failed("no".into()), 1);
    assert_eq!(failed.encode(), vec![3, 2, b'n', b'o', 1, 1]);
    assert_eq!(WorkflowMetadata::new_at(MetadataStatus::Running, 5).encode(), vec![0, 0]);
}

#[test]
fn broken_metadata_rows_are_serialization_errors() {
    for bytes in [vec![], vec![4, 0], vec![1, 5, b'k'], vec![0, 2], vec![3, 1, 0xFF, 0]] {
        let expected = metadata_error(&bytes);
        let row = metadata::read_metadata(Some(bytes), "wf", "id").unwrap_err();
        assert_eq!(row, EngineError::Serialization { key: "wf/id".into(), source: expected });
    }
    assert_eq!(metadata::read_metadata(None, "wf", "id"), Ok(None));
}

fn metadata_error(bytes: &[u8]) -> String {
    let error = match bytes.first() {
        None => postcard::Error::DeserializeUnexpectedEnd,
        Some(4) => postcard::Error::SerdeDeCustom,
        Some(1) => postcard::Error::DeserializeUnexpectedEnd,
        Some(0) => postcard::Error::DeserializeBadOption,
        _ => postcard::Error::DeserializeBadUtf8,
    };
    error.to_string()
}

#[test]
fn broken_numbers_and_options_are_told_apart() {
    let end = postcard::Error::DeserializeUnexpectedEnd.to_string();
    let number = postcard::Error::DeserializeBadVarint.to_string();
    let option = postcard::Error::DeserializeBadOption.to_string();
    let variant = postcard::Error::SerdeDeCustom.to_string();
    let long = |last: u8| [&[0, 1][..], &[255; 9], &[last]].concat();
    let cases: Vec<(Vec<u8>, &String)> = vec![
        (vec![128], &end),
        (vec![255, 255, 255, 255, 15], &variant),
        (vec![255, 255, 255, 255, 16], &number),
        (vec![128, 128, 128, 128, 128], &number),
        (vec![0], &end),
        (vec![0, 2], &option),
        (vec![0, 1], &end),
        (long(2), &number),
        (long(128), &number),
    ];
    for (bytes, source) in cases {
        assert_eq!(WorkflowMetadata::decode(&bytes), Err(source.clone()), "{bytes:?}");
    }
    let last = WorkflowMetadata::decode(&long(1)).unwrap();
    assert_eq!(last.completed_at(), Some(u64::MAX));
    assert_eq!(WorkflowMetadata::decode(&[128, 0, 0]).unwrap().completed_at(), None);
}

#[test]
fn bytes_behind_a_metadata_row_are_ignored() {
    let meta = WorkflowMetadata::new_at(MetadataStatus::Running, 0);
    let mut bytes = meta.encode();
    bytes.extend_from_slice(&[9, 9]);
    assert_eq!(WorkflowMetadata::decode(&bytes), Ok(meta));
}

#[test]
fn metadata_write_goes_to_the_instance_key() {
    let meta = WorkflowMetadata::new_at(MetadataStatus::Running, 0);
    assert_eq!(
        metadata::write_metadata("wf", "id", &meta),
        Write::PutMeta { key: "wf/id".into(), value: vec![0, 0] }
    );
}

#[test]
fn listing_strips_the_workflow_name() {
    let running = WorkflowMetadata::new_at(MetadataStatus::Running, 0);
    let failed = WorkflowMetadata::new_at(MetadataStatus::Failed("x".into()), 3);
    let rows = vec![
        ("wf/a".to_string(), running.encode()),
        ("wf/parent/child-0".to_string(), failed.encode()),
    ];
    assert_eq!(
        metadata::list_metadata(rows, "wf"),
        Ok(vec![("a".to_string(), running), ("parent/child-0".to_string(), failed)])
    );
    let broken = vec![("wf/a".to_string(), vec![7])];
    assert_eq!(
        metadata::list_metadata(broken, "wf"),
        Err(EngineError::Serialization {
            key: "wf/a".into(),
            source: postcard::Error::SerdeDeCustom.to_string(),
        })
    );
    assert_eq!(metadata::list_metadata(vec![], "wf"), Ok(vec![]));
}

#[test]
fn recorded_states() {
    assert_eq!(MetadataStatus::Running.recorded_state(), WorkflowState::Started);
    assert_eq!(
        MetadataStatus::Suspended { key: "k".into(), status: "s".into() }.recorded_state(),
        WorkflowState::Suspended { key: "k".into(), status: "s".into() }
    );
    assert_eq!(
        MetadataStatus::Completed(Some("m".into())).recorded_state(),
        WorkflowState::Completed(Some("m".into()))
    );
    assert_eq!(
        MetadataStatus::Failed("m".into()).recorded_state(),
        WorkflowState::Failed("m".into())
    );
}

#[test]
fn key_components_reject_the_delimiter() {
    assert_eq!(keys::validate_key_component("fine:v1", "instance_id"), Ok(()));
    assert_eq!(keys::validate_key_component("", "instance_id"), Ok(()));
    assert_eq!(
        keys::validate_key_component("bad/id", "instance_id"),
        Err(EngineError::InvalidKey { label: "instance_id", value: "bad/id".into() })
    );
    assert!(keys::is_valid_step_key("s1"));
    assert!(keys::is_valid_step_key("a_b"));
    assert!(keys::is_valid_step_key(""));
    assert!(!keys::is_valid_step_key("bad/key"));
    assert!(!keys::is_valid_step_key("_reserved"));
}

#[test]
fn step_key_faults() {
    assert_eq!(keys::step_key_fault("fetch:v1"), None);
    assert_eq!(keys::step_key_fault(""), None);
    assert_eq!(keys::step_key_fault("a/b"), Some(keys::KeyFault::Delimiter));
    assert_eq!(keys::step_key_fault("_a/b"), Some(keys::KeyFault::Delimiter));
    assert_eq!(keys::step_key_fault("_input"), Some(keys::KeyFault::Reserved));
}

#[test]
fn composite_keys() {
    assert_eq!(keys::metadata_key("wf", "id"), "wf/id");
    assert_eq!(keys::composite_key("wf", "id", "s1"), "wf/id/s1");
    assert_eq!(keys::child_range("wf/id"), ("wf/id/".to_string(), "wf/id0".to_string()));
    assert_eq!(keys::child_instance_id("parent-1", "child-0"), "parent-1/child-0");
    assert_eq!(
        keys::fan_out_child_ids("p", "batch:v1", 3),
        vec!["p/batch:v1-0", "p/batch:v1-1", "p/batch:v1-2"]
    );
}

#[test]
fn child_ranges_hold_exactly_the_extensions() {
    let (start, end) = keys::child_range("wf");
    let inside = ["wf/", "wf/a", "wf/zz/é", "wf/\u{10FFFF}"];
    let outside = ["wf", "wf.", "wf0", "wf-x/a", "vf/a", "wg", "wf1/a", ""];
    for key in inside {
        assert!(start.as_str() <= key && key < end.as_str(), "{key}");
    }
    for key in outside {
        assert!(!(start.as_str() <= key && key < end.as_str()), "{key}");
    }
}

#[test]
fn instance_ids_are_time_and_random_hex() {
    assert_eq!(clock::format_instance_id(1_700_000_000_123, 0xdead_beef), "1700000000123-deadbeef");
    assert_eq!(clock::format_instance_id(0, 0), "0-0");
    assert_eq!(
        clock::format_instance_id(u128::MAX, u64::MAX),
        "340282366920938463463374607431768211455-ffffffffffffffff"
    );
}

#[test]
fn generated_instance_ids_differ() {
    let a = clock::generate_instance_id().expect("after the epoch");
    let b = clock::generate_instance_id().expect("after the epoch");
    assert_ne!(a, b);
    let (ts, rand) = a.split_once('-').expect("dash");
    let ts: u64 = ts.parse().expect("decimal");
    assert!(u64::from_str_radix(rand, 16).is_ok());
    let now = clock::now_unix_millis().expect("in range");
    assert!(ts <= now && now - ts < 60_000);
    assert!(!a.contains('/'));
}

#[test]
fn unix_millis_bounds() {
    assert_eq!(clock::unix_millis(2, 345_999_999), Some(2345));
    assert_eq!(clock::unix_millis(u64::MAX / 1000, 615_000_000), Some(u64::MAX));
    assert_eq!(clock::unix_millis(u64::MAX / 1000, 616_000_000), None);
    assert_eq!(clock::unix_millis(u64::MAX, 0), None);
}

#[test]
fn clock_readings_decide_what_is_returned() {
    let reading = Some((2, 345_999_999));
    assert_eq!(clock::secs_at(reading), Some(2));
    assert_eq!(clock::millis_at(reading), Some(2345));
    assert_eq!(clock::timestamp_at(reading), Some(2345));

    assert_eq!(clock::secs_at(Some((u64::MAX, 0))), Some(u64::MAX));
    assert_eq!(clock::millis_at(Some((u64::MAX, 0))), None);
    assert_eq!(clock::timestamp_at(Some((u64::MAX, 0))), Some(u128::from(u64::MAX) * 1000));

    assert_eq!(clock::secs_at(None), None);
    assert_eq!(clock::millis_at(None), None);
    assert_eq!(clock::timestamp_at(None), None);
}

#[test]
fn text_maps_replace_values_in_place() {
    let mut map: TextMap<u32> = TextMap::new();
    assert!(!map.contains_key("a"));
    map.insert("a", 1);
    map.insert("b", 2);
    map.insert("a", 3);
    assert_eq!(map.get("a"), Some(&3));
    assert_eq!(map.get("b"), Some(&2));
    assert_eq!(map.get("c"), None);
    assert_eq!(map.keys(), vec!["a".to_string(), "b".to_string()]);
}
