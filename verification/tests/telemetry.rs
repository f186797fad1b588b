use solar_sim::telemetry::{TelemetryBatch, TelemetryRecord};

fn names() -> Vec<String> {
    vec!["Mercury".to_string(), "Venus".to_string(), "Earth".to_string()]
}

fn record(index: usize, name: &str, timestamp: u64) -> TelemetryRecord {
    TelemetryRecord {
        index,
        type_object: "planet".to_string(),
        name: name.to_string(),
        timestamp,
    }
}

#[test]
fn all_records_of_a_batch_share_one_timestamp() {
    let mut batch = TelemetryBatch::new(names(), 1_700_000_000);
    let mut sent = Vec::new();
    while let Some(next) = batch.next_record() {
        sent.push(next);
        batch.record_result(true);
    }
    assert_eq!(
        sent,
        vec![
            record(0, "Mercury", 1_700_000_000),
            record(1, "Venus", 1_700_000_000),
            record(2, "Earth", 1_700_000_000),
        ]
    );
    assert!(sent.iter().all(|r| r.timestamp == sent[0].timestamp));
    assert_eq!(batch.delivered(), 3);
    assert!(batch.is_complete());
    assert!(!batch.is_aborted());
}

#[test]
fn next_record_repeats_until_answered() {
    let batch = TelemetryBatch::new(names(), 5);
    assert_eq!(batch.next_record(), Some(record(0, "Mercury", 5)));
    assert_eq!(batch.next_record(), Some(record(0, "Mercury", 5)));
    assert_eq!(batch.delivered(), 0);
}

#[test]
fn a_refusal_drops_the_rest_of_the_batch() {
    let mut batch = TelemetryBatch::new(names(), 5);
    assert_eq!(batch.next_record(), Some(record(0, "Mercury", 5)));
    batch.record_result(true);
    assert_eq!(batch.next_record(), Some(record(1, "Venus", 5)));
    batch.record_result(false);
    assert_eq!(batch.next_record(), None);
    assert!(batch.is_aborted());
    assert!(!batch.is_complete());
    assert_eq!(batch.delivered(), 1);
    batch.record_result(true);
    assert_eq!(batch.next_record(), None);
    assert_eq!(batch.delivered(), 1);
}

#[test]
fn an_empty_batch_is_complete_at_once() {
    let mut batch = TelemetryBatch::new(Vec::new(), 5);
    assert_eq!(batch.next_record(), None);
    assert!(batch.is_complete());
    assert!(!batch.is_aborted());
    batch.record_result(false);
    assert!(!batch.is_aborted());
    assert_eq!(batch.delivered(), 0);
}

#[test]
fn answers_after_completion_change_nothing() {
    let mut batch = TelemetryBatch::new(vec!["Mars".to_string()], 9);
    assert_eq!(batch.next_record(), Some(record(0, "Mars", 9)));
    batch.record_result(true);
    assert!(batch.is_complete());
    batch.record_result(false);
    assert!(batch.is_complete());
    assert!(!batch.is_aborted());
    assert_eq!(batch.delivered(), 1);
}
