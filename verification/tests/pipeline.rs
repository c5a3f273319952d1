use meter_pipeline::consumer::{aggregate_data, AggregateStore, ConsumerData};
use meter_pipeline::data_stream::{
    anomalous_payload, generate_anomalous_reading, generate_normal_reading, generate_reading,
    pacing_interval,
};
use meter_pipeline::meter_reading::{
    parse_meter_reading, MeterReading, MeterReadingError, RawReading, RawValue,
};
use meter_pipeline::query::top_consumers_report;
use rand::SeedableRng;
use rand_chacha::ChaCha12Rng;

const TS: &str = "2024-01-01T00:00:00Z";
const TS_MILLIS: i64 = 1_704_067_200_000;

fn raw(
    timestamp: RawValue,
    meter_id: RawValue,
    consumer_id: RawValue,
    consumption: RawValue,
) -> RawReading {
    RawReading { timestamp, meter_id, consumer_id, consumption }
}

fn good_raw(consumption: i64) -> RawReading {
    raw(
        RawValue::Text(TS.to_string()),
        RawValue::Text("MTR-001".to_string()),
        RawValue::Text("CNS-001".to_string()),
        RawValue::Number(consumption),
    )
}

#[test]
fn well_formed_payload_validates() {
    let r = parse_meter_reading(&good_raw(4250)).unwrap();
    assert_eq!(r.timestamp, TS_MILLIS);
    assert_eq!(r.meter_id, "MTR-001");
    assert_eq!(r.consumer_id, "CNS-001");
    assert_eq!(r.consumption, 4250);
}

#[test]
fn space_separated_timestamp_validates() {
    let mut p = good_raw(100);
    p.timestamp = RawValue::Text("2024-01-01 00:00:00 UTC".to_string());
    let r = parse_meter_reading(&p).unwrap();
    assert_eq!(r.timestamp, TS_MILLIS);
}

#[test]
fn consumption_bounds_are_inclusive() {
    assert_eq!(parse_meter_reading(&good_raw(0)).unwrap().consumption, 0);
    assert_eq!(parse_meter_reading(&good_raw(100_000)).unwrap().consumption, 100_000);
}

#[test]
fn missing_meter_id_is_a_decode_error() {
    let mut p = good_raw(1000);
    p.meter_id = RawValue::Missing;
    let e = parse_meter_reading(&p).unwrap_err();
    assert!(matches!(e, MeterReadingError::DecodeError(m) if m == "missing or invalid meter_id"));
}

#[test]
fn numeric_meter_id_is_a_decode_error() {
    let mut p = good_raw(1000);
    p.meter_id = RawValue::Number(1_234_500);
    assert!(matches!(parse_meter_reading(&p), Err(MeterReadingError::DecodeError(_))));
}

#[test]
fn missing_consumer_id_is_a_decode_error() {
    let mut p = good_raw(1000);
    p.consumer_id = RawValue::Missing;
    let e = parse_meter_reading(&p).unwrap_err();
    assert!(
        matches!(e, MeterReadingError::DecodeError(m) if m == "missing or invalid consumer_id")
    );
}

#[test]
fn non_numeric_consumption_is_a_decode_error() {
    let mut p = good_raw(1000);
    p.consumption = RawValue::Text("InvalidType".to_string());
    let e = parse_meter_reading(&p).unwrap_err();
    assert!(
        matches!(e, MeterReadingError::DecodeError(m) if m == "missing or invalid consumption")
    );
}

#[test]
fn missing_consumption_is_a_decode_error() {
    let mut p = good_raw(1000);
    p.consumption = RawValue::Missing;
    assert!(matches!(parse_meter_reading(&p), Err(MeterReadingError::DecodeError(_))));
}

#[test]
fn unparseable_timestamp_is_a_decode_error() {
    let mut p = good_raw(1000);
    p.timestamp = RawValue::Text("not-a-timestamp".to_string());
    let e = parse_meter_reading(&p).unwrap_err();
    assert!(matches!(e, MeterReadingError::DecodeError(m) if m == "missing or invalid timestamp"));
}

#[test]
fn missing_timestamp_is_a_decode_error() {
    let mut p = good_raw(1000);
    p.timestamp = RawValue::Missing;
    assert!(matches!(parse_meter_reading(&p), Err(MeterReadingError::DecodeError(_))));
}

#[test]
fn other_typed_field_is_a_decode_error() {
    let mut p = good_raw(1000);
    p.consumption = RawValue::Other;
    assert!(matches!(parse_meter_reading(&p), Err(MeterReadingError::DecodeError(_))));
}

#[test]
fn negative_consumption_is_rejected() {
    let e = parse_meter_reading(&good_raw(-100)).unwrap_err();
    assert!(
        matches!(e, MeterReadingError::ValidationError(m) if m == "consumption cannot be negative")
    );
}

#[test]
fn excessive_consumption_is_rejected() {
    let e = parse_meter_reading(&good_raw(150_000)).unwrap_err();
    assert!(matches!(e, MeterReadingError::ValidationError(m) if m == "consumption is too high"));
    let e = parse_meter_reading(&good_raw(100_001)).unwrap_err();
    assert!(matches!(e, MeterReadingError::ValidationError(m) if m == "consumption is too high"));
}

#[test]
fn empty_meter_id_is_rejected() {
    let mut p = good_raw(1000);
    p.meter_id = RawValue::Text(String::new());
    let e = parse_meter_reading(&p).unwrap_err();
    assert!(matches!(e, MeterReadingError::ValidationError(m) if m == "meter ID cannot be empty"));
}

#[test]
fn empty_consumer_id_is_rejected() {
    let mut p = good_raw(1000);
    p.consumer_id = RawValue::Text(String::new());
    let e = parse_meter_reading(&p).unwrap_err();
    assert!(
        matches!(e, MeterReadingError::ValidationError(m) if m == "consumer ID cannot be empty")
    );
}

#[test]
fn first_violated_rule_wins() {
    let mut p = good_raw(-100);
    p.meter_id = RawValue::Text(String::new());
    let e = parse_meter_reading(&p).unwrap_err();
    assert!(
        matches!(e, MeterReadingError::ValidationError(m) if m == "consumption cannot be negative")
    );
    let mut p = good_raw(1000);
    p.timestamp = RawValue::Text("garbage".to_string());
    p.meter_id = RawValue::Missing;
    let e = parse_meter_reading(&p).unwrap_err();
    assert!(matches!(e, MeterReadingError::DecodeError(m) if m == "missing or invalid timestamp"));
}

fn reading(consumer_id: &str, consumption: u64, timestamp: i64) -> MeterReading {
    MeterReading {
        timestamp,
        meter_id: "MTR-001".to_string(),
        consumer_id: consumer_id.to_string(),
        consumption,
    }
}

#[test]
fn single_apply_creates_the_entry() {
    let mut store = AggregateStore::new();
    let parsed = parse_meter_reading(&good_raw(4250)).unwrap();
    aggregate_data(&mut store, &parsed);
    let snap = store.snapshot();
    assert_eq!(snap.len(), 1);
    assert_eq!(snap[0].0, "CNS-001");
    assert_eq!(snap[0].1.total_consumption, 4250);
    assert_eq!(snap[0].1.last_reading_time, Some(TS_MILLIS));
    assert_eq!(store.total_for(&"CNS-001".to_string()), 4250);
}

#[test]
fn sequential_applies_accumulate() {
    let mut store = AggregateStore::new();
    aggregate_data(&mut store, &reading("CNS-002", 3000, 10));
    aggregate_data(&mut store, &reading("CNS-002", 2000, 20));
    assert_eq!(store.total_for(&"CNS-002".to_string()), 5000);
    let snap = store.snapshot();
    assert_eq!(snap.len(), 1);
    assert_eq!(snap[0].1.last_reading_time, Some(20));
}

#[test]
fn last_reading_time_follows_arrival_order() {
    let mut store = AggregateStore::new();
    aggregate_data(&mut store, &reading("CNS-001", 100, 2000));
    aggregate_data(&mut store, &reading("CNS-001", 100, 1000));
    let snap = store.snapshot();
    assert_eq!(snap[0].1.last_reading_time, Some(1000));
}

#[test]
fn distinct_consumers_get_distinct_entries() {
    let mut store = AggregateStore::new();
    aggregate_data(&mut store, &reading("CNS-001", 100, 1));
    aggregate_data(&mut store, &reading("CNS-002", 200, 2));
    aggregate_data(&mut store, &reading("CNS-001", 50, 3));
    assert_eq!(store.total_for(&"CNS-001".to_string()), 150);
    assert_eq!(store.total_for(&"CNS-002".to_string()), 200);
    assert_eq!(store.snapshot().len(), 2);
}

#[test]
fn rejected_payload_leaves_the_store_unchanged() {
    let mut store = AggregateStore::new();
    let mut p = good_raw(1000);
    p.meter_id = RawValue::Missing;
    if let Ok(parsed) = parse_meter_reading(&p) {
        aggregate_data(&mut store, &parsed);
    }
    let too_high = good_raw(150_000);
    if let Ok(parsed) = parse_meter_reading(&too_high) {
        aggregate_data(&mut store, &parsed);
    }
    assert_eq!(store.snapshot().len(), 0);
}

#[test]
fn empty_store_reports_no_data() {
    let store = AggregateStore::new();
    assert_eq!(top_consumers_report(store.snapshot()), "No consumers data available.");
}

#[test]
fn single_entry_report_is_exact() {
    let mut store = AggregateStore::new();
    aggregate_data(&mut store, &reading("CNS-001", 4250, 1));
    assert_eq!(
        top_consumers_report(store.snapshot()),
        "Top Consumers:\nConsumer ID: CNS-001, Total Consumption: 42.50 kWh"
    );
}

#[test]
fn report_lists_top_five_sorted_descending() {
    let entries = vec![
        ("C1", 100u64),
        ("C2", 700u64),
        ("C3", 5u64),
        ("C4", 100_000u64),
        ("C5", 0u64),
        ("C6", 4250u64),
    ];
    let mut store = AggregateStore::new();
    for (id, total) in entries {
        aggregate_data(&mut store, &reading(id, total, 1));
    }
    let report = top_consumers_report(store.snapshot());
    assert_eq!(
        report,
        "Top Consumers:\n\
         Consumer ID: C4, Total Consumption: 1000.00 kWh\n\
         Consumer ID: C6, Total Consumption: 42.50 kWh\n\
         Consumer ID: C2, Total Consumption: 7.00 kWh\n\
         Consumer ID: C1, Total Consumption: 1.00 kWh\n\
         Consumer ID: C3, Total Consumption: 0.05 kWh"
    );
}

#[test]
fn amounts_print_with_two_decimals() {
    let mut store = AggregateStore::new();
    aggregate_data(&mut store, &reading("CNS-003", 0, 1));
    assert_eq!(
        top_consumers_report(store.snapshot()),
        "Top Consumers:\nConsumer ID: CNS-003, Total Consumption: 0.00 kWh"
    );
}

#[test]
fn normal_reading_has_all_fields() {
    let mut rng = ChaCha12Rng::seed_from_u64(7);
    for _ in 0..50 {
        let p = generate_normal_reading(&mut rng, TS.to_string());
        assert!(matches!(&p.timestamp, RawValue::Text(t) if t == TS));
        assert!(matches!(&p.meter_id, RawValue::Text(m)
            if m == "MTR-001" || m == "MTR-002" || m == "MTR-003"));
        assert!(matches!(&p.consumer_id, RawValue::Text(c)
            if c == "CNS-001" || c == "CNS-002" || c == "CNS-003"));
        assert!(matches!(&p.consumption, RawValue::Number(n) if (0..10_000).contains(n)));
        assert!(parse_meter_reading(&p).is_ok());
    }
}

#[test]
fn anomalous_payload_matches_its_variant() {
    let ts = || TS.to_string();
    let m = || "MTR-001".to_string();
    let c = || "CNS-001".to_string();

    let p = anomalous_payload(0, ts(), m(), c(), 42);
    assert!(matches!(p.meter_id, RawValue::Missing));
    assert!(matches!(&p.consumer_id, RawValue::Text(x) if x == "CNS-001"));

    let p = anomalous_payload(1, ts(), m(), c(), 42);
    assert!(matches!(p.meter_id, RawValue::Number(1_234_500)));

    let p = anomalous_payload(2, ts(), m(), c(), 42);
    assert!(matches!(p.consumer_id, RawValue::Missing));
    assert!(matches!(&p.meter_id, RawValue::Text(x) if x == "MTR-001"));

    let p = anomalous_payload(3, ts(), m(), c(), 42);
    assert!(matches!(&p.consumption, RawValue::Text(x) if x == "InvalidType"));

    let p = anomalous_payload(4, ts(), m(), c(), 42);
    assert!(matches!(p.consumption, RawValue::Missing));
}

#[test]
fn anomalous_readings_never_decode() {
    let mut rng = ChaCha12Rng::seed_from_u64(11);
    for _ in 0..50 {
        let p = generate_anomalous_reading(&mut rng, TS.to_string());
        assert!(matches!(parse_meter_reading(&p), Err(MeterReadingError::DecodeError(_))));
    }
}

#[test]
fn generated_stream_feeds_the_pipeline() {
    let mut rng = ChaCha12Rng::seed_from_u64(42);
    let mut store = AggregateStore::new();
    let mut accepted = 0u32;
    for _ in 0..200 {
        let p = generate_reading(&mut rng, TS.to_string());
        match parse_meter_reading(&p) {
            Ok(parsed) => {
                assert!(parsed.consumption <= 100_000);
                aggregate_data(&mut store, &parsed);
                accepted += 1;
            }
            Err(e) => assert!(matches!(e, MeterReadingError::DecodeError(_))),
        }
    }
    assert!(accepted > 0);
    assert!(store.snapshot().len() <= 3);
}

#[test]
fn pacing_interval_stays_in_range() {
    let mut rng = ChaCha12Rng::seed_from_u64(3);
    for _ in 0..100 {
        let d = pacing_interval(&mut rng);
        assert!((500..3000).contains(&d));
    }
}

#[test]
fn consumer_data_accumulates() {
    let mut d = ConsumerData::new();
    assert_eq!(d.total_consumption, 0);
    assert_eq!(d.last_reading_time, None);
    d.add_reading(3000, 10);
    d.add_reading(2000, 20);
    assert_eq!(d.total_consumption, 5000);
    assert_eq!(d.last_reading_time, Some(20));
}
