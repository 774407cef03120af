use electricity_meter_rs::MetricSink;
use electricity_meter_rs::RawValue;
use electricity_meter_rs::Unit;
use electricity_meter_rs::get_lookup_map;
use electricity_meter_rs::process;
use electricity_meter_rs::register_exportable;

/// The values of every registered gauge, in catalog order.
fn snapshot(sink: &MetricSink) -> Vec<(String, Option<i64>)> {
    let catalog = get_lookup_map();
    catalog
        .exportable_entries()
        .iter()
        .map(|e| (e.metric_name.to_string(), sink.get(e.metric_name)))
        .collect()
}

fn fresh_sink() -> MetricSink {
    let catalog = get_lookup_map();
    let mut sink = MetricSink::new();
    register_exportable(&catalog, &mut sink);
    sink
}

#[test]
fn registration_matches_catalog() {
    // One gauge per exportable entry, starting at zero; none for a
    // non-exportable entry.
    let catalog = get_lookup_map();
    let sink = fresh_sink();
    for i in 0..catalog.len() {
        let entry = catalog.entry_at(i);
        if entry.exportable {
            assert_eq!(sink.get(entry.metric_name), Some(0));
        } else {
            assert_eq!(sink.get(entry.metric_name), None);
        }
    }
    assert_eq!(sink.len(), 4);
}

#[test]
fn scenario_signed_reading_sets_gauge() {
    let catalog = get_lookup_map();
    let mut sink = fresh_sink();
    process(
        &catalog,
        &mut sink,
        &[0x01, 0x00, 0x01, 0x08, 0x00, 0xff],
        &RawValue::Signed(123456),
        Some(Unit::Wh),
    );
    assert_eq!(sink.get("meterreadingtotal"), Some(123456));
}

#[test]
fn scenario_unknown_identifier_changes_nothing() {
    let catalog = get_lookup_map();
    let mut sink = fresh_sink();
    let before = snapshot(&sink);
    process(
        &catalog,
        &mut sink,
        &[0xff, 0xff, 0xff, 0xff, 0xff, 0xff],
        &RawValue::Signed(42),
        None,
    );
    assert_eq!(snapshot(&sink), before);
}

#[test]
fn scenario_text_value_changes_nothing() {
    let catalog = get_lookup_map();
    let mut sink = fresh_sink();
    let before = snapshot(&sink);
    process(
        &catalog,
        &mut sink,
        &[0x01, 0x00, 0x01, 0x08, 0x00, 0xff],
        &RawValue::Text("not a number".to_string()),
        None,
    );
    assert_eq!(snapshot(&sink), before);
}

#[test]
fn non_exportable_identifier_changes_nothing() {
    let catalog = get_lookup_map();
    let mut sink = fresh_sink();
    let before = snapshot(&sink);
    // Voltage L1 is known but not exportable.
    process(
        &catalog,
        &mut sink,
        &[0x01, 0x00, 0x20, 0x07, 0x00, 0xff],
        &RawValue::Signed(230),
        None,
    );
    assert_eq!(snapshot(&sink), before);
    assert_eq!(sink.get("voltagel1"), None);
}

#[test]
fn process_twice_is_idempotent() {
    let catalog = get_lookup_map();
    let mut sink = fresh_sink();
    let id = [0x01, 0x00, 0x02, 0x08, 0x00, 0xff];
    process(&catalog, &mut sink, &id, &RawValue::Signed(777), None);
    let once = snapshot(&sink);
    process(&catalog, &mut sink, &id, &RawValue::Signed(777), None);
    assert_eq!(snapshot(&sink), once);
    assert_eq!(sink.get("activepowertotal"), Some(777));
}

#[test]
fn unsigned_reading_widens() {
    let catalog = get_lookup_map();
    let mut sink = fresh_sink();
    process(
        &catalog,
        &mut sink,
        &[0x01, 0x00, 0x01, 0x08, 0x01, 0xff],
        &RawValue::Unsigned(4_000_000_000),
        None,
    );
    assert_eq!(sink.get("meterreadingtariff1"), Some(4_000_000_000));
}

#[test]
fn set_overwrites_and_ignores_unregistered() {
    let mut sink = MetricSink::new();
    assert_eq!(sink.get("meterreadingtotal"), None);
    sink.register("meterreadingtotal");
    assert_eq!(sink.get("meterreadingtotal"), Some(0));
    sink.set("meterreadingtotal", -5);
    assert_eq!(sink.get("meterreadingtotal"), Some(-5));
    sink.set("never_registered", 99);
    assert_eq!(sink.get("never_registered"), None);
    assert_eq!(sink.len(), 1);
}

#[test]
fn unit_codes() {
    assert_eq!(Unit::try_from(0x30), Ok(Unit::Wh));
    assert_eq!(Unit::try_from(0x31), Err(()));
    assert_eq!(Unit::try_from(0x00), Err(()));
}
