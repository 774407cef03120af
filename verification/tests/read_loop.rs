use electricity_meter_rs::DecodedEntry;
use electricity_meter_rs::Frame;
use electricity_meter_rs::LoopState;
use electricity_meter_rs::MetricSink;
use electricity_meter_rs::RawValue;
use electricity_meter_rs::ReadEvent;
use electricity_meter_rs::Unit;
use electricity_meter_rs::get_lookup_map;
use electricity_meter_rs::register_exportable;
use electricity_meter_rs::step;

fn fresh_sink() -> MetricSink {
    let catalog = get_lookup_map();
    let mut sink = MetricSink::new();
    register_exportable(&catalog, &mut sink);
    sink
}

fn entry(id: [u8; 6], value: RawValue) -> DecodedEntry {
    DecodedEntry { identifier: id, value, unit: Some(Unit::Wh) }
}

#[test]
fn list_response_updates_gauges() {
    let catalog = get_lookup_map();
    let mut sink = fresh_sink();
    let frame = Frame::ListResponse(vec![
        entry([0x01, 0x00, 0x01, 0x08, 0x00, 0xff], RawValue::Signed(1000)),
        entry([0x01, 0x00, 0x01, 0x08, 0x01, 0xff], RawValue::Unsigned(600)),
    ]);
    let next = step(&catalog, &mut sink, LoopState::Running, ReadEvent::Decoded(frame));
    assert_eq!(next, LoopState::Running);
    assert_eq!(sink.get("meterreadingtotal"), Some(1000));
    assert_eq!(sink.get("meterreadingtariff1"), Some(600));
    assert_eq!(sink.get("meterreadingtariff2"), Some(0));
}

#[test]
fn entries_are_processed_independently() {
    // A rejected entry never affects its siblings.
    let catalog = get_lookup_map();
    let mut sink = fresh_sink();
    let frame = Frame::ListResponse(vec![
        entry([0xff; 6], RawValue::Signed(1)),
        entry([0x01, 0x00, 0x01, 0x08, 0x00, 0xff], RawValue::Text("bad".to_string())),
        entry([0x01, 0x00, 0x01, 0x08, 0x00, 0xff], RawValue::Signed(42)),
        entry([0x01, 0x00, 0x00, 0x00, 0x09, 0xff], RawValue::Signed(3)),
    ]);
    let next = step(&catalog, &mut sink, LoopState::Running, ReadEvent::Decoded(frame));
    assert_eq!(next, LoopState::Running);
    assert_eq!(sink.get("meterreadingtotal"), Some(42));
    assert_eq!(sink.get("meterreadingtariff1"), Some(0));
}

#[test]
fn other_frame_kind_is_ignored() {
    let catalog = get_lookup_map();
    let mut sink = fresh_sink();
    let next = step(&catalog, &mut sink, LoopState::Running, ReadEvent::Decoded(Frame::Other));
    assert_eq!(next, LoopState::Running);
    assert_eq!(sink.get("meterreadingtotal"), Some(0));
}

#[test]
fn decode_error_is_recoverable() {
    let catalog = get_lookup_map();
    let mut sink = fresh_sink();
    let next = step(&catalog, &mut sink, LoopState::Running, ReadEvent::FrameDecodeError);
    assert_eq!(next, LoopState::Running);
    assert_eq!(sink.get("meterreadingtotal"), Some(0));
}

#[test]
fn scenario_transport_error_stops_and_retains_gauges() {
    let catalog = get_lookup_map();
    let mut sink = fresh_sink();
    let frame = Frame::ListResponse(vec![entry(
        [0x01, 0x00, 0x01, 0x08, 0x00, 0xff],
        RawValue::Signed(5555),
    )]);
    let running = step(&catalog, &mut sink, LoopState::Running, ReadEvent::Decoded(frame));
    assert_eq!(running, LoopState::Running);

    let stopped = step(&catalog, &mut sink, LoopState::Running, ReadEvent::TransportError);
    assert_eq!(stopped, LoopState::Stopped);
    assert_eq!(sink.get("meterreadingtotal"), Some(5555));
    assert_eq!(sink.get("meterreadingtariff1"), Some(0));
}

#[test]
fn stopped_is_terminal() {
    let catalog = get_lookup_map();
    let mut sink = fresh_sink();
    let frame = Frame::ListResponse(vec![entry(
        [0x01, 0x00, 0x01, 0x08, 0x00, 0xff],
        RawValue::Signed(1),
    )]);
    let next = step(&catalog, &mut sink, LoopState::Stopped, ReadEvent::Decoded(frame));
    assert_eq!(next, LoopState::Stopped);
    // A stopped loop no longer advances any gauge.
    assert_eq!(sink.get("meterreadingtotal"), Some(0));
}
