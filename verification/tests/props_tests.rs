use rustreplay::props::{DurationParts, PropValue, Record};

fn record(props: Vec<(&str, PropValue)>) -> Record {
    Record { properties: props.into_iter().map(|(k, v)| (k.to_string(), v)).collect() }
}

#[test]
fn duration_parts_present_when_both_properties_match() {
    let rec = record(vec![
        ("RecordFPS", PropValue::FloatBits(30.0f32.to_bits())),
        ("NumFrames", PropValue::Int(150)),
    ]);
    let parts = rec.duration_parts().expect("both properties are present");
    assert_eq!(parts, DurationParts { num_frames: 150, fps_bits: 30.0f32.to_bits() });
    let duration = parts.num_frames as f32 / f32::from_bits(parts.fps_bits);
    assert_eq!(duration, 5.0f32);
}

#[test]
fn duration_absent_when_fps_is_zero() {
    let rec = record(vec![
        ("RecordFPS", PropValue::FloatBits(0.0f32.to_bits())),
        ("NumFrames", PropValue::Int(150)),
    ]);
    assert_eq!(rec.duration_parts(), None);
    let rec = record(vec![
        ("RecordFPS", PropValue::FloatBits((-0.0f32).to_bits())),
        ("NumFrames", PropValue::Int(150)),
    ]);
    assert_eq!(rec.duration_parts(), None);
}

#[test]
fn duration_absent_when_a_property_is_missing() {
    let rec = record(vec![("NumFrames", PropValue::Int(150))]);
    assert_eq!(rec.duration_parts(), None);
    let rec = record(vec![("RecordFPS", PropValue::FloatBits(30.0f32.to_bits()))]);
    assert_eq!(rec.duration_parts(), None);
    let rec = record(vec![]);
    assert_eq!(rec.duration_parts(), None);
}

#[test]
fn duration_absent_when_a_property_has_the_wrong_shape() {
    let rec = record(vec![
        ("RecordFPS", PropValue::Int(30)),
        ("NumFrames", PropValue::Int(150)),
    ]);
    assert_eq!(rec.duration_parts(), None);
    let rec = record(vec![
        ("RecordFPS", PropValue::FloatBits(30.0f32.to_bits())),
        ("NumFrames", PropValue::FloatBits(150.0f32.to_bits())),
    ]);
    assert_eq!(rec.duration_parts(), None);
    let rec = record(vec![
        ("RecordFPS", PropValue::Other),
        ("NumFrames", PropValue::Int(150)),
    ]);
    assert_eq!(rec.duration_parts(), None);
}

#[test]
fn lookup_takes_the_last_binding_of_a_repeated_key() {
    let rec = record(vec![
        ("NumFrames", PropValue::Int(1)),
        ("RecordFPS", PropValue::FloatBits(30.0f32.to_bits())),
        ("NumFrames", PropValue::Int(300)),
    ]);
    assert_eq!(rec.lookup("NumFrames"), Some(PropValue::Int(300)));
    let parts = rec.duration_parts().expect("present");
    assert_eq!(parts.num_frames, 300);
    assert_eq!(rec.lookup("Unknown"), None);
}
