//! The marshalling round trip that the generated wrapper and handler rely
//! on: a value serialized through the codec, carried as a transport string,
//! converted back to bytes and deserialized, comes back unchanged.  The
//! library only emits the calls; the collaborating codec and transport
//! conversion are exercised here directly.

#[test]
fn round_trip_through_codec_and_transport_string() {
    let v: Vec<i64> = vec![0, 1, -5, 42, i64::MAX, i64::MIN];
    let bytes = serde_json::to_vec(&v).expect("failed to serialize");
    let transport = serde_json::to_string(&bytes).expect("failed to make transport string");
    let back_bytes: Vec<u8> =
        serde_json::from_str(&transport).expect("failed to read transport string");
    assert_eq!(back_bytes, bytes);
    let back: Vec<i64> = serde_json::from_slice(&back_bytes).expect("failed to deserialize");
    assert_eq!(back, v);
}

#[test]
fn round_trip_of_a_string_value() {
    let v = String::from("hello, bridge: \"quotes\" and \\slashes\\");
    let bytes = serde_json::to_vec(&v).expect("failed to serialize");
    let transport = serde_json::to_string(&bytes).expect("failed to make transport string");
    let back_bytes: Vec<u8> =
        serde_json::from_str(&transport).expect("failed to read transport string");
    let back: String = serde_json::from_slice(&back_bytes).expect("failed to deserialize");
    assert_eq!(back, v);
}

#[test]
fn transport_string_of_empty_buffer() {
    let bytes: Vec<u8> = Vec::new();
    let transport = serde_json::to_string(&bytes).expect("failed to make transport string");
    let back: Vec<u8> = serde_json::from_str(&transport).expect("failed to read transport string");
    assert_eq!(back, bytes);
}
