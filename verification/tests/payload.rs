use spectrometer::payload::{encode_payload, serialize_bins};

#[test]
fn serialization_is_little_endian() {
    let bytes = serialize_bins(&vec![0x1122_3344, 0xaabb_ccdd]);
    assert_eq!(
        bytes,
        vec![0x44, 0x33, 0x22, 0x11, 0xdd, 0xcc, 0xbb, 0xaa]
    );
}

#[test]
fn payload_length_is_four_bytes_per_bin() {
    assert_eq!(serialize_bins(&Vec::new()).len(), 0);
    assert_eq!(serialize_bins(&vec![0]).len(), 4);
    assert_eq!(serialize_bins(&vec![1, 2, 3, 4, 5]).len(), 20);
}

#[test]
fn encoded_payload_holds_the_serialized_bytes() {
    let bins = vec![2.0f32.to_bits(), 16.0f32.to_bits()];
    let payload = encode_payload(&bins);
    let mut expected = Vec::new();
    expected.extend_from_slice(&2.0f32.to_le_bytes());
    expected.extend_from_slice(&16.0f32.to_le_bytes());
    assert_eq!(payload.as_ref(), expected.as_slice());
    assert_eq!(payload.len(), 8);
}

#[test]
fn encoded_payload_of_no_bins_is_empty() {
    let payload = encode_payload(&Vec::new());
    assert_eq!(payload.len(), 0);
}

#[test]
fn payload_floats_round_trip() {
    let values = [0.5f32, 2.0, 4e6, 0.0];
    let bins: Vec<u32> = values.iter().map(|v| v.to_bits()).collect();
    let payload = encode_payload(&bins);
    for (k, v) in values.iter().enumerate() {
        let mut raw = [0u8; 4];
        raw.copy_from_slice(&payload[4 * k..4 * k + 4]);
        assert_eq!(f32::from_le_bytes(raw), *v);
    }
}
