use bb_rs::models::{Fq, Fr, Point};
use bb_rs::traits::{DeserializeBuffer, SerializeBuffer};

fn fr_bytes(last: u8) -> [u8; 32] {
    let mut a = [0u8; 32];
    a[31] = last;
    a
}

#[test]
fn fr_round_trip() {
    let mut raw = [0u8; 32];
    for (i, b) in raw.iter_mut().enumerate() {
        *b = (i * 7 + 3) as u8;
    }
    let f = Fr::from_buffer(raw);
    assert_eq!(f.data, raw);
    assert_eq!(f.to_buffer(), raw.to_vec());
    let back = Fr::from_buffer(raw);
    assert_eq!(back, f);
}

#[test]
fn fq_round_trip() {
    let mut raw = [0u8; 32];
    for (i, b) in raw.iter_mut().enumerate() {
        *b = (255 - i) as u8;
    }
    let f = Fq::from_buffer(raw);
    assert_eq!(f.to_buffer(), raw.to_vec());
    assert_eq!(Fq::from_buffer(raw), f);
}

#[test]
fn point_round_trip_keeps_x_before_y() {
    let mut raw = [0u8; 64];
    for (i, b) in raw.iter_mut().enumerate() {
        *b = i as u8;
    }
    let p = Point::from_buffer(raw);
    assert_eq!(&p.x.data[..], &raw[..32]);
    assert_eq!(&p.y.data[..], &raw[32..]);
    let ser = p.to_buffer();
    assert_eq!(ser, raw.to_vec());
    assert_eq!(&ser[..32], &raw[..32]);
}

#[test]
fn point_halves_are_not_interchangeable() {
    let mut raw = [0u8; 64];
    raw[31] = 1;
    raw[63] = 2;
    let p = Point::from_buffer(raw);
    assert_eq!(p.x, Fr { data: fr_bytes(1) });
    assert_eq!(p.y, Fr { data: fr_bytes(2) });
    assert_ne!(p.x, p.y);
}

#[test]
fn field_element_sequence_encoding_scenario() {
    let elems = [Fr { data: fr_bytes(1) }, Fr { data: fr_bytes(2) }];
    let wire = elems.as_slice().to_buffer();

    let mut expected = vec![0u8, 0, 0, 2];
    expected.extend_from_slice(&fr_bytes(1));
    expected.extend_from_slice(&fr_bytes(2));
    assert_eq!(wire, expected);
}

#[test]
fn byte_slice_encoding_matches_plain_buffer_form() {
    let payload = [7u8, 8, 9];
    let via_trait = payload.as_slice().to_buffer();
    let via_codec = bb_rs::buffer::encode(&payload);
    assert_eq!(via_trait, via_codec);
    assert_eq!(via_trait, vec![0u8, 0, 0, 3, 7, 8, 9]);
}

#[test]
fn single_byte_wire_form() {
    assert_eq!(42u8.to_buffer(), vec![42u8]);
}

#[test]
fn empty_element_sequence_encodes_to_zero_count() {
    let elems: [Fr; 0] = [];
    assert_eq!(elems.as_slice().to_buffer(), vec![0u8, 0, 0, 0]);
}
