use bb_rs::acir::{
    circuit_sizes_from_be, decode_nested, prove_request, verification_key_request, verify_request,
    CircuitSizes,
};
use bb_rs::buffer::{encode, BufferError};
use bb_rs::fields::{acir_proof_as_fields_ultra_honk, buffer_as_field_strings};
use bb_rs::srs::init_srs_request;

fn hex_elem(tail: &str) -> String {
    let mut s = String::from("0x");
    for _ in 0..(64 - tail.len()) {
        s.push('0');
    }
    s.push_str(tail);
    s
}

#[test]
fn proof_re_chunks_into_hex_field_elements() {
    let mut proof = vec![0u8; 64];
    proof[31] = 1;
    proof[63] = 2;
    let fields = acir_proof_as_fields_ultra_honk(&proof);
    assert_eq!(fields, vec![hex_elem("1"), hex_elem("2")]);
}

#[test]
fn short_last_chunk_is_padded_on_the_left() {
    let mut buf = vec![0u8; 33];
    buf[32] = 0xab;
    let fields = acir_proof_as_fields_ultra_honk(&buf);
    assert_eq!(fields.len(), 2);
    assert_eq!(fields[0], hex_elem(""));
    assert_eq!(fields[1], hex_elem("ab"));
}

#[test]
fn multi_byte_chunk_value() {
    let buf = [0x01u8, 0x02, 0x03];
    let fields = acir_proof_as_fields_ultra_honk(&buf);
    assert_eq!(fields, vec![hex_elem("10203")]);
}

#[test]
fn empty_buffer_has_no_field_elements() {
    assert_eq!(acir_proof_as_fields_ultra_honk(&[]).len(), 0);
}

#[test]
fn header_skip_preserves_element_count() {
    // The same 64 proof bytes behind headers of the observed lengths: every
    // view that skips its own header reports the same element count as the
    // direct call on the bare proof.
    let mut proof = vec![0u8; 64];
    proof[31] = 9;
    proof[63] = 8;
    let direct = acir_proof_as_fields_ultra_honk(&proof);

    for header_len in [0usize, 4, 97] {
        let mut wire = vec![0x55u8; header_len];
        wire.extend_from_slice(&proof);
        let viewed = buffer_as_field_strings(&wire, header_len);
        assert_eq!(viewed.len(), direct.len());
        assert_eq!(viewed, direct);
    }
}

#[test]
fn circuit_sizes_are_read_big_endian() {
    let r = circuit_sizes_from_be(&[0, 0, 1, 0], &[0, 0, 0, 64]);
    assert_eq!(r, CircuitSizes { total: 256, subgroup: 64 });
}

#[test]
fn nested_response_unwraps_twice() {
    let proof = [7u8, 7, 7, 7, 7];
    let inner = encode(&proof);
    let outer = encode(&inner);
    let r = decode_nested(Some(&outer));
    assert_eq!(r, Ok(proof.to_vec()));
}

#[test]
fn nested_response_reports_null_pointer() {
    assert_eq!(decode_nested(None), Err(BufferError::Null));
}

#[test]
fn requests_carry_wire_encoded_inputs() {
    let (count_be, srs) = init_srs_request(1024);
    assert_eq!(count_be, [0u8, 0, 4, 0]);
    assert_eq!(srs.num_points(), 1024);

    let circuit = [1u8, 2];
    let witness = [3u8];
    let (cw, ww) = prove_request(&circuit, &witness, &srs);
    assert_eq!(cw, vec![0u8, 0, 0, 2, 1, 2]);
    assert_eq!(ww, vec![0u8, 0, 0, 1, 3]);

    assert_eq!(verification_key_request(&circuit, &srs), vec![0u8, 0, 0, 2, 1, 2]);
    assert_eq!(verify_request(&witness), vec![0u8, 0, 0, 1, 3]);
}
