// Tests for the best-effort reason decoder.

use revert_match::decoder::decode_revert_reason;

#[test]
fn abi_encoded_string_decodes_to_its_text() {
    let encoded = alloy_sol_types::SolValue::abi_encode(&String::from("execution failed"));
    assert_eq!(decode_revert_reason(&encoded), "execution failed");
}

#[test]
fn plain_ascii_bytes_pass_through_as_text() {
    let data = b"plain ascii reason".to_vec();
    assert_eq!(decode_revert_reason(&data), "plain ascii reason");
}

#[test]
fn empty_data_renders_as_the_empty_string() {
    assert_eq!(decode_revert_reason(&Vec::new()), "");
}

#[test]
fn non_ascii_bytes_render_as_prefixed_hex() {
    assert_eq!(decode_revert_reason(&vec![0xde, 0xad, 0x01, 0xef]), "0xdead01ef");
    assert_eq!(decode_revert_reason(&vec![0x80]), "0x80");
}

#[test]
fn hex_rendering_uses_every_nibble_value() {
    let data: Vec<u8> = vec![0x01, 0x23, 0x45, 0x67, 0x89, 0xab, 0xcd, 0xef, 0xf0];
    assert_eq!(decode_revert_reason(&data), "0x0123456789abcdeff0");
    assert_eq!(
        decode_revert_reason(&data),
        alloy_primitives::hex::encode_prefixed(&data)
    );
}
