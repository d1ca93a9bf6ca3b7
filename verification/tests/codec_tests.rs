use tuktuk_scheduler::codec::build_callback_payload;
use tuktuk_scheduler::codec::decode_callback_payload;
use tuktuk_scheduler::identity::AccountId;

fn id_of(tag: u8) -> AccountId {
    AccountId::new(vec![tag; 32])
}

#[test]
fn payload_layout_is_byte_exact() {
    let disc: Vec<u8> = vec![1, 2, 3, 4, 5, 6, 7, 8];
    let text: Vec<u8> = b"ab".to_vec();
    let cb: Vec<u8> = vec![9; 8];
    let payload = build_callback_payload(&disc, &text, &id_of(7), &cb);

    let mut expected: Vec<u8> = vec![1, 2, 3, 4, 5, 6, 7, 8];
    expected.extend_from_slice(&[2, 0, 0, 0]);
    expected.extend_from_slice(b"ab");
    expected.extend_from_slice(&[7; 32]);
    expected.extend_from_slice(&[9; 8]);
    expected.push(0);
    assert_eq!(payload, expected);
}

#[test]
fn length_prefix_is_little_endian() {
    let disc: Vec<u8> = vec![0; 8];
    let text: Vec<u8> = vec![b'x'; 300];
    let cb: Vec<u8> = vec![0; 8];
    let payload = build_callback_payload(&disc, &text, &id_of(1), &cb);
    assert_eq!(&payload[8..12], &[44, 1, 0, 0]);
}

#[test]
fn empty_text_still_carries_its_prefix() {
    let disc: Vec<u8> = vec![5; 8];
    let text: Vec<u8> = Vec::new();
    let cb: Vec<u8> = vec![6; 8];
    let payload = build_callback_payload(&disc, &text, &id_of(2), &cb);
    assert_eq!(payload.len(), 8 + 4 + 0 + 32 + 8 + 1);
    assert_eq!(&payload[8..12], &[0, 0, 0, 0]);
}

#[test]
fn decoding_reproduces_the_encoded_tuple() {
    let disc: Vec<u8> = vec![1, 2, 3, 4, 5, 6, 7, 8];
    let text: Vec<u8> = b"hello downstream".to_vec();
    let cb: Vec<u8> = vec![8, 7, 6, 5, 4, 3, 2, 1];
    let payload = build_callback_payload(&disc, &text, &id_of(42), &cb);

    let decoded = decode_callback_payload(&payload).expect("well-formed payload");
    assert_eq!(decoded.discriminator, disc);
    assert_eq!(decoded.text, text);
    assert_eq!(decoded.program_id, vec![42; 32]);
    assert_eq!(decoded.callback_discriminator, cb);
}

#[test]
fn decoding_rejects_a_present_account_list_marker() {
    let disc: Vec<u8> = vec![0; 8];
    let text: Vec<u8> = b"t".to_vec();
    let cb: Vec<u8> = vec![0; 8];
    let mut payload = build_callback_payload(&disc, &text, &id_of(3), &cb);
    let last = payload.len() - 1;
    payload[last] = 1;
    assert!(decode_callback_payload(&payload).is_none());
}

#[test]
fn decoding_rejects_truncated_and_padded_payloads() {
    let disc: Vec<u8> = vec![0; 8];
    let text: Vec<u8> = b"t".to_vec();
    let cb: Vec<u8> = vec![0; 8];
    let payload = build_callback_payload(&disc, &text, &id_of(3), &cb);

    let mut truncated = payload.clone();
    truncated.pop();
    assert!(decode_callback_payload(&truncated).is_none());

    let mut padded = payload.clone();
    padded.push(0);
    assert!(decode_callback_payload(&padded).is_none());

    let short: Vec<u8> = vec![0; 11];
    assert!(decode_callback_payload(&short).is_none());
}
