use com_api::crc::{crc32_autosar, reflect_poly, CRC_POLY_REFLECTED};
use com_api::e2e::{check, protect, CheckResult, MessageResult, MessageType, Profile4mHeader};

#[test]
fn crc_catalog_check_value() {
    assert_eq!(crc32_autosar(b"123456789"), 0x1697d06a);
}

#[test]
fn crc_of_empty_input_is_init_xor_xorout() {
    assert_eq!(crc32_autosar(&[]), 0x0000_0000);
}

#[test]
fn reflected_polynomial() {
    assert_eq!(reflect_poly(), 0xC8DF_352F);
    assert_eq!(reflect_poly(), CRC_POLY_REFLECTED);
}

#[test]
fn crc_input_layout() {
    let h = Profile4mHeader {
        length: 0x0102,
        counter: 0x0304,
        data_id: 0x0506_0708,
        message_type: MessageType::Response,
        message_result: MessageResult::Error,
        source_id: 0xF123_4567,
    };
    let input = h.crc_input(&[0xAA, 0xBB]);
    assert_eq!(
        input,
        vec![0x01, 0x02, 0x03, 0x04, 0x05, 0x06, 0x07, 0x08, 0x51, 0x23, 0x45, 0x67, 0xAA, 0xBB]
    );
    assert_eq!(h.packed(), 0x5123_4567);
}

#[test]
fn protect_frame_layout() {
    let payload = b"abc";
    let frame = protect(0x0A0B_0C0D, 7, MessageType::Request, payload);
    assert_eq!(frame.len(), 16 + 3);
    assert_eq!(&frame[0..2], &[0x00, 15]);
    assert_eq!(&frame[2..4], &[0x00, 7]);
    assert_eq!(&frame[4..8], &[0x0A, 0x0B, 0x0C, 0x0D]);
    assert_eq!(&frame[12..16], &[0x01, 0x23, 0x45, 0x67]);
    assert_eq!(&frame[16..], payload);
    let mut input = frame[0..8].to_vec();
    input.extend_from_slice(&frame[12..16]);
    input.extend_from_slice(payload);
    let crc = crc32_autosar(&input);
    assert_eq!(&frame[8..12], &crc.to_be_bytes());
}

#[test]
fn response_type_is_packed_at_bit_30() {
    let frame = protect(1, 0, MessageType::Response, &[]);
    assert_eq!(&frame[12..16], &[0x41, 0x23, 0x45, 0x67]);
}

#[test]
fn length_field_wraps_at_sixteen_bits() {
    let payload = vec![0u8; 65530];
    let frame = protect(1, 0, MessageType::Request, &payload);
    assert_eq!(&frame[0..2], &[0x00, 0x06]);
    let mut last = None;
    assert_eq!(check(&frame, 1, &mut last), Ok(&payload[..]));
}

#[test]
fn round_trip_recovers_payload() {
    let data_id = 0xC0FFEE_u32 & 0x0FFF_FFFF;
    let payload = b"hello, method call payload";
    let request_frame = protect(data_id, 0, MessageType::Request, payload);
    let mut last_counter = None;
    let recovered = check(&request_frame, data_id, &mut last_counter).expect("round trip");
    assert_eq!(recovered, payload);
    assert_eq!(last_counter, Some(0));
}

#[test]
fn corruption_is_caught_as_wrong_crc() {
    let data_id = 0xC0FFEE_u32 & 0x0FFF_FFFF;
    let payload = b"hello, method call payload";
    let request_frame = protect(data_id, 0, MessageType::Request, payload);
    let mut last_counter = None;
    check(&request_frame, data_id, &mut last_counter).expect("round trip");
    let mut corrupted = request_frame.clone();
    let last = corrupted.len() - 1;
    corrupted[last] ^= 0xFF;
    let mut counter_copy = last_counter;
    assert_eq!(check(&corrupted, data_id, &mut counter_copy), Err(CheckResult::WrongCrc));
    assert_eq!(counter_copy, Some(0));
}

#[test]
fn replay_is_caught_as_wrong_sequence() {
    let data_id = 0xC0FFEE_u32 & 0x0FFF_FFFF;
    let payload = b"hello, method call payload";
    let request_frame = protect(data_id, 0, MessageType::Request, payload);
    let mut last_counter = None;
    check(&request_frame, data_id, &mut last_counter).expect("round trip");
    assert_eq!(check(&request_frame, data_id, &mut last_counter), Err(CheckResult::WrongSequence));
    assert_eq!(last_counter, Some(0));
}

#[test]
fn consecutive_counters_are_accepted_across_the_wrap() {
    let mut last = Some(65534u16);
    for counter in [65535u16, 0, 1] {
        let frame = protect(9, counter, MessageType::Request, &[counter as u8]);
        assert_eq!(check(&frame, 9, &mut last), Ok(&[counter as u8][..]));
        assert_eq!(last, Some(counter));
    }
}

#[test]
fn skipped_counter_is_wrong_sequence_and_resynchronises() {
    let mut last = Some(3u16);
    let frame = protect(9, 5, MessageType::Request, &[1]);
    assert_eq!(check(&frame, 9, &mut last), Err(CheckResult::WrongSequence));
    assert_eq!(last, Some(5));
    let next = protect(9, 6, MessageType::Request, &[2]);
    assert_eq!(check(&next, 9, &mut last), Ok(&[2u8][..]));
}

#[test]
fn wrong_data_id_is_wrong_crc() {
    let frame = protect(1, 0, MessageType::Request, b"x");
    let mut last = None;
    assert_eq!(check(&frame, 2, &mut last), Err(CheckResult::WrongCrc));
    assert_eq!(last, None);
}

#[test]
fn short_frame_is_wrong_crc() {
    let mut last = Some(1);
    assert_eq!(check(&[0u8; 15], 0, &mut last), Err(CheckResult::WrongCrc));
    assert_eq!(last, Some(1));
}

#[test]
fn header_corruption_of_counter_is_caught() {
    let frame = protect(1, 0, MessageType::Request, b"payload");
    let mut bad = frame.clone();
    bad[3] ^= 0x01;
    let mut last = None;
    assert_eq!(check(&bad, 1, &mut last), Err(CheckResult::WrongCrc));
}


fn with_crc_appended(data: &[u8]) -> Vec<u8> {
    let mut v = data.to_vec();
    v.extend_from_slice(&crc32_autosar(data).to_le_bytes());
    v
}

#[test]
fn crc_residue_is_the_same_for_every_message() {
    let a = crc32_autosar(&with_crc_appended(b"123456789"));
    let b = crc32_autosar(&with_crc_appended(b"hello, method call payload"));
    let c = crc32_autosar(&with_crc_appended(&[]));
    assert_eq!(a, b);
    assert_eq!(a, c);
}

#[test]
fn crc_detects_single_bit_flips_and_bursts() {
    let data = b"hello, method call payload".to_vec();
    let base = crc32_autosar(&data);
    for k in 0..data.len() {
        for j in 0..8 {
            let mut flipped = data.clone();
            flipped[k] ^= 1 << j;
            assert_ne!(crc32_autosar(&flipped), base);
        }
    }
    for k in 0..data.len() - 4 {
        for j in 0..8u32 {
            let e: u32 = 0x8000_0001;
            let burst = (e as u64) << j;
            let mut flipped = data.clone();
            for i in 0..5 {
                flipped[k + i] ^= (burst >> (8 * i)) as u8;
            }
            assert_ne!(crc32_autosar(&flipped), base);
        }
    }
}
