use chuniio_bridge::protocol::ChuniMessage;
use chuniio_bridge::protocol::DecodeError;

fn sample_pressure() -> Vec<u8> {
    let mut p = vec![0u8; 32];
    let mut i = 0usize;
    while i < 32 {
        p[i] = (i as u8) * 3 + 1;
        i += 1;
    }
    p
}

fn all_messages() -> Vec<ChuniMessage> {
    vec![
        ChuniMessage::JvsPoll,
        ChuniMessage::JvsPollResponse { opbtn: 0x05, beams: 0x02 },
        ChuniMessage::CoinCounterRead,
        ChuniMessage::CoinCounterReadResponse { count: 0x1234 },
        ChuniMessage::SliderInput { pressure: sample_pressure() },
        ChuniMessage::SliderStateRead,
        ChuniMessage::SliderStateReadResponse { pressure: sample_pressure() },
        ChuniMessage::SliderLedUpdate { rgb_data: vec![0xAA, 0xBB, 0xCC, 0xDD] },
        ChuniMessage::SliderLedUpdate { rgb_data: Vec::new() },
        ChuniMessage::LedUpdate { board: 1, rgb_data: vec![0x10, 0x20, 0x30] },
        ChuniMessage::Ping,
        ChuniMessage::Pong,
        ChuniMessage::JvsFullStateRead,
        ChuniMessage::JvsFullStateReadResponse {
            opbtn: 0x01,
            beams: 0x80,
            pressure: sample_pressure(),
            coin_counter: 0xBEEF,
        },
    ]
}

#[test]
fn round_trip_every_variant() {
    for m in all_messages() {
        let bytes = m.serialize();
        let back = ChuniMessage::deserialize(&bytes).expect("round trip must decode");
        assert_eq!(back, m);
    }
}

#[test]
fn poll_response_example_bytes() {
    let m = ChuniMessage::JvsPollResponse { opbtn: 0b0000_0101, beams: 0b0000_0010 };
    let bytes = m.serialize();
    assert_eq!(bytes, vec![0x02, 0x05, 0x02]);
    assert_eq!(ChuniMessage::deserialize(&bytes).unwrap(), m);
}

#[test]
fn led_update_example_bytes() {
    let m = ChuniMessage::LedUpdate { board: 1, rgb_data: vec![0x10, 0x20, 0x30] };
    let bytes = m.serialize();
    assert_eq!(bytes, vec![0x07, 0x01, 0x03, 0x10, 0x20, 0x30]);
    assert_eq!(ChuniMessage::deserialize(&bytes).unwrap(), m);
}

#[test]
fn coin_counter_is_little_endian() {
    let m = ChuniMessage::CoinCounterReadResponse { count: 0x1234 };
    assert_eq!(m.serialize(), vec![0x04, 0x34, 0x12]);
}

#[test]
fn full_state_layout() {
    let m = ChuniMessage::JvsFullStateReadResponse {
        opbtn: 0x11,
        beams: 0x22,
        pressure: sample_pressure(),
        coin_counter: 0xABCD,
    };
    let bytes = m.serialize();
    assert_eq!(bytes.len(), 37);
    assert_eq!(bytes[0], 0x0D);
    assert_eq!(bytes[1], 0x11);
    assert_eq!(bytes[2], 0x22);
    assert_eq!(&bytes[3..35], sample_pressure().as_slice());
    assert_eq!(bytes[35], 0xCD);
    assert_eq!(bytes[36], 0xAB);
}

#[test]
fn slider_led_update_length_prefix() {
    let m = ChuniMessage::SliderLedUpdate { rgb_data: vec![9, 8, 7] };
    assert_eq!(m.serialize(), vec![0x06, 0x03, 9, 8, 7]);
    let empty = ChuniMessage::SliderLedUpdate { rgb_data: Vec::new() };
    assert_eq!(empty.serialize(), vec![0x06, 0x00]);
    assert_eq!(ChuniMessage::deserialize(&[0x06, 0x00]).unwrap(), empty);
}

#[test]
fn decode_empty_input_rejected() {
    assert_eq!(ChuniMessage::deserialize(&[]), Err(DecodeError::Empty));
}

#[test]
fn decode_unknown_discriminant_rejected() {
    assert_eq!(
        ChuniMessage::deserialize(&[0xFF]),
        Err(DecodeError::UnknownDiscriminant(0xFF))
    );
    assert_eq!(
        ChuniMessage::deserialize(&[0x00, 0x01, 0x02]),
        Err(DecodeError::UnknownDiscriminant(0x00))
    );
    assert_eq!(
        ChuniMessage::deserialize(&[0x0E]),
        Err(DecodeError::UnknownDiscriminant(0x0E))
    );
}

#[test]
fn decode_truncation_always_rejected() {
    for m in all_messages() {
        let bytes = m.serialize();
        let mut cut = 1usize;
        while cut < bytes.len() {
            assert_eq!(
                ChuniMessage::deserialize(&bytes[..cut]),
                Err(DecodeError::Truncated),
                "truncating {:?} to {} bytes must be rejected",
                m,
                cut
            );
            cut += 1;
        }
    }
}

#[test]
fn decode_ignores_trailing_bytes() {
    assert_eq!(
        ChuniMessage::deserialize(&[0x01, 0xAA, 0xBB]).unwrap(),
        ChuniMessage::JvsPoll
    );
    assert_eq!(
        ChuniMessage::deserialize(&[0x02, 0x05, 0x02, 0x99]).unwrap(),
        ChuniMessage::JvsPollResponse { opbtn: 0x05, beams: 0x02 }
    );
    assert_eq!(
        ChuniMessage::deserialize(&[0x07, 0x00, 0x01, 0x42, 0x77]).unwrap(),
        ChuniMessage::LedUpdate { board: 0, rgb_data: vec![0x42] }
    );
}

#[test]
fn well_formedness_checks_shapes() {
    assert!(ChuniMessage::JvsPoll.is_well_formed());
    assert!(ChuniMessage::SliderInput { pressure: vec![0u8; 32] }.is_well_formed());
    assert!(!ChuniMessage::SliderInput { pressure: vec![0u8; 31] }.is_well_formed());
    assert!(!ChuniMessage::SliderStateReadResponse { pressure: vec![0u8; 33] }.is_well_formed());
    assert!(ChuniMessage::LedUpdate { board: 0, rgb_data: vec![0u8; 255] }.is_well_formed());
    assert!(!ChuniMessage::LedUpdate { board: 0, rgb_data: vec![0u8; 256] }.is_well_formed());
    assert!(!ChuniMessage::SliderLedUpdate { rgb_data: vec![0u8; 300] }.is_well_formed());
}
