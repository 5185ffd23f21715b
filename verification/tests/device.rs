use chuniio_bridge::protocol::ChuniMessage;
use chuniio_bridge::slider::SliderControl;
use chuniio_bridge::state::cached_coins_or_default;
use chuniio_bridge::state::cached_input_or_default;
use chuniio_bridge::state::DeviceState;
use chuniio_bridge::state::board_len;

#[test]
fn fresh_state_is_zeroed() {
    let s = DeviceState::new();
    assert_eq!(s.read_cached_input(), (0, 0));
    assert_eq!(s.read_coin_counter(), 0);
    assert!(!s.led_initialized);
    assert_eq!(s.slider_pressure, vec![0u8; 32]);
}

#[test]
fn board_sizes_are_fixed() {
    assert_eq!(board_len(0), 159);
    assert_eq!(board_len(1), 189);
    assert_eq!(board_len(2), 93);
}

#[test]
fn led_init_installs_zeroed_buffers() {
    let mut s = DeviceState::new();
    s.led_init();
    assert!(s.led_initialized);
    assert_eq!(s.read_led_buffer(0), vec![0u8; 159]);
    assert_eq!(s.read_led_buffer(1), vec![0u8; 189]);
    assert_eq!(s.read_led_buffer(2), vec![0u8; 93]);
}

#[test]
fn led_init_again_keeps_written_buffers() {
    let mut s = DeviceState::new();
    s.led_init();
    let colors = vec![0x42u8; 93];
    assert!(s.write_led_buffer(2, colors.clone()).is_ok());
    s.led_init();
    assert_eq!(s.read_led_buffer(2), colors);
}

#[test]
fn led_write_of_wrong_length_is_rejected_without_mutation() {
    let mut s = DeviceState::new();
    s.led_init();
    let before = s.read_led_buffer(0);
    let r = s.write_led_buffer(0, vec![0x33u8; 100]);
    assert!(r.is_err());
    assert_eq!(s.read_led_buffer(0), before);
}

#[test]
fn led_write_to_missing_board_is_rejected() {
    let mut s = DeviceState::new();
    s.led_init();
    assert!(s.write_led_buffer(3, vec![0u8; 159]).is_err());
    assert!(s.write_led_buffer(255, vec![0u8; 93]).is_err());
}

#[test]
fn led_write_before_init_is_rejected() {
    let mut s = DeviceState::new();
    assert!(s.write_led_buffer(0, vec![0u8; 159]).is_err());
    assert!(!s.led_initialized);
}

#[test]
fn led_write_of_exact_length_is_installed() {
    let mut s = DeviceState::new();
    s.led_init();
    let colors: Vec<u8> = (0..159u16).map(|i| (i % 251) as u8).collect();
    assert!(s.write_led_buffer(0, colors.clone()).is_ok());
    assert_eq!(s.read_led_buffer(0), colors);
    assert_eq!(s.read_led_buffer(1), vec![0u8; 189]);
}

#[test]
fn refresh_input_installs_poll_response() {
    let mut s = DeviceState::new();
    let r = s.refresh_input(Some(ChuniMessage::JvsPollResponse { opbtn: 0x05, beams: 0x02 }));
    assert_eq!(r, (0x05, 0x02));
    assert_eq!(s.read_cached_input(), (0x05, 0x02));
}

#[test]
fn refresh_input_keeps_cache_on_failure() {
    let mut s = DeviceState::new();
    s.refresh_input(Some(ChuniMessage::JvsPollResponse { opbtn: 9, beams: 4 }));
    let r = s.refresh_input(None);
    assert_eq!(r, (9, 4));
    let r = s.refresh_input(Some(ChuniMessage::Pong));
    assert_eq!(r, (9, 4));
    assert_eq!(s.read_cached_input(), (9, 4));
}

#[test]
fn refresh_coin_installs_count() {
    let mut s = DeviceState::new();
    let r = s.refresh_coin(Some(ChuniMessage::CoinCounterReadResponse { count: 41 }));
    assert_eq!(r, 41);
    assert_eq!(s.read_coin_counter(), 41);
}

#[test]
fn refresh_coin_keeps_cache_on_failure() {
    let mut s = DeviceState::new();
    s.refresh_coin(Some(ChuniMessage::CoinCounterReadResponse { count: 17 }));
    assert_eq!(s.refresh_coin(None), 17);
    assert_eq!(s.refresh_coin(Some(ChuniMessage::Ping)), 17);
    assert_eq!(s.read_coin_counter(), 17);
}

#[test]
fn slider_frame_installs_well_formed_snapshot() {
    let mut s = DeviceState::new();
    let mut p = vec![0u8; 32];
    p[0] = 0xAB;
    p[31] = 0xCD;
    let frame = s.slider_frame(Some(ChuniMessage::SliderStateReadResponse { pressure: p.clone() }));
    assert_eq!(frame, p);
    assert_eq!(s.slider_pressure, p);
}

#[test]
fn slider_frame_hands_cache_when_reply_is_missing_or_malformed() {
    let mut s = DeviceState::new();
    let mut p = vec![0u8; 32];
    p[5] = 0x77;
    s.slider_frame(Some(ChuniMessage::SliderStateReadResponse { pressure: p.clone() }));
    let frame = s.slider_frame(None);
    assert_eq!(frame, p);
    let frame = s.slider_frame(Some(ChuniMessage::Pong));
    assert_eq!(frame, p);
    let frame = s.slider_frame(Some(ChuniMessage::SliderStateReadResponse {
        pressure: vec![1u8; 31],
    }));
    assert_eq!(frame, p);
    assert_eq!(s.slider_pressure, p);
}

#[test]
fn contended_reads_return_defaults_immediately() {
    let mut s = DeviceState::new();
    s.refresh_input(Some(ChuniMessage::JvsPollResponse { opbtn: 1, beams: 2 }));
    s.refresh_coin(Some(ChuniMessage::CoinCounterReadResponse { count: 3 }));
    assert_eq!(cached_input_or_default(Some(&s)), (1, 2));
    assert_eq!(cached_coins_or_default(Some(&s)), 3);
    assert_eq!(cached_input_or_default(None), (0, 0));
    assert_eq!(cached_coins_or_default(None), 0);
}

#[test]
fn slider_start_spawns_only_from_idle() {
    let mut c: SliderControl<i32> = SliderControl::new();
    assert!(!c.is_active());
    assert!(c.start(1));
    assert!(c.is_active());
    assert_eq!(c.callback, Some(1));
    assert!(!c.start(2));
    assert!(c.is_active());
    assert_eq!(c.callback, Some(1));
}

#[test]
fn slider_stop_idles_and_keeps_callback() {
    let mut c: SliderControl<i32> = SliderControl::new();
    c.start(5);
    c.stop();
    assert!(!c.is_active());
    assert_eq!(c.callback, Some(5));
    assert!(c.start(6));
    assert_eq!(c.callback, Some(6));
}
