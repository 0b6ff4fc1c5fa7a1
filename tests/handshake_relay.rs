use motor_link::relay::relay_commands;
use motor_link::upgrade::{handshake_command, should_transfer, HandshakeStep, IapHandshake};

#[test]
fn handshake_word_is_update() {
    assert_eq!(handshake_command(), b"update".to_vec());
}

#[test]
fn handshake_entered_on_c_in_fourth_byte() {
    let mut h = IapHandshake::new();
    assert_eq!(h.on_reply(&None), HandshakeStep::Retry);
    assert_eq!(h.on_reply(&Some(vec![0x43, 0, 0])), HandshakeStep::Retry);
    assert_eq!(h.on_reply(&Some(vec![1, 2, 3, 0x43])), HandshakeStep::Entered);
    assert_eq!(h.attempts, 2);
}

#[test]
fn handshake_gives_up_after_bound() {
    let mut h = IapHandshake::new();
    for _ in 0..199 {
        assert_eq!(h.on_reply(&None), HandshakeStep::Retry);
    }
    assert_eq!(h.on_reply(&None), HandshakeStep::GaveUp);
    assert!(should_transfer(HandshakeStep::GaveUp, true));
    assert!(!should_transfer(HandshakeStep::GaveUp, false));
    assert!(should_transfer(HandshakeStep::Entered, false));
}

#[test]
fn relay_frames() {
    let on = relay_commands(true);
    assert_eq!(on[0], vec![0x01, 0x05, 0x00, 0x00, 0xFF, 0x00, 0x8C, 0x3A]);
    assert_eq!(on[3], vec![0x01, 0x05, 0x00, 0x03, 0xFF, 0x00, 0x7C, 0x3A]);
    let off = relay_commands(false);
    assert_eq!(off[1], vec![0x01, 0x05, 0x00, 0x01, 0x00, 0x00, 0x9C, 0x0A]);
    assert_eq!(off[2], vec![0x01, 0x05, 0x00, 0x02, 0x00, 0x00, 0x6C, 0x0A]);
}
