use motor_link::ymodem::{
    decimal_digits, end_block_exec, header_block_exec, SendAction, SendEvent, SendPhase,
    YmodemError, YmodemSender, ACK, CAN, CRC, EOT, SOH, STX,
};
use motor_link::Ymodem;

fn crc16(data: &[u8]) -> u16 {
    crc::Crc::<u16>::new(&crc::CRC_16_XMODEM).checksum(data)
}

fn written(a: SendAction) -> Vec<u8> {
    match a {
        SendAction::SendAndAwait(b) => b,
        _ => panic!("expected a write"),
    }
}

fn read_size(a: SendAction) -> usize {
    match a {
        SendAction::ReadData(n) => n,
        _ => panic!("expected a read of the file"),
    }
}

fn started(name: &[u8], size: u64) -> YmodemSender {
    let mut s = YmodemSender::new(Ymodem::new(), name, size).unwrap();
    let header = written(s.step(SendEvent::Byte(CRC)));
    assert_eq!(header.len(), 133);
    assert!(matches!(s.step(SendEvent::Byte(ACK)), SendAction::Await));
    s
}

#[test]
fn block_checksum_is_xmodem() {
    assert_eq!(crc16(b"123456789"), 0x31c3);
}

#[test]
fn config_defaults() {
    let c = Ymodem::new();
    assert_eq!(c.max_errors, 20);
    assert_eq!(c.max_initial_errors, 16);
    assert_eq!(c.pad_byte, 0x1a);
    assert!(!c.ignore_non_digits_on_file_size);
}

#[test]
fn decimal_sizes() {
    assert_eq!(decimal_digits(0), b"0".to_vec());
    assert_eq!(decimal_digits(1024), b"1024".to_vec());
    assert_eq!(decimal_digits(u64::MAX), u64::MAX.to_string().into_bytes());
}

#[test]
fn header_block_layout() {
    let b = header_block_exec(b"fw.bin", 1234).unwrap();
    assert_eq!(b.len(), 133);
    assert_eq!(&b[0..3], &[SOH, 0x00, 0xff]);
    assert_eq!(&b[3..14], b"fw.bin\x001234");
    assert!(b[14..131].iter().all(|&x| x == 0));
    let crc = crc16(&b[3..131]);
    assert_eq!(b[131], (crc >> 8) as u8);
    assert_eq!(b[132], (crc & 0xff) as u8);
}

#[test]
fn header_name_too_long() {
    let name = vec![b'a'; 126];
    assert!(header_block_exec(&name, 1).is_some());
    assert!(header_block_exec(&name, 10).is_none());
    assert!(YmodemSender::new(Ymodem::new(), &name, 10).is_none());
}

#[test]
fn end_block_is_empty_block_zero() {
    let b = end_block_exec();
    assert_eq!(b.len(), 133);
    assert_eq!(&b[0..3], &[SOH, 0x00, 0xff]);
    assert!(b[3..131].iter().all(|&x| x == 0));
}

#[test]
fn empty_file_sends_header_and_no_data_block() {
    let mut s = YmodemSender::new(Ymodem::new(), b"empty.bin", 0).unwrap();
    let header = written(s.step(SendEvent::Byte(CRC)));
    assert_eq!(&header[3..15], b"empty.bin\x000\x00");
    assert!(matches!(s.step(SendEvent::Byte(ACK)), SendAction::Await));
    assert_eq!(read_size(s.step(SendEvent::Byte(CRC))), 128);
    assert_eq!(written(s.step(SendEvent::Data(vec![]))), vec![EOT]);
    assert!(matches!(s.step(SendEvent::Byte(ACK)), SendAction::Drain));
    assert!(matches!(s.step(SendEvent::Done), SendAction::Sleep(3000)));
    assert_eq!(written(s.step(SendEvent::Done)), end_block_exec());
    assert!(matches!(s.step(SendEvent::Byte(ACK)), SendAction::Drain));
    assert!(matches!(s.step(SendEvent::Done), SendAction::Complete));
    assert_eq!(s.phase(), SendPhase::Finished);
    assert_eq!(s.errors(), 0);
}

#[test]
fn silent_receiver_exhausts_retries() {
    let mut s = started(b"a.bin", 10);
    let mut steps = 0;
    loop {
        steps += 1;
        match s.step(SendEvent::Timeout) {
            SendAction::SendAndAwait(b) => assert_eq!(b.len(), 133),
            SendAction::Abort { cancel, error } => {
                assert!(!cancel);
                assert_eq!(error, YmodemError::ExhaustedRetries);
                break;
            }
            _ => panic!("unexpected action"),
        }
        assert!(steps < 100);
    }
    assert_eq!(steps, 20);
    assert!(matches!(
        s.step(SendEvent::Byte(ACK)),
        SendAction::Abort { cancel: false, error: YmodemError::ExhaustedRetries }
    ));
}

#[test]
fn unacknowledged_block_is_resent() {
    let mut s = started(b"a.bin", 3);
    assert_eq!(read_size(s.step(SendEvent::Byte(CRC))), 128);
    let block = written(s.step(SendEvent::Data(vec![1, 2, 3])));
    assert_eq!(written(s.step(SendEvent::Byte(0x15))), block);
    assert_eq!(written(s.step(SendEvent::Timeout)), block);
    assert_eq!(s.errors(), 2);
    assert_eq!(read_size(s.step(SendEvent::Byte(ACK))), 128);
}

#[test]
fn blocks_are_sized_numbered_and_padded() {
    let mut s = started(b"a.bin", 1024 + 100);
    assert_eq!(read_size(s.step(SendEvent::Byte(CRC))), 1024);
    let first = written(s.step(SendEvent::Data(vec![7u8; 1024])));
    assert_eq!(first.len(), 1029);
    assert_eq!(&first[0..3], &[STX, 1, 254]);
    let crc = crc16(&first[3..1027]);
    assert_eq!(&first[1027..], &[(crc >> 8) as u8, (crc & 0xff) as u8]);
    assert_eq!(read_size(s.step(SendEvent::Byte(ACK))), 128);
    let second = written(s.step(SendEvent::Data(vec![9u8; 100])));
    assert_eq!(second.len(), 133);
    assert_eq!(&second[0..3], &[SOH, 2, 253]);
    assert!(second[3..103].iter().all(|&x| x == 9));
    assert!(second[103..131].iter().all(|&x| x == 0x1a));
    assert_eq!(read_size(s.step(SendEvent::Byte(ACK))), 128);
    assert_eq!(written(s.step(SendEvent::Data(vec![]))), vec![EOT]);
}

#[test]
fn remainder_over_128_uses_large_block() {
    let mut s = started(b"a.bin", 129);
    assert_eq!(read_size(s.step(SendEvent::Byte(CRC))), 1024);
}

#[test]
fn two_cancels_at_start() {
    let mut s = YmodemSender::new(Ymodem::new(), b"a.bin", 1).unwrap();
    assert!(matches!(s.step(SendEvent::Byte(CAN)), SendAction::Await));
    assert!(matches!(
        s.step(SendEvent::Byte(CAN)),
        SendAction::Abort { cancel: false, error: YmodemError::Canceled }
    ));
}

#[test]
fn cancels_must_be_consecutive() {
    let mut s = YmodemSender::new(Ymodem::new(), b"a.bin", 1).unwrap();
    assert!(matches!(s.step(SendEvent::Byte(CAN)), SendAction::Await));
    assert!(matches!(s.step(SendEvent::Timeout), SendAction::Await));
    assert!(matches!(s.step(SendEvent::Byte(CAN)), SendAction::Await));
    assert!(matches!(s.step(SendEvent::Byte(CRC)), SendAction::SendAndAwait(_)));
}

#[test]
fn start_budget_exceeded_sends_cancel() {
    let mut s = YmodemSender::new(Ymodem::new(), b"a.bin", 1).unwrap();
    for _ in 0..16 {
        assert!(matches!(s.step(SendEvent::Timeout), SendAction::Await));
    }
    assert!(matches!(
        s.step(SendEvent::Timeout),
        SendAction::Abort { cancel: true, error: YmodemError::ExhaustedRetries }
    ));
}

#[test]
fn block_numbers_wrap() {
    let mut s = started(b"big.bin", 300 * 1024);
    let mut size = read_size(s.step(SendEvent::Byte(CRC)));
    for n in 1..=257u32 {
        let b = written(s.step(SendEvent::Data(vec![0u8; size])));
        assert_eq!(b[1], (n % 256) as u8);
        assert_eq!(b[2], 255 - (n % 256) as u8);
        size = read_size(s.step(SendEvent::Byte(ACK)));
    }
}

#[test]
fn header_resent_until_c_follows_ack() {
    let mut s = started(b"a.bin", 3);
    let again = written(s.step(SendEvent::Byte(0x15)));
    assert_eq!(again, header_block_exec(b"a.bin", 3).unwrap());
    assert_eq!(s.phase(), SendPhase::AwaitHeaderAck);
    assert!(matches!(s.step(SendEvent::Byte(ACK)), SendAction::Await));
    assert_eq!(read_size(s.step(SendEvent::Byte(CRC))), 128);
    assert_eq!(s.errors(), 1);
}

#[test]
fn eot_not_acknowledged_goes_on_to_closing_block() {
    let mut s = started(b"a.bin", 0);
    assert_eq!(read_size(s.step(SendEvent::Byte(CRC))), 128);
    assert_eq!(written(s.step(SendEvent::Data(vec![]))), vec![EOT]);
    assert!(matches!(s.step(SendEvent::Byte(0x15)), SendAction::Drain));
    assert_eq!(s.errors(), 1);
    assert!(matches!(s.step(SendEvent::Done), SendAction::Sleep(3000)));
    assert_eq!(written(s.step(SendEvent::Done)), end_block_exec());
}
