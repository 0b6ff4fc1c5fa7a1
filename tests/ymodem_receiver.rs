use std::collections::VecDeque;

use motor_link::header::{decimal_u32_exec, find_byte, header_info_exec, parse_size_exec};
use motor_link::receive::{RecvAction, RecvEvent, RecvPhase, YmodemReceiver};
use motor_link::ymodem::{
    header_block_exec, SendAction, SendEvent, YmodemError, YmodemSender, ACK, CRC, NAK,
    SOH,
};
use motor_link::Ymodem;

fn crc16(data: &[u8]) -> u16 {
    crc::Crc::<u16>::new(&crc::CRC_16_XMODEM).checksum(data)
}

enum Need {
    Byte,
    Bytes(usize),
    Data(usize),
    Done,
    Over(Result<(), YmodemError>),
}

fn sender_need(a: SendAction, out: &mut VecDeque<u8>, inbox: &mut VecDeque<u8>) -> Need {
    match a {
        SendAction::Await => Need::Byte,
        SendAction::SendAndAwait(b) => {
            out.extend(b);
            Need::Byte
        }
        SendAction::ReadData(n) => Need::Data(n),
        SendAction::Drain => {
            inbox.clear();
            Need::Done
        }
        SendAction::Sleep(_) => Need::Done,
        SendAction::Abort { error, .. } => Need::Over(Err(error)),
        SendAction::Complete => Need::Over(Ok(())),
    }
}

fn receiver_need(a: RecvAction, out: &mut VecDeque<u8>) -> Need {
    match a {
        RecvAction::Await => Need::Byte,
        RecvAction::Reply(b) => {
            out.extend(b);
            Need::Byte
        }
        RecvAction::ReadBlock(n) => Need::Bytes(n),
        RecvAction::Abort { error, .. } => Need::Over(Err(error)),
        RecvAction::Complete => {
            out.push_back(ACK);
            Need::Over(Ok(()))
        }
    }
}

/// Runs a sender and a receiver against each other over two queues.
fn transfer(name: &[u8], file: &[u8]) -> (Vec<u8>, u32, Vec<u8>) {
    let mut s2r: VecDeque<u8> = VecDeque::new();
    let mut r2s: VecDeque<u8> = VecDeque::new();
    let mut sender = YmodemSender::new(Ymodem::new(), name, file.len() as u64).unwrap();
    let (mut receiver, first) = YmodemReceiver::new(Ymodem::new());
    let mut rn = receiver_need(first, &mut r2s);
    let mut sn = Need::Byte;
    let mut pos = 0usize;
    for _ in 0..100_000 {
        if let (Need::Over(a), Need::Over(b)) = (&sn, &rn) {
            assert_eq!(*a, Ok(()));
            assert_eq!(*b, Ok(()));
            return (receiver.file_name(), receiver.file_size(), receiver.received());
        }
        let mut moved = false;
        match sn {
            Need::Byte if !r2s.is_empty() => {
                let b = r2s.pop_front().unwrap();
                sn = sender_need(sender.step(SendEvent::Byte(b)), &mut s2r, &mut r2s);
                moved = true;
            }
            Need::Data(n) => {
                let end = (pos + n).min(file.len());
                let chunk = file[pos..end].to_vec();
                pos = end;
                sn = sender_need(sender.step(SendEvent::Data(chunk)), &mut s2r, &mut r2s);
                moved = true;
            }
            Need::Done => {
                sn = sender_need(sender.step(SendEvent::Done), &mut s2r, &mut r2s);
                moved = true;
            }
            _ => {}
        }
        match rn {
            Need::Byte if !s2r.is_empty() => {
                let b = s2r.pop_front().unwrap();
                rn = receiver_need(receiver.step(RecvEvent::Byte(b)), &mut r2s);
                moved = true;
            }
            Need::Bytes(n) if s2r.len() >= n => {
                let block: Vec<u8> = s2r.drain(..n).collect();
                rn = receiver_need(receiver.step(RecvEvent::Block(block)), &mut r2s);
                moved = true;
            }
            _ => {}
        }
        if !moved {
            panic!("the two sides wait for each other");
        }
    }
    panic!("transfer did not end");
}

#[test]
fn loopback_small_file() {
    let file: Vec<u8> = (0..100u32).map(|i| (i * 7) as u8).collect();
    let (name, size, data) = transfer(b"fw.bin", &file);
    assert_eq!(name, b"fw.bin".to_vec());
    assert_eq!(size, 100);
    assert_eq!(data, file);
}

#[test]
fn loopback_multi_block_file() {
    let file: Vec<u8> = (0..3000u32).map(|i| (i % 251) as u8).collect();
    let (name, size, data) = transfer(b"image.hex", &file);
    assert_eq!(name, b"image.hex".to_vec());
    assert_eq!(size, 3000);
    assert_eq!(data, file);
}

#[test]
fn loopback_empty_file() {
    let (name, size, data) = transfer(b"none", &[]);
    assert_eq!(name, b"none".to_vec());
    assert_eq!(size, 0);
    assert!(data.is_empty());
}

fn block_body(num: u8, payload: &[u8]) -> Vec<u8> {
    let mut b = vec![num, 255 - num];
    b.extend_from_slice(payload);
    let crc = crc16(payload);
    b.push((crc >> 8) as u8);
    b.push((crc & 0xff) as u8);
    b
}

fn after_header(size_field: &[u8]) -> YmodemReceiver {
    let (mut r, _) = YmodemReceiver::new(Ymodem::new());
    assert!(matches!(r.step(RecvEvent::Byte(SOH)), RecvAction::ReadBlock(132)));
    let mut p = b"f\0".to_vec();
    p.extend_from_slice(size_field);
    p.resize(128, 0);
    match r.step(RecvEvent::Block(block_body(0, &p))) {
        RecvAction::Reply(b) => assert_eq!(b, vec![ACK, CRC]),
        _ => panic!("header refused"),
    }
    r
}

#[test]
fn receiver_reads_size_before_space() {
    let r = after_header(b"1234 14417572045 100644");
    assert_eq!(r.file_size(), 1234);
    assert_eq!(r.file_name(), b"f".to_vec());
}

#[test]
fn receiver_rejects_unreadable_size() {
    let (mut r, _) = YmodemReceiver::new(Ymodem::new());
    r.step(RecvEvent::Byte(SOH));
    let mut p = b"f\0size".to_vec();
    p.resize(128, 0);
    assert!(matches!(
        r.step(RecvEvent::Block(block_body(0, &p))),
        RecvAction::Abort { cancel: true, error: YmodemError::InvalidHeader }
    ));
}

#[test]
fn receiver_naks_bad_checksum() {
    let (mut r, _) = YmodemReceiver::new(Ymodem::new());
    r.step(RecvEvent::Byte(SOH));
    let mut body = block_body(0, &header_block_exec(b"f", 1).unwrap()[3..131]);
    body[5] ^= 1;
    match r.step(RecvEvent::Block(body)) {
        RecvAction::Reply(b) => assert_eq!(b, vec![NAK]),
        _ => panic!("expected NAK"),
    }
    assert_eq!(r.phase(), RecvPhase::AwaitHeader);
}

#[test]
fn receiver_cancels_on_wrong_block_number() {
    let mut r = after_header(b"10");
    assert!(matches!(r.step(RecvEvent::Byte(SOH)), RecvAction::ReadBlock(132)));
    assert!(matches!(
        r.step(RecvEvent::Block(block_body(2, &[0u8; 128]))),
        RecvAction::Abort { cancel: true, error: YmodemError::Canceled }
    ));
}

#[test]
fn receiver_first_eot_is_nakd() {
    let mut r = after_header(b"0");
    match r.step(RecvEvent::Byte(0x04)) {
        RecvAction::Reply(b) => assert_eq!(b, vec![NAK]),
        _ => panic!("expected NAK"),
    }
    match r.step(RecvEvent::Byte(0x04)) {
        RecvAction::Reply(b) => assert_eq!(b, vec![ACK, CRC]),
        _ => panic!("expected ACK"),
    }
}

#[test]
fn receiver_start_budget() {
    let (mut r, _) = YmodemReceiver::new(Ymodem::new());
    for _ in 0..16 {
        assert!(matches!(r.step(RecvEvent::Timeout), RecvAction::Reply(_)));
    }
    assert!(matches!(
        r.step(RecvEvent::Timeout),
        RecvAction::Abort { cancel: false, error: YmodemError::ExhaustedRetries }
    ));
}

#[test]
fn size_fields() {
    assert_eq!(decimal_u32_exec(b"4294967295"), Some(u32::MAX));
    assert_eq!(decimal_u32_exec(b"4294967296"), None);
    assert_eq!(decimal_u32_exec(b"+12"), Some(12));
    assert_eq!(decimal_u32_exec(b"+"), None);
    assert_eq!(decimal_u32_exec(b""), None);
    assert_eq!(decimal_u32_exec(b"1a"), None);
    assert_eq!(parse_size_exec(b"12a3", true), Some(123));
    assert_eq!(parse_size_exec(b"12a3", false), None);
    assert_eq!(parse_size_exec(b"77 12", false), Some(77));
    assert_eq!(find_byte(b"ab c", b' '), 2);
    assert_eq!(find_byte(b"abc", b' '), 3);
}

#[test]
fn header_fields_from_payload() {
    let mut p = b"name.bin\x00512\x00".to_vec();
    p.resize(128, 0);
    assert_eq!(header_info_exec(&p, false), Some((b"name.bin".to_vec(), 512)));
    assert_eq!(header_info_exec(&[0u8; 128], false), None);
}

#[test]
fn receiver_counts_stray_bytes() {
    let (mut r, _) = YmodemReceiver::new(Ymodem::new());
    for _ in 0..16 {
        assert!(matches!(r.step(RecvEvent::Byte(0x55)), RecvAction::Reply(_)));
    }
    assert!(matches!(
        r.step(RecvEvent::Byte(0x55)),
        RecvAction::Abort { cancel: false, error: YmodemError::ExhaustedRetries }
    ));
    let mut r = after_header(b"10");
    for _ in 0..19 {
        assert!(matches!(r.step(RecvEvent::Byte(0x55)), RecvAction::Await));
    }
    assert!(matches!(
        r.step(RecvEvent::Byte(0x55)),
        RecvAction::Abort { cancel: false, error: YmodemError::ExhaustedRetries }
    ));
}

#[test]
fn closing_block_may_follow_a_single_eot() {
    let mut r = after_header(b"0");
    assert!(matches!(r.step(RecvEvent::Byte(0x04)), RecvAction::Reply(_)));
    assert!(matches!(r.step(RecvEvent::Byte(SOH)), RecvAction::ReadBlock(132)));
    assert!(matches!(r.step(RecvEvent::Block(block_body(0, &[0u8; 128]))), RecvAction::Complete));
    assert_eq!(r.phase(), RecvPhase::Finished);
}
