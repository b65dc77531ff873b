use bit_vec::BitVec;
use nfc::exchange::{
    bits_reply, bytes_reply, deselect_reply, presence_reply, receive_buffer, status_reply,
    target_list_reply, target_reply, BitFrame,
};
use nfc::target_info::{Iso14443aInfo, INFO_LEN};
use nfc::{
    BaudRate, Context, ErrorKind, NfcError, PollType, RawTarget, Target, TargetInfo,
    TargetResultEnum,
};

fn kind_of(e: &NfcError) -> ErrorKind {
    match e {
        NfcError::FfiError { error } => error.kind(),
        NfcError::UnknownError { details } => panic!("unclassified error: {}", details),
    }
}

fn card() -> Target {
    Target {
        baud_rate: BaudRate::Nbr106,
        info: TargetInfo::ISO14443A {
            info: Iso14443aInfo {
                atqa: [0x00, 0x04],
                sak: 0x08,
                uid_len: 4,
                uid: [0xde, 0xad, 0xbe, 0xef, 0, 0, 0, 0, 0, 0],
                ats_len: 0,
                ats: [0; 254],
            },
        },
    }
}

fn zeroed_record() -> RawTarget {
    RawTarget { info: vec![0; INFO_LEN], modulation_type: 0, baud_rate: 0 }
}

#[test]
fn context_keeps_its_handle() {
    let ctx = Context::new(0x1000);
    assert_eq!(ctx.raw_context(), 0x1000);
    assert_eq!(ctx.close(), 0x1000);
}

#[test]
fn open_failure_is_a_message_error() {
    let mut ctx = Context::new(0x1000);
    match ctx.device_opened(0) {
        Err(e) => assert_eq!(e.message(), "Unknown NFC error occurred: Unable to open device, check STDERR for details!"),
        Ok(_) => panic!("a null handle must not give a device"),
    }
    let dev = ctx.device_opened(0x2000).ok().unwrap();
    assert_eq!(dev.raw_device(), 0x2000);
    assert_eq!(dev.close(), 0x2000);
}

#[test]
fn failed_promotion_hands_the_device_back() {
    let mut ctx = Context::new(0x1000);
    let dev = ctx.device_opened(0x2000).ok().unwrap();
    let (dev, err) = match dev.into_initiator(-3) {
        Err(pair) => pair,
        Ok(_) => panic!("promotion must fail"),
    };
    assert_eq!(kind_of(&err), ErrorKind::OperationNotSupported);
    assert_eq!(dev.raw_device(), 0x2000);
    let (dev, err) = match dev.into_secure_initiator(-1) {
        Err(pair) => pair,
        Ok(_) => panic!("promotion must fail"),
    };
    assert_eq!(kind_of(&err), ErrorKind::InputOutput);
    let initiator = match dev.into_initiator(0) {
        Ok(i) => i,
        Err(_) => panic!("promotion must succeed"),
    };
    assert_eq!(initiator.raw_device(), 0x2000);
    assert_eq!(initiator.close(), 0x2000);
}

#[test]
fn successful_promotion_moves_the_handle() {
    let mut ctx = Context::new(0x1000);
    let dev = ctx.device_opened(0x3000).ok().unwrap();
    let secure = match dev.into_secure_initiator(0) {
        Ok(s) => s,
        Err(_) => panic!("promotion must succeed"),
    };
    assert_eq!(secure.raw_device(), 0x3000);
    assert_eq!(secure.initiator().device().raw_device(), 0x3000);
    assert_eq!(secure.close(), 0x3000);
}

#[test]
fn poll_counts() {
    assert_eq!(PollType::Limited(3).poll_number(), 3);
    assert_eq!(PollType::Forever.poll_number(), 0xff);
}

#[test]
fn target_reply_zero_is_no_target() {
    assert!(matches!(target_reply(0, &zeroed_record()), Ok(TargetResultEnum::Empty)));
}

#[test]
fn target_reply_negative_is_an_error() {
    match target_reply(-1, &zeroed_record()) {
        Err(e) => assert_eq!(kind_of(&e), ErrorKind::InputOutput),
        Ok(_) => panic!("a negative count is an error"),
    }
}

#[test]
fn target_reply_positive_decodes_the_record() {
    match target_reply(1, &card().encode()) {
        Ok(TargetResultEnum::Found(found)) => {
            assert_eq!(found.count, 1);
            let t: Target = found.into();
            assert_eq!(t, card());
        }
        _ => panic!("a positive count is a target"),
    }
}

#[test]
fn listing_returns_exactly_the_reported_count() {
    let mut records: Vec<RawTarget> = (0..3).map(|_| card().encode()).collect();
    records.extend((0..7).map(|_| zeroed_record()));
    let targets = target_list_reply(3, &records).ok().unwrap();
    assert_eq!(targets.len(), 3);
    assert!(targets.iter().all(|t| *t == card()));
    assert!(target_list_reply(0, &records).ok().unwrap().is_empty());
    match target_list_reply(-6, &records) {
        Err(e) => assert_eq!(kind_of(&e), ErrorKind::Timeout),
        Ok(_) => panic!("a negative count is an error"),
    }
}

#[test]
fn byte_exchange_results() {
    let buf = receive_buffer(4);
    assert_eq!(buf, vec![0, 0, 0, 0]);
    assert_eq!(bytes_reply(2, vec![1, 2, 0, 0]).ok().unwrap(), vec![1, 2, 0, 0]);
    match bytes_reply(-5, vec![1, 2]) {
        Err(e) => assert_eq!(kind_of(&e), ErrorKind::Overflow),
        Ok(_) => panic!("a negative result is an error"),
    }
}

#[test]
fn bit_frame_packs_what_is_sent() {
    let mut send = BitVec::new();
    for b in [true, false, true, true, false, false, false, false, true] {
        send.push(b);
    }
    let mut parity = BitVec::new();
    parity.push(true);
    parity.push(false);
    let frame = BitFrame::new(&send, &parity, 16);
    assert_eq!(frame.send, vec![0b1011_0000, 0b1000_0000]);
    assert_eq!(frame.send_bit_count, 9);
    assert_eq!(frame.send_parity, vec![1, 0]);
    assert_eq!(frame.receive.len(), 16);
    assert_eq!(frame.receive_parity.len(), 2);
}

#[test]
fn bit_exchange_results() {
    let (bits, parity) = bits_reply(12, &[0b1010_0000, 0xff], &[0x80]).ok().unwrap();
    assert_eq!(bits.len(), 16);
    assert_eq!(bits.get(0), Some(true));
    assert_eq!(bits.get(1), Some(false));
    assert_eq!(bits.get(2), Some(true));
    assert_eq!(bits.get(8), Some(true));
    assert_eq!(parity.len(), 8);
    assert_eq!(parity.get(0), Some(true));
    assert_eq!(parity.get(1), Some(false));
    match bits_reply(-20, &[0], &[0]) {
        Err(e) => assert_eq!(kind_of(&e), ErrorKind::RFTransmission),
        Ok(_) => panic!("a negative result is an error"),
    }
}

#[test]
fn status_results() {
    assert!(status_reply(0).is_ok());
    match status_reply(-2) {
        Err(e) => assert_eq!(kind_of(&e), ErrorKind::InvalidArguments),
        Ok(_) => panic!("a non-zero status is an error"),
    }
    match status_reply(3) {
        Err(e) => assert_eq!(kind_of(&e), ErrorKind::Unrecognized { code: 3 }),
        Ok(_) => panic!("a non-zero status is an error"),
    }
    assert!(deselect_reply(0).is_ok());
    assert!(deselect_reply(5).is_ok());
    match deselect_reply(-10) {
        Err(e) => assert_eq!(kind_of(&e), ErrorKind::TargetReleased),
        Ok(_) => panic!("a negative result is an error"),
    }
    assert!(presence_reply(0));
    assert!(!presence_reply(-10));
}

#[test]
fn open_promote_and_poll_one_card() {
    let mut ctx = Context::new(0x1000);
    let dev = ctx.device_opened(0x2000).ok().unwrap();
    let initiator = match dev.into_initiator(0) {
        Ok(i) => i,
        Err(_) => panic!("promotion must succeed"),
    };
    assert_eq!(PollType::Limited(1).poll_number(), 1);
    match target_reply(1, &card().encode()) {
        Ok(TargetResultEnum::Found(found)) => {
            assert!(matches!(found.target.info, TargetInfo::ISO14443A { .. }));
            assert_eq!(found.target, card());
        }
        _ => panic!("expected a target"),
    }
    assert_eq!(initiator.close(), 0x2000);
    assert_eq!(ctx.close(), 0x1000);
}
