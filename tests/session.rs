use netmd::device::device_ids;
use netmd::protocol::{decode_poll, poll_request, reply_retry_delay, ControlIn};
use netmd::session::{NetMD, NetMdError, ReplyStep};

fn session() -> NetMD {
    let table = device_ids();
    let claim = NetMD::identify(&table, 0x054c, 0x0084).unwrap();
    NetMD::new(claim, Ok(())).unwrap()
}

#[test]
fn poll_request_is_four_bytes_with_request_one() {
    assert_eq!(poll_request(), ControlIn { request: 0x01, length: 4 });
}

#[test]
fn poll_reads_little_endian_length_from_bytes_two_and_three() {
    let s = session();
    assert_eq!(s.poll([0, 0, 0x10, 0x27]), (10000, [0, 0, 0x10, 0x27]));
    assert_eq!(s.poll([1, 2, 3, 4]), (0x0403, [1, 2, 3, 4]));
    assert_eq!(s.poll([0xff, 0xff, 0, 0]), (0, [0xff, 0xff, 0, 0]));
    assert_eq!(decode_poll([9, 9, 0xff, 0xff]).0, 0xffff);
    for b2 in [0u8, 1, 0x80, 0xff] {
        for b3 in [0u8, 7, 0xff] {
            let raw = [0xa5, 0x5a, b2, b3];
            assert_eq!(s.poll(raw), (u16::from_le_bytes([b2, b3]), raw));
        }
    }
}

#[test]
fn send_command_refuses_busy_device() {
    let s = session();
    let r = s.send_command(vec![0x00, 0x18], [0, 0, 1, 0]);
    assert!(matches!(r, Err(NetMdError::NotReady)));
    let r = s.send_factory_command(vec![0x00], [0, 0, 0xff, 0]);
    assert!(matches!(r, Err(NetMdError::NotReady)));
}

#[test]
fn send_command_on_ready_device_builds_control_out() {
    let s = session();
    let t = s.send_command(vec![0x00, 0x18, 0x08], [0x12, 0x34, 0, 0x56]).unwrap();
    assert_eq!(t.request, 0x80);
    assert_eq!(t.data, vec![0x00, 0x18, 0x08]);
    let t = s.send_factory_command(vec![0x01], [0, 0, 0, 0]).unwrap();
    assert_eq!(t.request, 0xff);
    assert_eq!(t.data, vec![0x01]);
}

#[test]
fn retry_delay_staircase() {
    for i in 0..10u64 {
        assert_eq!(reply_retry_delay(i), 0);
    }
    for i in 10..20u64 {
        assert_eq!(reply_retry_delay(i), 10);
    }
    assert_eq!(reply_retry_delay(20), 30);
    assert_eq!(reply_retry_delay(39), 70);
    assert_eq!(reply_retry_delay(609), 10 * ((1u64 << 60) - 1));
    assert_eq!(reply_retry_delay(610), u64::MAX);
    assert_eq!(reply_retry_delay(u64::MAX), u64::MAX);
}

#[test]
fn reply_wait_backs_off_then_reads_polled_length() {
    let s = session();
    let mut w = s.read_reply(None);
    assert!(!w.is_factory());
    let mut waits = Vec::new();
    for _ in 0..12 {
        match w.on_poll(0) {
            ReplyStep::Wait(ms) => waits.push(ms),
            ReplyStep::Read(_) => panic!("read before a length arrived"),
        }
    }
    assert_eq!(waits, vec![0, 0, 0, 0, 0, 0, 0, 0, 0, 0, 10, 10]);
    assert_eq!(w.attempt(), 12);
    match w.on_poll(42) {
        ReplyStep::Read(c) => assert_eq!(c, ControlIn { request: 0x81, length: 42 }),
        ReplyStep::Wait(_) => panic!("expected a read"),
    }
}

#[test]
fn reply_override_replaces_polled_length() {
    let s = session();
    let mut w = s.read_factory_reply(Some(300));
    assert!(w.is_factory());
    match w.on_poll(7) {
        ReplyStep::Read(c) => assert_eq!(c, ControlIn { request: 0xff, length: 300 }),
        ReplyStep::Wait(_) => panic!("expected a read"),
    }
    let mut w = s.read_reply(Some(70000));
    match w.on_poll(1) {
        ReplyStep::Read(c) => assert_eq!(c, ControlIn { request: 0x81, length: 70000u32 as u16 }),
        ReplyStep::Wait(_) => panic!("expected a read"),
    }
}

#[test]
fn read_bulk_chunks_ten_thousand_bytes() {
    let s = session();
    let mut r = s.read_bulk(10000, 4096);
    let mut sizes = Vec::new();
    while let Some(t) = r.next_request() {
        assert_eq!(t.endpoint, 0x81);
        sizes.push(t.length);
        let fill = sizes.len() as u8;
        r.receive(vec![fill; t.length]);
    }
    assert_eq!(sizes, vec![4096, 4096, 1808]);
    let data = r.into_data();
    assert_eq!(data.len(), 10000);
    assert!(data[..4096].iter().all(|&b| b == 1));
    assert!(data[4096..8192].iter().all(|&b| b == 2));
    assert!(data[8192..].iter().all(|&b| b == 3));
}

#[test]
fn read_bulk_short_transfers_keep_asking_for_the_rest() {
    let s = session();
    let mut r = s.read_bulk_to_array(10, 4);
    let mut sizes = Vec::new();
    while let Some(t) = r.next_request() {
        sizes.push(t.length);
        r.receive(vec![0xab; t.length.min(3)]);
    }
    assert_eq!(sizes, vec![4, 4, 4, 1]);
    assert_eq!(r.total(), 10);
    assert_eq!(r.data().len(), 10);
}

#[test]
fn read_bulk_of_nothing_issues_no_transfer() {
    let s = session();
    let r = s.read_bulk(0, 4096);
    assert!(r.next_request().is_none());
    assert!(r.into_data().is_empty());
}

#[test]
fn write_bulk_is_one_transfer_on_the_write_endpoint() {
    let s = session();
    let t = s.write_bulk(vec![1, 2, 3, 4, 5]);
    assert_eq!(t.endpoint, 0x02);
    assert_eq!(t.data, vec![1, 2, 3, 4, 5]);
}
