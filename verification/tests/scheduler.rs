use ble_ll::baseband::{deliver_events, Baseband, Event};
use ble_ll::link::{
    AddressKind, DeviceAddress, LinkLayer, LinkState, RadioOutcome,
};
use ble_ll::ad_structure::{AdStructure, ConfigError, Flags};
use ble_ll::radio::{packet_buffer, BleRadio, RadioMode};
use ble_ll::time::Duration;
use ble_ll::timer::{Timer, TimerError};

const ADDR: [u8; 6] = [0x11, 0x22, 0x33, 0x44, 0x55, 0x66];

fn advertising_baseband() -> Baseband {
    let addr = DeviceAddress::new(ADDR, AddressKind::Public);
    let mut ll = LinkLayer::new(addr);
    let ads = vec![
        AdStructure::Flags(Flags::discoverable()),
        AdStructure::CompleteLocalName(b"X".to_vec())
    ];
    let first = ll.start_advertise(Duration::from_millis(100), &ads).unwrap();
    assert_eq!(first, Duration::from_millis(100));
    Baseband::new(BleRadio::new(packet_buffer()), packet_buffer(), ll)
}

fn adv_pdu_bytes() -> Vec<u8> {
    // header: ADV_SCAN_IND from a public address; 12 payload bytes
    let mut pdu = vec![0x06, 12];
    pdu.extend_from_slice(&ADDR);
    pdu.extend_from_slice(&[0x02, 0x01, 0x06, 0x02, 0x09, b'X']);
    pdu
}

fn adv_count(bb: &Baseband) -> u64 {
    match &bb.ll.state {
        LinkState::Advertising { adv_count, .. } => *adv_count,
        LinkState::Idle => panic!("not advertising"),
    }
}

#[test]
fn start_then_timer_transmits_and_reschedules() {
    let mut bb = advertising_baseband();
    let deadline = bb.update();
    assert_eq!(deadline, Some(Duration::from_millis(100)));
    assert_eq!(bb.radio.mode, RadioMode::Transmitting);
    assert_eq!(bb.radio.loaded_pdu(), adv_pdu_bytes());
    assert_eq!(adv_count(&bb), 1);
}

#[test]
fn payload_over_budget_is_a_config_error() {
    let addr = DeviceAddress::new(ADDR, AddressKind::Public);
    let mut ll = LinkLayer::new(addr);
    let ads = vec![
        AdStructure::Flags(Flags::discoverable()),
        AdStructure::CompleteLocalName(vec![b'a'; 27])
    ];
    let r = ll.start_advertise(Duration::from_millis(100), &ads);
    assert_eq!(r, Err(ConfigError::SizeExceeded));
    assert!(matches!(ll.state, LinkState::Idle));
}

#[test]
fn tx_done_arms_receiver() {
    let mut bb = advertising_baseband();
    bb.update();
    let deadline = bb.interrupt(RadioOutcome::TxDone);
    assert_eq!(deadline, None);
    assert_eq!(bb.radio.mode, RadioMode::Listening);
    assert_eq!(bb.radio.loaded_pdu(), adv_pdu_bytes());
}

#[test]
fn scan_request_for_us_gets_a_scan_response() {
    let mut bb = advertising_baseband();
    bb.update();
    bb.interrupt(RadioOutcome::TxDone);
    let mut req = vec![0x03, 12];
    req.extend_from_slice(&[0xaa, 0xbb, 0xcc, 0xdd, 0xee, 0xff]); // scanner
    req.extend_from_slice(&ADDR); // us
    let deadline = bb.interrupt(RadioOutcome::RxDone { pdu: req, crc_ok: true });
    assert_eq!(deadline, None);
    assert_eq!(bb.radio.mode, RadioMode::Transmitting);
    let mut rsp = vec![0x04, 6];
    rsp.extend_from_slice(&ADDR);
    assert_eq!(bb.radio.loaded_pdu(), rsp);
}

#[test]
fn foreign_or_malformed_traffic_is_ignored() {
    let mut bb = advertising_baseband();
    bb.update();
    bb.interrupt(RadioOutcome::TxDone);
    // well-formed scan request, but addressed to another device
    let mut req = vec![0x03, 12];
    req.extend_from_slice(&[0xaa, 0xbb, 0xcc, 0xdd, 0xee, 0xff]);
    req.extend_from_slice(&[0x99, 0x22, 0x33, 0x44, 0x55, 0x66]);
    let deadline = bb.interrupt(RadioOutcome::RxDone { pdu: req, crc_ok: true });
    assert_eq!(deadline, None);
    assert_eq!(bb.radio.mode, RadioMode::Listening);
    assert_eq!(bb.radio.loaded_pdu(), adv_pdu_bytes());
    // a scan request for us whose CRC failed is equally irrelevant
    let mut req = vec![0x03, 12];
    req.extend_from_slice(&[0xaa, 0xbb, 0xcc, 0xdd, 0xee, 0xff]);
    req.extend_from_slice(&ADDR);
    let deadline = bb.interrupt(RadioOutcome::RxDone { pdu: req, crc_ok: false });
    assert_eq!(deadline, None);
    assert_eq!(bb.radio.mode, RadioMode::Listening);
    // garbage bytes neither panic nor transmit
    let deadline = bb.interrupt(RadioOutcome::RxDone { pdu: vec![0x00; 50], crc_ok: true });
    assert_eq!(deadline, None);
    assert_eq!(bb.radio.mode, RadioMode::Listening);
}

#[test]
fn spurious_update_after_reprogram_is_tolerated() {
    let mut bb = advertising_baseband();
    let mut timer = Timer::new();
    let d = bb.update().unwrap();
    timer.reprogram(Some(d)).unwrap();
    assert_eq!(adv_count(&bb), 1);
    // the stale-latch race: one extra update right after a fresh reprogram
    let d2 = bb.update();
    assert_eq!(d2, Some(Duration::from_millis(100)));
    assert_eq!(adv_count(&bb), 2);
    assert_eq!(bb.radio.loaded_pdu(), adv_pdu_bytes());
    // and right after a stop
    timer.reprogram(None).unwrap();
    let d3 = bb.update();
    assert_eq!(d3, Some(Duration::from_millis(100)));
    assert_eq!(adv_count(&bb), 3);
    assert_eq!(bb.radio.loaded_pdu(), adv_pdu_bytes());
}

#[test]
fn later_deadline_supersedes_earlier() {
    let mut timer = Timer::new();
    timer.reprogram(Some(Duration::from_millis(10))).unwrap();
    timer.reprogram(Some(Duration::from_millis(5))).unwrap();
    assert!(timer.armed);
    assert_eq!(timer.compare_us, 5_000);
    assert!(!timer.event_flag);
    timer.expire();
    assert!(timer.event_flag);
    // reprogramming acknowledges the latched event: no ghost firing
    timer.reprogram(Some(Duration::from_millis(7))).unwrap();
    assert!(!timer.event_flag);
    assert_eq!(timer.compare_us, 7_000);
    timer.reprogram(None).unwrap();
    assert!(!timer.armed);
    assert!(!timer.event_flag);
}

#[test]
fn timer_width_boundary() {
    let mut timer = Timer::new();
    let max = Duration::from_micros(u32::MAX as u64);
    assert_eq!(timer.reprogram(Some(max)), Ok(()));
    assert_eq!(timer.compare_us, u32::MAX);
    let over = Duration::from_micros(u32::MAX as u64 + 1);
    assert_eq!(timer.reprogram(Some(over)), Err(TimerError::DeadlineOverflow));
    // the failed request left the previous programming in place
    assert!(timer.armed);
    assert_eq!(timer.compare_us, u32::MAX);
}

#[test]
fn interleaved_events_keep_state_consistent() {
    let mut bb = advertising_baseband();
    let mut req = vec![0x03, 12];
    req.extend_from_slice(&[0xaa, 0xbb, 0xcc, 0xdd, 0xee, 0xff]);
    req.extend_from_slice(&ADDR);
    let events = vec![
        Event::Timer,
        Event::Radio(RadioOutcome::TxDone),
        Event::Radio(RadioOutcome::RxDone { pdu: req, crc_ok: true }),
        Event::Radio(RadioOutcome::TxDone),
        Event::Timer,
        Event::Timer,
        Event::Radio(RadioOutcome::RxDone { pdu: vec![1, 2, 3], crc_ok: true }),
    ];
    deliver_events(&mut bb, events);
    assert_eq!(adv_count(&bb), 3);
    match &bb.ll.state {
        LinkState::Advertising { interval, pdu, .. } => {
            assert_eq!(*interval, Duration::from_millis(100));
            assert_eq!(*pdu, adv_pdu_bytes());
        },
        LinkState::Idle => panic!("left the advertising state"),
    }
}

#[test]
fn idle_link_layer_does_nothing() {
    let addr = DeviceAddress::new(ADDR, AddressKind::Public);
    let ll = LinkLayer::new(addr);
    let mut bb = Baseband::new(BleRadio::new(packet_buffer()), packet_buffer(), ll);
    assert_eq!(bb.update(), None);
    assert_eq!(bb.interrupt(RadioOutcome::TxDone), None);
    assert_eq!(bb.radio.mode, RadioMode::Off);
}

#[test]
fn received_bytes_land_in_the_receive_buffer() {
    let mut bb = advertising_baseband();
    bb.interrupt(RadioOutcome::RxDone { pdu: vec![7, 8, 9], crc_ok: false });
    assert_eq!(&bb.rx_buf[..3], &[7, 8, 9]);
    assert_eq!(bb.rx_buf.len(), 40);
}
