use ble_ll::link::{AddressKind, DeviceAddress};
use ble_ll::radio::{
    advertising_channel_frequency, whitening_iv, ADVERTISING_ACCESS_ADDRESS,
    ADVERTISING_CRC_INIT, CRC_POLY,
};
use ble_ll::time::Duration;

#[test]
fn factory_words_assemble_little_endian() {
    let addr = DeviceAddress::from_factory_words(0x4433_2211, 0x6655, AddressKind::Random);
    assert_eq!(addr.bytes, [0x11, 0x22, 0x33, 0x44, 0x55, 0x66]);
    assert_eq!(addr.kind, AddressKind::Random);
    let addr = DeviceAddress::from_factory_words(0x0100_00ff, 0x0002, AddressKind::Public);
    assert_eq!(addr.bytes, [0xff, 0x00, 0x00, 0x01, 0x02, 0x00]);
}

#[test]
fn advertising_channel_frequencies() {
    assert_eq!(advertising_channel_frequency(37), 2402);
    assert_eq!(advertising_channel_frequency(38), 2426);
    assert_eq!(advertising_channel_frequency(39), 2480);
    assert_eq!(whitening_iv(37), 0x65);
    assert_eq!(ADVERTISING_ACCESS_ADDRESS, 0x8E89_BED6);
    assert_eq!(ADVERTISING_CRC_INIT, 0x55_5555);
    assert_eq!(CRC_POLY, 0x65B);
}

#[test]
fn duration_microsecond_accounting() {
    let d = Duration::from_millis(100);
    assert_eq!(d.as_secs(), 0);
    assert_eq!(d.subsec_micros(), 100_000);
    assert_eq!(d.checked_micros(), Some(100_000));
    let d = Duration::from_micros(4_294_967_295);
    assert_eq!(d.as_secs(), 4294);
    assert_eq!(d.checked_micros(), Some(u32::MAX));
    let d = Duration::from_micros(4_294_967_296);
    assert_eq!(d.checked_micros(), None);
    let d = Duration::from_millis(86_400_000);
    assert_eq!(d.as_secs(), 86_400);
    assert_eq!(d.checked_micros(), None);
}
