use dot15d4::addressing::AddressingMode;
use dot15d4::addressing::AddressingMode::{Absent, Extended, Short};
use dot15d4::frame_control::FrameVersion;
use dot15d4::frame_control::FrameVersion::{Ieee802154, Ieee802154_2003, Ieee802154_2006};
use dot15d4::parser::addressing::{Address, AddressingFields, ExtendedAddress, PanId, ShortAddress};
use dot15d4::repr::addressing::AddressingRepr;

fn short(bytes: [u8; 2]) -> Address {
    Address::Short(ShortAddress::new(bytes))
}

fn extended(bytes: [u8; 8]) -> Address {
    Address::Extended(ExtendedAddress::new(bytes))
}

#[test]
fn address_type() {
    assert!(Address::Absent.is_absent());
    assert!(!Address::Absent.is_short());
    assert!(!Address::Absent.is_extended());

    assert!(!short([0xff, 0xff]).is_absent());
    assert!(short([0xff, 0xff]).is_short());
    assert!(!short([0xff, 0xff]).is_extended());

    assert!(!extended([0xff; 8]).is_absent());
    assert!(!extended([0xff; 8]).is_short());
    assert!(extended([0xff; 8]).is_extended());

    assert_eq!(Address::Absent.length(), 0);
    assert_eq!(short([0xff, 0xff]).length(), 2);
    assert_eq!(extended([0xff; 8]).length(), 8);
}

#[test]
fn addressing_mode() {
    assert_eq!(AddressingMode::from(0b00), AddressingMode::Absent);
    assert_eq!(AddressingMode::from(0b10), AddressingMode::Short);
    assert_eq!(AddressingMode::from(0b11), AddressingMode::Extended);
    assert_eq!(AddressingMode::from(0b01), AddressingMode::Unknown);

    assert_eq!(AddressingMode::Unknown.size(), 0);
    assert_eq!(AddressingMode::Absent.size(), 0);
    assert_eq!(AddressingMode::Short.size(), 2);
    assert_eq!(AddressingMode::Extended.size(), 8);
}

#[test]
fn is_broadcast() {
    assert!(Address::broadcast_address().is_broadcast());
    assert!(short([0xff, 0xff]).is_broadcast());
    assert!(!short([0xff, 0xfe]).is_broadcast());

    assert!(!Address::broadcast_address().is_unicast());
    assert!(!short([0xff, 0xff]).is_unicast());
    assert!(short([0xff, 0xfe]).is_unicast());
}

#[test]
fn as_bytes() {
    assert_eq!(Address::broadcast_address().as_bytes(), &[0xff, 0xff]);
    assert_eq!(short([0xff, 0xff]).as_bytes(), &[0xff, 0xff]);
    assert_eq!(short([0xff, 0xfe]).as_bytes(), &[0xff, 0xfe]);
    assert_eq!(extended([0xff; 8]).as_bytes(), &[0xff; 8]);
    assert_eq!(extended([0x01; 8]).as_bytes(), &[0x01; 8]);
    assert_eq!(Address::Absent.as_bytes(), &[] as &[u8]);
}

#[test]
fn from_bytes() {
    assert_eq!(Address::from_bytes(&[0xff, 0xff]), short([0xff, 0xff]));
    assert_eq!(Address::from_bytes(&[0xff, 0xfe]), short([0xff, 0xfe]));
    assert_eq!(Address::from_bytes(&[0xff; 8]), extended([0xff; 8]));
    assert_eq!(Address::from_bytes(&[0x01; 8]), extended([0x01; 8]));
    assert_eq!(Address::from_bytes(&[]), Address::Absent);
}

#[test]
fn address_present_flags() {
    let check = |version: FrameVersion,
                 dst: AddressingMode,
                 src: AddressingMode,
                 compression: bool,
                 expected: Option<(bool, AddressingMode, bool, AddressingMode)>| {
        assert_eq!(
            AddressingFields::address_present_flags(version, dst, src, compression),
            expected
        );
    };

    for version in [Ieee802154_2003, Ieee802154_2006] {
        check(version, Short, Short, false, Some((true, Short, true, Short)));
        check(version, Short, Short, true, Some((true, Short, false, Short)));
        check(version, Extended, Extended, false, Some((true, Extended, true, Extended)));
        check(version, Extended, Extended, true, Some((true, Extended, false, Extended)));
        check(version, Short, Extended, false, Some((true, Short, true, Extended)));
        check(version, Short, Extended, true, Some((true, Short, false, Extended)));
        check(version, Extended, Short, false, Some((true, Extended, true, Short)));
        check(version, Extended, Short, true, Some((true, Extended, false, Short)));
        check(version, Absent, Short, false, Some((false, Absent, true, Short)));
        check(version, Absent, Extended, false, Some((false, Absent, true, Extended)));
        check(version, Short, Absent, false, Some((true, Short, false, Absent)));
        check(version, Extended, Absent, false, Some((true, Extended, false, Absent)));
        check(version, Absent, Short, true, None);
        check(version, Absent, Extended, true, None);
        check(version, Short, Absent, true, None);
        check(version, Extended, Absent, true, None);
        check(version, Absent, Absent, false, None);
        check(version, Absent, Absent, true, None);
    }

    check(Ieee802154, Short, Short, false, Some((true, Short, true, Short)));
    check(Ieee802154, Short, Short, true, Some((true, Short, false, Short)));
    check(Ieee802154, Extended, Extended, false, Some((true, Extended, false, Extended)));
    check(Ieee802154, Extended, Extended, true, Some((false, Extended, false, Extended)));
    check(Ieee802154, Short, Extended, false, Some((true, Short, true, Extended)));
    check(Ieee802154, Short, Extended, true, Some((true, Short, false, Extended)));
    check(Ieee802154, Extended, Short, false, Some((true, Extended, true, Short)));
    check(Ieee802154, Extended, Short, true, Some((true, Extended, false, Short)));
    check(Ieee802154, Absent, Short, false, Some((false, Absent, true, Short)));
    check(Ieee802154, Absent, Extended, false, Some((false, Absent, true, Extended)));
    check(Ieee802154, Short, Absent, false, Some((true, Short, false, Absent)));
    check(Ieee802154, Extended, Absent, false, Some((true, Extended, false, Absent)));
    check(Ieee802154, Absent, Short, true, Some((false, Absent, false, Short)));
    check(Ieee802154, Absent, Extended, true, Some((false, Absent, false, Extended)));
    check(Ieee802154, Short, Absent, true, Some((false, Short, false, Absent)));
    check(Ieee802154, Extended, Absent, true, Some((false, Extended, false, Absent)));
    check(Ieee802154, Absent, Absent, false, Some((false, Absent, false, Absent)));
    check(Ieee802154, Absent, Absent, true, Some((true, Absent, false, Absent)));
}

#[test]
fn parse() {
    let addresses = vec![
        ("", Address::Absent),
        ("ff:ff", short([0xff, 0xff])),
        ("ff:fe", short([0xff, 0xfe])),
        ("ff:ff:ff:ff:ff:ff:ff:ff", extended([0xff; 8])),
        ("01:01:01:01:01:01:01:01", extended([0x01; 8])),
        ("00:00:00:00:00:00:00:00", extended([0x00; 8])),
        (
            "00:00:00:00:00:00:00:01",
            extended([0x00, 0x00, 0x00, 0x00, 0x00, 0x00, 0x00, 0x01]),
        ),
    ];

    for (s, expected) in addresses {
        assert_eq!(Address::parse(s).unwrap(), expected);
    }
}

#[test]
fn addressing_fields_from_longer_buffer() {
    let repr = AddressingRepr::new_legacy_addressing(Short, Short, true);
    let bytes = [0x34, 0x12, 0x02, 0x01, 0x04, 0x03, 0xee, 0xee];
    let fields = AddressingFields::new(&bytes, repr).unwrap();
    assert_eq!(fields.length(), 6);
    assert_eq!(fields.dst_address().unwrap(), short([0x02, 0x01]));
    assert_eq!(fields.src_address().unwrap(), short([0x04, 0x03]));
    assert!(AddressingFields::new(&bytes[..5], repr).is_err());
    assert_eq!(AddressingFields::new(&bytes[..6], repr).unwrap().length(), 6);
}

#[test]
fn writes_reach_the_callers_buffer() {
    let mut buffer = [0u8; 12];
    ShortAddress::set_u16_in(&mut buffer, 3, 0xabcd);
    assert_eq!(buffer, [0, 0, 0, 0xcd, 0xab, 0, 0, 0, 0, 0, 0, 0]);
    assert_eq!(ShortAddress::new([buffer[3], buffer[4]]).into_u16(), 0xabcd);
    PanId::set_u16_in(&mut buffer, 0, 0x1234);
    assert_eq!(&buffer[..5], &[0x34, 0x12, 0, 0xcd, 0xab]);
    ExtendedAddress::new([1, 2, 3, 4, 5, 6, 7, 8]).write_into(&mut buffer, 4);
    assert_eq!(buffer, [0x34, 0x12, 0, 0xcd, 1, 2, 3, 4, 5, 6, 7, 8]);
    ShortAddress::new([9, 9]).write_into(&mut buffer, 10);
    assert_eq!(&buffer[8..], &[5, 6, 9, 9]);

    let repr = AddressingRepr::new_legacy_addressing(Short, Short, true);
    let fields = AddressingFields::new(&[1, 2, 3, 4, 5, 6], repr).unwrap();
    let mut frame = [0xffu8; 9];
    fields.write_into(&mut frame, 3);
    assert_eq!(frame, [0xff, 0xff, 0xff, 1, 2, 3, 4, 5, 6]);
}
