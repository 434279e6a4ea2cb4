use dot15d4::addressing::AddressingMode;
use dot15d4::parser::addressing::{Address, AddressingFields, ExtendedAddress, ShortAddress};
use dot15d4::repr::addressing::AddressingRepr;

#[test]
fn address_formatting() {
    assert_eq!(Address::Absent.to_string(), "absent");
    assert_eq!(Address::Short(ShortAddress::new([0xff, 0x0e])).to_string(), "ff:0e");
    assert_eq!(
        Address::Extended(ExtendedAddress::new([0, 1, 2, 3, 0xa4, 0xb5, 0xc6, 0xd7])).to_string(),
        "00:01:02:03:a4:b5:c6:d7"
    );
}

#[test]
fn addressing_fields_formatting() {
    let repr = AddressingRepr::new_legacy_addressing(AddressingMode::Short, AddressingMode::Extended, false);
    let bytes = [0x34, 0x12, 0x01, 0x00, 0x0d, 0x00, 1, 2, 3, 4, 5, 6, 7, 8];
    let fields = AddressingFields::new(&bytes, repr).unwrap();
    assert_eq!(
        fields.to_string(),
        "Addressing Fields\n  dst pan id: 1234\n  dst address: 01:00\n  src pan id: d\n  src address: 01:02:03:04:05:06:07:08\n"
    );
}
