use dot15d4::addressing::AddressingMode;
use dot15d4::frame_control::{FrameType, FrameVersion};
use dot15d4::parser::frame_control::FrameControl;

#[test]
fn bad_length() {
    let fc = [0x0];
    assert!(FrameControl::new(&fc).is_err());
}

#[test]
fn get_fields() {
    let fc = [0x0, 0x0];
    let fc = FrameControl::new(&fc).unwrap();
    assert_eq!(fc.frame_type(), FrameType::Beacon);
    assert!(!fc.security_enabled());
    assert!(!fc.frame_pending());
    assert!(!fc.ack_request());
    assert!(!fc.pan_id_compression());
    assert!(!fc.sequence_number_suppression());
    assert!(!fc.information_elements_present());
    assert_eq!(fc.dst_addressing_mode(), AddressingMode::Absent);
    assert_eq!(fc.src_addressing_mode(), AddressingMode::Absent);
    assert_eq!(fc.frame_version(), FrameVersion::Ieee802154_2003);

    let fc = [0b0010_1001, 0b1010_1010];
    let fc = FrameControl::new(&fc).unwrap();
    assert_eq!(fc.frame_type(), FrameType::Data);
    assert!(fc.security_enabled());
    assert!(!fc.frame_pending());
    assert!(fc.ack_request());
    assert!(!fc.pan_id_compression());
    assert!(!fc.sequence_number_suppression());
    assert!(fc.information_elements_present());
    assert_eq!(fc.dst_addressing_mode(), AddressingMode::Short);
    assert_eq!(fc.src_addressing_mode(), AddressingMode::Short);
    assert_eq!(fc.frame_version(), FrameVersion::Ieee802154);
}

#[test]
fn set_fields() {
    let fc = [0x0, 0x0];
    let mut fc = FrameControl::new_unchecked(&fc);
    fc.set_frame_type(FrameType::Beacon);
    fc.set_security_enabled(false);
    fc.set_frame_pending(false);
    fc.set_ack_request(false);
    fc.set_pan_id_compression(false);
    fc.set_sequence_number_suppression(false);
    fc.set_information_elements_present(false);
    fc.set_dst_addressing_mode(AddressingMode::Absent);
    fc.set_src_addressing_mode(AddressingMode::Absent);
    fc.set_frame_version(FrameVersion::Ieee802154_2003);
    assert_eq!(fc.into_inner(), vec![0x0, 0x0]);

    let fc = [0x0, 0x0];
    let mut fc = FrameControl::new_unchecked(&fc);
    fc.set_frame_type(FrameType::Data);
    fc.set_security_enabled(true);
    fc.set_frame_pending(false);
    fc.set_ack_request(true);
    fc.set_pan_id_compression(false);
    fc.set_sequence_number_suppression(false);
    fc.set_information_elements_present(true);
    fc.set_dst_addressing_mode(AddressingMode::Short);
    fc.set_src_addressing_mode(AddressingMode::Short);
    fc.set_frame_version(FrameVersion::Ieee802154);
    assert_eq!(fc.into_inner(), vec![0b0010_1001, 0b1010_1010]);
}

#[test]
fn frame_type() {
    assert_eq!(FrameType::from(0b000), FrameType::Beacon);
    assert_eq!(FrameType::from(0b001), FrameType::Data);
    assert_eq!(FrameType::from(0b010), FrameType::Ack);
    assert_eq!(FrameType::from(0b011), FrameType::MacCommand);
    assert_eq!(FrameType::from(0b101), FrameType::Multipurpose);
    assert_eq!(FrameType::from(0b110), FrameType::FragmentOrFrak);
    assert_eq!(FrameType::from(0b111), FrameType::Extended);
    assert_eq!(FrameType::from(0b100), FrameType::Unknown);
}

#[test]
fn frame_version() {
    assert_eq!(FrameVersion::from(0b00), FrameVersion::Ieee802154_2003);
    assert_eq!(FrameVersion::from(0b01), FrameVersion::Ieee802154_2006);
    assert_eq!(FrameVersion::from(0b10), FrameVersion::Ieee802154);
    assert_eq!(FrameVersion::from(0b11), FrameVersion::Unknown);
}

#[test]
fn frame_control_formatting() {
    let fc = [0b0010_1001, 0b1010_1010];
    let fc = FrameControl::new(&fc).unwrap();
    assert_eq!(
        fc.to_string(),
        r"Frame Control
  type: Data
  security enabled: 1
  frame pending: 0
  ack request: 1
  pan id compression: 0
  sequence number suppression: 0
  information elements present: 1
  dst addressing mode: Short
  src addressing mode: Short
  frame version: Ieee802154
"
    );
}

#[test]
fn setters_clear_flags_they_set() {
    let fc = [0xff, 0xff];
    let mut fc = FrameControl::new_unchecked(&fc);
    fc.set_security_enabled(false);
    fc.set_ack_request(false);
    assert!(!fc.security_enabled());
    assert!(!fc.ack_request());
    assert!(fc.frame_pending());
    assert_eq!(fc.into_inner(), vec![0b1101_0111, 0xff]);
}

#[test]
fn frame_version_round_trip() {
    for v in [
        FrameVersion::Ieee802154_2003,
        FrameVersion::Ieee802154_2006,
        FrameVersion::Ieee802154,
        FrameVersion::Unknown,
    ] {
        let fc = [0x12, 0x34];
        let mut fc = FrameControl::new_unchecked(&fc);
        let before_type = fc.frame_type();
        fc.set_frame_version(v);
        assert_eq!(fc.frame_version(), v);
        assert_eq!(fc.frame_type(), before_type);
    }
}
