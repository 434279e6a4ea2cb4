use dot15d4::addressing::AddressingMode;
use dot15d4::parser::frame_control::FrameControl;
use dot15d4::repr::addressing::{AddressingRepr, PanIdCompressionRepr};
use dot15d4::repr::mpdu::mpdu_repr;
use dot15d4::repr::security::{KeyIdRepr, SecurityLevelRepr, SecurityRepr};
use dot15d4::repr::seq_nr::SeqNrRepr;

#[test]
fn seq_nr_length() {
    assert_eq!(SeqNrRepr::Yes.length(), 1);
    assert_eq!(SeqNrRepr::No.length(), 0);
}

#[test]
fn security_lengths() {
    assert_eq!(SecurityLevelRepr::Mic32.mic_length(), 32);
    assert_eq!(SecurityLevelRepr::EncMic64.mic_length(), 64);
    assert_eq!(SecurityLevelRepr::Mic128.mic_length(), 128);
    assert_eq!(KeyIdRepr::Implicit.key_id_length(), 0);
    assert_eq!(KeyIdRepr::SourceNone.key_id_length(), 1);
    assert_eq!(KeyIdRepr::Source4Byte.key_id_length(), 5);
    assert_eq!(KeyIdRepr::Source8Byte.key_id_length(), 9);
    let s = SecurityRepr::new(false, SecurityLevelRepr::EncMic32, KeyIdRepr::Source4Byte);
    assert_eq!(s.aux_sec_header_length(), 10);
    assert_eq!(s.mic_length(), 32);
    let s = SecurityRepr::new(true, SecurityLevelRepr::Mic64, KeyIdRepr::Implicit);
    assert_eq!(s.aux_sec_header_length(), 1);
}

#[test]
fn addressing_lengths() {
    let r = AddressingRepr::new(
        AddressingMode::Short,
        AddressingMode::Short,
        true,
        PanIdCompressionRepr::Legacy,
    );
    assert_eq!(r.addressing_fields_length().unwrap(), 6);
    assert!(r.pan_id_compression());

    let r = AddressingRepr::new(
        AddressingMode::Extended,
        AddressingMode::Extended,
        false,
        PanIdCompressionRepr::No,
    );
    assert_eq!(r.addressing_fields_length().unwrap(), 18);
    assert!(!r.pan_id_compression());

    let r = AddressingRepr::new_legacy_addressing(AddressingMode::Absent, AddressingMode::Absent, false);
    assert!(r.addressing_fields_length().is_err());

    let r = AddressingRepr::new(
        AddressingMode::Absent,
        AddressingMode::Absent,
        false,
        PanIdCompressionRepr::Yes,
    );
    assert_eq!(r.addressing_fields_length().unwrap(), 2);
}

#[test]
fn addressing_from_frame_control() {
    // 2006 data frame, short/short, PAN ID compression.
    let fc = FrameControl::new(&[0b0100_0001, 0b1001_1000]).unwrap();
    let repr = AddressingRepr::from_frame_control(&fc).unwrap().unwrap();
    assert_eq!(repr.addressing_fields_length().unwrap(), 6);
    assert!(repr.pan_id_compression());

    // 2015 frame without addresses and without compression: no fields.
    let fc = FrameControl::new(&[0b0000_0001, 0b0010_0000]).unwrap();
    assert!(AddressingRepr::from_frame_control(&fc).unwrap().is_none());

    // 2003 frame without addresses: invalid.
    let fc = FrameControl::new(&[0b0000_0001, 0b0000_0000]).unwrap();
    assert!(AddressingRepr::from_frame_control(&fc).is_err());
}

#[test]
fn mpdu_lengths() {
    let repr = mpdu_repr()
        .with_frame_control(SeqNrRepr::Yes)
        .with_addressing(AddressingRepr::new_legacy_addressing(
            AddressingMode::Short,
            AddressingMode::Short,
            true,
        ))
        .without_security()
        .without_ies();
    assert_eq!(repr.mpdu_length_wo_fcs(10).unwrap(), 2 + 1 + 6 + 10);
    assert_eq!(repr.ies_and_frame_payload_length(19).unwrap(), (0, 10));
    assert!(repr.ies_and_frame_payload_length(8).is_err());

    let repr = mpdu_repr()
        .with_frame_control(SeqNrRepr::No)
        .without_addressing()
        .without_security()
        .without_ies();
    assert_eq!(repr.mpdu_length_wo_fcs(0).unwrap(), 2);

    let repr = mpdu_repr()
        .with_frame_control(SeqNrRepr::Yes)
        .with_addressing(AddressingRepr::new_legacy_addressing(
            AddressingMode::Absent,
            AddressingMode::Absent,
            false,
        ))
        .without_security()
        .without_ies();
    assert!(repr.mpdu_length_wo_fcs(0).is_err());
}

#[test]
fn legacy_single_address_with_compression_is_invalid() {
    // 2003 data frame, no destination, short source, PAN ID compression set.
    let fc = FrameControl::new(&[0x41, 0x80]).unwrap();
    assert!(AddressingRepr::from_frame_control(&fc).is_err());
    // The same frame without PAN ID compression: PAN ID and short source.
    let fc = FrameControl::new(&[0x01, 0x80]).unwrap();
    let repr = AddressingRepr::from_frame_control(&fc).unwrap().unwrap();
    assert_eq!(repr.addressing_fields_length().unwrap(), 4);
    // 2006 data frame, short destination only, PAN ID compression set.
    let fc = FrameControl::new(&[0x41, 0x18]).unwrap();
    assert!(AddressingRepr::from_frame_control(&fc).is_err());
}
