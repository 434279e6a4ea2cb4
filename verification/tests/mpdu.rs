use dot15d4::addressing::AddressingMode;
use dot15d4::frame_control::{FrameType, FrameVersion};
use dot15d4::mpdu::MpduFrame;
use dot15d4::nrf::radio::NrfRadioDriver;
use dot15d4::parser::addressing::{Address, ShortAddress};
use dot15d4::parser::mpdu::{imm_ack_frame, ParsedMpdu};
use dot15d4::repr::addressing::AddressingRepr;
use dot15d4::repr::mpdu::mpdu_repr;
use dot15d4::repr::seq_nr::SeqNrRepr;

const TEST_SEQ_NUM: u8 = 55;

#[test]
fn test_imm_ack_frame() {
    let buffer = vec![0u8; 6];
    let frame = imm_ack_frame::<NrfRadioDriver>(TEST_SEQ_NUM, buffer);
    let expected_buffer = vec![0, 0b010, 0b01 << 4, TEST_SEQ_NUM, 0, 0];
    assert_eq!(frame.as_bytes(), &expected_buffer[..]);
    assert_eq!(frame.pdu_length_wo_fcs(), 3);
    assert_eq!(frame.sequence_number(), Some(TEST_SEQ_NUM));
}

#[test]
fn build_and_parse_data_frame() {
    let repr = mpdu_repr()
        .with_frame_control(SeqNrRepr::Yes)
        .with_addressing(AddressingRepr::new_legacy_addressing(
            AddressingMode::Short,
            AddressingMode::Short,
            true,
        ))
        .without_security()
        .without_ies();
    let buffer = vec![0xaau8; 1 + 9 + 4 + 2];
    let mut parsed = repr
        .into_parsed_mpdu::<NrfRadioDriver>(FrameVersion::Ieee802154_2006, FrameType::Data, 4, buffer)
        .unwrap();
    let fc = parsed.frame_control();
    assert_eq!(fc.frame_type(), FrameType::Data);
    assert_eq!(fc.frame_version(), FrameVersion::Ieee802154_2006);
    assert!(fc.pan_id_compression());
    assert!(!fc.ack_request());
    assert!(!fc.sequence_number_suppression());
    assert_eq!(fc.dst_addressing_mode(), AddressingMode::Short);
    assert_eq!(fc.src_addressing_mode(), AddressingMode::Short);

    parsed.set_sequence_number(7);
    parsed.set_ack_request(true);
    assert!(parsed.frame_control().ack_request());
    assert_eq!(parsed.sequence_number(), Some(7));
    assert_eq!(parsed.frame_payload().unwrap(), &[0xaa; 4]);

    let fields = parsed.addressing_fields().unwrap().unwrap();
    assert_eq!(fields.length(), 6);
    assert!(fields.src_pan_id().is_none());
    assert_eq!(
        fields.dst_address().unwrap(),
        Address::Short(ShortAddress::new([0xaa, 0xaa]))
    );

    let mpdu = parsed.into_mpdu_frame();
    let parsed = ParsedMpdu::new(mpdu).parse_addressing().unwrap().parse_security();
    let parsed = parsed.parse_ies::<NrfRadioDriver>().unwrap();
    assert_eq!(parsed.frame_payload().unwrap().len(), 4);
    assert_eq!(parsed.fcs().unwrap().len(), 0);
}

#[test]
fn invalid_addressing_is_rejected() {
    let repr = mpdu_repr()
        .with_frame_control(SeqNrRepr::Yes)
        .with_addressing(AddressingRepr::new_legacy_addressing(
            AddressingMode::Absent,
            AddressingMode::Absent,
            false,
        ))
        .without_security()
        .without_ies();
    let buffer = vec![0u8; 32];
    assert!(repr
        .into_parsed_mpdu::<NrfRadioDriver>(FrameVersion::Ieee802154_2006, FrameType::Data, 0, buffer)
        .is_err());
}

#[test]
fn mpdu_frame_radio_frame_round_trip() {
    let mpdu = MpduFrame::new(vec![4, 1, 0, 9, 0, 0, 0], 1, 3);
    let radio_frame = mpdu.into_radio_frame::<NrfRadioDriver>();
    assert_eq!(radio_frame.sdu_length(), 3);
    assert_eq!(radio_frame.sdu_ref(), &[1, 0, 9]);
    let mpdu = MpduFrame::from_radio_frame(radio_frame);
    assert_eq!(mpdu.pdu_length_wo_fcs(), 3);
    assert_eq!(mpdu.sequence_number(), Some(9));
}

#[test]
fn frame_writers() {
    let repr = mpdu_repr()
        .with_frame_control(SeqNrRepr::Yes)
        .with_addressing(AddressingRepr::new_legacy_addressing(
            AddressingMode::Short,
            AddressingMode::Short,
            true,
        ))
        .without_security()
        .without_ies();
    let buffer = vec![0xaau8; 1 + 9 + 4 + 2];
    let mut parsed = repr
        .into_parsed_mpdu::<NrfRadioDriver>(FrameVersion::Ieee802154_2006, FrameType::Data, 4, buffer)
        .unwrap();
    let before = parsed.frame_control().as_bytes().to_vec();
    assert!(parsed.set_frame_payload(&[1, 2, 3, 4]).is_ok());
    assert_eq!(parsed.frame_payload().unwrap(), &[1, 2, 3, 4]);
    assert_eq!(parsed.frame_control().as_bytes().to_vec(), before);
    assert!(parsed.set_frame_payload(&[1, 2, 3]).is_err());
    assert_eq!(parsed.frame_payload().unwrap(), &[1, 2, 3, 4]);
    // The radio appends the FCS: the frame holds none.
    assert!(parsed.set_fcs(&[]).is_ok());
    assert!(parsed.set_fcs(&[0]).is_err());

    let mut mpdu = MpduFrame::new(vec![0u8; 6], 1, 3);
    mpdu.set_pdu_wo_fcs(&[1, 2, 3]);
    assert_eq!(mpdu.as_bytes(), &[0, 1, 2, 3, 0, 0]);
}
