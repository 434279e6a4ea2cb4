use dot15d4::coprocessor::{
    coprocessor_step, CoprocessorAction, CoprocessorEvent, CoprocessorState, RadioTaskKind,
    RadioTaskResponse, RxError, TxError,
};
use dot15d4::frame_control::FrameType;
use dot15d4::mac::{
    ack_sequence_number, ack_wait_us, data_confirm, indication_kind, is_expected_ack,
    is_frame_for_us, purge_request, set_ack, DataConfirm, IndicationKind, Pib, PurgeError,
    SetRequestAttribute,
};
use dot15d4::mpdu::MpduFrame;

const HW: [u8; 8] = [0x10, 0x11, 0x12, 0x13, 0x14, 0x15, 0x01, 0x00];

/// A 2006 data frame with sequence number 9, destination PAN 0x1234,
/// destination short address `dst`, PAN ID compression and source 0x0002.
fn data_frame(dst: [u8; 2], ack_request: bool) -> MpduFrame {
    let fc0 = 0b0100_0001 | if ack_request { 0b0010_0000 } else { 0 };
    MpduFrame::new(
        vec![12, fc0, 0b1001_1000, 9, 0x34, 0x12, dst[0], dst[1], 0x02, 0x00, 0, 0, 0],
        1,
        9,
    )
}

#[test]
fn frame_filtering() {
    assert!(is_frame_for_us(&HW, &data_frame([0x01, 0x00], false), 0x1234, false));
    assert!(is_frame_for_us(&HW, &data_frame([0xff, 0xff], false), 0x1234, false));
    assert!(!is_frame_for_us(&HW, &data_frame([0x02, 0x00], false), 0x1234, false));
    assert!(!is_frame_for_us(&HW, &data_frame([0x01, 0x00], false), 0x4321, false));
    assert!(!is_frame_for_us(&HW, &data_frame([0x01, 0x00], false), 0xffff, false));
}

#[test]
fn acknowledgements() {
    let mut frame = data_frame([0x01, 0x00], false);
    assert_eq!(ack_sequence_number(&frame), None);
    assert_eq!(set_ack(&mut frame), Some(9));
    assert!(frame.frame_control().ack_request());
    assert_eq!(ack_sequence_number(&frame), Some(9));

    let mut broadcast = data_frame([0xff, 0xff], false);
    assert_eq!(set_ack(&mut broadcast), None);
    assert!(!broadcast.frame_control().ack_request());

    let ack = MpduFrame::new(vec![5, 0b0000_0010, 0b0001_0000, 9, 0, 0], 1, 3);
    assert!(is_expected_ack(&ack, 9));
    assert!(!is_expected_ack(&ack, 8));
    assert!(!is_expected_ack(&data_frame([0x01, 0x00], false), 9));
    assert_eq!(ack_wait_us(), 672);
}

#[test]
fn indications_and_confirmations() {
    assert_eq!(indication_kind(FrameType::Data), IndicationKind::Data);
    assert_eq!(indication_kind(FrameType::Beacon), IndicationKind::BeaconNotify);
    assert_eq!(indication_kind(FrameType::Ack), IndicationKind::Drop);
    assert_eq!(data_confirm(None, false), Ok(DataConfirm { timestamp: 0, acked: true }));
    assert_eq!(data_confirm(Some(1), false), Ok(DataConfirm { timestamp: 0, acked: false }));
    assert_eq!(data_confirm(Some(1), true), Ok(DataConfirm { timestamp: 0, acked: true }));
    assert_eq!(purge_request(), Err(PurgeError::InvalidHandle));
}

#[test]
fn pib_set_and_reset() {
    let mut pib = Pib::new();
    assert_eq!(pib.pan_id, 0xffff);
    assert!(pib.mlme_set_request(&SetRequestAttribute::MacPanId(0x1234)).is_ok());
    assert!(pib.mlme_set_request(&SetRequestAttribute::MacShortAddress(7)).is_ok());
    assert!(pib.mlme_set_request(&SetRequestAttribute::MacAssociationPermit(true)).is_ok());
    assert!(pib.mlme_set_request(&SetRequestAttribute::MacExtendedAddress(HW)).is_ok());
    assert_eq!(pib.pan_id, 0x1234);
    assert_eq!(pib.short_address, 7);
    assert!(pib.association_permit);
    assert_eq!(pib.extended_address, Some(HW));
    assert!(pib.mlme_reset_request(false).unwrap().status);
    assert_eq!(pib.pan_id, 0x1234);
    assert!(pib.mlme_reset_request(true).unwrap().status);
    assert_eq!(pib, Pib::new());
}

#[test]
fn coprocessor() {
    let (s, a) = coprocessor_step(
        CoprocessorState::AwaitingRequest,
        CoprocessorEvent::Request(RadioTaskKind::Rx),
    );
    assert_eq!(s, CoprocessorState::Receiving);
    assert_eq!(a, CoprocessorAction { respond: None, start: Some(RadioTaskKind::Rx) });
    let (s, a) = coprocessor_step(s, CoprocessorEvent::Request(RadioTaskKind::Tx));
    assert_eq!(s, CoprocessorState::Transmitting);
    assert_eq!(a.respond, Some(RadioTaskResponse::Rx(Err(RxError::Cancelled))));
    let (s, a) = coprocessor_step(s, CoprocessorEvent::TxDone { success: false });
    assert_eq!(s, CoprocessorState::AwaitingRequest);
    assert_eq!(a.respond, Some(RadioTaskResponse::Tx(Err(TxError::RadioError))));
    let (s, _) = coprocessor_step(s, CoprocessorEvent::Request(RadioTaskKind::Rx));
    let (s, a) = coprocessor_step(s, CoprocessorEvent::RxDone);
    assert_eq!(s, CoprocessorState::AwaitingRequest);
    assert_eq!(a.respond, Some(RadioTaskResponse::Rx(Ok(()))));
}
