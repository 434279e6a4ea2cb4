use dot15d4::nrf::radio::{
    complete_off_from_rx, complete_rx_from_rx, complete_tx_from_tx, preliminary_fields,
    preliminary_frame_control, prepare_tx_frame, rx_outcome, schedule_rx_from_off,
    schedule_tx_from_off, switch_off_action, timed_dis_to_rx, timed_dis_to_tx, timed_rx_to_tx,
    timed_tx_to_rx, timed_tx_to_tx, tx_outcome, CcaMode, HardwareSignal, Ifs, PreliminaryStep,
    RadioDriver, RadioDriverApi, RadioState, RadioTrigger, RxOutcome, TaskRx, TaskTx,
    TimedSignal, Timestamp, TxOutcome, TxPower,
};
use dot15d4::nrf::timer::{
    calc_now, next_period, program_alarm, trigger_alarm, AlarmProgram, Alarms, OFF,
};

#[test]
fn radio_configuration() {
    let mut radio = RadioDriver::new(0x0102_0304, 0x0506_0708);
    let regs = radio.registers();
    assert_eq!(regs.sfd, 0xa7);
    assert_eq!(regs.tx_power, TxPower::ZerodBm);
    assert_eq!(regs.frequency, 5);
    assert_eq!(regs.cca, CcaMode::CarrierSense);
    radio.set_channel(26);
    radio.set_tx_power(-40);
    radio.set_tx_power(8);
    radio.set_ifs(Ifs::Lifs);
    radio.set_cca(CcaMode::EnergyDetection { ed_threshold: 20 });
    radio.set_sfd(0x33);
    let regs = radio.registers();
    assert_eq!(regs.frequency, 80);
    assert_eq!(regs.tx_power, TxPower::Pos8dBm);
    assert_eq!(regs.tifs_us, 640);
    assert_eq!(regs.sfd, 0x33);
    assert_eq!(radio.ieee802154_address(), [1, 2, 3, 4, 5, 6, 7, 8]);
}

#[test]
fn timed_offsets() {
    let rx = TaskRx { start: Timestamp::Scheduled(1_000_000) };
    assert_eq!(
        timed_dis_to_rx(&rx),
        Some(TimedSignal { instant: 1_000_000 - 290_000, signal: HardwareSignal::RadioRxEnable })
    );
    assert_eq!(
        timed_tx_to_rx(&rx),
        Some(TimedSignal { instant: 1_000_000 - 311_000, signal: HardwareSignal::RadioDisable })
    );
    let tx = TaskTx { at: Timestamp::Scheduled(1_000_000), cca: true };
    assert_eq!(
        timed_dis_to_tx(&tx),
        Some(TimedSignal { instant: 1_000_000 - 458_000, signal: HardwareSignal::RadioRxEnable })
    );
    assert_eq!(
        timed_rx_to_tx(&tx),
        Some(TimedSignal { instant: 1_000_000 - 328_000, signal: HardwareSignal::RadioCCA })
    );
    assert_eq!(timed_tx_to_tx(&tx).unwrap().instant, 1_000_000 - 479_000);
    let tx = TaskTx { at: Timestamp::Scheduled(1_000_000), cca: false };
    assert_eq!(timed_dis_to_tx(&tx).unwrap().instant, 1_000_000 - 290_000);
    assert_eq!(timed_rx_to_tx(&tx).unwrap().instant, 1_000_000 - 290_500);
    assert_eq!(timed_tx_to_tx(&tx).unwrap().instant, 1_000_000 - 311_000);
    let tx = TaskTx { at: Timestamp::BestEffort, cca: false };
    assert_eq!(timed_dis_to_tx(&tx), None);
}

#[test]
fn transitions() {
    let t = schedule_rx_from_off(&TaskRx { start: Timestamp::BestEffort });
    assert!(t.shorts.rxready_start && t.shorts.framestart_bcstart);
    assert_eq!(t.trigger, Some(RadioTrigger::RxEnable));
    let t = schedule_tx_from_off(&TaskTx { at: Timestamp::BestEffort, cca: true });
    assert!(t.shorts.rxready_ccastart && t.shorts.ccaidle_txen && t.shorts.ccabusy_disable);
    assert_eq!(t.trigger, Some(RadioTrigger::RxEnable));
    let t = schedule_tx_from_off(&TaskTx { at: Timestamp::Scheduled(10_000_000), cca: false });
    assert_eq!(t.trigger, None);
    assert_eq!(complete_rx_from_rx(RadioState::RxIdle), Some(RadioTrigger::Start));
    assert_eq!(complete_rx_from_rx(RadioState::Rx), None);
    assert_eq!(complete_off_from_rx(RadioState::RxIdle), Some(RadioTrigger::Disable));
    assert_eq!(complete_tx_from_tx(RadioState::TxIdle, true), None);
    assert_eq!(complete_tx_from_tx(RadioState::TxIdle, false), Some(RadioTrigger::Disable));
    assert_eq!(switch_off_action(RadioState::Disabled), None);
    assert_eq!(switch_off_action(RadioState::Rx), Some(true));
    assert_eq!(switch_off_action(RadioState::TxDisable), Some(false));
}

#[test]
fn outcomes() {
    assert_eq!(rx_outcome(true, false, false, false, 12), RxOutcome::Frame(10));
    assert_eq!(
        rx_outcome(false, true, true, false, 0),
        RxOutcome::CrcErrorRollback { restart: true }
    );
    assert_eq!(
        rx_outcome(false, true, true, true, 0),
        RxOutcome::CrcErrorRollback { restart: false }
    );
    assert_eq!(rx_outcome(false, true, false, false, 0), RxOutcome::CrcError);
    assert_eq!(rx_outcome(false, false, false, false, 0), RxOutcome::RxWindowEnded);
    assert_eq!(tx_outcome(true), TxOutcome::Sent);
    assert_eq!(tx_outcome(false), TxOutcome::Interrupted);

    let mut pdu = vec![0u8, 1, 2, 3];
    prepare_tx_frame(&mut pdu, 20);
    assert_eq!(pdu, vec![22, 1, 2, 3]);
}

#[test]
fn preliminary_frame_info() {
    // PHR, 2006 data frame with short/short addresses, PAN ID compression,
    // sequence number 9, dst PAN 0x1234, dst 0x0001, src 0x0002.
    let pdu = [12u8, 0b0100_0001, 0b1001_1000, 9, 0x34, 0x12, 0x01, 0x00, 0x02, 0x00, 0, 0, 0];
    match preliminary_frame_control(false, false, &pdu) {
        PreliminaryStep::Wait { bcc } => assert_eq!(bcc, (2 + 1 + 4) * 8),
        _ => panic!("expected to wait for the destination fields"),
    }
    let info = preliminary_fields(false, false, &pdu).unwrap();
    assert_eq!(info.mpdu_length, 12);
    assert_eq!(info.seq_nr, Some(9));
    let fields = info.addressing_fields.unwrap();
    assert_eq!(fields.dst_pan_id().unwrap().into_u16(), 0x1234);
    assert_eq!(fields.src_address().unwrap().as_bytes(), &[0x02, 0x00]);
    assert!(preliminary_fields(true, true, &pdu).is_none());
    assert!(matches!(preliminary_frame_control(true, true, &pdu), PreliminaryStep::Abort));

    // A 2006 Ack frame has no addressing fields, which its frame version
    // does not allow: nothing is learnt.
    let pdu = [5u8, 0b0000_0010, 0b0001_0000, 4];
    assert!(matches!(preliminary_frame_control(false, false, &pdu), PreliminaryStep::Abort));

    // A 2015 frame without addresses and with a suppressed sequence number
    // is complete with its frame control field.
    let pdu = [3u8, 0b0000_0001, 0b0010_0001, 0];
    match preliminary_frame_control(false, false, &pdu) {
        PreliminaryStep::Done(info) => {
            assert_eq!(info.mpdu_length, 3);
            assert!(info.seq_nr.is_none());
            assert!(info.frame_control.is_some());
        }
        _ => panic!("expected the frame control field alone"),
    }
}

#[test]
fn rtc_time() {
    assert_eq!(calc_now(0, 5), 5);
    assert_eq!(calc_now(1, 0x80_0005), 0x80_0005);
    // A new period raced the read: the counter already wrapped.
    assert_eq!(calc_now(1, 5), 0x100_0005);
    assert_eq!(calc_now(2, 5), 0x100_0005);
    assert_eq!(calc_now(0, 0x80_0000), calc_now(1, 0x80_0000));
}

#[test]
fn alarms() {
    let mut alarms = Alarms::new();
    assert!(alarms.schedule(100));
    assert!(!alarms.schedule(200));
    assert_eq!(trigger_alarm(&mut alarms), Some(200));
    assert_eq!(alarms.fired, 100);
    assert_eq!(alarms.get_and_clear_fired(), 100);
    assert_eq!(trigger_alarm(&mut alarms), None);
    assert_eq!(alarms.get_and_clear_fired(), 200);
    assert_eq!(alarms.pending, OFF);

    assert_eq!(program_alarm(10, 20), AlarmProgram::Overdue);
    assert_eq!(program_alarm(21, 20), AlarmProgram::Program { compare: 23, enable: true });
    assert_eq!(
        program_alarm(0x1_0000_0000, 20),
        AlarmProgram::Program { compare: 0, enable: false }
    );
    let (p, enable) = next_period(0, &alarms);
    assert_eq!((p, enable), (1, false));
}
