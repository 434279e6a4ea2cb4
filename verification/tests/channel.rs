use dot15d4::channel::{HasAddress, SlotState, State};

/// A request addressed to the consumers listening on one address.
#[derive(Debug, PartialEq)]
struct Request {
    address: u8,
    seq_nr: u8,
}

impl HasAddress<u8> for Request {
    fn matches(&self, address: &u8) -> bool {
        self.address == *address
    }
}

type Channel = State<u8, Request, u16, 3, 2, 2>;

fn request(address: u8, seq_nr: u8) -> Request {
    Request { address, seq_nr }
}

#[test]
fn channel_allocates_first_free_slot() {
    let mut channel = Channel::new();
    assert_eq!(channel.allocate_msg_slot(None), Some(0));
    assert_eq!(channel.allocate_msg_slot(None), Some(1));
    assert_eq!(channel.allocate_msg_slot(None), Some(2));
    assert_eq!(channel.allocate_msg_slot(None), None);
    assert!(!channel.is_msg_slot_available(1));
    assert_eq!(channel.release_msg_slot(1), None);
    assert!(channel.is_msg_slot_available(1));
    assert_eq!(channel.allocate_msg_slot(None), Some(1));
}

#[test]
fn channel_backlog_wakes_in_waiting_order() {
    let mut channel = State::<u8, Request, u16, 1, 2, 1>::new();
    assert_eq!(channel.allocate_msg_slot(None), Some(0));
    assert_eq!(channel.allocate_msg_slot(Some(10)), None);
    assert_eq!(channel.allocate_msg_slot(Some(11)), None);
    assert_eq!(channel.release_msg_slot(0), Some(10));
    assert_eq!(channel.allocate_msg_slot(None), Some(0));
    assert_eq!(channel.release_msg_slot(0), Some(11));
    assert_eq!(channel.allocate_msg_slot(None), Some(0));
    assert_eq!(channel.release_msg_slot(0), None);
}

#[test]
fn channel_consumer_tokens() {
    let mut channel = Channel::new();
    let first = channel.try_allocate_consumer_token().unwrap();
    let second = channel.try_allocate_consumer_token().unwrap();
    assert_eq!(first.consumer_slot(), 0);
    assert_eq!(second.consumer_slot(), 1);
    assert!(channel.try_allocate_consumer_token().is_none());
    channel.release_consumer_token(first);
    assert_eq!(channel.try_allocate_consumer_token().unwrap().consumer_slot(), 0);
    assert_eq!(channel.allocate_cons_slot(), None);
    channel.release_cons_slot(1);
    assert_eq!(channel.allocate_cons_slot(), Some(1));
}

#[test]
fn channel_send_wakes_first_matching_consumer() {
    let mut channel = Channel::new();
    let c0 = channel.try_allocate_consumer_token().unwrap();
    let c1 = channel.try_allocate_consumer_token().unwrap();
    assert!(channel.poll_wait_for_request(&c0, &1, 100).is_none());
    assert!(channel.poll_wait_for_request(&c1, &2, 200).is_none());

    let slot = channel.allocate_msg_slot(None).unwrap();
    assert_eq!(channel.send(slot, request(2, 7)), Some(200));

    // The woken consumer finds its request; the other one still waits.
    let (token, received) = channel.poll_wait_for_request(&c1, &2, 200).unwrap();
    assert_eq!(token.message_slot(), slot);
    assert_eq!(received, request(2, 7));

    let slot = channel.allocate_msg_slot(None).unwrap();
    assert_eq!(channel.send(slot, request(1, 8)), Some(100));
    let slot = channel.allocate_msg_slot(None).unwrap();
    assert_eq!(channel.send(slot, request(1, 9)), None);
}

#[test]
fn channel_send_with_matches_picks_first_waiting_match() {
    let mut channel = Channel::new();
    let c0 = channel.try_allocate_consumer_token().unwrap();
    let c1 = channel.try_allocate_consumer_token().unwrap();
    assert!(channel.poll_wait_for_request(&c1, &5, 51).is_none());
    let slot = channel.allocate_msg_slot(None).unwrap();
    // Consumer 0 would match but does not wait.
    assert_eq!(channel.send_with_matches(slot, request(5, 1), &vec![true, true]), Some(51));
    assert!(channel.poll_wait_for_request(&c0, &5, 50).is_some());
}

#[test]
fn channel_reception_in_pending_order() {
    let mut channel = Channel::new();
    for seq_nr in 0..3 {
        let slot = channel.allocate_msg_slot(None).unwrap();
        assert_eq!(channel.send(slot, request(1, seq_nr)), None);
    }
    for seq_nr in 0..3 {
        let (slot, received) = channel.try_receive(&1).unwrap();
        assert_eq!(slot, seq_nr);
        assert_eq!(received.seq_nr, seq_nr);
    }
    assert!(channel.try_receive(&1).is_none());
}

#[test]
fn channel_selective_reception() {
    let mut channel = Channel::new();
    let s0 = channel.allocate_msg_slot(None).unwrap();
    channel.send(s0, request(1, 10));
    let s1 = channel.allocate_msg_slot(None).unwrap();
    channel.send(s1, request(2, 20));

    assert_eq!(channel.try_receive(&2), Some((s1, request(2, 20))));
    assert!(channel.try_receive(&2).is_none());
    assert!(channel.try_receive(&3).is_none());
    assert_eq!(channel.try_receive(&1), Some((s0, request(1, 10))));

    let s2 = channel.allocate_msg_slot(None).unwrap();
    channel.send(s2, request(4, 40));
    assert_eq!(channel.try_receive_with_matches(&vec![false]), None);
    assert_eq!(channel.try_receive_with_matches(&vec![true]), Some((s2, request(4, 40))));
}

#[test]
fn channel_awaiting_sender_gets_its_response() {
    let mut channel = Channel::new();
    let token = channel.try_allocate_request_token().unwrap();
    let slot = token.message_slot();
    assert_eq!(
        channel.send_request(token, request(1, 3), SlotState::RequestAwaitingResponse(42)),
        None
    );
    // Not yet answered.
    assert_eq!(channel.try_get_response(slot), (None, None));

    let (response_token, received) = channel.try_receive_request(&1).unwrap();
    assert_eq!(received.seq_nr, 3);
    assert_eq!(response_token.message_slot(), slot);
    assert_eq!(channel.received(response_token, 300), Some(42));

    assert_eq!(channel.try_get_response(slot), (Some(300), None));
    assert!(channel.is_msg_slot_available(slot));
    assert_eq!(channel.try_get_response(slot), (None, None));
}

#[test]
fn channel_polling_sender_finds_pending_responses() {
    let mut channel = Channel::new();
    let t0 = channel.try_allocate_request_token().unwrap();
    let t1 = channel.try_allocate_request_token().unwrap();
    let (s0, s1) = (t0.message_slot(), t1.message_slot());
    channel.send_request(t0, request(1, 0), SlotState::RequestPollingResponse(None));
    channel.send_request(t1, request(1, 1), SlotState::RequestPollingResponse(Some(77)));

    let (r0, _) = channel.try_receive_request(&1).unwrap();
    let (r1, _) = channel.try_receive_request(&1).unwrap();
    assert_eq!(channel.try_poll_response(&vec![s0, s1]), (None, None));

    // The second response arrives first and wakes the polling task.
    assert_eq!(channel.received(r1, 11), Some(77));
    assert_eq!(channel.try_poll_response(&vec![s0]), (None, None));
    assert_eq!(channel.try_poll_response(&vec![9, s0, s1]), (Some((2, 11)), None));
    assert!(channel.is_msg_slot_available(s1));

    assert_eq!(channel.received(r0, 10), None);
    assert_eq!(channel.try_poll_response(&vec![s0]), (Some((0, 10)), None));
    assert_eq!(channel.try_poll_response(&vec![s0, s1]), (None, None));
}

#[test]
fn channel_fire_and_forget_releases_slot() {
    let mut channel = State::<u8, Request, u16, 1, 1, 1>::new();
    let token = channel.try_allocate_request_token().unwrap();
    let slot = token.message_slot();
    channel.send_request(token, request(1, 0), SlotState::RequestNoResponse);
    // A sender waits for the only slot.
    assert_eq!(channel.allocate_msg_slot(Some(5)), None);

    let (response_token, _) = channel.try_receive_request(&1).unwrap();
    assert_eq!(channel.received(response_token, 0), Some(5));
    assert!(channel.is_msg_slot_available(slot));
    assert_eq!(channel.try_get_response(slot), (None, None));
}

#[test]
fn channel_released_slot_wakes_backlog_after_response() {
    let mut channel = State::<u8, Request, u16, 1, 1, 1>::new();
    let token = channel.try_allocate_request_token().unwrap();
    let slot = token.message_slot();
    channel.send_request(token, request(1, 0), SlotState::RequestAwaitingResponse(1));
    assert!(channel.try_allocate_request_token().is_none());
    assert_eq!(channel.allocate_msg_slot(Some(9)), None);
    let (response_token, _) = channel.try_receive_request(&1).unwrap();
    assert_eq!(channel.received(response_token, 4), Some(1));
    assert_eq!(channel.try_get_response(slot), (Some(4), Some(9)));
}
