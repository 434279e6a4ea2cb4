//! The shared state of a multi-producer, multi-consumer channel: a fixed
//! number of message slots that carry a request from a sender to a consumer
//! and a response back, the queues of pending requests and responses, the
//! consumers waiting for requests and the senders waiting for a free slot.
//!
//! Tasks are represented by the identifiers of their wakers. Operations that
//! must wake a task return its identifier; the caller wakes it.

use crate::sync::{ConsSlot, ConsumerToken, MsgSlot, RequestToken, ResponseToken, WakerId};
use vstd::prelude::*;

verus! {

/// A message that can be addressed to consumers.
pub trait HasAddress<Address> {
    /// Whether the message is meant for a consumer that listens on the given
    /// address (or address wildcard).
    fn matches(&self, address: &Address) -> bool;
}

/// A request or a response, stored in the same message slot.
pub enum Message<Request, Response> {
    /// A message representing a request.
    Request(Request),
    /// A message representing a response.
    Response(Response),
}

/// What the sender of the message in a slot expects.
#[derive(Debug, Clone, Copy, PartialEq, Eq, Structural)]
pub enum SlotState {
    Unused,
    /// The sending task awaits the response; its waker is kept.
    RequestAwaitingResponse(WakerId),
    /// The sender polls for the response; the waker of a polling task may be
    /// kept.
    RequestPollingResponse(Option<WakerId>),
    /// The sender does not expect a response.
    RequestNoResponse,
    /// A response is stored in the slot.
    ResponseAvailable,
}

/// The state of a channel with `MESSAGES` message slots, room for `BACKLOG`
/// senders waiting for a slot, and `CONSUMERS` consumer slots.
///
/// The lifecycle of a message slot: available, allocated, pending (a request
/// is queued), receiving (a consumer took the request), released (available
/// again).
pub struct State<
    Address,
    Request,
    Response,
    const MESSAGES: usize,
    const BACKLOG: usize,
    const CONSUMERS: usize,
> {
    /// The message slots.
    messages: Vec<Option<Message<Request, Response>>>,
    /// Slots with pending requests, in the order they became pending.
    pending_requests: Vec<MsgSlot>,
    /// Slots with pending responses, in the order they became pending.
    pending_responses: Vec<MsgSlot>,
    /// Which message slots are available.
    msg_available: Vec<bool>,
    /// Which consumer slots are available.
    cons_available: Vec<bool>,
    /// The state of each message slot.
    slot_state: Vec<SlotState>,
    /// Consumers waiting for a request: their address and waker.
    consumers: Vec<Option<(Address, WakerId)>>,
    /// Senders waiting for a message slot, the most recent first.
    backlog: Vec<WakerId>,
}

/// Whether `k` is the first index at which `flags` holds.
pub open spec fn is_first(flags: Seq<bool>, k: int) -> bool {
    &&& 0 <= k < flags.len()
    &&& flags[k]
    &&& forall|j: int| 0 <= j < k ==> !flags[j]
}

/// Whether `flags` holds nowhere.
pub open spec fn none_set(flags: Seq<bool>) -> bool {
    forall|j: int| 0 <= j < flags.len() ==> !flags[j]
}

/// Which consumers wait and are matched, given whether the message matches
/// each consumer's address.
pub open spec fn waiting_matches<Address>(
    consumers: Seq<Option<(Address, WakerId)>>,
    matches: Seq<bool>,
) -> Seq<bool> {
    Seq::new(consumers.len(), |i: int| consumers[i] is Some && matches[i])
}

/// The first waiting consumer that matches, by `matches`, was taken out of
/// `before` and its waker is `wake`; or none matches, and nothing changed.
pub open spec fn woke_first_match<Address>(
    before: Seq<Option<(Address, WakerId)>>,
    matches: Seq<bool>,
    after: Seq<Option<(Address, WakerId)>>,
    wake: Option<WakerId>,
) -> bool {
    let flags = waiting_matches(before, matches);
    match wake {
        Some(w) => exists|k: int|
            {
                &&& is_first(flags, k)
                &&& #[trigger] before[k] matches Some((_, v)) && v == w
                &&& after == before.update(k, None)
            },
        None => none_set(flags) && after == before,
    }
}

/// The backlog after a sender starts waiting with the given waker.
pub open spec fn backlog_push(backlog: Seq<WakerId>, waker: WakerId) -> Seq<WakerId> {
    seq![waker] + backlog
}

/// The waker woken when a slot becomes available, and the backlog after it:
/// the sender that has waited longest.
pub open spec fn backlog_wake(backlog: Seq<WakerId>) -> (Option<WakerId>, Seq<WakerId>) {
    if backlog.len() == 0 {
        (None, backlog)
    } else {
        (Some(backlog.last()), backlog.drop_last())
    }
}

/// The slots of `queue` are distinct and below `n`: then the queue holds at
/// most `n` slots, and fewer where a slot below `n` is missing.
proof fn lemma_slot_queue_len(queue: Seq<u8>, n: u8, missing: Option<u8>)
    requires
        queue.no_duplicates(),
        forall|i: int| 0 <= i < queue.len() ==> queue[i] < n,
        missing matches Some(x) ==> x < n && !queue.contains(x),
    ensures
        queue.len() <= n,
        missing is Some ==> queue.len() < n,
{
    broadcast use vstd::seq_lib::group_seq_properties;
    broadcast use vstd::set_lib::range_set_properties;

    queue.unique_seq_to_set();
    let range = Set::<u8>::range(0u8, n);
    let slots = match missing {
        Some(x) => queue.to_set().insert(x),
        None => queue.to_set(),
    };
    assert(slots.subset_of(range));
    vstd::set_lib::lemma_len_subset(slots, range);
}

impl<
    Address,
    Request,
    Response,
    const MESSAGES: usize,
    const BACKLOG: usize,
    const CONSUMERS: usize,
> State<Address, Request, Response, MESSAGES, BACKLOG, CONSUMERS> {
    /// The message slots.
    pub closed spec fn spec_messages(&self) -> Seq<Option<Message<Request, Response>>> {
        self.messages@
    }

    /// Slots with pending requests, the oldest first.
    pub closed spec fn spec_pending_requests(&self) -> Seq<MsgSlot> {
        self.pending_requests@
    }

    /// Slots with pending responses, the oldest first.
    pub closed spec fn spec_pending_responses(&self) -> Seq<MsgSlot> {
        self.pending_responses@
    }

    /// Which message slots are available.
    pub closed spec fn spec_msg_available(&self) -> Seq<bool> {
        self.msg_available@
    }

    /// Which consumer slots are available.
    pub closed spec fn spec_cons_available(&self) -> Seq<bool> {
        self.cons_available@
    }

    /// The state of each message slot.
    pub closed spec fn spec_slot_state(&self) -> Seq<SlotState> {
        self.slot_state@
    }

    /// The waiting consumers.
    pub closed spec fn spec_consumers(&self) -> Seq<Option<(Address, WakerId)>> {
        self.consumers@
    }

    /// The senders waiting for a slot, the most recent first.
    pub closed spec fn spec_backlog(&self) -> Seq<WakerId> {
        self.backlog@
    }

    /// Whether message slot `s` holds a request.
    pub open spec fn holds_request(&self, s: int) -> bool {
        self.spec_messages()[s] matches Some(Message::Request(_))
    }

    /// Whether message slot `s` holds a response.
    pub open spec fn holds_response(&self, s: int) -> bool {
        self.spec_messages()[s] matches Some(Message::Response(_))
    }

    /// The channel is consistent: every slot is either available, and then
    /// unused and empty, or allocated; pending requests and responses are
    /// distinct allocated slots that hold a request or response; the queues
    /// fit their capacity.
    pub open spec fn wf(&self) -> bool {
        &&& MESSAGES <= 255
        &&& CONSUMERS <= 256
        &&& self.spec_messages().len() == MESSAGES
        &&& self.spec_msg_available().len() == MESSAGES
        &&& self.spec_slot_state().len() == MESSAGES
        &&& self.spec_cons_available().len() == CONSUMERS
        &&& self.spec_consumers().len() == CONSUMERS
        &&& self.spec_backlog().len() <= BACKLOG
        &&& self.spec_pending_requests().len() <= MESSAGES
        &&& self.spec_pending_responses().len() <= MESSAGES
        &&& self.spec_pending_requests().no_duplicates()
        &&& self.spec_pending_responses().no_duplicates()
        &&& forall|i: int|
            0 <= i < self.spec_pending_requests().len() ==> {
                let s = #[trigger] self.spec_pending_requests()[i];
                &&& s < MESSAGES
                &&& !self.spec_msg_available()[s as int]
                &&& self.holds_request(s as int)
            }
        &&& forall|i: int|
            0 <= i < self.spec_pending_responses().len() ==> {
                let s = #[trigger] self.spec_pending_responses()[i];
                &&& s < MESSAGES
                &&& !self.spec_msg_available()[s as int]
                &&& self.holds_response(s as int)
                &&& self.spec_slot_state()[s as int] == SlotState::ResponseAvailable
            }
        &&& forall|s: int|
            0 <= s < MESSAGES && #[trigger] self.spec_msg_available()[s] ==> self.spec_slot_state()[s]
                == SlotState::Unused && self.spec_messages()[s] is None
        &&& forall|s: int|
            0 <= s < MESSAGES && #[trigger] self.spec_slot_state()[s] == SlotState::ResponseAvailable
                ==> self.holds_response(s)
    }

    /// The sizes that the channel was made with.
    pub proof fn lemma_wf_sizes(&self)
        requires
            self.wf(),
        ensures
            MESSAGES <= 255,
            CONSUMERS <= 256,
            self.spec_messages().len() == MESSAGES,
            self.spec_msg_available().len() == MESSAGES,
            self.spec_slot_state().len() == MESSAGES,
            self.spec_cons_available().len() == CONSUMERS,
            self.spec_consumers().len() == CONSUMERS,
            self.spec_backlog().len() <= BACKLOG,
            self.spec_pending_requests().len() <= MESSAGES,
            self.spec_pending_responses().len() <= MESSAGES,
    {
    }

    /// A channel with all slots available and nothing pending or waiting.
    ///
    /// The message slots are numbered by `u8`; so are the consumer slots.
    pub fn new() -> (s: Self)
        requires
            MESSAGES <= 255,
            CONSUMERS <= 256,
        ensures
            s.wf(),
            s.spec_messages() == Seq::new(MESSAGES as nat, |i: int| None::<Message<Request, Response>>),
            s.spec_pending_requests() == Seq::<MsgSlot>::empty(),
            s.spec_pending_responses() == Seq::<MsgSlot>::empty(),
            s.spec_msg_available() == Seq::new(MESSAGES as nat, |i: int| true),
            s.spec_cons_available() == Seq::new(CONSUMERS as nat, |i: int| true),
            s.spec_slot_state() == Seq::new(MESSAGES as nat, |i: int| SlotState::Unused),
            s.spec_consumers() == Seq::new(CONSUMERS as nat, |i: int| None::<(Address, WakerId)>),
            s.spec_backlog() == Seq::<WakerId>::empty(),
    {
        let mut messages: Vec<Option<Message<Request, Response>>> = Vec::new();
        let mut msg_available: Vec<bool> = Vec::new();
        let mut slot_state: Vec<SlotState> = Vec::new();
        let mut i: usize = 0;
        while i < MESSAGES
            invariant
                i <= MESSAGES,
                messages@ == Seq::new(i as nat, |j: int| None::<Message<Request, Response>>),
                msg_available@ == Seq::new(i as nat, |j: int| true),
                slot_state@ == Seq::new(i as nat, |j: int| SlotState::Unused),
            decreases MESSAGES - i,
        {
            messages.push(None);
            msg_available.push(true);
            slot_state.push(SlotState::Unused);
            i = i + 1;
        }
        let mut consumers: Vec<Option<(Address, WakerId)>> = Vec::new();
        let mut cons_available: Vec<bool> = Vec::new();
        let mut j: usize = 0;
        while j < CONSUMERS
            invariant
                j <= CONSUMERS,
                consumers@ == Seq::new(j as nat, |k: int| None::<(Address, WakerId)>),
                cons_available@ == Seq::new(j as nat, |k: int| true),
            decreases CONSUMERS - j,
        {
            consumers.push(None);
            cons_available.push(true);
            j = j + 1;
        }
        State {
            messages,
            pending_requests: Vec::new(),
            pending_responses: Vec::new(),
            msg_available,
            cons_available,
            slot_state,
            consumers,
            backlog: Vec::new(),
        }
    }

    /// The first index at which `flags` holds.
    fn first_set(flags: &Vec<bool>) -> (r: Option<usize>)
        ensures
            match r {
                Some(k) => is_first(flags@, k as int),
                None => none_set(flags@),
            },
    {
        let mut i: usize = 0;
        while i < flags.len()
            invariant
                i <= flags@.len(),
                forall|j: int| 0 <= j < i ==> !flags@[j],
            decreases flags@.len() - i,
        {
            if flags[i] {
                return Some(i);
            }
            i = i + 1;
        }
        None
    }

    /// Allocates the first available message slot: the caller gets exclusive
    /// access to it.
    ///
    /// Where none is available and the caller gave its waker, the sender
    /// joins the backlog and is woken once a slot becomes available.
    pub fn allocate_msg_slot(&mut self, waker: Option<WakerId>) -> (r: Option<MsgSlot>)
        requires
            old(self).wf(),
            waker is Some && none_set(old(self).spec_msg_available()) ==> old(
                self,
            ).spec_backlog().len() < BACKLOG,
        ensures
            final(self).wf(),
            final(self).spec_messages() == old(self).spec_messages(),
            final(self).spec_pending_requests() == old(self).spec_pending_requests(),
            final(self).spec_pending_responses() == old(self).spec_pending_responses(),
            final(self).spec_cons_available() == old(self).spec_cons_available(),
            final(self).spec_slot_state() == old(self).spec_slot_state(),
            final(self).spec_consumers() == old(self).spec_consumers(),
            match r {
                Some(s) => {
                    &&& is_first(old(self).spec_msg_available(), s as int)
                    &&& final(self).spec_msg_available() == old(self).spec_msg_available().update(
                        s as int,
                        false,
                    )
                    &&& final(self).spec_backlog() == old(self).spec_backlog()
                },
                None => {
                    &&& none_set(old(self).spec_msg_available())
                    &&& final(self).spec_msg_available() == old(self).spec_msg_available()
                    &&& final(self).spec_backlog() == match waker {
                        Some(w) => backlog_push(old(self).spec_backlog(), w),
                        None => old(self).spec_backlog(),
                    }
                },
            },
    {
        match Self::first_set(&self.msg_available) {
            None => {
                if let Some(w) = waker {
                    self.backlog.insert(0, w);
                    assert(self.backlog@ =~= backlog_push(old(self).backlog@, w));
                }
                None
            },
            Some(s) => {
                self.msg_available.set(s, false);
                Some(s as MsgSlot)
            },
        }
    }

    /// Returns a message slot to the available ones, and hands out the waker
    /// of the sender that has waited longest for a slot, if any.
    ///
    /// The slot must be allocated, unused and empty: no longer pending.
    pub fn release_msg_slot(&mut self, msg_slot: MsgSlot) -> (wake: Option<WakerId>)
        requires
            old(self).wf(),
            msg_slot < MESSAGES,
            !old(self).spec_msg_available()[msg_slot as int],
            old(self).spec_slot_state()[msg_slot as int] == SlotState::Unused,
            old(self).spec_messages()[msg_slot as int] is None,
        ensures
            final(self).wf(),
            final(self).spec_msg_available() == old(self).spec_msg_available().update(
                msg_slot as int,
                true,
            ),
            (wake, final(self).spec_backlog()) == backlog_wake(old(self).spec_backlog()),
            final(self).spec_messages() == old(self).spec_messages(),
            final(self).spec_pending_requests() == old(self).spec_pending_requests(),
            final(self).spec_pending_responses() == old(self).spec_pending_responses(),
            final(self).spec_cons_available() == old(self).spec_cons_available(),
            final(self).spec_slot_state() == old(self).spec_slot_state(),
            final(self).spec_consumers() == old(self).spec_consumers(),
    {
        self.msg_available.set(msg_slot as usize, true);
        proof {
            assert forall|i: int| 0 <= i < self.pending_requests@.len() implies self.pending_requests@[i]
                != msg_slot by {
                let t = old(self).pending_requests@[i];
                assert(old(self).holds_request(t as int));
            }
            assert forall|i: int| 0 <= i < self.pending_responses@.len() implies self.pending_responses@[i]
                != msg_slot by {
                let t = old(self).pending_responses@[i];
                assert(old(self).holds_response(t as int));
            }
        }
        self.backlog.pop()
    }

    /// Allocates the first available consumer slot: the caller gets exclusive
    /// access to it.
    pub fn allocate_cons_slot(&mut self) -> (r: Option<ConsSlot>)
        requires
            old(self).wf(),
        ensures
            final(self).wf(),
            match r {
                Some(c) => {
                    &&& is_first(old(self).spec_cons_available(), c as int)
                    &&& final(self).spec_cons_available() == old(self).spec_cons_available().update(
                        c as int,
                        false,
                    )
                },
                None => {
                    &&& none_set(old(self).spec_cons_available())
                    &&& final(self).spec_cons_available() == old(self).spec_cons_available()
                },
            },
            final(self).spec_messages() == old(self).spec_messages(),
            final(self).spec_pending_requests() == old(self).spec_pending_requests(),
            final(self).spec_pending_responses() == old(self).spec_pending_responses(),
            final(self).spec_msg_available() == old(self).spec_msg_available(),
            final(self).spec_slot_state() == old(self).spec_slot_state(),
            final(self).spec_consumers() == old(self).spec_consumers(),
            final(self).spec_backlog() == old(self).spec_backlog(),
    {
        match Self::first_set(&self.cons_available) {
            None => None,
            Some(c) => {
                self.cons_available.set(c, false);
                Some(c as ConsSlot)
            },
        }
    }

    /// Returns an allocated consumer slot to the available ones.
    pub fn release_cons_slot(&mut self, cons_slot: ConsSlot)
        requires
            old(self).wf(),
            cons_slot < CONSUMERS,
            !old(self).spec_cons_available()[cons_slot as int],
        ensures
            final(self).wf(),
            final(self).spec_cons_available() == old(self).spec_cons_available().update(
                cons_slot as int,
                true,
            ),
            final(self).spec_messages() == old(self).spec_messages(),
            final(self).spec_pending_requests() == old(self).spec_pending_requests(),
            final(self).spec_pending_responses() == old(self).spec_pending_responses(),
            final(self).spec_msg_available() == old(self).spec_msg_available(),
            final(self).spec_slot_state() == old(self).spec_slot_state(),
            final(self).spec_consumers() == old(self).spec_consumers(),
            final(self).spec_backlog() == old(self).spec_backlog(),
    {
        self.cons_available.set(cons_slot as usize, true);
    }

    /// Whether the given message slot is available.
    pub fn is_msg_slot_available(&self, msg_slot: MsgSlot) -> (r: bool)
        requires
            self.wf(),
            msg_slot < MESSAGES,
        ensures
            r == self.spec_msg_available()[msg_slot as int],
    {
        self.msg_available[msg_slot as usize]
    }
}

impl<
    Address,
    Request,
    Response,
    const MESSAGES: usize,
    const BACKLOG: usize,
    const CONSUMERS: usize,
> State<Address, Request, Response, MESSAGES, BACKLOG, CONSUMERS> {
    /// The request of the first pending slot that `matches` selects was taken
    /// out, with its slot, and the slot is no longer pending; or `matches`
    /// selects none, and nothing changed.
    pub open spec fn took_first_match(
        before: Self,
        matches: Seq<bool>,
        after: Self,
        r: Option<(MsgSlot, Request)>,
    ) -> bool {
        &&& after.spec_pending_responses() == before.spec_pending_responses()
        &&& after.spec_msg_available() == before.spec_msg_available()
        &&& after.spec_cons_available() == before.spec_cons_available()
        &&& after.spec_slot_state() == before.spec_slot_state()
        &&& after.spec_consumers() == before.spec_consumers()
        &&& after.spec_backlog() == before.spec_backlog()
        &&& match r {
            Some((s, request)) => exists|k: int|
                {
                    &&& is_first(matches, k)
                    &&& #[trigger] before.spec_pending_requests()[k] == s
                    &&& before.spec_messages()[s as int] == Some(
                        Message::<Request, Response>::Request(request),
                    )
                    &&& after.spec_messages() == before.spec_messages().update(s as int, None)
                    &&& after.spec_pending_requests() == before.spec_pending_requests().remove(k)
                },
            None => {
                &&& none_set(matches)
                &&& after.spec_messages() == before.spec_messages()
                &&& after.spec_pending_requests() == before.spec_pending_requests()
            },
        }
    }

    /// The request was stored in the slot, which became the most recent
    /// pending one.
    pub open spec fn stored_request(before: Self, msg_slot: MsgSlot, request: Request, after: Self) -> bool {
        &&& after.spec_messages() == before.spec_messages().update(
            msg_slot as int,
            Some(Message::Request(request)),
        )
        &&& after.spec_pending_requests() == before.spec_pending_requests().push(msg_slot)
    }

    /// The response was delivered to the sender of the request in the slot,
    /// as its slot state says: to an awaiting sender, to a polling sender
    /// (the response also becomes pending), or dropped with the slot
    /// released where no response is expected; `wake` is the task to wake.
    pub open spec fn delivered_response(
        before: Self,
        msg_slot: MsgSlot,
        response: Response,
        after: Self,
        wake: Option<WakerId>,
    ) -> bool {
        let s = msg_slot as int;
        match before.spec_slot_state()[s] {
            SlotState::RequestAwaitingResponse(w) => {
                &&& wake == Some(w)
                &&& after.spec_slot_state() == before.spec_slot_state().update(
                    s,
                    SlotState::ResponseAvailable,
                )
                &&& after.spec_messages() == before.spec_messages().update(
                    s,
                    Some(Message::Response(response)),
                )
                &&& after.spec_pending_responses() == before.spec_pending_responses()
                &&& after.spec_msg_available() == before.spec_msg_available()
                &&& after.spec_backlog() == before.spec_backlog()
            },
            SlotState::RequestPollingResponse(w) => {
                &&& wake == w
                &&& after.spec_slot_state() == before.spec_slot_state().update(
                    s,
                    SlotState::ResponseAvailable,
                )
                &&& after.spec_messages() == before.spec_messages().update(
                    s,
                    Some(Message::Response(response)),
                )
                &&& after.spec_pending_responses() == before.spec_pending_responses().push(msg_slot)
                &&& after.spec_msg_available() == before.spec_msg_available()
                &&& after.spec_backlog() == before.spec_backlog()
            },
            _ => {
                &&& (wake, after.spec_backlog()) == backlog_wake(
                    before.spec_backlog(),
                )
                &&& after.spec_slot_state() == before.spec_slot_state().update(
                    s,
                    SlotState::Unused,
                )
                &&& after.spec_messages() == before.spec_messages()
                &&& after.spec_pending_responses() == before.spec_pending_responses()
                &&& after.spec_msg_available() == before.spec_msg_available().update(s, true)
            },
        }
    }

    /// Where the slot holds an available response, it was taken with the
    /// slot released (`r.1` is the sender to wake from the backlog);
    /// otherwise nothing was taken and nothing changed.
    pub open spec fn took_response(
        before: Self,
        msg_slot: u8,
        after: Self,
        r: (Option<Response>, Option<WakerId>),
    ) -> bool {
        if before.spec_slot_state()[msg_slot as int] == SlotState::ResponseAvailable {
            &&& r.0 matches Some(response) && before.spec_messages()[msg_slot as int] == Some(
                Message::<Request, Response>::Response(response),
            )
            &&& after.spec_messages() == before.spec_messages().update(
                msg_slot as int,
                None,
            )
            &&& after.spec_slot_state() == before.spec_slot_state().update(
                msg_slot as int,
                SlotState::Unused,
            )
            &&& after.spec_msg_available() == before.spec_msg_available().update(
                msg_slot as int,
                true,
            )
            &&& (r.1, after.spec_backlog()) == backlog_wake(before.spec_backlog())
        } else {
            &&& r.0 is None
            &&& r.1 is None
            &&& after.spec_messages() == before.spec_messages()
            &&& after.spec_slot_state() == before.spec_slot_state()
            &&& after.spec_msg_available() == before.spec_msg_available()
            &&& after.spec_backlog() == before.spec_backlog()
        }
    }

    /// The response of the oldest pending response whose slot is one of
    /// `msg_slots` was taken, with the first index of that slot among them,
    /// and the slot released (`r.1` is the sender to wake from the
    /// backlog); or none is, and nothing changed.
    pub open spec fn polled_response(
        before: Self,
        msg_slots: Seq<u8>,
        after: Self,
        r: (Option<(usize, Response)>, Option<WakerId>),
    ) -> bool {
        match r.0 {
            None => {
                &&& none_set(Self::polled(before.spec_pending_responses(), msg_slots))
                &&& r.1 is None
                &&& after.spec_messages() == before.spec_messages()
                &&& after.spec_pending_responses() == before.spec_pending_responses()
                &&& after.spec_slot_state() == before.spec_slot_state()
                &&& after.spec_msg_available() == before.spec_msg_available()
                &&& after.spec_backlog() == before.spec_backlog()
            },
            Some((j, response)) => exists|i: int|
                {
                    let s = #[trigger] before.spec_pending_responses()[i];
                    &&& is_first(Self::polled(before.spec_pending_responses(), msg_slots), i)
                    &&& is_first(Self::positions(msg_slots, s), j as int)
                    &&& before.spec_messages()[s as int] == Some(
                        Message::<Request, Response>::Response(response),
                    )
                    &&& after.spec_messages() == before.spec_messages().update(
                        s as int,
                        None,
                    )
                    &&& after.spec_pending_responses() == before.spec_pending_responses().remove(i)
                    &&& after.spec_slot_state() == before.spec_slot_state().update(
                        s as int,
                        SlotState::Unused,
                    )
                    &&& after.spec_msg_available() == before.spec_msg_available().update(s as int, true)
                    &&& (r.1, after.spec_backlog()) == backlog_wake(
                        before.spec_backlog(),
                    )
                },
        }
    }

    /// A reception with a response token, read as one with the token's slot.
    pub open spec fn with_slot(r: Option<(ResponseToken, Request)>) -> Option<(MsgSlot, Request)> {
        match r {
            Some((t, request)) => Some((t@, request)),
            None => None,
        }
    }

    /// The first waiting consumer that `matches` selects.
    fn first_waiting_match(
        consumers: &Vec<Option<(Address, WakerId)>>,
        matches: &Vec<bool>,
    ) -> (r: Option<usize>)
        requires
            matches@.len() == consumers@.len(),
        ensures
            match r {
                Some(k) => is_first(waiting_matches(consumers@, matches@), k as int),
                None => none_set(waiting_matches(consumers@, matches@)),
            },
    {
        let mut i: usize = 0;
        while i < consumers.len()
            invariant
                i <= consumers@.len(),
                matches@.len() == consumers@.len(),
                forall|j: int| 0 <= j < i ==> !waiting_matches(consumers@, matches@)[j],
            decreases consumers@.len() - i,
        {
            let waiting = match &consumers[i] {
                Some(_) => true,
                None => false,
            };
            if waiting && matches[i] {
                return Some(i);
            }
            i = i + 1;
        }
        None
    }

    /// Stores the request in its allocated slot, makes it pending, and takes
    /// out the first waiting consumer whose address matches, by `matches`
    /// (one entry per consumer slot), handing out its waker.
    pub fn send_with_matches(&mut self, msg_slot: MsgSlot, request: Request, matches: &Vec<bool>) -> (wake:
        Option<WakerId>)
        requires
            old(self).wf(),
            msg_slot < MESSAGES,
            !old(self).spec_msg_available()[msg_slot as int],
            old(self).spec_messages()[msg_slot as int] is None,
            matches@.len() == CONSUMERS,
        ensures
            final(self).wf(),
            Self::stored_request(*old(self), msg_slot, request, *final(self)),
            woke_first_match(old(self).spec_consumers(), matches@, final(self).spec_consumers(), wake),
            final(self).spec_pending_responses() == old(self).spec_pending_responses(),
            final(self).spec_msg_available() == old(self).spec_msg_available(),
            final(self).spec_cons_available() == old(self).spec_cons_available(),
            final(self).spec_slot_state() == old(self).spec_slot_state(),
            final(self).spec_backlog() == old(self).spec_backlog(),
    {
        let wake = match Self::first_waiting_match(&self.consumers, matches) {
            Some(k) => {
                let consumer = self.consumers[k].take();
                match consumer {
                    Some((_, w)) => Some(w),
                    None => None,
                }
            },
            None => None,
        };
        proof {
            assert forall|i: int| 0 <= i < self.pending_requests@.len() implies self.pending_requests@[i]
                != msg_slot by {
                let t = self.pending_requests@[i];
                assert(old(self).holds_request(t as int));
            }
            lemma_slot_queue_len(self.pending_requests@, MESSAGES as u8, Some(msg_slot));
        }
        self.messages.set(msg_slot as usize, Some(Message::Request(request)));
        self.pending_requests.push(msg_slot);
        wake
    }

    /// Takes out the request of the first pending slot that `matches` (one
    /// entry per pending request, the oldest first) selects; the slot is then
    /// receiving and no longer pending.
    pub fn try_receive_with_matches(&mut self, matches: &Vec<bool>) -> (r: Option<(MsgSlot, Request)>)
        requires
            old(self).wf(),
            matches@.len() == old(self).spec_pending_requests().len(),
        ensures
            final(self).wf(),
            Self::took_first_match(*old(self), matches@, *final(self), r),
    {
        match Self::first_set(matches) {
            None => None,
            Some(k) => {
                let s = self.pending_requests[k];
                proof {
                    assert(old(self).holds_request(s as int));
                }
                let taken = self.messages[s as usize].take();
                match taken {
                    Some(Message::Request(request)) => {
                        self.pending_requests.remove(k);
                        proof {
                            assert forall|i: int|
                                0 <= i < self.pending_requests@.len() implies self.pending_requests@[i]
                                != s by {
                                let j = if i < k { i } else { i + 1 };
                                assert(old(self).pending_requests@[j] == self.pending_requests@[i]);
                            }
                        }
                        Some((s, request))
                    },
                    _ => {
                        proof {
                            assert(false);
                        }
                        None
                    },
                }
            },
        }
    }
}

impl<
    Address,
    Request,
    Response,
    const MESSAGES: usize,
    const BACKLOG: usize,
    const CONSUMERS: usize,
> State<Address, Request, Response, MESSAGES, BACKLOG, CONSUMERS> {
    /// Whether a sender that sent a request in a slot with this state expects
    /// something back: every request-sent state.
    pub open spec fn is_request_sent(state: SlotState) -> bool {
        ||| state is RequestAwaitingResponse
        ||| state is RequestPollingResponse
        ||| state is RequestNoResponse
    }

    /// Which pending responses belong to one of the given slots.
    pub open spec fn polled(pending: Seq<MsgSlot>, msg_slots: Seq<u8>) -> Seq<bool> {
        Seq::new(pending.len(), |i: int| msg_slots.contains(pending[i]))
    }

    /// Where the given slots hold `s`.
    pub open spec fn positions(msg_slots: Seq<u8>, s: u8) -> Seq<bool> {
        Seq::new(msg_slots.len(), |k: int| msg_slots[k] == s)
    }

    /// The first index at which `msg_slots` holds `s`.
    fn first_position(msg_slots: &Vec<u8>, s: u8) -> (r: Option<usize>)
        ensures
            match r {
                Some(j) => is_first(Self::positions(msg_slots@, s), j as int),
                None => !msg_slots@.contains(s),
            },
    {
        let mut j: usize = 0;
        while j < msg_slots.len()
            invariant
                j <= msg_slots@.len(),
                forall|k: int| 0 <= k < j ==> msg_slots@[k] != s,
            decreases msg_slots@.len() - j,
        {
            if msg_slots[j] == s {
                return Some(j);
            }
            j = j + 1;
        }
        None
    }

    /// Sends a request over an allocated message slot, recording what the
    /// sender expects back (`expects` is a request-sent state), and hands out
    /// the waker of the consumer to wake, as [`Self::send_with_matches`] does
    /// for the given matches.
    pub fn send_request_with_matches(
        &mut self,
        request_token: RequestToken,
        request: Request,
        expects: SlotState,
        matches: &Vec<bool>,
    ) -> (wake: Option<WakerId>)
        requires
            old(self).wf(),
            request_token@ < MESSAGES,
            !old(self).spec_msg_available()[request_token@ as int],
            old(self).spec_messages()[request_token@ as int] is None,
            Self::is_request_sent(expects),
            matches@.len() == CONSUMERS,
        ensures
            final(self).wf(),
            final(self).spec_slot_state() == old(self).spec_slot_state().update(
                request_token@ as int,
                expects,
            ),
            Self::stored_request(*old(self), request_token@, request, *final(self)),
            woke_first_match(old(self).spec_consumers(), matches@, final(self).spec_consumers(), wake),
            final(self).spec_pending_responses() == old(self).spec_pending_responses(),
            final(self).spec_msg_available() == old(self).spec_msg_available(),
            final(self).spec_cons_available() == old(self).spec_cons_available(),
            final(self).spec_backlog() == old(self).spec_backlog(),
    {
        let msg_slot = request_token.consume();
        self.slot_state.set(msg_slot as usize, expects);
        self.send_with_matches(msg_slot, request, matches)
    }

    /// Signals that the request in a receiving slot was handled, with its
    /// response, and hands out the waker of the task to wake.
    ///
    /// An awaiting sender gets the response and is woken; for a polling
    /// sender the response also becomes pending and a polling task is woken;
    /// where no response is expected it is dropped and the slot released,
    /// waking the sender that has waited longest for a slot.
    pub fn received(&mut self, response_token: ResponseToken, response: Response) -> (wake: Option<
        WakerId,
    >)
        requires
            old(self).wf(),
            response_token@ < MESSAGES,
            old(self).spec_messages()[response_token@ as int] is None,
            Self::is_request_sent(old(self).spec_slot_state()[response_token@ as int]),
        ensures
            final(self).wf(),
            final(self).spec_pending_requests() == old(self).spec_pending_requests(),
            final(self).spec_cons_available() == old(self).spec_cons_available(),
            final(self).spec_consumers() == old(self).spec_consumers(),
            Self::delivered_response(*old(self), response_token@, response, *final(self), wake),
    {
        let msg_slot = response_token.consume();
        let s = msg_slot as usize;
        match self.slot_state[s] {
            SlotState::RequestAwaitingResponse(w) => {
                self.slot_state.set(s, SlotState::ResponseAvailable);
                self.messages.set(s, Some(Message::Response(response)));
                Some(w)
            },
            SlotState::RequestPollingResponse(w) => {
                proof {
                    assert forall|i: int|
                        0 <= i < self.pending_responses@.len() implies self.pending_responses@[i]
                        != msg_slot by {
                        let t = self.pending_responses@[i];
                        assert(old(self).holds_response(t as int));
                    }
                    lemma_slot_queue_len(self.pending_responses@, MESSAGES as u8, Some(msg_slot));
                }
                self.slot_state.set(s, SlotState::ResponseAvailable);
                self.messages.set(s, Some(Message::Response(response)));
                self.pending_responses.push(msg_slot);
                w
            },
            _ => {
                self.slot_state.set(s, SlotState::Unused);
                self.release_msg_slot(msg_slot)
            },
        }
    }

    /// Takes the response of the oldest pending response whose slot is one of
    /// the given ones, with the index of that slot among them, and releases
    /// the slot; hands out the waker of the sender that has waited longest
    /// for a slot.
    pub fn try_poll_response(&mut self, msg_slots: &Vec<u8>) -> (r: (
        Option<(usize, Response)>,
        Option<WakerId>,
    ))
        requires
            old(self).wf(),
        ensures
            final(self).wf(),
            final(self).spec_pending_requests() == old(self).spec_pending_requests(),
            final(self).spec_cons_available() == old(self).spec_cons_available(),
            final(self).spec_consumers() == old(self).spec_consumers(),
            Self::polled_response(*old(self), msg_slots@, *final(self), r),
    {
        let mut i: usize = 0;
        while i < self.pending_responses.len()
            invariant
                self.wf(),
                *self == *old(self),
                i <= self.spec_pending_responses().len(),
                forall|k: int|
                    0 <= k < i ==> !msg_slots@.contains(#[trigger] self.spec_pending_responses()[k]),
            decreases self.spec_pending_responses().len() - i,
        {
            let s = self.pending_responses[i];
            match Self::first_position(msg_slots, s) {
                Some(j) => {
                    proof {
                        assert(old(self).holds_response(s as int));
                        assert(is_first(Self::polled(old(self).pending_responses@, msg_slots@), i as int));
                    }
                    let taken = self.messages[s as usize].take();
                    match taken {
                        Some(Message::Response(response)) => {
                            self.pending_responses.remove(i);
                            self.slot_state.set(s as usize, SlotState::Unused);
                            proof {
                                assert forall|k: int|
                                    0 <= k < self.pending_responses@.len() implies self.pending_responses@[k]
                                    != s by {
                                    let l = if k < i { k } else { k + 1 };
                                    assert(old(self).pending_responses@[l] == self.pending_responses@[k]);
                                }
                            }
                            let wake = self.release_msg_slot(s);
                            return (Some((j, response)), wake);
                        },
                        _ => {
                            proof {
                                assert(false);
                            }
                            return (None, None);
                        },
                    }
                },
                None => {},
            }
            i = i + 1;
        }
        (None, None)
    }

    /// Takes the response stored in the given slot, if one is available, and
    /// releases the slot; hands out the waker of the sender that has waited
    /// longest for a slot.
    ///
    /// This is for senders awaiting the response in that slot, whose response
    /// is not pending.
    pub fn try_get_response(&mut self, msg_slot: u8) -> (r: (Option<Response>, Option<WakerId>))
        requires
            old(self).wf(),
            msg_slot < MESSAGES,
            !old(self).spec_pending_responses().contains(msg_slot),
        ensures
            final(self).wf(),
            final(self).spec_pending_requests() == old(self).spec_pending_requests(),
            final(self).spec_pending_responses() == old(self).spec_pending_responses(),
            final(self).spec_cons_available() == old(self).spec_cons_available(),
            final(self).spec_consumers() == old(self).spec_consumers(),
            Self::took_response(*old(self), msg_slot, *final(self), r),
    {
        let s = msg_slot as usize;
        if self.slot_state[s] == SlotState::ResponseAvailable {
            proof {
                assert(old(self).holds_response(s as int));
            }
            let taken = self.messages[s].take();
            match taken {
                Some(Message::Response(response)) => {
                    self.slot_state.set(s, SlotState::Unused);
                    let wake = self.release_msg_slot(msg_slot);
                    (Some(response), wake)
                },
                _ => {
                    proof {
                        assert(false);
                    }
                    (None, None)
                },
            }
        } else {
            (None, None)
        }
    }

    /// Allocates a message slot for sending a request, if one is available.
    pub fn try_allocate_request_token(&mut self) -> (r: Option<RequestToken>)
        requires
            old(self).wf(),
        ensures
            final(self).wf(),
            final(self).spec_messages() == old(self).spec_messages(),
            final(self).spec_pending_requests() == old(self).spec_pending_requests(),
            final(self).spec_pending_responses() == old(self).spec_pending_responses(),
            final(self).spec_cons_available() == old(self).spec_cons_available(),
            final(self).spec_slot_state() == old(self).spec_slot_state(),
            final(self).spec_consumers() == old(self).spec_consumers(),
            final(self).spec_backlog() == old(self).spec_backlog(),
            match r {
                Some(t) => {
                    &&& is_first(old(self).spec_msg_available(), t@ as int)
                    &&& final(self).spec_msg_available() == old(self).spec_msg_available().update(
                        t@ as int,
                        false,
                    )
                },
                None => {
                    &&& none_set(old(self).spec_msg_available())
                    &&& final(self).spec_msg_available() == old(self).spec_msg_available()
                },
            },
    {
        match self.allocate_msg_slot(None) {
            Some(s) => Some(RequestToken::new(s)),
            None => None,
        }
    }

    /// Allocates a consumer slot, if one is available.
    pub fn try_allocate_consumer_token(&mut self) -> (r: Option<ConsumerToken>)
        requires
            old(self).wf(),
        ensures
            final(self).wf(),
            match r {
                Some(t) => {
                    &&& is_first(old(self).spec_cons_available(), t@ as int)
                    &&& final(self).spec_cons_available() == old(self).spec_cons_available().update(
                        t@ as int,
                        false,
                    )
                },
                None => {
                    &&& none_set(old(self).spec_cons_available())
                    &&& final(self).spec_cons_available() == old(self).spec_cons_available()
                },
            },
            final(self).spec_messages() == old(self).spec_messages(),
            final(self).spec_pending_requests() == old(self).spec_pending_requests(),
            final(self).spec_pending_responses() == old(self).spec_pending_responses(),
            final(self).spec_msg_available() == old(self).spec_msg_available(),
            final(self).spec_slot_state() == old(self).spec_slot_state(),
            final(self).spec_consumers() == old(self).spec_consumers(),
            final(self).spec_backlog() == old(self).spec_backlog(),
    {
        match self.allocate_cons_slot() {
            Some(c) => Some(ConsumerToken::new(c)),
            None => None,
        }
    }

    /// Releases a consumer slot.
    pub fn release_consumer_token(&mut self, consumer_token: ConsumerToken)
        requires
            old(self).wf(),
            consumer_token@ < CONSUMERS,
            !old(self).spec_cons_available()[consumer_token@ as int],
        ensures
            final(self).wf(),
            final(self).spec_cons_available() == old(self).spec_cons_available().update(
                consumer_token@ as int,
                true,
            ),
            final(self).spec_messages() == old(self).spec_messages(),
            final(self).spec_pending_requests() == old(self).spec_pending_requests(),
            final(self).spec_pending_responses() == old(self).spec_pending_responses(),
            final(self).spec_msg_available() == old(self).spec_msg_available(),
            final(self).spec_slot_state() == old(self).spec_slot_state(),
            final(self).spec_consumers() == old(self).spec_consumers(),
            final(self).spec_backlog() == old(self).spec_backlog(),
    {
        self.release_cons_slot(consumer_token.consume());
    }
}

impl<
    Address,
    Request: HasAddress<Address>,
    Response,
    const MESSAGES: usize,
    const BACKLOG: usize,
    const CONSUMERS: usize,
> State<Address, Request, Response, MESSAGES, BACKLOG, CONSUMERS> {
    /// Stores the request in its allocated slot, makes it pending, and takes
    /// out the first waiting consumer whose address the request matches,
    /// handing out its waker to wake.
    ///
    /// Which consumers match is up to the request's [`HasAddress`] impl; the
    /// outcome is that of [`Self::send_with_matches`] for some such answers.
    pub fn send(&mut self, msg_slot: MsgSlot, request: Request) -> (wake: Option<WakerId>)
        requires
            old(self).wf(),
            msg_slot < MESSAGES,
            !old(self).spec_msg_available()[msg_slot as int],
            old(self).spec_messages()[msg_slot as int] is None,
        ensures
            final(self).wf(),
            Self::stored_request(*old(self), msg_slot, request, *final(self)),
            exists|m: Seq<bool>|
                m.len() == CONSUMERS && #[trigger] woke_first_match(
                    old(self).spec_consumers(),
                    m,
                    final(self).spec_consumers(),
                    wake,
                ),
            final(self).spec_pending_responses() == old(self).spec_pending_responses(),
            final(self).spec_msg_available() == old(self).spec_msg_available(),
            final(self).spec_cons_available() == old(self).spec_cons_available(),
            final(self).spec_slot_state() == old(self).spec_slot_state(),
            final(self).spec_backlog() == old(self).spec_backlog(),
    {
        proof {
            self.lemma_wf_sizes();
        }
        let mut matches: Vec<bool> = Vec::new();
        let mut found = false;
        let mut i: usize = 0;
        while i < self.consumers.len()
            invariant
                i <= self.spec_consumers().len(),
                matches@.len() == i,
            decreases self.spec_consumers().len() - i,
        {
            let m = if found {
                false
            } else {
                match &self.consumers[i] {
                    Some((address, _)) => request.matches(address),
                    None => false,
                }
            };
            if m {
                found = true;
            }
            matches.push(m);
            i = i + 1;
        }
        let wake = self.send_with_matches(msg_slot, request, &matches);
        assert(woke_first_match(old(self).spec_consumers(), matches@, self.spec_consumers(), wake));
        wake
    }

    /// Takes out the oldest pending request that matches the given address,
    /// with its slot; the slot is then receiving and no longer pending.
    ///
    /// Which requests match is up to their [`HasAddress`] impl; the outcome is
    /// that of [`Self::try_receive_with_matches`] for some such answers.
    pub fn try_receive(&mut self, address: &Address) -> (r: Option<(MsgSlot, Request)>)
        requires
            old(self).wf(),
        ensures
            final(self).wf(),
            exists|m: Seq<bool>|
                m.len() == old(self).spec_pending_requests().len() && #[trigger] Self::took_first_match(
                    *old(self),
                    m,
                    *final(self),
                    r,
                ),
    {
        let mut matches: Vec<bool> = Vec::new();
        let mut found = false;
        let mut i: usize = 0;
        while i < self.pending_requests.len()
            invariant
                self.wf(),
                i <= self.spec_pending_requests().len(),
                matches@.len() == i,
            decreases self.spec_pending_requests().len() - i,
        {
            let m = if found {
                false
            } else {
                let s = self.pending_requests[i];
                proof {
                    assert(self.holds_request(s as int));
                }
                match &self.messages[s as usize] {
                    Some(Message::Request(request)) => request.matches(address),
                    _ => {
                        proof {
                            assert(false);
                        }
                        false
                    },
                }
            };
            if m {
                found = true;
            }
            matches.push(m);
            i = i + 1;
        }
        let r = self.try_receive_with_matches(&matches);
        assert(Self::took_first_match(*old(self), matches@, *self, r));
        r
    }

    /// Sends a request over an allocated message slot, recording what the
    /// sender expects back (`expects` is a request-sent state), and hands out
    /// the waker of the first waiting consumer that the request matches.
    ///
    /// The outcome is that of [`Self::send_request_with_matches`] for some
    /// answers of the request's [`HasAddress`] impl.
    pub fn send_request(&mut self, request_token: RequestToken, request: Request, expects: SlotState) -> (wake:
        Option<WakerId>)
        requires
            old(self).wf(),
            request_token@ < MESSAGES,
            !old(self).spec_msg_available()[request_token@ as int],
            old(self).spec_messages()[request_token@ as int] is None,
            Self::is_request_sent(expects),
        ensures
            final(self).wf(),
            final(self).spec_slot_state() == old(self).spec_slot_state().update(
                request_token@ as int,
                expects,
            ),
            Self::stored_request(*old(self), request_token@, request, *final(self)),
            exists|m: Seq<bool>|
                m.len() == CONSUMERS && #[trigger] woke_first_match(
                    old(self).spec_consumers(),
                    m,
                    final(self).spec_consumers(),
                    wake,
                ),
            final(self).spec_pending_responses() == old(self).spec_pending_responses(),
            final(self).spec_msg_available() == old(self).spec_msg_available(),
            final(self).spec_cons_available() == old(self).spec_cons_available(),
            final(self).spec_backlog() == old(self).spec_backlog(),
    {
        let msg_slot = request_token.consume();
        self.slot_state.set(msg_slot as usize, expects);
        let ghost sent = *self;
        let wake = self.send(msg_slot, request);
        proof {
            let m = choose|m: Seq<bool>|
                m.len() == CONSUMERS && #[trigger] woke_first_match(
                    sent.spec_consumers(),
                    m,
                    self.spec_consumers(),
                    wake,
                );
            assert(woke_first_match(old(self).spec_consumers(), m, self.spec_consumers(), wake));
        }
        wake
    }

    /// Takes out the oldest pending request that matches the given address,
    /// with a token for its slot, which is then receiving.
    pub fn try_receive_request(&mut self, address: &Address) -> (r: Option<(ResponseToken, Request)>)
        requires
            old(self).wf(),
        ensures
            final(self).wf(),
            exists|m: Seq<bool>|
                m.len() == old(self).spec_pending_requests().len() && #[trigger] Self::took_first_match(
                    *old(self),
                    m,
                    *final(self),
                    Self::with_slot(r),
                ),
    {
        match self.try_receive(address) {
            Some((msg_slot, request)) => Some((ResponseToken::new(msg_slot), request)),
            None => None,
        }
    }
}

impl<
    Address: Clone,
    Request: HasAddress<Address>,
    Response,
    const MESSAGES: usize,
    const BACKLOG: usize,
    const CONSUMERS: usize,
> State<Address, Request, Response, MESSAGES, BACKLOG, CONSUMERS> {
    /// Polls, on behalf of the consumer holding the token, for the oldest
    /// pending request that matches the given address: takes it out with a
    /// token for its slot, which is then receiving (`Some`, ready). Where
    /// none matches (`None`, pending), the consumer waits: its address and
    /// waker are kept unless it already waits.
    pub fn poll_wait_for_request(
        &mut self,
        consumer_token: &ConsumerToken,
        address: &Address,
        waker: WakerId,
    ) -> (r: Option<(ResponseToken, Request)>)
        requires
            old(self).wf(),
            consumer_token@ < CONSUMERS,
        ensures
            final(self).wf(),
            match r {
                Some(_) => exists|m: Seq<bool>|
                    m.len() == old(self).spec_pending_requests().len()
                        && #[trigger] Self::took_first_match(
                        *old(self),
                        m,
                        *final(self),
                        Self::with_slot(r),
                    ),
                None => {
                    let c = consumer_token@ as int;
                    &&& final(self).spec_messages() == old(self).spec_messages()
                    &&& final(self).spec_pending_requests() == old(self).spec_pending_requests()
                    &&& final(self).spec_pending_responses() == old(
                        self,
                    ).spec_pending_responses()
                    &&& final(self).spec_msg_available() == old(self).spec_msg_available()
                    &&& final(self).spec_cons_available() == old(self).spec_cons_available()
                    &&& final(self).spec_slot_state() == old(self).spec_slot_state()
                    &&& final(self).spec_backlog() == old(self).spec_backlog()
                    &&& old(self).spec_consumers()[c] is Some ==> final(self).spec_consumers()
                        == old(self).spec_consumers()
                    &&& old(self).spec_consumers()[c] is None ==> {
                        &&& final(self).spec_consumers()[c] matches Some((a, w)) && w == waker
                            && cloned(*address, a)
                        &&& final(self).spec_consumers() == old(self).spec_consumers().update(
                            c,
                            final(self).spec_consumers()[c],
                        )
                    }
                },
            },
    {
        match self.try_receive_request(address) {
            Some(received) => Some(received),
            None => {
                let c = consumer_token.consumer_slot() as usize;
                proof {
                    self.lemma_wf_sizes();
                }
                let waiting = match &self.consumers[c] {
                    Some(_) => true,
                    None => false,
                };
                if !waiting {
                    self.consumers.set(c, Some((address.clone(), waker)));
                }
                None
            },
        }
    }
}

/// An allocated slot is exclusive: once the first available slot is taken,
/// it is no longer available, and no later allocation hands it out again
/// until it is released.
pub proof fn law_allocated_slot_exclusive(available: Seq<bool>, s: int)
    requires
        is_first(available, s),
    ensures
        !available.update(s, false)[s],
        forall|t: int| is_first(available.update(s, false), t) ==> t != s,
{
}

/// Senders waiting for a slot are woken in the order they started waiting: a
/// sender that joins the backlog is woken after all that were waiting
/// before it.
pub proof fn law_backlog_first_come_first_served(backlog: Seq<WakerId>, waker: WakerId)
    ensures
        backlog.len() == 0 ==> backlog_wake(backlog_push(backlog, waker)) == (
            Some(waker),
            Seq::<WakerId>::empty(),
        ),
        backlog.len() > 0 ==> backlog_wake(backlog_push(backlog, waker)) == (
            Some(backlog.last()),
            backlog_push(backlog.drop_last(), waker),
        ),
{
    if backlog.len() > 0 {
        assert(backlog_push(backlog, waker).drop_last() =~= backlog_push(backlog.drop_last(), waker));
    } else {
        assert(backlog_push(backlog, waker).drop_last() =~= Seq::<WakerId>::empty());
    }
}

impl<
    Address,
    Request,
    Response,
    const MESSAGES: usize,
    const BACKLOG: usize,
    const CONSUMERS: usize,
> State<Address, Request, Response, MESSAGES, BACKLOG, CONSUMERS> {
    /// A sent request is what a consumer receives next, with its slot, where
    /// the consumer's address matches it and none of the requests that were
    /// pending before.
    pub proof fn law_request_round_trip(
        s0: Self,
        msg_slot: MsgSlot,
        request: Request,
        s1: Self,
        matches: Seq<bool>,
        s2: Self,
        r: Option<(MsgSlot, Request)>,
    )
        requires
            s0.wf(),
            msg_slot < MESSAGES,
            Self::stored_request(s0, msg_slot, request, s1),
            matches.len() == s1.spec_pending_requests().len(),
            matches.last(),
            forall|i: int| 0 <= i < matches.len() - 1 ==> !matches[i],
            Self::took_first_match(s1, matches, s2, r),
        ensures
            r == Some((msg_slot, request)),
            s2.spec_pending_requests() == s0.spec_pending_requests(),
    {
        let n = s0.spec_pending_requests().len() as int;
        assert(is_first(matches, n));
        assert(!none_set(matches));
        if let Some((t, req)) = r {
            let k = choose|k: int|
                {
                    &&& is_first(matches, k)
                    &&& #[trigger] s1.spec_pending_requests()[k] == t
                    &&& s1.spec_messages()[t as int] == Some(
                        Message::<Request, Response>::Request(req),
                    )
                    &&& s2.spec_messages() == s1.spec_messages().update(t as int, None)
                    &&& s2.spec_pending_requests() == s1.spec_pending_requests().remove(k)
                };
            assert(k == n);
            assert(t == msg_slot);
            assert(s1.spec_messages()[msg_slot as int] == Some(
                Message::<Request, Response>::Request(request),
            ));
            assert(s1.spec_pending_requests().remove(n) =~= s0.spec_pending_requests());
        }
    }

    /// A response returned for a request whose sender awaits it is what that
    /// sender takes from the slot; the slot is then unused and available.
    pub proof fn law_response_round_trip(
        s0: Self,
        msg_slot: MsgSlot,
        response: Response,
        s1: Self,
        wake: Option<WakerId>,
        s2: Self,
        r: (Option<Response>, Option<WakerId>),
    )
        requires
            s0.wf(),
            msg_slot < MESSAGES,
            s0.spec_slot_state()[msg_slot as int] is RequestAwaitingResponse,
            Self::delivered_response(s0, msg_slot, response, s1, wake),
            Self::took_response(s1, msg_slot, s2, r),
        ensures
            r.0 == Some(response),
            s2.spec_slot_state()[msg_slot as int] == SlotState::Unused,
            s2.spec_msg_available()[msg_slot as int],
            s2.spec_messages()[msg_slot as int] is None,
    {
    }

    /// A response returned for a request whose sender polls for it is what
    /// that sender finds when it next polls with the slot among its slots,
    /// where none of its other slots had a response pending; it learns the
    /// slot's index among its slots.
    pub proof fn law_polled_response_round_trip(
        s0: Self,
        msg_slot: MsgSlot,
        response: Response,
        s1: Self,
        wake: Option<WakerId>,
        msg_slots: Seq<u8>,
        s2: Self,
        r: (Option<(usize, Response)>, Option<WakerId>),
    )
        requires
            s0.wf(),
            msg_slot < MESSAGES,
            s0.spec_slot_state()[msg_slot as int] is RequestPollingResponse,
            Self::delivered_response(s0, msg_slot, response, s1, wake),
            msg_slots.contains(msg_slot),
            forall|i: int|
                0 <= i < s0.spec_pending_responses().len() ==> !msg_slots.contains(
                    #[trigger] s0.spec_pending_responses()[i],
                ),
            Self::polled_response(s1, msg_slots, s2, r),
        ensures
            r.0 matches Some((j, got)) && got == response && is_first(
                Self::positions(msg_slots, msg_slot),
                j as int,
            ),
            s2.spec_pending_responses() == s0.spec_pending_responses(),
    {
        let n = s0.spec_pending_responses().len() as int;
        let flags = Self::polled(s1.spec_pending_responses(), msg_slots);
        assert(flags[n]);
        assert(is_first(flags, n));
        if let Some((j, got)) = r.0 {
            let i = choose|i: int|
                {
                    let s = #[trigger] s1.spec_pending_responses()[i];
                    &&& is_first(flags, i)
                    &&& is_first(Self::positions(msg_slots, s), j as int)
                    &&& s1.spec_messages()[s as int] == Some(
                        Message::<Request, Response>::Response(got),
                    )
                    &&& s2.spec_pending_responses() == s1.spec_pending_responses().remove(i)
                };
            assert(i == n);
            assert(s1.spec_messages()[msg_slot as int] == Some(
                Message::<Request, Response>::Response(response),
            ));
            assert(s1.spec_pending_responses().remove(n) =~= s0.spec_pending_responses());
        }
    }

    /// A pending request is received at most once: once a consumer took it,
    /// its slot is no longer pending and holds no request.
    pub proof fn law_request_received_once(
        before: Self,
        matches: Seq<bool>,
        after: Self,
        r: Option<(MsgSlot, Request)>,
    )
        requires
            before.wf(),
            matches.len() == before.spec_pending_requests().len(),
            Self::took_first_match(before, matches, after, r),
            r is Some,
        ensures
            !after.spec_pending_requests().contains((r->0).0),
            after.spec_messages()[(r->0).0 as int] is None,
    {
        if let Some((s, request)) = r {
            let k = choose|k: int|
                {
                    &&& is_first(matches, k)
                    &&& #[trigger] before.spec_pending_requests()[k] == s
                    &&& before.spec_messages()[s as int] == Some(
                        Message::<Request, Response>::Request(request),
                    )
                    &&& after.spec_messages() == before.spec_messages().update(s as int, None)
                    &&& after.spec_pending_requests() == before.spec_pending_requests().remove(k)
                };
            let p = before.spec_pending_requests();
            assert(k < p.len());
            assert forall|i: int| 0 <= i < after.spec_pending_requests().len() implies after.spec_pending_requests()[i]
                != s by {
                let j = if i < k { i } else { i + 1 };
                assert(p[j] == after.spec_pending_requests()[i]);
                assert(j != k);
            }
        }
    }

    /// Reception occurs in the order that requests became pending: a
    /// consumer that every request matches receives the oldest pending
    /// request, and receives one whenever any is pending.
    pub proof fn law_reception_in_pending_order(
        before: Self,
        after: Self,
        r: Option<(MsgSlot, Request)>,
    )
        requires
            Self::took_first_match(
                before,
                Seq::new(before.spec_pending_requests().len(), |i: int| true),
                after,
                r,
            ),
        ensures
            r is Some <==> before.spec_pending_requests().len() > 0,
            r matches Some((s, _)) ==> s == before.spec_pending_requests()[0],
            r is Some ==> after.spec_pending_requests() == before.spec_pending_requests().drop_first(),
    {
        let all = Seq::new(before.spec_pending_requests().len(), |i: int| true);
        if before.spec_pending_requests().len() > 0 {
            assert(all[0]);
            if let Some((s, request)) = r {
                let k = choose|k: int|
                    {
                        &&& is_first(all, k)
                        &&& #[trigger] before.spec_pending_requests()[k] == s
                        &&& before.spec_messages()[s as int] == Some(
                            Message::<Request, Response>::Request(request),
                        )
                        &&& after.spec_messages() == before.spec_messages().update(s as int, None)
                        &&& after.spec_pending_requests() == before.spec_pending_requests().remove(k)
                    };
                assert(k == 0);
                assert(before.spec_pending_requests().remove(0) =~= before.spec_pending_requests().drop_first());
            }
        }
    }
}

} // verus!
