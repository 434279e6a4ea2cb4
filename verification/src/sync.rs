//! Synchronization primitives: channel tokens that stand for allocated
//! message and consumer slots, and a runtime-independent mutex.

use vstd::prelude::*;

verus! {

/// A message slot of a channel.
pub type MsgSlot = u8;

/// A consumer slot of a channel.
pub type ConsSlot = u8;

/// A token representing a message slot allocated for sending a request:
/// produced by allocating a slot and consumed by sending a request across the
/// channel. Guarantees bandwidth on the channel for a single request.
#[derive(Debug, PartialEq, Eq)]
pub struct RequestToken(MsgSlot);

impl View for RequestToken {
    type V = u8;

    closed spec fn view(&self) -> u8 {
        self.0
    }
}

impl RequestToken {
    /// Creates a new request token.
    pub fn new(msg_slot: MsgSlot) -> (t: Self)
        ensures
            t@ == msg_slot,
    {
        RequestToken(msg_slot)
    }

    /// Consume the token.
    pub fn consume(self) -> (s: MsgSlot)
        ensures
            s == self@,
    {
        self.0
    }

    /// Returns an opaque number representing the message slot allocated for
    /// the request.
    pub fn message_slot(&self) -> (s: MsgSlot)
        ensures
            s == self@,
    {
        self.0
    }
}

/// A token representing a message slot allocated for receiving a response:
/// produced by sending a polling request and consumed by receiving the
/// corresponding response across the channel.
#[derive(Debug, PartialEq, Eq)]
pub struct PollingResponseToken(MsgSlot);

impl View for PollingResponseToken {
    type V = u8;

    closed spec fn view(&self) -> u8 {
        self.0
    }
}

impl PollingResponseToken {
    /// Creates a new polling response token.
    pub fn new(msg_slot: MsgSlot) -> (t: Self)
        ensures
            t@ == msg_slot,
    {
        PollingResponseToken(msg_slot)
    }

    /// Consume the token.
    pub fn consume(self) -> (s: MsgSlot)
        ensures
            s == self@,
    {
        self.0
    }

    /// Returns an opaque number representing the message slot allocated for
    /// the response.
    pub fn message_slot(&self) -> (s: MsgSlot)
        ensures
            s == self@,
    {
        self.0
    }
}

/// A token representing a message slot allocated for receiving a request
/// and returning a response: produced by receiving a request and consumed by
/// returning a response across the channel.
#[derive(Debug, PartialEq, Eq)]
pub struct ResponseToken(MsgSlot);

impl View for ResponseToken {
    type V = u8;

    closed spec fn view(&self) -> u8 {
        self.0
    }
}

impl ResponseToken {
    /// Creates a new response token.
    pub fn new(msg_slot: MsgSlot) -> (t: Self)
        ensures
            t@ == msg_slot,
    {
        ResponseToken(msg_slot)
    }

    /// Consume the token.
    pub fn consume(self) -> (s: MsgSlot)
        ensures
            s == self@,
    {
        self.0
    }

    /// Returns an opaque number representing the message slot allocated for
    /// the response.
    pub fn message_slot(&self) -> (s: MsgSlot)
        ensures
            s == self@,
    {
        self.0
    }
}

/// A token representing an allocated consumer slot: must be presented to
/// receive a request from the channel.
#[derive(Debug, PartialEq, Eq)]
pub struct ConsumerToken(ConsSlot);

impl View for ConsumerToken {
    type V = u8;

    closed spec fn view(&self) -> u8 {
        self.0
    }
}

impl ConsumerToken {
    /// Creates a new consumer token.
    pub fn new(cons_slot: ConsSlot) -> (t: Self)
        ensures
            t@ == cons_slot,
    {
        ConsumerToken(cons_slot)
    }

    /// Consume the token.
    pub fn consume(self) -> (s: ConsSlot)
        ensures
            s == self@,
    {
        self.0
    }

    /// Returns the consumer slot represented by this token.
    pub fn consumer_slot(&self) -> (s: ConsSlot)
        ensures
            s == self@,
    {
        self.0
    }
}

/// An identifier of a task's waker.
pub type WakerId = u64;

/// Lock state of a mutex: whether it is locked, and the waker of the task
/// waiting for it.
#[derive(Debug, PartialEq, Eq, Clone, Copy)]
pub struct MutexState {
    pub locked: bool,
    pub waker: Option<WakerId>,
}

/// The outcome of polling for the lock.
#[derive(Debug, PartialEq, Eq)]
pub enum LockPoll<T> {
    /// The lock was acquired; the guard holds the protected value.
    Ready(MutexGuard<T>),
    /// The mutex is locked; `wake` is a previously waiting task to wake so
    /// that it can make progress.
    Pending { wake: Option<WakerId> },
}

/// A mutex that synchronizes parts of a single task that run concurrently.
///
/// While the lock is held, its guard holds the protected value; releasing
/// the lock returns the value to the mutex.
#[derive(Debug)]
pub struct Mutex<T> {
    value: Option<T>,
    state: MutexState,
}

/// Exclusive access to the value of a mutex, until released.
#[derive(Debug, PartialEq, Eq)]
pub struct MutexGuard<T> {
    value: T,
}

impl<T> MutexGuard<T> {
    /// The protected value.
    pub closed spec fn spec_value(&self) -> T {
        self.value
    }
}

impl<T> core::ops::Deref for MutexGuard<T> {
    type Target = T;

    fn deref(&self) -> (v: &T)
        ensures
            *v == self.spec_value(),
    {
        &self.value
    }
}

impl<T> core::ops::DerefMut for MutexGuard<T> {
    fn deref_mut(&mut self) -> (v: &mut T)
        ensures
            *v == old(self).spec_value(),
            final(self).spec_value() == *final(v),
    {
        &mut self.value
    }
}

impl<T> Mutex<T> {
    /// The protected value, while no guard holds it.
    pub closed spec fn spec_value(&self) -> Option<T> {
        self.value
    }

    /// The lock state.
    pub closed spec fn spec_state(&self) -> MutexState {
        self.state
    }

    /// The mutex holds its value exactly while it is unlocked.
    pub open spec fn wf(&self) -> bool {
        self.spec_state().locked <==> self.spec_value() is None
    }

    /// An unlocked mutex with the given value.
    pub fn new(value: T) -> (m: Self)
        ensures
            m.wf(),
            m.spec_value() == Some(value),
            m.spec_state() == unlocked_state(),
    {
        Mutex { value: Some(value), state: MutexState { locked: false, waker: None } }
    }

    /// Takes the value out for a guard and locks.
    fn acquire(&mut self) -> (g: MutexGuard<T>)
        requires
            old(self).wf(),
            lock_available(old(self).spec_state()),
        ensures
            final(self).wf(),
            Some(g.spec_value()) == old(self).spec_value(),
            final(self).spec_value() is None,
            final(self).spec_state() == locked_state(old(self).spec_state()),
    {
        self.state.locked = true;
        match self.value.take() {
            Some(value) => MutexGuard { value },
            None => unreached(),
        }
    }

    /// Acquires the lock unless it is held; the guard holds the value.
    pub fn try_lock(&mut self) -> (g: Option<MutexGuard<T>>)
        requires
            old(self).wf(),
        ensures
            final(self).wf(),
            match g {
                Some(guard) => {
                    &&& lock_available(old(self).spec_state())
                    &&& Some(guard.spec_value()) == old(self).spec_value()
                    &&& final(self).spec_value() is None
                    &&& final(self).spec_state() == locked_state(old(self).spec_state())
                },
                None => {
                    &&& !lock_available(old(self).spec_state())
                    &&& final(self).spec_value() == old(self).spec_value()
                    &&& final(self).spec_state() == old(self).spec_state()
                },
            },
    {
        if !self.state.locked {
            Some(self.acquire())
        } else {
            None
        }
    }

    /// Polls for the lock on behalf of the task with the given waker; `same`
    /// tells whether a stored waker wakes the same task.
    ///
    /// An unlocked mutex is locked and its value handed to the guard. A
    /// locked mutex keeps the polling task's waker; a different task that was
    /// waiting is woken so that it does not wait forever.
    pub fn poll_lock(&mut self, waker: WakerId, same: bool) -> (p: LockPoll<T>)
        requires
            old(self).wf(),
        ensures
            final(self).wf(),
            lock_available(old(self).spec_state()) ==> (p matches LockPoll::Ready(guard) && Some(
                guard.spec_value(),
            ) == old(self).spec_value() && final(self).spec_value() is None
                && final(self).spec_state() == locked_state(old(self).spec_state())),
            !lock_available(old(self).spec_state()) ==> final(self).spec_value() == old(
                self,
            ).spec_value() && final(self).spec_state() == (MutexState {
                locked: true,
                waker: Some(waker),
            }) && p == (LockPoll::<T>::Pending {
                wake: match old(self).spec_state().waker {
                    Some(w) => if same {
                        None
                    } else {
                        Some(w)
                    },
                    None => None,
                },
            }),
    {
        if !self.state.locked {
            return LockPoll::Ready(self.acquire());
        }
        let wake = match self.state.waker {
            Some(w) => if same {
                None
            } else {
                Some(w)
            },
            None => None,
        };
        self.state.waker = Some(waker);
        LockPoll::Pending { wake }
    }

    /// Releases the lock that the guard holds: the guard's value returns to
    /// the mutex. Returns the waiting task to wake, if any.
    pub fn unlock(&mut self, guard: MutexGuard<T>) -> (wake: Option<WakerId>)
        requires
            old(self).wf(),
            old(self).spec_state().locked,
        ensures
            final(self).wf(),
            wake == old(self).spec_state().waker,
            final(self).spec_state() == unlocked_state(),
            final(self).spec_value() == Some(guard.spec_value()),
    {
        let wake = self.state.waker;
        self.state = MutexState { locked: false, waker: None };
        self.value = Some(guard.value);
        wake
    }

    /// Access to the protected value through exclusive access to the
    /// mutex, while no guard holds it.
    pub fn get_mut(&mut self) -> (v: &mut T)
        requires
            old(self).wf(),
            !old(self).spec_state().locked,
        ensures
            Some(*v) == old(self).spec_value(),
            final(self).spec_value() == Some(*final(v)),
            final(self).spec_state() == old(self).spec_state(),
    {
        match &mut self.value {
            Some(v) => v,
            None => unreached(),
        }
    }
}

/// Whether the lock can be acquired in the given state.
pub open spec fn lock_available(state: MutexState) -> bool {
    !state.locked
}

/// The state after acquiring the lock, or after polling a held one.
pub open spec fn locked_state(state: MutexState) -> MutexState {
    MutexState { locked: true, ..state }
}

/// The state after releasing the lock.
pub open spec fn unlocked_state() -> MutexState {
    MutexState { locked: false, waker: None }
}

/// A lock is exclusive: once acquired, it cannot be acquired again until it
/// is released, and releasing it makes it available again.
pub proof fn law_lock_exclusive(state: MutexState)
    ensures
        !lock_available(locked_state(state)),
        !lock_available(locked_state(locked_state(state))),
        lock_available(unlocked_state()),
{
}

} // verus!
