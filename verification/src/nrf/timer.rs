//! Decisions of the nRF radio timer, which extends the 24-bit RTC counter
//! ticking at 32768 Hz to a 64-bit timestamp and keeps one pending and one
//! next alarm.
//!
//! The counter overflows every ~8 minutes. A "period" is 2^23 ticks, half an
//! overflow cycle: the period count is incremented on overflow (counter 0)
//! and midway (counter 0x80_0000), so that an even period has the counter in
//! 0..0x7f_ffff and an odd period in 0x80_0000..0xff_ffff. Reading the period
//! first and the counter second then yields the right time even when a new
//! period starts between the two reads.

use vstd::prelude::*;

verus! {

/// The radio timer of nRF SoCs: the 32768 Hz real-time counter.
#[derive(Clone, Copy, Debug, PartialEq, PartialOrd, Eq, Ord)]
pub struct NrfRadioTimer;

impl crate::time::Frequency for NrfRadioTimer {
    open spec fn spec_frequency() -> u32 {
        RTC_FREQUENCY
    }

    fn frequency() -> (f: u32) {
        RTC_FREQUENCY
    }

    proof fn lemma_positive() {
    }
}

/// Ticks per period.
pub const PERIOD_TICKS: u64 = 0x80_0000;

/// The frequency of the radio timer in Hertz.
pub const RTC_FREQUENCY: u32 = 32_768;

/// The timestamp of a period count and a counter value.
pub open spec fn spec_calc_now(period: u32, counter: u32) -> u64 {
    (((period as u64) << 23u64) + ((counter ^ ((period & 1u32) << 23u32)) as u64)) as u64
}

/// Calculate the timestamp from the period count and the tick count.
pub fn calc_now(period: u32, counter: u32) -> (now: u64)
    ensures
        now == spec_calc_now(period, counter),
        now == period * PERIOD_TICKS + (counter ^ ((period & 1u32) << 23u32)),
{
    proof {
        assert(((period as u64) << 23u64) == (period as u64) * 0x80_0000u64) by (bit_vector);
    }
    ((period as u64) << 23u64) + ((counter ^ ((period & 1u32) << 23u32)) as u64)
}

/// The period count of a timestamp within an overflow cycle: twice the
/// overflows, plus one in the upper half of the counter range.
pub open spec fn period_of(overflows: u32, counter: u32) -> u32 {
    (2 * overflows + if counter >= 0x80_0000 { 1int } else { 0int }) as u32
}

/// Reading the period count and then the counter yields the true time, the
/// overflows times 2^24 plus the counter, when the counter lies in the
/// period's half of the counter range.
pub proof fn law_calc_now_in_period(overflows: u32, counter: u32)
    requires
        counter < 0x100_0000,
        overflows < 0x8000_0000,
    ensures
        spec_calc_now(period_of(overflows, counter), counter) == overflows * 0x100_0000 + counter,
{
    let p = period_of(overflows, counter);
    assert(p == 2 * overflows + if counter >= 0x80_0000 { 1int } else { 0int });
    assert(counter < 0x100_0000 && p == 2 * overflows + (if counter >= 0x80_0000 {
        1u32
    } else {
        0u32
    }) && overflows < 0x8000_0000 ==> spec_calc_now(p, counter) == (overflows as u64) * 0x100_0000u64
        + counter as u64) by (bit_vector);
}

/// When a new period starts between reading the period count and reading
/// the counter, the counter lies in the next period's half of the counter
/// range, and the timestamp is that of the next period.
pub proof fn law_calc_now_raced(period: u32, counter: u32)
    requires
        counter < 0x100_0000,
        period < u32::MAX,
        (period % 2 == 0) == (counter >= 0x80_0000),
    ensures
        spec_calc_now(period, counter) == spec_calc_now((period + 1) as u32, counter),
{
    assert((period & 1u32 == 0u32) == (period % 2 == 0)) by (bit_vector);
    assert(counter < 0x100_0000 && period < 0xffff_ffff && ((period & 1 == 0) == (counter
        >= 0x80_0000)) ==> spec_calc_now(period, counter) == spec_calc_now(
        (period + 1) as u32,
        counter,
    )) by (bit_vector);
}

/// An alarm slot holding no alarm.
pub const OFF: u64 = 0xffff_ffff_ffff_ffff;

/// The pending alarm, the alarm scheduled after it, and the last alarm that
/// fired and was not yet collected; each [`OFF`] when empty.
#[derive(Debug, PartialEq, Eq, Clone, Copy)]
pub struct Alarms {
    pub pending: u64,
    pub next: u64,
    pub fired: u64,
}

impl Alarms {
    /// No alarms.
    pub fn new() -> (a: Self)
        ensures
            a == (Alarms { pending: OFF, next: OFF, fired: OFF }),
    {
        Alarms { pending: OFF, next: OFF, fired: OFF }
    }

    /// The pending alarm.
    pub fn get_pending(&self) -> (p: u64)
        ensures
            p == self.pending,
    {
        self.pending
    }

    /// Schedules the next alarm: it becomes the pending alarm when there is
    /// none, otherwise the next alarm, which must be empty.
    ///
    /// Returns true if the pending alarm must be programmed into the
    /// peripheral.
    pub fn schedule(&mut self, timestamp: u64) -> (program: bool)
        requires
            old(self).pending != OFF ==> old(self).next == OFF,
        ensures
            program == (old(self).pending == OFF),
            program ==> *final(self) == (Alarms { pending: timestamp, ..*old(self) }),
            !program ==> *final(self) == (Alarms { next: timestamp, ..*old(self) }),
    {
        if self.pending == OFF {
            self.pending = timestamp;
            true
        } else {
            self.next = timestamp;
            false
        }
    }

    /// Fires the pending alarm: it becomes the fired alarm (overwriting one
    /// that was missed), and the next alarm becomes pending.
    ///
    /// Returns the new pending alarm.
    pub fn fire_pending_and_get_next(&mut self) -> (next: u64)
        ensures
            next == old(self).next,
            *final(self) == (Alarms { pending: old(self).next, next: OFF, fired: old(self).pending }),
    {
        let next = self.next;
        self.next = OFF;
        let fired = self.pending;
        self.pending = next;
        self.fired = fired;
        next
    }

    /// Whether firing the pending alarm would overwrite a fired alarm that
    /// was not collected, i.e. a timer event would be missed.
    pub fn would_miss(&self) -> (missed: bool)
        ensures
            missed == (self.fired != OFF),
    {
        self.fired != OFF
    }

    /// Collects the fired alarm, leaving none.
    pub fn get_and_clear_fired(&mut self) -> (fired: u64)
        ensures
            fired == old(self).fired,
            *final(self) == (Alarms { fired: OFF, ..*old(self) }),
    {
        let fired = self.fired;
        self.fired = OFF;
        fired
    }
}

/// Two alarms scheduled on an empty timer fire in the order scheduled: the
/// first is programmed and pending, the second waits; firing reports the
/// first as fired and makes the second pending; firing again reports the
/// second.
pub proof fn law_alarms_fire_in_order(first: u64, second: u64)
    ensures
        ({
            let a0 = Alarms { pending: OFF, next: OFF, fired: OFF };
            let a1 = Alarms { pending: first, ..a0 };
            let a2 = Alarms { next: second, ..a1 };
            let a3 = Alarms { pending: a2.next, next: OFF, fired: a2.pending };
            let a4 = Alarms { fired: OFF, ..a3 };
            let a5 = Alarms { pending: a4.next, next: OFF, fired: a4.pending };
            &&& a3.fired == first
            &&& a3.pending == second
            &&& a5.fired == second
            &&& a5.pending == OFF
        }),
{
}

/// Compare interrupt for the pending alarm: whether the pending alarm falls
/// within 0xc0_0000 ticks of the start of the next period.
pub open spec fn alarm_due_in_period(pending: u64, next_period: u32) -> bool {
    pending < next_period * PERIOD_TICKS + 0xc0_0000
}

/// At the start of a new period: the incremented period count, and whether
/// to enable the compare interrupt because the pending alarm is close
/// enough for the 24-bit compare register.
pub fn next_period(period: u32, alarms: &Alarms) -> (r: (u32, bool))
    requires
        period < u32::MAX,
    ensures
        r.0 == period + 1,
        r.1 == alarm_due_in_period(alarms.pending, r.0),
{
    let next_period = period + 1;
    proof {
        assert(((next_period as u64) << 23u64) == (next_period as u64) * 0x80_0000u64) by (
        bit_vector);
    }
    let next_period_mask = (next_period as u64) << 23u64;
    let enable = alarms.get_pending() < next_period_mask + 0xc00000;
    (next_period, enable)
}

/// How to program an alarm into the compare register.
#[derive(Debug, PartialEq, Eq, Clone, Copy)]
pub enum AlarmProgram {
    /// The alarm time has passed: disarm the compare interrupt; the alarm is
    /// overdue.
    Overdue,
    /// Write the compare value, and enable the compare interrupt when the
    /// alarm is within 0xc0_0000 ticks (otherwise a later period start
    /// enables it).
    Program { compare: u32, enable: bool },
}

/// Programs an alarm at `timestamp` given the current time `now`.
///
/// Writing N or N+1 to the compare register while the counter is N may not
/// trigger, so the compare value is at least `now + 3`; the alarm never
/// fires early, but may be up to two ticks late.
pub fn program_alarm(timestamp: u64, now: u64) -> (p: AlarmProgram)
    requires
        now + 3 <= u64::MAX,
    ensures
        timestamp <= now ==> p == AlarmProgram::Overdue,
        timestamp > now ==> p == (AlarmProgram::Program {
            compare: ((if timestamp >= now + 3 { timestamp } else { (now + 3) as u64 }) % 0x100_0000)
                as u32,
            enable: timestamp - now < 0xc0_0000,
        }),
{
    if timestamp <= now {
        return AlarmProgram::Overdue;
    }
    let safe_timestamp = if timestamp >= now + 3 {
        timestamp
    } else {
        now + 3
    };
    proof {
        assert((safe_timestamp as u32) & 0xFFFFFFu32 == safe_timestamp % 0x100_0000) by (bit_vector);
    }
    let compare = (safe_timestamp as u32) & 0xFFFFFF;
    let diff = timestamp - now;
    AlarmProgram::Program { compare, enable: diff < 0xc00000 }
}

/// After enabling the compare interrupt: the alarm is sure to fire when at
/// least two ticks remain; otherwise programming is retried.
pub fn alarm_armed(timestamp: u64, now: u64) -> (armed: bool)
    requires
        now + 2 <= u64::MAX,
    ensures
        armed == (now + 2 <= timestamp),
{
    now + 2 <= timestamp
}

/// Scheduling an alarm: the alarm is recorded; when it became the pending
/// alarm it must be programmed (returns true), and when programming finds it
/// overdue, [`overdue_alarm`] fires it.
pub fn schedule_alarm(alarms: &mut Alarms, at: u64) -> (program: bool)
    requires
        old(alarms).pending != OFF ==> old(alarms).next == OFF,
    ensures
        program == (old(alarms).pending == OFF),
        program ==> *final(alarms) == (Alarms { pending: at, ..*old(alarms) }),
        !program ==> *final(alarms) == (Alarms { next: at, ..*old(alarms) }),
{
    alarms.schedule(at)
}

/// An alarm found overdue while programming is lost: it is fired at once,
/// and clients find it by comparing the fired alarm with the alarms they
/// scheduled.
pub fn overdue_alarm(alarms: &mut Alarms)
    ensures
        *final(alarms) == (Alarms { pending: old(alarms).next, next: OFF, fired: old(alarms).pending }),
{
    alarms.fire_pending_and_get_next();
}

/// The compare interrupt fired: the pending alarm fires and the next alarm,
/// if any, is returned to be programmed.
pub fn trigger_alarm(alarms: &mut Alarms) -> (next: Option<u64>)
    ensures
        *final(alarms) == (Alarms { pending: old(alarms).next, next: OFF, fired: old(alarms).pending }),
        next == (if old(alarms).next == OFF {
            None
        } else {
            Some(old(alarms).next)
        }),
{
    let next = alarms.fire_pending_and_get_next();
    if next != OFF {
        Some(next)
    } else {
        None
    }
}

/// After the alarm fired: with a task waiting, it is woken and collects the
/// fired alarm; without, the fired alarm is discarded.
pub fn finish_trigger(alarms: &mut Alarms, waiting: bool) -> (wake: bool)
    ensures
        wake == waiting,
        waiting ==> *final(alarms) == *old(alarms),
        !waiting ==> *final(alarms) == (Alarms { fired: OFF, ..*old(alarms) }),
{
    if !waiting {
        alarms.get_and_clear_fired();
    }
    waiting
}

/// Polling for a fired alarm: the collected alarm, or `None` while none has
/// fired.
pub fn poll_fired_alarm(alarms: &mut Alarms) -> (fired: Option<u64>)
    ensures
        *final(alarms) == (Alarms { fired: OFF, ..*old(alarms) }),
        fired == (if old(alarms).fired == OFF {
            None
        } else {
            Some(old(alarms).fired)
        }),
{
    let fired = alarms.get_and_clear_fired();
    if fired == OFF {
        None
    } else {
        Some(fired)
    }
}

} // verus!
