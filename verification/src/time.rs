//! Time structures.
//!
//! - [`Instant`] is used to represent a point in time.
//! - [`Duration`] is used to represent a duration of time.
//!
//! Both count ticks of a clock whose frequency the type parameter gives.

use core::cmp::Ordering;
use core::marker::PhantomData;

use vstd::prelude::*;
use vstd::std_specs::cmp::PartialOrdSpec;

verus! {

/// A clock frequency in Hertz.
pub trait Frequency {
    /// The frequency in Hertz.
    spec fn spec_frequency() -> u32;

    /// The frequency in Hertz.
    fn frequency() -> (f: u32)
        ensures
            f == Self::spec_frequency(),
            f > 0,
    ;

    /// A frequency is positive.
    proof fn lemma_positive()
        ensures
            Self::spec_frequency() > 0,
    ;
}

/// Millisecond clock.
#[derive(Clone, Copy, Debug, PartialEq, PartialOrd, Eq, Ord)]
pub struct Milliseconds;

impl Frequency for Milliseconds {
    open spec fn spec_frequency() -> u32 {
        1_000
    }

    fn frequency() -> (f: u32) {
        1_000
    }

    proof fn lemma_positive() {
    }
}

/// Microsecond clock.
#[derive(Clone, Copy, Debug, PartialEq, PartialOrd, Eq, Ord)]
pub struct Microseconds;

impl Frequency for Microseconds {
    open spec fn spec_frequency() -> u32 {
        1_000_000
    }

    fn frequency() -> (f: u32) {
        1_000_000
    }

    proof fn lemma_positive() {
    }
}

/// Nanosecond clock.
#[derive(Clone, Copy, Debug, PartialEq, PartialOrd, Eq, Ord)]
pub struct Nanoseconds;

impl Frequency for Nanoseconds {
    open spec fn spec_frequency() -> u32 {
        1_000_000_000
    }

    fn frequency() -> (f: u32) {
        1_000_000_000
    }

    proof fn lemma_positive() {
    }
}

/// O-QPSK 250 kbit/s symbol clock: one octet is two symbols, so 62.5 ksymbol/s.
#[derive(Clone, Copy, Debug, PartialEq, PartialOrd, Eq, Ord)]
pub struct SymbolsOQpsk250kB;

impl Frequency for SymbolsOQpsk250kB {
    open spec fn spec_frequency() -> u32 {
        62_500
    }

    fn frequency() -> (f: u32) {
        62_500
    }

    proof fn lemma_positive() {
    }
}

/// The frequency in Hertz of a clock.
pub fn timer_frequency<F: Frequency>() -> (f: u32)
    ensures
        f == F::spec_frequency(),
        f > 0,
{
    F::frequency()
}

/// Ticks converted between frequencies, rounded down.
pub open spec fn spec_convert_down(ticks: int, from_frequency: int, to_frequency: int) -> int {
    (ticks * to_frequency) / from_frequency
}

/// Ticks converted between frequencies, rounded up.
pub open spec fn spec_convert_up(ticks: int, from_frequency: int, to_frequency: int) -> int {
    (ticks * to_frequency) / from_frequency + if (ticks * to_frequency) % from_frequency == 0 {
        0int
    } else {
        1int
    }
}

/// Whether converting `ticks` (nonnegative) keeps the scaled value in 64 bits.
pub open spec fn scaled_fits(ticks: int, to_frequency: int) -> bool {
    0 <= ticks * to_frequency <= u64::MAX
}

/// Converts ticks between different frequencies while rounding down.
fn convert_rounding_down(ticks: u64, from_frequency: u32, to_frequency: u32) -> (r: u64)
    requires
        from_frequency > 0,
        ticks * to_frequency <= u64::MAX,
    ensures
        r == spec_convert_down(ticks as int, from_frequency as int, to_frequency as int),
{
    let scaled = ticks * to_frequency as u64;
    scaled / from_frequency as u64
}

/// Converts ticks between different frequencies while rounding up.
fn convert_rounding_up(ticks: u64, from_frequency: u32, to_frequency: u32) -> (r: u64)
    requires
        from_frequency > 0,
        ticks * to_frequency <= u64::MAX,
    ensures
        r == spec_convert_up(ticks as int, from_frequency as int, to_frequency as int),
{
    let scaled = ticks * to_frequency as u64;
    let q = scaled / from_frequency as u64;
    if scaled % from_frequency as u64 == 0 {
        q
    } else {
        proof {
            assert(q * from_frequency <= scaled) by (nonlinear_arith)
                requires
                    q == scaled / from_frequency as u64,
                    from_frequency > 0,
            ;
            assert(q < u64::MAX) by (nonlinear_arith)
                requires
                    q == scaled / from_frequency as u64,
                    from_frequency > 0,
                    scaled <= u64::MAX,
                    scaled % from_frequency as u64 != 0,
            ;
        }
        q + 1
    }
}

/// A point in time, in ticks of a clock with frequency `F`.
#[derive(Debug, PartialEq, Eq, Ord)]
pub struct Instant<F: Frequency> {
    /// Ticks of the clock.
    pub tick: u64,
    /// The clock.
    pub frequency: PhantomData<F>,
}

impl<F: Frequency> View for Instant<F> {
    type V = u64;

    open spec fn view(&self) -> u64 {
        self.tick
    }
}

impl<F: Frequency> Clone for Instant<F> {
    fn clone(&self) -> (i: Self)
        ensures
            i == *self,
    {
        Instant { tick: self.tick, frequency: PhantomData }
    }
}

impl<F: Frequency> Copy for Instant<F> {
}

impl<F: Frequency> Instant<F> {
    /// Create an instant at the given tick.
    pub fn new(tick: u64) -> (i: Self)
        ensures
            i@ == tick,
    {
        Instant { tick, frequency: PhantomData }
    }

    /// The instant that never comes: the last tick.
    pub fn never() -> (i: Self)
        ensures
            i@ == u64::MAX,
    {
        Self::new(u64::MAX)
    }

    /// The frequency of the clock in Hertz.
    pub fn frequency(&self) -> (f: u32)
        ensures
            f == F::spec_frequency(),
    {
        timer_frequency::<F>()
    }

    /// Converts this [`Instant`] into an instant based on a different
    /// frequency.
    ///
    /// This operation rounds down to an oscillator tick of the target
    /// frequency. It is lossy.
    pub fn convert_into_rounding_down<ToFrequency: Frequency>(&self) -> (i: Instant<ToFrequency>)
        requires
            self@ * ToFrequency::spec_frequency() <= u64::MAX,
        ensures
            i@ == spec_convert_down(
                self@ as int,
                F::spec_frequency() as int,
                ToFrequency::spec_frequency() as int,
            ),
    {
        Instant::new(
            convert_rounding_down(self.tick, timer_frequency::<F>(), timer_frequency::<ToFrequency>()),
        )
    }

    /// Converts this [`Instant`] into an instant based on a different
    /// frequency.
    ///
    /// This operation rounds up to an oscillator tick of the target frequency.
    /// It is lossy.
    pub fn convert_into_rounding_up<ToFrequency: Frequency>(&self) -> (i: Instant<ToFrequency>)
        requires
            self@ * ToFrequency::spec_frequency() <= u64::MAX,
        ensures
            i@ == spec_convert_up(
                self@ as int,
                F::spec_frequency() as int,
                ToFrequency::spec_frequency() as int,
            ),
    {
        Instant::new(
            convert_rounding_up(self.tick, timer_frequency::<F>(), timer_frequency::<ToFrequency>()),
        )
    }

    /// The tick of the instant.
    pub fn tick(&self) -> (t: u64)
        ensures
            t == self@,
    {
        self.tick
    }
}

/// A span of time, in ticks of a clock with frequency `F`; negative spans
/// point backwards.
#[derive(Debug, PartialEq, Eq, Ord)]
pub struct Duration<F: Frequency> {
    /// Ticks of the clock.
    pub ticks: i64,
    /// The clock.
    pub frequency: PhantomData<F>,
}

impl<F: Frequency> View for Duration<F> {
    type V = i64;

    open spec fn view(&self) -> i64 {
        self.ticks
    }
}

/// The sign of an integer.
pub open spec fn sign(x: int) -> int {
    if x > 0 {
        1
    } else if x < 0 {
        -1
    } else {
        0
    }
}

/// The magnitude of an integer.
pub open spec fn magnitude(x: int) -> int {
    if x < 0 {
        -x
    } else {
        x
    }
}

/// Integer division rounding towards zero.
pub open spec fn div_towards_zero(a: int, b: int) -> int {
    sign(a) * (magnitude(a) / b)
}

impl<F: Frequency> Clone for Duration<F> {
    fn clone(&self) -> (d: Self)
        ensures
            d == *self,
    {
        Duration { ticks: self.ticks, frequency: PhantomData }
    }
}

impl<F: Frequency> Copy for Duration<F> {
}

impl<F: Frequency> Duration<F> {
    /// Create a duration of the given ticks.
    pub fn new(ticks: i64) -> (d: Self)
        ensures
            d@ == ticks,
    {
        Duration { ticks, frequency: PhantomData }
    }

    /// The empty duration.
    pub fn zero() -> (d: Self)
        ensures
            d@ == 0,
    {
        Self::new(0)
    }

    /// The frequency of the clock in Hertz.
    pub fn frequency(&self) -> (f: u32)
        ensures
            f == F::spec_frequency(),
    {
        timer_frequency::<F>()
    }

    /// Converts this [`Duration`] into the same duration based on a
    /// different frequency.
    ///
    /// This operation rounds oscillator ticks of the target frequency towards
    /// zero. It is lossy.
    pub fn convert_into_rounding_down<ToFrequency: Frequency>(&self) -> (d: Duration<ToFrequency>)
        requires
            self@ > i64::MIN,
            magnitude(self@ as int) * ToFrequency::spec_frequency() <= u64::MAX,
            self@ < 0 ==> spec_convert_down(
                magnitude(self@ as int),
                F::spec_frequency() as int,
                ToFrequency::spec_frequency() as int,
            ) != 0x8000_0000_0000_0000,
        ensures
            ({
                let q = spec_convert_down(
                    magnitude(self@ as int),
                    F::spec_frequency() as int,
                    ToFrequency::spec_frequency() as int,
                );
                &&& d@ == sign(self@ as int) * (q as i64)
                &&& q <= i64::MAX ==> d@ == sign(self@ as int) * q
            }),
    {
        let sign: i64 = if self.ticks > 0 {
            1
        } else if self.ticks < 0 {
            -1
        } else {
            0
        };
        let m = (sign * self.ticks) as u64;
        let c = convert_rounding_down(m, timer_frequency::<F>(), timer_frequency::<ToFrequency>());
        let t = c as i64;
        assert(c != 0x8000_0000_0000_0000u64 ==> t != i64::MIN) by (bit_vector)
            requires
                t == c as i64,
        ;
        assert(c <= i64::MAX ==> t == c) by (bit_vector)
            requires
                t == c as i64,
        ;
        Duration::new(sign * t)
    }

    /// Converts this [`Duration`] into the same duration based on a
    /// different frequency.
    ///
    /// This operation rounds oscillator ticks of the target frequency towards
    /// positive/negative infinity. It is lossy.
    pub fn convert_into_rounding_up<ToFrequency: Frequency>(&self) -> (d: Duration<ToFrequency>)
        requires
            self@ > i64::MIN,
            magnitude(self@ as int) * ToFrequency::spec_frequency() <= u64::MAX,
            self@ < 0 ==> spec_convert_up(
                magnitude(self@ as int),
                F::spec_frequency() as int,
                ToFrequency::spec_frequency() as int,
            ) != 0x8000_0000_0000_0000,
        ensures
            ({
                let q = spec_convert_up(
                    magnitude(self@ as int),
                    F::spec_frequency() as int,
                    ToFrequency::spec_frequency() as int,
                );
                &&& d@ == sign(self@ as int) * (q as i64)
                &&& q <= i64::MAX ==> d@ == sign(self@ as int) * q
            }),
    {
        let sign: i64 = if self.ticks > 0 {
            1
        } else if self.ticks < 0 {
            -1
        } else {
            0
        };
        let m = (sign * self.ticks) as u64;
        let c = convert_rounding_up(m, timer_frequency::<F>(), timer_frequency::<ToFrequency>());
        let t = c as i64;
        assert(c != 0x8000_0000_0000_0000u64 ==> t != i64::MIN) by (bit_vector)
            requires
                t == c as i64,
        ;
        assert(c <= i64::MAX ==> t == c) by (bit_vector)
            requires
                t == c as i64,
        ;
        Duration::new(sign * t)
    }

    /// The ticks of the duration.
    pub fn ticks(&self) -> (t: i64)
        ensures
            t == self@,
    {
        self.ticks
    }
}

// Instants cannot be added, multiplied, divided or negated. The difference
// between instants is defined and yields a duration.
/// How two instants' ticks compare.
pub open spec fn tick_order(a: u64, b: u64) -> Option<Ordering> {
    if a < b {
        Some(Ordering::Less)
    } else if a == b {
        Some(Ordering::Equal)
    } else {
        Some(Ordering::Greater)
    }
}

/// How two durations' ticks compare.
pub open spec fn ticks_order(a: i64, b: i64) -> Option<Ordering> {
    if a < b {
        Some(Ordering::Less)
    } else if a == b {
        Some(Ordering::Equal)
    } else {
        Some(Ordering::Greater)
    }
}

/// Instants are ordered by their ticks.
impl<F: Frequency + PartialEq> PartialOrd for Instant<F> {
    fn partial_cmp(&self, other: &Self) -> (r: Option<Ordering>) {
        if self.tick < other.tick {
            Some(Ordering::Less)
        } else if self.tick == other.tick {
            Some(Ordering::Equal)
        } else {
            Some(Ordering::Greater)
        }
    }
}

impl<F: Frequency + PartialEq> vstd::std_specs::cmp::PartialOrdSpecImpl for Instant<F> {
    open spec fn obeys_partial_cmp_spec() -> bool {
        true
    }

    open spec fn partial_cmp_spec(&self, other: &Self) -> Option<Ordering> {
        tick_order(self.tick, other.tick)
    }
}

/// Durations are ordered by their ticks.
impl<F: Frequency + PartialEq> PartialOrd for Duration<F> {
    fn partial_cmp(&self, other: &Self) -> (r: Option<Ordering>) {
        if self.ticks < other.ticks {
            Some(Ordering::Less)
        } else if self.ticks == other.ticks {
            Some(Ordering::Equal)
        } else {
            Some(Ordering::Greater)
        }
    }
}

impl<F: Frequency + PartialEq> vstd::std_specs::cmp::PartialOrdSpecImpl for Duration<F> {
    open spec fn obeys_partial_cmp_spec() -> bool {
        true
    }

    open spec fn partial_cmp_spec(&self, other: &Self) -> Option<Ordering> {
        ticks_order(self.ticks, other.ticks)
    }
}

/// Instants compare as their ticks do: one is at or before another exactly
/// when its tick is at or before the other's; likewise for durations.
pub proof fn law_order_by_ticks<F: Frequency + PartialEq>(a: Instant<F>, b: Instant<F>, d: Duration<F>, e: Duration<F>)
    ensures
        (a.partial_cmp_spec(&b) matches Some(Ordering::Less | Ordering::Equal)) <==> a@ <= b@,
        (a.partial_cmp_spec(&b) == Some(Ordering::Less)) <==> a@ < b@,
        (a.partial_cmp_spec(&b) == Some(Ordering::Equal)) <==> a@ == b@,
        (d.partial_cmp_spec(&e) matches Some(Ordering::Less | Ordering::Equal)) <==> d@ <= e@,
        (d.partial_cmp_spec(&e) == Some(Ordering::Less)) <==> d@ < e@,
        (d.partial_cmp_spec(&e) == Some(Ordering::Equal)) <==> d@ == e@,
{
}

impl<F: Frequency> core::ops::Sub for Instant<F> {
    type Output = Duration<F>;

    fn sub(self, rhs: Instant<F>) -> (d: Duration<F>) {
        let ticks = if self.tick >= rhs.tick {
            (self.tick - rhs.tick) as i64
        } else {
            let back = (rhs.tick - self.tick) as i64;
            -back
        };
        Duration { ticks, frequency: PhantomData }
    }
}

impl<F: Frequency> vstd::std_specs::ops::SubSpecImpl for Instant<F> {
    open spec fn obeys_sub_spec() -> bool {
        true
    }

    /// A backward difference whose magnitude reads as `i64::MIN` cannot be
    /// negated.
    open spec fn sub_req(self, rhs: Instant<F>) -> bool {
        self@ < rhs@ ==> (rhs@ - self@) as i64 != i64::MIN
    }

    /// The difference of the ticks: a forward difference as its 64 bits read
    /// as `i64` (wrapping beyond `i64::MAX`), a backward one as the negated
    /// magnitude read likewise.
    open spec fn sub_spec(self, rhs: Instant<F>) -> Duration<F> {
        Duration {
            ticks: if self@ >= rhs@ {
                (self@ - rhs@) as i64
            } else {
                (-((rhs@ - self@) as i64)) as i64
            },
            frequency: PhantomData,
        }
    }
}

impl<F: Frequency> core::ops::Add<Duration<F>> for Instant<F> {
    type Output = Self;

    fn add(self, rhs: Duration<F>) -> (i: Self) {
        let tick = if rhs.ticks > 0 {
            self.tick + (rhs.ticks as u64)
        } else {
            self.tick - (-rhs.ticks) as u64
        };
        Instant { tick, frequency: PhantomData }
    }
}

impl<F: Frequency> vstd::std_specs::ops::AddSpecImpl<Duration<F>> for Instant<F> {
    open spec fn obeys_add_spec() -> bool {
        true
    }

    open spec fn add_req(self, rhs: Duration<F>) -> bool {
        rhs@ > i64::MIN && 0 <= self@ + rhs@ <= u64::MAX
    }

    open spec fn add_spec(self, rhs: Duration<F>) -> Self {
        Instant { tick: (self@ + rhs@) as u64, frequency: PhantomData }
    }
}

impl<F: Frequency> core::ops::Sub<Duration<F>> for Instant<F> {
    type Output = Self;

    fn sub(self, rhs: Duration<F>) -> (i: Self) {
        self + core::ops::Neg::neg(rhs)
    }
}

impl<F: Frequency> vstd::std_specs::ops::SubSpecImpl<Duration<F>> for Instant<F> {
    open spec fn obeys_sub_spec() -> bool {
        true
    }

    open spec fn sub_req(self, rhs: Duration<F>) -> bool {
        rhs@ > i64::MIN && 0 <= self@ - rhs@ <= u64::MAX
    }

    open spec fn sub_spec(self, rhs: Duration<F>) -> Self {
        Instant { tick: (self@ - rhs@) as u64, frequency: PhantomData }
    }
}

impl<F: Frequency> core::ops::Add for Duration<F> {
    type Output = Self;

    fn add(self, rhs: Duration<F>) -> (d: Self) {
        Duration { ticks: self.ticks + rhs.ticks, frequency: PhantomData }
    }
}

impl<F: Frequency> vstd::std_specs::ops::AddSpecImpl for Duration<F> {
    open spec fn obeys_add_spec() -> bool {
        true
    }

    open spec fn add_req(self, rhs: Duration<F>) -> bool {
        i64::MIN <= self@ + rhs@ <= i64::MAX
    }

    open spec fn add_spec(self, rhs: Duration<F>) -> Self {
        Duration { ticks: (self@ + rhs@) as i64, frequency: PhantomData }
    }
}

impl<F: Frequency> core::ops::Sub for Duration<F> {
    type Output = Self;

    fn sub(self, rhs: Duration<F>) -> (d: Self) {
        self + core::ops::Neg::neg(rhs)
    }
}

impl<F: Frequency> vstd::std_specs::ops::SubSpecImpl for Duration<F> {
    open spec fn obeys_sub_spec() -> bool {
        true
    }

    open spec fn sub_req(self, rhs: Duration<F>) -> bool {
        rhs@ > i64::MIN && i64::MIN <= self@ - rhs@ <= i64::MAX
    }

    open spec fn sub_spec(self, rhs: Duration<F>) -> Self {
        Duration { ticks: (self@ - rhs@) as i64, frequency: PhantomData }
    }
}

impl<F: Frequency> core::ops::Neg for Duration<F> {
    type Output = Self;

    fn neg(self) -> (d: Self) {
        Duration { ticks: -self.ticks, frequency: PhantomData }
    }
}

impl<F: Frequency> vstd::std_specs::ops::NegSpecImpl for Duration<F> {
    open spec fn obeys_neg_spec() -> bool {
        true
    }

    open spec fn neg_req(self) -> bool {
        self@ > i64::MIN
    }

    open spec fn neg_spec(self) -> Self {
        Duration { ticks: (-self@) as i64, frequency: PhantomData }
    }
}

impl<F: Frequency> core::ops::Mul<usize> for Duration<F> {
    type Output = Self;

    fn mul(self, rhs: usize) -> (d: Self) {
        Duration { ticks: self.ticks * rhs as i64, frequency: PhantomData }
    }
}

impl<F: Frequency> vstd::std_specs::ops::MulSpecImpl<usize> for Duration<F> {
    open spec fn obeys_mul_spec() -> bool {
        true
    }

    open spec fn mul_req(self, rhs: usize) -> bool {
        rhs <= i64::MAX && i64::MIN <= self@ * rhs <= i64::MAX
    }

    open spec fn mul_spec(self, rhs: usize) -> Self {
        Duration { ticks: (self@ * rhs) as i64, frequency: PhantomData }
    }
}

impl<F: Frequency> core::ops::Div<usize> for Duration<F> {
    type Output = Self;

    // Rounds towards zero.
    fn div(self, rhs: usize) -> (d: Self) {
        let r = rhs as u64;
        let ticks: i64 = if self.ticks >= 0 {
            (self.ticks as u64 / r) as i64
        } else {
            let m = (-(self.ticks as i128)) as u64;
            proof {
                assert(m / r <= m) by (nonlinear_arith)
                    requires
                        r > 0,
                ;
            }
            (-((m / r) as i128)) as i64
        };
        Duration { ticks, frequency: PhantomData }
    }
}

impl<F: Frequency> vstd::std_specs::ops::DivSpecImpl<usize> for Duration<F> {
    open spec fn obeys_div_spec() -> bool {
        true
    }

    open spec fn div_req(self, rhs: usize) -> bool {
        0 < rhs <= i64::MAX
    }

    open spec fn div_spec(self, rhs: usize) -> Self {
        Duration { ticks: div_towards_zero(self@ as int, rhs as int) as i64, frequency: PhantomData }
    }
}

} // verus!
