use dot15d4::time::{Duration, Instant, Microseconds, Milliseconds, Nanoseconds, SymbolsOQpsk250kB};

#[test]
fn instant() {
    let a = Instant::<Microseconds>::new(100);
    assert_eq!(a.tick(), 100);
    let b: Instant<Nanoseconds> = a.convert_into_rounding_down();
    assert_eq!(b.tick(), 100_000);
    assert_eq!(b.convert_into_rounding_down::<Microseconds>().tick(), 100);
}

#[test]
fn instant_operations() {
    let a = Instant::<Microseconds>::new(100);
    let b = Instant::<Microseconds>::new(50);
    assert_eq!(
        (a - b).convert_into_rounding_down::<Microseconds>().ticks(),
        50
    );
    assert_eq!(
        (a - Instant::<Microseconds>::new(50))
            .convert_into_rounding_down::<Microseconds>()
            .ticks(),
        50
    );
    assert_eq!(
        (a + Duration::<Microseconds>::new(50))
            .convert_into_rounding_down::<Microseconds>()
            .tick(),
        150
    );
}

#[test]
fn duration() {
    let a = Duration::<Microseconds>::new(100);
    assert_eq!(a.ticks(), 100);
    assert_eq!((-a).ticks(), -100);
    let b: Duration<Nanoseconds> = a.convert_into_rounding_down();
    assert_eq!(b.ticks(), 100_000);
    assert_eq!(b.convert_into_rounding_down::<Microseconds>().ticks(), 100);
}

#[test]
fn duration_operations() {
    let a = Duration::<Microseconds>::new(100);
    let b = Duration::<Microseconds>::new(50);
    assert_eq!(
        (a - b).convert_into_rounding_down::<Microseconds>().ticks(),
        50
    );
    assert_eq!(
        (a * 2).convert_into_rounding_down::<Microseconds>().ticks(),
        200
    );
    assert_eq!(
        (a / 2).convert_into_rounding_down::<Microseconds>().ticks(),
        50
    );
    assert_eq!(
        (a + b).convert_into_rounding_down::<Microseconds>().ticks(),
        150
    );
}

#[test]
fn conversions_round_as_stated() {
    let a = Instant::<Microseconds>::new(1_500);
    assert_eq!(a.convert_into_rounding_down::<Milliseconds>().tick(), 1);
    assert_eq!(a.convert_into_rounding_up::<Milliseconds>().tick(), 2);
    let d = Duration::<Microseconds>::new(-1_500);
    assert_eq!(d.convert_into_rounding_down::<Milliseconds>().ticks(), -1);
    assert_eq!(d.convert_into_rounding_up::<Milliseconds>().ticks(), -2);
    let s = Duration::<SymbolsOQpsk250kB>::new(10);
    assert_eq!(s.convert_into_rounding_down::<Microseconds>().ticks(), 160);
    assert_eq!(Duration::<Microseconds>::new(-7).ticks(), -7);
    assert_eq!((Duration::<Microseconds>::new(-7) / 2).ticks(), -3);
    assert_eq!((Instant::<Microseconds>::new(100) - Duration::<Microseconds>::new(30)).tick(), 70);
    assert_eq!((Instant::<Microseconds>::new(30) - Instant::<Microseconds>::new(100)).ticks(), -70);
    assert_eq!(a.frequency(), 1_000_000);
    assert_eq!(dot15d4::time::timer_frequency::<SymbolsOQpsk250kB>(), 62_500);
}

#[test]
fn time_order() {
    assert!(Instant::<Microseconds>::new(1) < Instant::<Microseconds>::new(2));
    assert!(Instant::<Microseconds>::new(2) <= Instant::<Microseconds>::new(2));
    assert!(Instant::<Microseconds>::new(3) > Instant::<Microseconds>::new(2));
    assert!(Duration::<Microseconds>::new(-3) < Duration::<Microseconds>::new(2));
    assert!(Duration::<Microseconds>::new(5) >= Duration::<Microseconds>::new(5));
}

#[test]
fn negative_duration_conversions() {
    let d = Duration::<Microseconds>::new(-100);
    assert_eq!(d.convert_into_rounding_down::<SymbolsOQpsk250kB>().ticks(), -6);
    assert_eq!(d.convert_into_rounding_up::<SymbolsOQpsk250kB>().ticks(), -7);
    assert_eq!(Duration::<Microseconds>::new(100).convert_into_rounding_down::<Nanoseconds>().ticks(), 100_000);
    assert_eq!(Duration::<Microseconds>::new(0).convert_into_rounding_up::<Milliseconds>().ticks(), 0);
}

#[test]
fn instant_difference_wraps() {
    let a = Instant::<Microseconds>::new(u64::MAX);
    let b = Instant::<Microseconds>::new(0);
    assert_eq!((a - b).ticks(), -1);
    assert_eq!((b - Instant::<Microseconds>::new(5)).ticks(), -5);
    assert_eq!((Instant::<Microseconds>::new(7) - Instant::<Microseconds>::new(5)).ticks(), 2);
}
