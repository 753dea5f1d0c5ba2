use tws_core::pacing::Pace;
use tws_core::pacing::Pacer;
use tws_core::pacing::DEFAULT_BURST;
use tws_core::pacing::DEFAULT_RATE;

#[test]
fn the_default_gate_grows_a_token_every_twenty_milliseconds() {
    let pacer = Pacer::new(DEFAULT_RATE, DEFAULT_BURST, 0);
    assert_eq!(pacer.interval, 20);
    assert_eq!(pacer.tokens, 100);
}

#[test]
fn a_burst_passes_and_then_the_gate_closes() {
    let mut pacer = Pacer::new(50, 100, 1000);
    for _ in 0..100 {
        assert_eq!(pacer.request(1000, false), Pace::Send);
    }
    assert_eq!(pacer.request(1000, false), Pace::Wait(20));
    assert_eq!(pacer.request(1005, false), Pace::Wait(15));
    assert_eq!(pacer.request(1019, false), Pace::Wait(1));
    assert_eq!(pacer.request(1020, false), Pace::Send);
    assert_eq!(pacer.request(1020, false), Pace::Wait(20));
}

#[test]
fn a_cancel_always_passes() {
    let mut pacer = Pacer::new(50, 1, 0);
    assert_eq!(pacer.request(0, false), Pace::Send);
    assert_eq!(pacer.request(0, false), Pace::Wait(20));
    let before = pacer;
    for _ in 0..10 {
        assert_eq!(pacer.request(0, true), Pace::Send);
    }
    assert_eq!(pacer, before);
}

#[test]
fn the_bucket_never_holds_more_than_its_burst() {
    let mut pacer = Pacer::new(50, 3, 0);
    assert_eq!(pacer.request(u64::MAX, false), Pace::Send);
    assert_eq!(pacer.tokens, 2);
    assert_eq!(pacer.credit, 0);
    assert_eq!(pacer.request(u64::MAX, false), Pace::Send);
    assert_eq!(pacer.request(u64::MAX, false), Pace::Send);
    assert_eq!(pacer.request(u64::MAX, false), Pace::Wait(20));
}

#[test]
fn a_clock_that_goes_back_counts_as_standing_still() {
    let mut pacer = Pacer::new(50, 1, 1000);
    assert_eq!(pacer.request(1000, false), Pace::Send);
    assert_eq!(pacer.request(500, false), Pace::Wait(20));
    assert_eq!(pacer.request(519, false), Pace::Wait(1));
    assert_eq!(pacer.request(520, false), Pace::Send);
}

#[test]
fn the_rate_is_held_between_one_and_a_thousand() {
    assert_eq!(Pacer::new(0, 1, 0).interval, 1000);
    assert_eq!(Pacer::new(1, 1, 0).interval, 1000);
    assert_eq!(Pacer::new(1000, 1, 0).interval, 1);
    assert_eq!(Pacer::new(5000, 1, 0).interval, 1);
    assert_eq!(Pacer::new(3, 1, 0).interval, 333);
}
