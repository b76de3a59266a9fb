use scd40_monitor::poll::apply_cycles;
use scd40_monitor::poll::measure_step;
use scd40_monitor::poll::ready_step;
use scd40_monitor::poll::Cycle;
use scd40_monitor::poll::MeasureProbe;
use scd40_monitor::poll::PollAction;
use scd40_monitor::poll::PollOutcome;
use scd40_monitor::poll::ReadyProbe;
use scd40_monitor::poll::POLL_INTERVAL_MS;
use scd40_monitor::reading::Reading;
use scd40_monitor::store::SharedReading;

#[test]
fn fetch_happens_exactly_when_ready() {
    assert_eq!(ready_step(ReadyProbe::Ready), PollAction::Fetch);
    assert_eq!(ready_step(ReadyProbe::NotReady), PollAction::Sleep);
    assert_eq!(ready_step(ReadyProbe::Failed), PollAction::Sleep);
}

#[test]
fn poll_interval_is_one_second() {
    assert_eq!(POLL_INTERVAL_MS, 1000);
}

#[test]
fn successful_measurement_updates_store() {
    let mut s = SharedReading::new();
    let r = Reading::new(815, 2140, 4600);
    let outcome = measure_step(&mut s, MeasureProbe::Measured(r));
    assert_eq!(outcome, PollOutcome::Updated);
    assert_eq!(s.read(), r);
}

#[test]
fn failed_measurement_leaves_store_untouched() {
    let mut s = SharedReading::new();
    let r = Reading::new(700, 2000, 4100);
    s.write(r);
    let outcome = measure_step(&mut s, MeasureProbe::Failed);
    assert_eq!(outcome, PollOutcome::Faulted);
    assert_eq!(s.read(), r);
}

#[test]
fn n_successful_cycles_leave_the_nth_reading() {
    let mut s = SharedReading::new();
    let cycles = vec![
        Cycle::Fresh(Reading::new(500, 1800, 3900)),
        Cycle::Fresh(Reading::new(650, 1950, 4200)),
        Cycle::Fresh(Reading::new(815, 2140, 4600)),
    ];
    apply_cycles(&mut s, &cycles);
    assert_eq!(s.read(), Reading::new(815, 2140, 4600));
}

#[test]
fn skipped_and_faulted_cycles_do_not_interleave() {
    let mut s = SharedReading::new();
    let r = Reading::new(815, 2140, 4600);
    let cycles = vec![
        Cycle::NotReady,
        Cycle::Fresh(r),
        Cycle::NotReady,
        Cycle::CheckFailed,
        Cycle::ReadFailed,
    ];
    apply_cycles(&mut s, &cycles);
    assert_eq!(s.read(), r);
}
