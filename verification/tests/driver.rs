use chip8::driver::{pause_micros, Action, Driver, CYCLES_PER_BATCH, CYCLE_PAUSE_MICROS, KEY_POLL_MICROS};
use chip8::state::Progress;

#[test]
fn batch_is_a_report_and_then_its_cycles() {
    let mut driver = Driver::new();
    for _ in 0..3 {
        assert_eq!(driver.next(false), Action::Report);
        for _ in 0..1200 {
            assert_eq!(driver.next(false), Action::Cycle);
        }
    }
    assert_eq!(driver.next(false), Action::Report);
    assert_eq!(CYCLES_PER_BATCH, 1200);
}

#[test]
fn halt_stops_the_run_at_once() {
    let mut driver = Driver::new();
    assert_eq!(driver.next(true), Action::Stop);
    assert_eq!(driver.next(false), Action::Report);
    assert_eq!(driver.next(false), Action::Cycle);
    assert_eq!(driver.next(false), Action::Cycle);
    let at = driver;
    assert_eq!(driver.next(true), Action::Stop);
    assert_eq!(driver.next(true), Action::Stop);
    assert_eq!(driver, at);
    assert_eq!(at, Driver { reported: true, cycles_done: 2 });
}

#[test]
fn driver_counts_from_any_state() {
    let mut driver = Driver { reported: true, cycles_done: 1199 };
    assert_eq!(driver.next(false), Action::Cycle);
    assert_eq!(driver, Driver { reported: false, cycles_done: 0 });
    let mut driver = Driver { reported: true, cycles_done: u32::MAX };
    assert_eq!(driver.next(false), Action::Cycle);
    assert_eq!(driver, Driver { reported: false, cycles_done: 0 });
    let mut driver = Driver { reported: false, cycles_done: 5 };
    assert_eq!(driver.next(false), Action::Report);
    assert_eq!(driver, Driver { reported: true, cycles_done: 5 });
}

#[test]
fn pause_depends_on_progress() {
    assert_eq!(pause_micros(Progress::Completed), 100);
    assert_eq!(pause_micros(Progress::AwaitingKey), 10_000);
    assert_eq!(CYCLE_PAUSE_MICROS, 100);
    assert_eq!(KEY_POLL_MICROS, 10_000);
}
