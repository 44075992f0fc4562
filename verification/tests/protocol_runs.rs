use button_blink::blinker::Blinker;
use button_blink::flag::{signal_press, SharedFlag};
use button_blink::protocol::{advance, power_up, Step, System};
use core::cell::Cell;
use critical_section::Mutex;

const STEPS: [Step; 3] = [Step::Edge, Step::Service, Step::Observe];

/// The `index`-th trace of `len` steps, counting in base three.
fn trace(len: u32, index: u32) -> Vec<Step> {
    let mut steps = Vec::new();
    let mut rest = index;
    for _ in 0..len {
        steps.push(STEPS[(rest % 3) as usize]);
        rest /= 3;
    }
    steps
}

#[test]
fn power_up_state() {
    assert_eq!(
        power_up(),
        System { delay: 400, flag: false, interrupt_pending: false }
    );
}

#[test]
fn edge_latches_the_interrupt_only() {
    let s = advance(power_up(), Step::Edge);
    assert_eq!(s, System { delay: 400, flag: false, interrupt_pending: true });
}

#[test]
fn service_clears_the_interrupt_and_raises_the_flag() {
    let latched = advance(power_up(), Step::Edge);
    let s = advance(latched, Step::Service);
    assert_eq!(s, System { delay: 400, flag: true, interrupt_pending: false });
}

#[test]
fn observe_takes_the_press() {
    let s = System { delay: 400, flag: true, interrupt_pending: false };
    assert_eq!(
        advance(s, Step::Observe),
        System { delay: 350, flag: false, interrupt_pending: false }
    );
    let s = System { delay: 50, flag: true, interrupt_pending: true };
    assert_eq!(
        advance(s, Step::Observe),
        System { delay: 400, flag: false, interrupt_pending: true }
    );
}

#[test]
fn observe_without_a_press_is_idle() {
    for delay in [400u32, 350, 300, 250, 200, 150, 100, 50] {
        for interrupt_pending in [false, true] {
            let s = System { delay, flag: false, interrupt_pending };
            assert_eq!(advance(s, Step::Observe), s);
        }
    }
}

#[test]
fn edges_within_one_cycle_move_the_delay_once() {
    let mut s = power_up();
    for _ in 0..5 {
        s = advance(s, Step::Edge);
        s = advance(s, Step::Service);
    }
    assert_eq!(s.delay, 400);
    s = advance(s, Step::Observe);
    assert_eq!(s, System { delay: 350, flag: false, interrupt_pending: false });
    s = advance(s, Step::Observe);
    assert_eq!(s, System { delay: 350, flag: false, interrupt_pending: false });
}

#[test]
fn flag_turns_on_only_with_the_interrupt_cleared() {
    for delay in [400u32, 350, 300, 250, 200, 150, 100, 50] {
        for flag in [false, true] {
            for interrupt_pending in [false, true] {
                for e in STEPS {
                    let before = System { delay, flag, interrupt_pending };
                    let after = advance(before, e);
                    if after.flag && !before.flag {
                        assert_eq!(e, Step::Service);
                        assert!(!after.interrupt_pending);
                    }
                    if e == Step::Observe {
                        assert_eq!(after.interrupt_pending, before.interrupt_pending);
                    }
                }
            }
        }
    }
}

#[test]
fn every_short_run_keeps_the_delay_on_the_cycle() {
    for len in 0..=7u32 {
        for index in 0..3u32.pow(len) {
            let mut s = power_up();
            let mut found = 0u32;
            let mut serviced = 0u32;
            for e in trace(len, index) {
                if e == Step::Observe && s.flag {
                    found += 1;
                }
                if e == Step::Service {
                    serviced += 1;
                }
                s = advance(s, e);
            }
            assert_eq!(s.delay, 400 - 50 * (found % 8));
            assert!(found + u32::from(s.flag) <= serviced);
        }
    }
}

#[test]
fn runs_without_a_press_stay_at_the_maximum() {
    let mut s = power_up();
    for turn in 0..100 {
        if turn % 3 == 0 {
            s = advance(s, Step::Edge);
        }
        s = advance(s, Step::Observe);
        assert_eq!(s.delay, 400);
        assert!(!s.flag);
    }
}

#[test]
fn the_board_code_follows_the_same_runs() {
    for len in 0..=6u32 {
        for index in 0..3u32.pow(len) {
            let flag: SharedFlag = Mutex::new(Cell::new(false));
            let mut blinker = Blinker::new();
            let mut s = power_up();
            for e in trace(len, index) {
                let expected = if e == Step::Observe && s.flag {
                    Some(advance(s, e).delay)
                } else {
                    None
                };
                s = advance(s, e);
                match e {
                    Step::Edge => {}
                    Step::Service => critical_section::with(|cs| signal_press(&flag, cs)),
                    Step::Observe => {
                        let report = critical_section::with(|cs| blinker.poll(&flag, cs));
                        assert_eq!(report, expected);
                    }
                }
                assert_eq!(blinker.delay_ms(), s.delay);
                assert_eq!(critical_section::with(|cs| flag.borrow(cs).get()), s.flag);
            }
        }
    }
}
