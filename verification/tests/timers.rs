use bytevm::mem::MemBuf;
use bytevm::reg::Reg8;
use bytevm::timers::{interval_elapsed, Tick, Timer};
use std::cell::RefCell;

#[test]
fn test_update() {
    let mut m = MemBuf::new([0; 5], 0);
    let mut r = Reg8::new(0, 0);
    r.get(&m); // good practice
    r.set_value(4);
    r.set(&mut m);
    let mut t = Timer::new(60, r, |s, v| {
        println!("buzz: {}:{}", v, s);
    });
    assert_eq!(t.get_value(), 4);
    while t.update(&mut m) {}
    assert_eq!(t.get_value(), 0);
}

#[test]
fn timers_test_impl() {
    let mut m = MemBuf::new([0; 5], 0);
    let r = Reg8::new(0, 0);
    let mut t = Timer::new(60, r, |_, _v| {});
    t.update(&mut m);
    t.get_value();
}

#[test]
fn interval_at_sixty_hertz() {
    assert!(!interval_elapsed(0, 60));
    assert!(!interval_elapsed(16_666_666, 60));
    assert!(interval_elapsed(16_666_667, 60));
    assert!(interval_elapsed(1_000_000_000, 60));
}

#[test]
fn interval_at_one_hertz_is_one_second() {
    assert!(!interval_elapsed(999_999_999, 1));
    assert!(interval_elapsed(1_000_000_000, 1));
}

#[test]
fn interval_never_ends_at_zero_hertz() {
    assert!(!interval_elapsed(0, 0));
    assert!(!interval_elapsed(u128::MAX, 0));
}

#[test]
fn interval_with_a_product_beyond_the_machine_word() {
    assert!(interval_elapsed(u128::MAX, 2));
    assert!(interval_elapsed(u128::MAX, usize::MAX));
    assert!(interval_elapsed(1, 1_000_000_000));
    assert!(!interval_elapsed(1, 999_999_999));
}

#[test]
fn counts_down_from_two_with_one_call_per_tick() {
    let calls: RefCell<Vec<(u128, u8)>> = RefCell::new(Vec::new());
    let mut m = MemBuf::new([0; 5], 0);
    m.set(3, 2);
    let r = Reg8::new(3, 0);
    let mut t = Timer::new(60, r, |e, v| calls.borrow_mut().push((e, v)));

    assert_eq!(t.step(&mut m, 20_000_000), Tick::Fired(2));
    assert_eq!(t.get_value(), 1);
    assert_eq!(m.get(3), 1);
    assert_eq!(t.step(&mut m, 30_000_000), Tick::Fired(1));
    assert_eq!(t.get_value(), 0);
    assert_eq!(m.get(3), 0);
    assert_eq!(t.step(&mut m, 30_000_000), Tick::Stopped);
    assert_eq!(t.step(&mut m, 30_000_000), Tick::Stopped);
    assert_eq!(t.get_value(), 0);
    assert_eq!(m.get_buf(), [0, 0, 0, 0, 0]);
    assert_eq!(*calls.borrow(), vec![(20_000_000, 2), (30_000_000, 1)]);
}

#[test]
fn counts_down_from_two_on_the_wall_clock() {
    let calls: RefCell<Vec<u8>> = RefCell::new(Vec::new());
    let mut m = MemBuf::new([0; 5], 0);
    m.set(0, 2);
    let mut t = Timer::new(1_000, Reg8::new(0, 0), |_, v| calls.borrow_mut().push(v));
    let mut polls = 0u64;
    while t.update(&mut m) {
        polls += 1;
    }
    assert!(polls >= 2);
    assert_eq!(t.get_value(), 0);
    assert_eq!(m.get(0), 0);
    assert!(!t.update(&mut m));
    assert_eq!(*calls.borrow(), vec![2, 1]);
}

#[test]
fn stopped_timer_does_nothing() {
    let calls: RefCell<Vec<(u128, u8)>> = RefCell::new(Vec::new());
    let mut m = MemBuf::new([9, 0, 9], 0);
    let mut t = Timer::new(60, Reg8::new(1, 0), |e, v| calls.borrow_mut().push((e, v)));
    assert!(!t.update(&mut m));
    assert_eq!(t.step(&mut m, u128::MAX), Tick::Stopped);
    assert_eq!(t.get_value(), 0);
    assert_eq!(m.get_buf(), [9, 0, 9]);
    assert!(calls.borrow().is_empty());
}

#[test]
fn poll_pulls_before_it_decides() {
    let mut m = MemBuf::new([0; 2], 0);
    let mut t = Timer::new(60, Reg8::new(1, 7), |_, _| {});
    assert_eq!(t.get_value(), 7);
    assert_eq!(t.step(&mut m, 1_000_000_000), Tick::Stopped);
    assert_eq!(t.get_value(), 0);
    m.set(1, 200);
    assert_eq!(t.step(&mut m, 1_000_000_000), Tick::Fired(200));
    assert_eq!(m.get(1), 199);
}

#[test]
fn waiting_poll_writes_nothing() {
    let calls: RefCell<Vec<(u128, u8)>> = RefCell::new(Vec::new());
    let mut m = MemBuf::new([5, 5], 0);
    let mut t = Timer::new(60, Reg8::new(0, 0), |e, v| calls.borrow_mut().push((e, v)));
    assert_eq!(t.step(&mut m, 16_666_666), Tick::Waiting);
    assert_eq!(t.get_value(), 5);
    assert_eq!(m.get_buf(), [5, 5]);
    assert!(calls.borrow().is_empty());
    assert_eq!(t.step(&mut m, 16_666_667), Tick::Fired(5));
    assert_eq!(m.get_buf(), [4, 5]);
    assert_eq!(calls.borrow().len(), 1);
}

#[test]
fn timer_at_zero_hertz_runs_and_never_ticks() {
    let mut m = MemBuf::new([3], 0);
    let mut t = Timer::new(0, Reg8::new(0, 0), |_, _| panic!("no tick is due"));
    assert_eq!(t.step(&mut m, u128::MAX), Tick::Waiting);
    assert!(t.update(&mut m));
    assert_eq!(m.get(0), 3);
}

#[test]
fn tick_from_one_to_zero_still_runs() {
    let mut m = MemBuf::new([1], 0);
    let mut t = Timer::new(1_000_000_000, Reg8::new(0, 1), |_, _| {});
    while t.get_value() != 0 {
        assert!(t.update(&mut m));
    }
    assert_eq!(m.get(0), 0);
    assert!(!t.update(&mut m));
}
