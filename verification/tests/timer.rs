use zinc64::common::pin::Pin;
use zinc64::io::timer::{Mode, Timer};

fn new_timer() -> Timer {
    Timer::new(Mode::TimerA, Pin::new_high())
}

#[test]
fn set_config() {
    let mut timer = new_timer();
    timer.set_config(0b_0010_1001);
    assert_eq!(true, timer.enabled);
}

#[test]
fn set_and_get_config() {
    let mut timer = new_timer();
    timer.set_config(0b_0010_1001);
    assert_eq!(0b_0010_1001, timer.get_config());
}

#[test]
fn count_delay_2c() {
    let mut timer = new_timer();
    timer.set_config(0x00);
    timer.set_latch_lo(0x02);
    timer.set_latch_hi(0x00);
    timer.clock();
    timer.clock();
    timer.set_config(0x01);
    timer.clock(); // Count0|Count1
    assert_eq!(timer.get_counter(), 0x02);
    timer.clock(); // Count2
    assert_eq!(timer.get_counter(), 0x02);
    timer.clock(); // Count3
    assert_eq!(timer.get_counter(), 0x01);
}

#[test]
fn load_delay_1c() {
    let mut timer = new_timer();
    timer.set_config(0x00);
    timer.set_latch_lo(0x02);
    timer.set_latch_hi(0x00);
    timer.clock(); // Load0
    assert_eq!(timer.get_counter(), 0x00);
    timer.clock(); // Load1
    assert_eq!(timer.get_counter(), 0x02);
}

#[test]
fn pb_output_pulse() {
    let mut timer = new_timer();
    timer.set_config(0x00);
    timer.set_latch_lo(0x02);
    timer.set_latch_hi(0x00);
    timer.clock();
    timer.clock();
    timer.set_config(0x03);
    timer.clock(); // Count0|Count1
    timer.clock(); // Count2
    assert_eq!(timer.get_counter(), 0x02);
    assert_eq!(timer.get_pb_output(), false);
    timer.clock(); // Count3
    assert_eq!(timer.get_counter(), 0x01);
    assert_eq!(timer.get_pb_output(), false);
    timer.clock(); // Count3|Underflow|Load1
    assert_eq!(timer.get_counter(), 0x02);
    assert_eq!(timer.get_pb_output(), true);
    timer.clock(); // Count2
    assert_eq!(timer.get_counter(), 0x02);
    assert_eq!(timer.get_pb_output(), false);
    timer.clock(); // Count3
    assert_eq!(timer.get_counter(), 0x01);
    assert_eq!(timer.get_pb_output(), false);
    timer.clock(); // Count3|Underflow|Load1
    assert_eq!(timer.get_counter(), 0x02);
    assert_eq!(timer.get_pb_output(), true);
}

#[test]
fn reload_delay_0c() {
    let mut timer = new_timer();
    timer.set_config(0x00);
    timer.set_latch_lo(0x02);
    timer.set_latch_hi(0x00);
    timer.clock();
    timer.clock();
    timer.set_config(0x01);
    timer.clock(); // Count0|Count1
    timer.clock(); // Count2
    timer.clock(); // Count3
    assert_eq!(timer.get_counter(), 0x01);
    let output = timer.clock(); // Count3|Underflow|Load1
    assert_eq!(output, true);
    assert_eq!(timer.get_counter(), 0x02);
}

#[test]
fn reload_count_delay_1c() {
    let mut timer = new_timer();
    timer.set_config(0x00);
    timer.set_latch_lo(0x02);
    timer.set_latch_hi(0x00);
    timer.clock();
    timer.clock();
    timer.set_config(0x01);
    timer.clock(); // Count0|Count1
    timer.clock(); // Count2
    timer.clock(); // Count3
    timer.clock(); // Count3|Underflow|Load1
    assert_eq!(timer.get_counter(), 0x02);
    timer.clock(); // Count2
    assert_eq!(timer.get_counter(), 0x02);
}

#[test]
fn reload_scenario() {
    let mut timer = new_timer();
    timer.set_config(0x00);
    timer.set_latch_lo(0x02);
    timer.set_latch_hi(0x00);
    timer.clock();
    timer.clock();
    timer.set_config(0x01);
    timer.clock(); // Count0|Count1
    timer.clock(); // Count2
    assert_eq!(timer.get_counter(), 0x02);
    timer.clock(); // Count3
    assert_eq!(timer.get_counter(), 0x01);
    timer.clock(); // Count3|Underflow|Load1
    assert_eq!(timer.get_counter(), 0x02);
    timer.clock(); // Count2
    assert_eq!(timer.get_counter(), 0x02);
    timer.clock(); // Count3
    assert_eq!(timer.get_counter(), 0x01);
    timer.clock(); // Count3|Underflow|Load1
    assert_eq!(timer.get_counter(), 0x02);
}

#[test]
fn zero_latch_underflows_without_decrementing_below_zero() {
    let mut timer = new_timer();
    timer.set_latch_lo(0x00);
    timer.set_latch_hi(0x00);
    timer.clock();
    timer.clock();
    timer.set_config(0x01); // continuous
    let mut underflows = 0;
    for _ in 0..10 {
        if timer.clock() {
            underflows += 1;
        }
        assert_eq!(timer.get_counter(), 0);
    }
    assert!(underflows >= 8);
}

#[test]
fn one_shot_stops_after_underflow() {
    let mut timer = new_timer();
    timer.set_latch_lo(0x01);
    timer.set_latch_hi(0x00);
    timer.clock();
    timer.clock();
    timer.set_config(0x09); // start, one-shot
    let mut underflows = 0;
    for _ in 0..8 {
        if timer.clock() {
            underflows += 1;
        }
    }
    assert_eq!(underflows, 1);
    assert_eq!(timer.get_config() & 0x01, 0);
    assert_eq!(timer.get_counter(), 1);
}

#[test]
fn timer_b_input_modes_read_back() {
    let mut timer = Timer::new(Mode::TimerB, Pin::new_high());
    timer.set_config(0x40);
    assert_eq!(timer.get_config(), 0x40);
    timer.set_config(0x60);
    assert_eq!(timer.get_config(), 0x60);
}
