use rotary_encoder::pressed_from_level;
use rotary_encoder::ClickableRotaryEncoder;
use rotary_encoder::RotaryEncoder;
use rotary_encoder::RotationDirection;
use rotary_encoder::SignalTrace;
use rotary_encoder::StepCounter;
use rotary_encoder::TwoBitCounter;

fn trace(levels: &[bool]) -> SignalTrace {
    SignalTrace::new(levels.to_vec())
}

// A clock transition in either direction counts as an edge; the data level
// is compared against the new clock level.

#[test]
fn no_transition_returns_false_and_changes_nothing() {
    // The clock reads low at construction and on every poll after it.
    let clk = trace(&[false, false, false, false]);
    let dt = trace(&[true, true, true]);
    let mut enc: RotaryEncoder<SignalTrace, SignalTrace, u8> = RotaryEncoder::with_counter(clk, dt, 7);
    for _ in 0..3 {
        assert!(!enc.read());
        assert_eq!(enc.counter, 7);
        assert_eq!(enc.direction, RotationDirection::Unknown);
    }
}

#[test]
fn counterclockwise_decrements_and_clamps_at_minimum() {
    // One falling edge with the data line high: data differs from the new
    // clock level, so the step is counterclockwise.
    let clk = trace(&[true, false]);
    let dt = trace(&[true]);
    let mut enc: RotaryEncoder<SignalTrace, SignalTrace, u8> = RotaryEncoder::with_counter(clk, dt, 5);
    assert!(enc.read());
    assert_eq!(enc.direction, RotationDirection::CounterClockwise);
    assert_eq!(enc.counter, 4);

    // At the minimum the counter clamps: repeated decrements leave it there.
    let clk = trace(&[false, true, false, true]);
    let dt = trace(&[false, true, false]);
    let mut enc: RotaryEncoder<SignalTrace, SignalTrace, u8> = RotaryEncoder::with_counter(clk, dt, 1);
    assert!(enc.read());
    assert_eq!(enc.counter, 0);
    assert!(enc.read());
    assert_eq!(enc.counter, 0);
    assert!(enc.read());
    assert_eq!(enc.counter, 0);
    assert_eq!(enc.direction, RotationDirection::CounterClockwise);
}

#[test]
fn counterclockwise_clamps_at_signed_minimum() {
    let clk = trace(&[false, true]);
    let dt = trace(&[false]);
    let mut enc: RotaryEncoder<SignalTrace, SignalTrace, i8> = RotaryEncoder::with_counter(clk, dt, -128);
    assert!(enc.read());
    assert_eq!(enc.direction, RotationDirection::CounterClockwise);
    assert_eq!(enc.counter, -128);
}

#[test]
fn clockwise_increments_and_wraps_to_zero_at_maximum() {
    // One rising edge with the data line high: data equals the new clock
    // level, so the step is clockwise.
    let clk = trace(&[false, true]);
    let dt = trace(&[true]);
    let mut enc: RotaryEncoder<SignalTrace, SignalTrace, u8> = RotaryEncoder::with_counter(clk, dt, 5);
    assert!(enc.read());
    assert_eq!(enc.direction, RotationDirection::Clockwise);
    assert_eq!(enc.counter, 6);

    // Deliberate asymmetry of the bound policy: an increment at the
    // maximum does not saturate but resets the counter to zero, while a
    // decrement at the minimum clamps. A u8 counter at 255 becomes 0.
    let clk = trace(&[false, true]);
    let dt = trace(&[true]);
    let mut enc: RotaryEncoder<SignalTrace, SignalTrace, u8> = RotaryEncoder::with_counter(clk, dt, 255);
    assert!(enc.read());
    assert_eq!(enc.direction, RotationDirection::Clockwise);
    assert_eq!(enc.counter, 0);
}

#[test]
fn both_edges_of_a_clock_pulse_count() {
    // One full clock pulse, low to high to low, with the data line equal
    // to the new clock level at each transition: two polls, two steps.
    let clk = trace(&[false, true, false]);
    let dt = trace(&[true, false]);
    let mut enc: RotaryEncoder<SignalTrace, SignalTrace, u8> = RotaryEncoder::new(clk, dt);
    assert!(enc.read());
    assert!(enc.read());
    assert_eq!(enc.counter, 2);
    assert_eq!(enc.direction, RotationDirection::Clockwise);
}

#[test]
fn repeated_idle_polls_are_safe_any_number_of_times() {
    let clk = trace(&[true]);
    let dt = trace(&[]);
    let mut enc: RotaryEncoder<SignalTrace, SignalTrace, i32> = RotaryEncoder::with_counter(clk, dt, -3);
    // The clock trace is exhausted after construction and holds its last
    // level, so no edge can ever be seen again.
    for _ in 0..50 {
        assert!(!enc.read());
        assert_eq!(enc.counter, -3);
        assert_eq!(enc.direction, RotationDirection::Unknown);
    }
}

#[test]
fn scenario_two_bit_clockwise_from_zero() {
    // Two-bit counter at 0; clock low to high with the data line high.
    let clk = trace(&[false, true]);
    let dt = trace(&[true]);
    let mut enc: RotaryEncoder<SignalTrace, SignalTrace, TwoBitCounter> =
        RotaryEncoder::with_counter(clk, dt, TwoBitCounter::new(0));
    assert!(enc.read());
    assert_eq!(enc.direction, RotationDirection::Clockwise);
    assert_eq!(enc.counter.get(), 1);
}

#[test]
fn scenario_two_bit_counterclockwise_back_to_zero() {
    // Continue from the clockwise step: clock high to low with the data
    // line high again, which differs from the new clock level, so the
    // step is counterclockwise and the counter returns to 0.
    let clk = trace(&[false, true, false]);
    let dt = trace(&[true, true]);
    let mut enc: RotaryEncoder<SignalTrace, SignalTrace, TwoBitCounter> =
        RotaryEncoder::with_counter(clk, dt, TwoBitCounter::new(0));
    assert!(enc.read());
    assert_eq!(enc.direction, RotationDirection::Clockwise);
    assert_eq!(enc.counter.get(), 1);
    assert!(enc.read());
    assert_eq!(enc.direction, RotationDirection::CounterClockwise);
    assert_eq!(enc.counter.get(), 0);
}

#[test]
fn scenario_two_bit_counterclockwise_clamps_at_zero() {
    // From 0, one more counterclockwise step: the counter stays at 0.
    let clk = trace(&[false, true]);
    let dt = trace(&[false]);
    let mut enc: RotaryEncoder<SignalTrace, SignalTrace, TwoBitCounter> =
        RotaryEncoder::with_counter(clk, dt, TwoBitCounter::new(0));
    assert!(enc.read());
    assert_eq!(enc.direction, RotationDirection::CounterClockwise);
    assert_eq!(enc.counter.get(), 0);
}

#[test]
fn scenario_two_bit_clockwise_wraps_at_three() {
    // From the two-bit maximum of 3, one clockwise step wraps to 0.
    let clk = trace(&[false, true]);
    let dt = trace(&[true]);
    let mut enc: RotaryEncoder<SignalTrace, SignalTrace, TwoBitCounter> =
        RotaryEncoder::with_counter(clk, dt, TwoBitCounter::new(3));
    assert!(enc.read());
    assert_eq!(enc.direction, RotationDirection::Clockwise);
    assert_eq!(enc.counter.get(), 0);
}

#[test]
fn pressed_is_reported_whether_or_not_a_step_happened() {
    // Switch line low means pressed; the rotation part is idle here.
    let switch = trace(&[false, false]);
    let clk = trace(&[false, false, false]);
    let dt = trace(&[]);
    let mut enc: ClickableRotaryEncoder<SignalTrace, SignalTrace, SignalTrace, u8> =
        ClickableRotaryEncoder::new(switch, clk, dt);
    let (changed, pressed) = enc.read();
    assert!(!changed);
    assert!(pressed);

    // The same with a rotation step in the same poll.
    let switch = trace(&[false]);
    let clk = trace(&[false, true]);
    let dt = trace(&[true]);
    let mut enc: ClickableRotaryEncoder<SignalTrace, SignalTrace, SignalTrace, u8> =
        ClickableRotaryEncoder::new(switch, clk, dt);
    let (changed, pressed) = enc.read();
    assert!(changed);
    assert!(pressed);
    assert_eq!(enc.encoder.counter, 1);
}

#[test]
fn the_active_low_rule_decodes_a_switch_sample() {
    assert!(pressed_from_level(false));
    assert!(!pressed_from_level(true));
}

#[test]
fn switch_high_reads_released() {
    let switch = trace(&[true]);
    let clk = trace(&[false]);
    let dt = trace(&[]);
    let mut enc: ClickableRotaryEncoder<SignalTrace, SignalTrace, SignalTrace, u8> =
        ClickableRotaryEncoder::new(switch, clk, dt);
    assert!(!enc.switch_pressed());
}

#[test]
fn iterator_yields_the_same_results_as_direct_polling() {
    // The same level transitions, fed to one decoder polled directly and
    // to an equivalent decoder behind the pull adapter.
    let clk_levels = [false, true, true, false, false, true];
    let dt_levels = [true, false, true];

    let mut direct: RotaryEncoder<SignalTrace, SignalTrace, i8> =
        RotaryEncoder::new(trace(&clk_levels), trace(&dt_levels));
    let mut direct_results = Vec::new();
    for _ in 0..5 {
        direct_results.push(direct.read());
    }

    let pulled_encoder: RotaryEncoder<SignalTrace, SignalTrace, i8> =
        RotaryEncoder::new(trace(&clk_levels), trace(&dt_levels));
    let mut pulling = pulled_encoder.iter();
    let mut pulled_results = Vec::new();
    for _ in 0..5 {
        pulled_results.push(pulling.next().unwrap());
    }

    assert_eq!(direct_results, pulled_results);
    assert_eq!(direct_results, vec![true, false, true, false, true]);

    // Unwrapping hands the decoder back; both ended in the same state.
    let recovered = pulling.encoder();
    assert_eq!(recovered.counter, direct.counter);
    assert_eq!(recovered.direction, direct.direction);
}

#[test]
fn clickable_iterator_matches_direct_polling() {
    let switch_levels = [false, true, false];
    let clk_levels = [false, true, false, true];
    let dt_levels = [true, true, false];

    let mut direct: ClickableRotaryEncoder<SignalTrace, SignalTrace, SignalTrace, u8> =
        ClickableRotaryEncoder::new(trace(&switch_levels), trace(&clk_levels), trace(&dt_levels));
    let mut direct_results = Vec::new();
    for _ in 0..3 {
        direct_results.push(direct.read());
    }

    let mut pulling = ClickableRotaryEncoder::<SignalTrace, SignalTrace, SignalTrace, u8>::new(
        trace(&switch_levels),
        trace(&clk_levels),
        trace(&dt_levels),
    )
    .iter();
    let mut pulled_results = Vec::new();
    for _ in 0..3 {
        pulled_results.push(pulling.next().unwrap());
    }

    assert_eq!(direct_results, pulled_results);
    let recovered = pulling.encoder();
    assert_eq!(recovered.encoder.counter, direct.encoder.counter);
    assert_eq!(recovered.encoder.direction, direct.encoder.direction);
}

#[test]
fn constructors_start_at_zero_or_the_given_counter() {
    let enc: RotaryEncoder<SignalTrace, SignalTrace, u8> = RotaryEncoder::new(trace(&[true]), trace(&[]));
    assert_eq!(enc.counter, 0);
    assert_eq!(enc.direction, RotationDirection::Unknown);

    let enc: RotaryEncoder<SignalTrace, SignalTrace, i32> =
        RotaryEncoder::with_counter(trace(&[true]), trace(&[]), -1000);
    assert_eq!(enc.counter, -1000);
    assert_eq!(enc.direction, RotationDirection::Unknown);

    let enc: ClickableRotaryEncoder<SignalTrace, SignalTrace, SignalTrace, u8> =
        ClickableRotaryEncoder::with_counter(trace(&[true]), trace(&[false]), trace(&[]), 9);
    assert_eq!(enc.encoder.counter, 9);
    assert_eq!(enc.encoder.direction, RotationDirection::Unknown);
}

#[test]
fn getters_agree_with_the_public_fields() {
    let mut enc: RotaryEncoder<SignalTrace, SignalTrace, u8> =
        RotaryEncoder::with_counter(trace(&[false, true]), trace(&[true]), 41);
    assert_eq!(*enc.counter_ref(), enc.counter);
    assert_eq!(*enc.direction_ref(), enc.direction);
    enc.read();
    assert_eq!(*enc.counter_ref(), 42);
    assert_eq!(*enc.direction_ref(), RotationDirection::Clockwise);

    let enc: ClickableRotaryEncoder<SignalTrace, SignalTrace, SignalTrace, u8> =
        ClickableRotaryEncoder::with_counter(trace(&[true]), trace(&[false]), trace(&[]), 9);
    assert_eq!(enc.encoder_ref().counter, enc.encoder.counter);
    assert_eq!(*enc.encoder_ref().direction_ref(), RotationDirection::Unknown);
}

#[test]
fn direction_symbols() {
    assert_eq!(RotationDirection::Clockwise.symbol(), "CW");
    assert_eq!(RotationDirection::CounterClockwise.symbol(), "CCW");
    assert_eq!(RotationDirection::Unknown.symbol(), "?");
}

#[test]
fn step_counter_bound_policies() {
    assert_eq!(255u8.step_up(), 0);
    assert_eq!(0u8.step_down(), 0);
    assert_eq!(127i8.step_up(), 0);
    assert_eq!((-128i8).step_down(), -128);
    assert_eq!(65535u16.step_up(), 0);
    assert_eq!(i16::MAX.step_up(), 0);
    assert_eq!(i16::MIN.step_down(), i16::MIN);
    assert_eq!(4294967295u32.step_up(), 0);
    assert_eq!(2147483647i32.step_up(), 0);
    assert_eq!((-2147483648i32).step_down(), -2147483648);
    assert_eq!(u64::MAX.step_up(), 0);
    assert_eq!(i64::MAX.step_up(), 0);
    assert_eq!(i64::MIN.step_down(), i64::MIN);
    assert_eq!(usize::MAX.step_up(), 0);
    assert_eq!(isize::MAX.step_up(), 0);
    assert_eq!(isize::MIN.step_down(), isize::MIN);
    assert_eq!(7u64.step_up(), 8);
    assert_eq!(7usize.step_down(), 6);
    assert_eq!(TwoBitCounter::new(3).step_up().get(), 0);
    assert_eq!(TwoBitCounter::new(0).step_down().get(), 0);
    assert_eq!(TwoBitCounter::new(1).step_up().get(), 2);
    assert_eq!(TwoBitCounter::new(2).step_down().get(), 1);
    assert_eq!(<u8 as StepCounter>::zero(), 0);
    assert_eq!(<TwoBitCounter as StepCounter>::zero().get(), 0);
}

#[test]
fn exhausted_trace_holds_its_last_level() {
    // After the script runs out the line holds its final level, so a
    // decoder sees at most one more edge and then goes quiet.
    let clk = trace(&[false, true]);
    let dt = trace(&[true, true, true]);
    let mut enc: RotaryEncoder<SignalTrace, SignalTrace, u8> = RotaryEncoder::new(clk, dt);
    assert!(enc.read());
    assert!(!enc.read());
    assert!(!enc.read());
    assert_eq!(enc.counter, 1);
}
