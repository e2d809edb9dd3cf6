use vstd::prelude::*;

use crate::rotary::RotationDirection;

verus! {

/// The state a poll acts on, in mathematical form: the cached clock level,
/// the counter as an unbounded integer, and the most recent direction.
pub ghost struct DecoderModel {
    pub clk_state: bool,
    pub counter: int,
    pub direction: RotationDirection,
}

/// The buttoned decoder's state in mathematical form: the embedded
/// decoder's state, and the level the most recent button sample saw on the
/// switch line (meaningful once a sample has been taken).
pub ghost struct ButtonedModel {
    pub decoder: DecoderModel,
    pub switch_level: bool,
}

/// One poll of a decoder whose counter ranges over `[min, max]`, given the
/// levels read from the clock and data lines. Returns the new state and
/// whether a step was detected.
///
/// No clock transition leaves the state untouched. On a transition the data
/// level is compared with the new clock level: a differing level is a
/// counterclockwise step and the counter moves down, clamping at `min`; an
/// equal level is a clockwise step and the counter moves up, wrapping to
/// zero exactly at `max`.
pub open spec fn step_model(s: DecoderModel, min: int, max: int, clk: bool, dt: bool) -> (
    DecoderModel,
    bool,
) {
    if clk == s.clk_state {
        (s, false)
    } else if dt != clk {
        (
            DecoderModel {
                clk_state: clk,
                counter: if s.counter > min {
                    s.counter - 1
                } else {
                    s.counter
                },
                direction: RotationDirection::CounterClockwise,
            },
            true,
        )
    } else {
        (
            DecoderModel {
                clk_state: clk,
                counter: if s.counter < max {
                    s.counter + 1
                } else {
                    0
                },
                direction: RotationDirection::Clockwise,
            },
            true,
        )
    }
}

/// A whole polling session: `step_model` folded over a sequence of
/// (clock level, data level) samples, collecting each poll's result.
pub open spec fn run_model(s: DecoderModel, min: int, max: int, inputs: Seq<(bool, bool)>) -> (
    DecoderModel,
    Seq<bool>,
)
    decreases inputs.len(),
{
    if inputs.len() == 0 {
        (s, Seq::empty())
    } else {
        let stepped = step_model(s, min, max, inputs[0].0, inputs[0].1);
        let rest = run_model(stepped.0, min, max, inputs.drop_first());
        (rest.0, seq![stepped.1] + rest.1)
    }
}

/// Law: a poll that observes no clock transition reports no step and leaves
/// the state — counter and direction included — exactly as it was.
pub proof fn lemma_no_edge_no_change(s: DecoderModel, min: int, max: int, dt: bool)
    ensures
        step_model(s, min, max, s.clk_state, dt) == (s, false),
{
}

/// Law: on a clock transition where the data level differs from the new
/// clock level, the step is counterclockwise: the direction becomes
/// `CounterClockwise` and the counter moves down by one, clamping at `min`
/// (at the minimum it stays put).
pub proof fn lemma_counterclockwise_step(s: DecoderModel, min: int, max: int, clk: bool, dt: bool)
    requires
        clk != s.clk_state,
        dt != clk,
        min <= s.counter,
    ensures
        step_model(s, min, max, clk, dt).1 == true,
        step_model(s, min, max, clk, dt).0.clk_state == clk,
        step_model(s, min, max, clk, dt).0.direction == RotationDirection::CounterClockwise,
        s.counter > min ==> step_model(s, min, max, clk, dt).0.counter == s.counter - 1,
        s.counter == min ==> step_model(s, min, max, clk, dt).0.counter == min,
{
}

/// Law: on a clock transition where the data level equals the new clock
/// level, the step is clockwise: the direction becomes `Clockwise` and the
/// counter moves up by one, wrapping to zero exactly at `max`.
pub proof fn lemma_clockwise_step(s: DecoderModel, min: int, max: int, clk: bool, dt: bool)
    requires
        clk != s.clk_state,
        dt == clk,
        s.counter <= max,
    ensures
        step_model(s, min, max, clk, dt).1 == true,
        step_model(s, min, max, clk, dt).0.clk_state == clk,
        step_model(s, min, max, clk, dt).0.direction == RotationDirection::Clockwise,
        s.counter < max ==> step_model(s, min, max, clk, dt).0.counter == s.counter + 1,
        s.counter == max ==> step_model(s, min, max, clk, dt).0.counter == 0,
{
}

/// Law: polling is idempotent while the clock holds its level. Any number
/// of polls whose clock samples all equal the cached level reports no step
/// every time and leaves the state unchanged.
pub proof fn lemma_idle_polls(s: DecoderModel, min: int, max: int, inputs: Seq<(bool, bool)>)
    requires
        forall|i: int| 0 <= i < inputs.len() ==> (#[trigger] inputs[i]).0 == s.clk_state,
    ensures
        run_model(s, min, max, inputs).0 == s,
        run_model(s, min, max, inputs).1 =~= Seq::new(inputs.len(), |i: int| false),
    decreases inputs.len(),
{
    if inputs.len() > 0 {
        lemma_idle_polls(s, min, max, inputs.drop_first());
    }
}

/// Law: once a step has been seen the direction never returns to
/// `Unknown`: a poll either keeps the direction or sets it to the side of
/// the step it detected.
pub proof fn lemma_direction_latched(s: DecoderModel, min: int, max: int, clk: bool, dt: bool)
    requires
        s.direction != RotationDirection::Unknown,
    ensures
        step_model(s, min, max, clk, dt).0.direction != RotationDirection::Unknown,
{
}

} // verus!
