use vstd::prelude::*;

use crate::counter::StepCounter;
use crate::model::ButtonedModel;
use crate::model::DecoderModel;
use crate::model::step_model;
use crate::signal::InputSignal;

verus! {

/// Rotation direction of an encoder.
#[derive(Clone, Copy, Debug, PartialEq, Eq, Structural)]
pub enum RotationDirection {
    Clockwise,
    CounterClockwise,
    Unknown,
}

impl RotationDirection {
    /// Short symbol for status lines: `CW`, `CCW`, or `?` before the first
    /// detected step.
    pub fn symbol(&self) -> (r: &'static str)
        ensures
            *self == RotationDirection::Clockwise ==> r@ == "CW"@,
            *self == RotationDirection::CounterClockwise ==> r@ == "CCW"@,
            *self == RotationDirection::Unknown ==> r@ == "?"@,
    {
        match self {
            RotationDirection::Clockwise => "CW",
            RotationDirection::Unknown => "?",
            RotationDirection::CounterClockwise => "CCW",
        }
    }
}

/// A rotary encoder on two digital lines: the clock line whose transitions
/// mark steps, and the data line whose level at each transition tells the
/// direction. Holds a step counter of any [`StepCounter`] type.
pub struct RotaryEncoder<CL: InputSignal, D: InputSignal, C: StepCounter> {
    clk: CL,
    clk_state: bool,
    dt: D,
    /// Rotation step counter.
    pub counter: C,
    /// Current rotation direction; `Unknown` until the first detected step.
    pub direction: RotationDirection,
}

impl<CL: InputSignal, D: InputSignal, C: StepCounter> View for RotaryEncoder<CL, D, C> {
    type V = DecoderModel;

    closed spec fn view(&self) -> DecoderModel {
        DecoderModel {
            clk_state: self.clk_state,
            counter: self.counter.value(),
            direction: self.direction,
        }
    }
}

impl<CL: InputSignal, D: InputSignal, C: StepCounter> RotaryEncoder<CL, D, C> {
    /// Validity: the counter's representation is well formed.
    pub closed spec fn wf(&self) -> bool {
        self.counter.wf()
    }

    /// Law: under validity the model's counter lies within the counter
    /// type's representable bounds.
    pub proof fn lemma_wf_bounds(&self)
        requires
            self.wf(),
        ensures
            C::min_value() <= self@.counter <= C::max_value(),
    {
        self.counter.lemma_bounds();
    }

    /// The `counter` field, tied to the model: the value of what is
    /// returned is the model's counter.
    pub fn counter_ref(&self) -> (r: &C)
        ensures
            r.value() == self@.counter,
            r.wf() == self.wf(),
    {
        &self.counter
    }

    /// The `direction` field, tied to the model: what is returned is the
    /// model's direction.
    pub fn direction_ref(&self) -> (r: &RotationDirection)
        ensures
            *r == self@.direction,
    {
        &self.direction
    }

    /// Create a new instance with the given `counter`. The clock line is
    /// sampled once to seed the cached level.
    pub fn with_counter(clk: CL, dt: D, counter: C) -> (r: Self)
        requires
            counter.wf(),
        ensures
            r.wf(),
            r@.counter == counter.value(),
            r@.direction == RotationDirection::Unknown,
    {
        let mut clk = clk;
        let clk_state = clk.read_level();
        RotaryEncoder { clk, dt, clk_state, direction: RotationDirection::Unknown, counter }
    }

    /// Create a new instance with the counter at zero. The clock line is
    /// sampled once to seed the cached level.
    pub fn new(clk: CL, dt: D) -> (r: Self)
        ensures
            r.wf(),
            r@.counter == 0,
            r@.direction == RotationDirection::Unknown,
    {
        Self::with_counter(clk, dt, C::zero())
    }

    /// Decode one poll from levels already read off the lines: exactly one
    /// step of [`step_model`] on the decoder's state.
    pub fn step_levels(&mut self, clk_level: bool, dt_level: bool) -> (changed: bool)
        requires
            old(self).wf(),
        ensures
            final(self).wf(),
            (final(self)@, changed) == step_model(
                old(self)@,
                C::min_value(),
                C::max_value(),
                clk_level,
                dt_level,
            ),
    {
        if clk_level != self.clk_state {
            proof {
                self.counter.lemma_bounds();
            }
            if dt_level != clk_level {
                self.counter = self.counter.step_down();
                self.direction = RotationDirection::CounterClockwise;
            } else {
                self.counter = self.counter.step_up();
                self.direction = RotationDirection::Clockwise;
            }
            self.clk_state = clk_level;
            true
        } else {
            false
        }
    }

    /// Poll once: read the clock line and, on a transition, the data line,
    /// and decode. The result is `true` exactly when a rotation step
    /// happened since the last read; the new state is one [`step_model`]
    /// transition of the old state on the levels that were read.
    pub fn read(&mut self) -> (changed: bool)
        requires
            old(self).wf(),
        ensures
            final(self).wf(),
            exists|clk_level: bool, dt_level: bool|
                (#[trigger] step_model(
                    old(self)@,
                    C::min_value(),
                    C::max_value(),
                    clk_level,
                    dt_level,
                )) == (final(self)@, changed),
            !changed ==> final(self)@ == old(self)@,
            final(self)@.clk_state != old(self)@.clk_state ==> changed,
    {
        let clk_level = self.clk.read_level();
        if clk_level != self.clk_state {
            let dt_level = self.dt.read_level();
            self.step_levels(clk_level, dt_level)
        } else {
            self.step_levels(clk_level, false)
        }
    }

    /// Consume this decoder into an endless polling sequence; it can be
    /// taken back out with [`crate::iter::EncoderIter::encoder`].
    pub fn iter(self) -> (r: crate::iter::EncoderIter<CL, D, C>)
        ensures
            r@ == self,
    {
        crate::iter::EncoderIter::new(self)
    }
}

/// Decode one sample of the switch line: the active-low rule. A button
/// wired with a pull-up idles high, so it is pressed exactly when the
/// line reads low.
pub fn pressed_from_level(level: bool) -> (pressed: bool)
    ensures
        pressed == !level,
{
    !level
}

/// A rotary encoder with an integrated push button on a third line.
/// Pressing is active-low: the button counts as pressed while its line
/// reads low.
pub struct ClickableRotaryEncoder<
    S: InputSignal,
    CL: InputSignal,
    D: InputSignal,
    C: StepCounter,
> {
    switch: S,
    switch_level: Ghost<bool>,
    /// The embedded rotary decoder.
    pub encoder: RotaryEncoder<CL, D, C>,
}

impl<S: InputSignal, CL: InputSignal, D: InputSignal, C: StepCounter> View for ClickableRotaryEncoder<
    S,
    CL,
    D,
    C,
> {
    type V = ButtonedModel;

    closed spec fn view(&self) -> ButtonedModel {
        ButtonedModel { decoder: self.encoder@, switch_level: self.switch_level@ }
    }
}

impl<S: InputSignal, CL: InputSignal, D: InputSignal, C: StepCounter> ClickableRotaryEncoder<
    S,
    CL,
    D,
    C,
> {
    /// Validity: the embedded decoder is well formed.
    pub closed spec fn wf(&self) -> bool {
        self.encoder.wf()
    }

    /// Law: under validity the model's counter lies within the counter
    /// type's representable bounds.
    pub proof fn lemma_wf_bounds(&self)
        requires
            self.wf(),
        ensures
            C::min_value() <= self@.decoder.counter <= C::max_value(),
    {
        self.encoder.lemma_wf_bounds();
    }

    /// The `encoder` field, tied to the model: the model of what is
    /// returned is this decoder's rotation model.
    pub fn encoder_ref(&self) -> (r: &RotaryEncoder<CL, D, C>)
        ensures
            r@ == self@.decoder,
            r.wf() == self.wf(),
    {
        &self.encoder
    }

    /// Create a new instance with the given `counter`. The clock line is
    /// sampled once to seed the cached level.
    pub fn with_counter(switch: S, clk: CL, dt: D, counter: C) -> (r: Self)
        requires
            counter.wf(),
        ensures
            r.wf(),
            r@.decoder.counter == counter.value(),
            r@.decoder.direction == RotationDirection::Unknown,
    {
        ClickableRotaryEncoder {
            switch,
            switch_level: Ghost(false),
            encoder: RotaryEncoder::with_counter(clk, dt, counter),
        }
    }

    /// Create a new instance with the counter at zero. The clock line is
    /// sampled once to seed the cached level.
    pub fn new(switch: S, clk: CL, dt: D) -> (r: Self)
        ensures
            r.wf(),
            r@.decoder.counter == 0,
            r@.decoder.direction == RotationDirection::Unknown,
    {
        ClickableRotaryEncoder {
            switch,
            switch_level: Ghost(false),
            encoder: RotaryEncoder::new(clk, dt),
        }
    }

    /// Check whether the push button is held down. One sample of the
    /// switch line is taken, recorded in the model's `switch_level`, and
    /// decoded by the active-low rule of [`pressed_from_level`]: pressed
    /// exactly when the line read low. The embedded decoder's state is
    /// untouched.
    pub fn switch_pressed(&mut self) -> (pressed: bool)
        ensures
            final(self)@.decoder == old(self)@.decoder,
            final(self).wf() == old(self).wf(),
            pressed == !final(self)@.switch_level,
    {
        let level = self.switch.read_level();
        self.switch_level = Ghost(level);
        pressed_from_level(level)
    }

    /// Poll once: decode one rotation step exactly as
    /// [`RotaryEncoder::read`] does, then sample the button as
    /// [`Self::switch_pressed`] does. Both the rotation poll and the
    /// button sample happen on every call; the button part of the result
    /// follows the active-low rule on this call's switch sample, whether
    /// or not a step was detected.
    pub fn read(&mut self) -> (r: (bool, bool))
        requires
            old(self).wf(),
        ensures
            final(self).wf(),
            exists|clk_level: bool, dt_level: bool|
                (#[trigger] step_model(
                    old(self)@.decoder,
                    C::min_value(),
                    C::max_value(),
                    clk_level,
                    dt_level,
                )) == (final(self)@.decoder, r.0),
            !r.0 ==> final(self)@.decoder == old(self)@.decoder,
            r.1 == !final(self)@.switch_level,
    {
        let changed = self.encoder.read();
        let pressed = self.switch_pressed();
        proof {
            assert(old(self)@.decoder == old(self).encoder@);
            assert(self@.decoder == self.encoder@);
        }
        (changed, pressed)
    }

    /// Consume this decoder into an endless polling sequence; it can be
    /// taken back out with [`crate::iter::ClickableEncoderIter::encoder`].
    pub fn iter(self) -> (r: crate::iter::ClickableEncoderIter<S, CL, D, C>)
        ensures
            r@ == self,
    {
        crate::iter::ClickableEncoderIter::new(self)
    }
}

} // verus!
