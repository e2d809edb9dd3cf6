//! Pull-based access to the decoders: each pull polls once, and the
//! sequence never ends. The wrapped decoder can be taken back out, so a
//! caller may alternate between pull-based and manual polling.

use vstd::prelude::*;

use crate::counter::StepCounter;
use crate::model::step_model;
use crate::rotary::ClickableRotaryEncoder;
use crate::rotary::RotaryEncoder;
use crate::signal::InputSignal;

verus! {

/// An endless source of poll results over a consumed [`RotaryEncoder`].
pub struct EncoderIter<CL: InputSignal, D: InputSignal, C: StepCounter>(RotaryEncoder<CL, D, C>);

/// An endless source of poll results over a consumed
/// [`ClickableRotaryEncoder`].
pub struct ClickableEncoderIter<S: InputSignal, CL: InputSignal, D: InputSignal, C: StepCounter>(
    ClickableRotaryEncoder<S, CL, D, C>,
);

impl<CL: InputSignal, D: InputSignal, C: StepCounter> View for EncoderIter<CL, D, C> {
    type V = RotaryEncoder<CL, D, C>;

    closed spec fn view(&self) -> RotaryEncoder<CL, D, C> {
        self.0
    }
}

impl<CL: InputSignal, D: InputSignal, C: StepCounter> EncoderIter<CL, D, C> {
    /// Wrap `encoder`, consuming it.
    pub fn new(encoder: RotaryEncoder<CL, D, C>) -> (r: Self)
        ensures
            r@ == encoder,
    {
        EncoderIter(encoder)
    }

    /// Unwrap, handing the decoder back to the caller unchanged.
    pub fn encoder(self) -> (r: RotaryEncoder<CL, D, C>)
        ensures
            r == self@,
    {
        self.0
    }

    /// Pull one result: exactly one call of [`RotaryEncoder::read`] on the
    /// wrapped decoder, under the same contract. Never `None`: the
    /// sequence does not end.
    pub fn next(&mut self) -> (r: Option<bool>)
        requires
            old(self)@.wf(),
        ensures
            final(self)@.wf(),
            r is Some,
            exists|clk_level: bool, dt_level: bool|
                (#[trigger] step_model(
                    (old(self)@)@,
                    C::min_value(),
                    C::max_value(),
                    clk_level,
                    dt_level,
                )) == ((final(self)@)@, r->0),
            r->0 == false ==> (final(self)@)@ == (old(self)@)@,
    {
        Some(self.0.read())
    }
}

impl<S: InputSignal, CL: InputSignal, D: InputSignal, C: StepCounter> View for ClickableEncoderIter<
    S,
    CL,
    D,
    C,
> {
    type V = ClickableRotaryEncoder<S, CL, D, C>;

    closed spec fn view(&self) -> ClickableRotaryEncoder<S, CL, D, C> {
        self.0
    }
}

impl<S: InputSignal, CL: InputSignal, D: InputSignal, C: StepCounter> ClickableEncoderIter<
    S,
    CL,
    D,
    C,
> {
    /// Wrap `encoder`, consuming it.
    pub fn new(encoder: ClickableRotaryEncoder<S, CL, D, C>) -> (r: Self)
        ensures
            r@ == encoder,
    {
        ClickableEncoderIter(encoder)
    }

    /// Unwrap, handing the decoder back to the caller unchanged.
    pub fn encoder(self) -> (r: ClickableRotaryEncoder<S, CL, D, C>)
        ensures
            r == self@,
    {
        self.0
    }

    /// Pull one result: exactly one call of
    /// [`ClickableRotaryEncoder::read`] on the wrapped decoder, under the
    /// same contract, button sample included. Never `None`: the sequence
    /// does not end.
    pub fn next(&mut self) -> (r: Option<(bool, bool)>)
        requires
            old(self)@.wf(),
        ensures
            final(self)@.wf(),
            r is Some,
            exists|clk_level: bool, dt_level: bool|
                (#[trigger] step_model(
                    (old(self)@)@.decoder,
                    C::min_value(),
                    C::max_value(),
                    clk_level,
                    dt_level,
                )) == ((final(self)@)@.decoder, (r->0).0),
            (r->0).0 == false ==> (final(self)@)@.decoder == (old(self)@)@.decoder,
            (r->0).1 == !(final(self)@)@.switch_level,
    {
        Some(self.0.read())
    }
}

} // verus!
