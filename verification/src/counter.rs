use vstd::prelude::*;

verus! {

/// The numeric policy a decoder counts steps with: a fixed-width integer
/// value with known bounds. A step up wraps to zero exactly at the maximum
/// representable value; a step down clamps at the minimum representable
/// value. The asymmetry is deliberate and part of the decoder's observable
/// behaviour.
pub trait StepCounter: Sized {
    /// The counter's value as a mathematical integer.
    spec fn value(&self) -> int;

    /// The smallest value the counter type can represent.
    spec fn min_value() -> int;

    /// The largest value the counter type can represent.
    spec fn max_value() -> int;

    /// Validity of the representation; always true for primitive integers.
    spec fn wf(&self) -> bool;

    /// A valid counter lies between the bounds, and zero is representable.
    proof fn lemma_bounds(&self)
        requires
            self.wf(),
        ensures
            Self::min_value() <= self.value() <= Self::max_value(),
            Self::min_value() <= 0 <= Self::max_value();

    /// The counter at zero.
    fn zero() -> (r: Self)
        ensures
            r.wf(),
            r.value() == 0;

    /// One step up; wraps to zero at the maximum.
    fn step_up(&self) -> (r: Self)
        requires
            self.wf(),
        ensures
            r.wf(),
            self.value() < Self::max_value() ==> r.value() == self.value() + 1,
            self.value() == Self::max_value() ==> r.value() == 0;

    /// One step down; clamps at the minimum.
    fn step_down(&self) -> (r: Self)
        requires
            self.wf(),
        ensures
            r.wf(),
            self.value() > Self::min_value() ==> r.value() == self.value() - 1,
            self.value() == Self::min_value() ==> r.value() == self.value();
}

impl StepCounter for u8 {
    open spec fn value(&self) -> int {
        *self as int
    }

    open spec fn min_value() -> int {
        0
    }

    open spec fn max_value() -> int {
        255
    }

    open spec fn wf(&self) -> bool {
        true
    }

    proof fn lemma_bounds(&self) {
    }

    fn zero() -> (r: Self) {
        0
    }

    fn step_up(&self) -> (r: Self) {
        if *self == 255 {
            0
        } else {
            *self + 1
        }
    }

    fn step_down(&self) -> (r: Self) {
        if *self == 0 {
            *self
        } else {
            *self - 1
        }
    }
}

impl StepCounter for i8 {
    open spec fn value(&self) -> int {
        *self as int
    }

    open spec fn min_value() -> int {
        -128
    }

    open spec fn max_value() -> int {
        127
    }

    open spec fn wf(&self) -> bool {
        true
    }

    proof fn lemma_bounds(&self) {
    }

    fn zero() -> (r: Self) {
        0
    }

    fn step_up(&self) -> (r: Self) {
        if *self == 127 {
            0
        } else {
            *self + 1
        }
    }

    fn step_down(&self) -> (r: Self) {
        if *self == -128 {
            *self
        } else {
            *self - 1
        }
    }
}

impl StepCounter for u16 {
    open spec fn value(&self) -> int {
        *self as int
    }

    open spec fn min_value() -> int {
        0
    }

    open spec fn max_value() -> int {
        0xffff
    }

    open spec fn wf(&self) -> bool {
        true
    }

    proof fn lemma_bounds(&self) {
    }

    fn zero() -> (r: Self) {
        0
    }

    fn step_up(&self) -> (r: Self) {
        if *self == 0xffff {
            0
        } else {
            *self + 1
        }
    }

    fn step_down(&self) -> (r: Self) {
        if *self == 0 {
            *self
        } else {
            *self - 1
        }
    }
}

impl StepCounter for i16 {
    open spec fn value(&self) -> int {
        *self as int
    }

    open spec fn min_value() -> int {
        -0x8000
    }

    open spec fn max_value() -> int {
        0x7fff
    }

    open spec fn wf(&self) -> bool {
        true
    }

    proof fn lemma_bounds(&self) {
    }

    fn zero() -> (r: Self) {
        0
    }

    fn step_up(&self) -> (r: Self) {
        if *self == 0x7fff {
            0
        } else {
            *self + 1
        }
    }

    fn step_down(&self) -> (r: Self) {
        if *self == -0x8000 {
            *self
        } else {
            *self - 1
        }
    }
}

impl StepCounter for u32 {
    open spec fn value(&self) -> int {
        *self as int
    }

    open spec fn min_value() -> int {
        0
    }

    open spec fn max_value() -> int {
        0xffff_ffff
    }

    open spec fn wf(&self) -> bool {
        true
    }

    proof fn lemma_bounds(&self) {
    }

    fn zero() -> (r: Self) {
        0
    }

    fn step_up(&self) -> (r: Self) {
        if *self == 0xffff_ffff {
            0
        } else {
            *self + 1
        }
    }

    fn step_down(&self) -> (r: Self) {
        if *self == 0 {
            *self
        } else {
            *self - 1
        }
    }
}

impl StepCounter for i32 {
    open spec fn value(&self) -> int {
        *self as int
    }

    open spec fn min_value() -> int {
        -0x8000_0000
    }

    open spec fn max_value() -> int {
        0x7fff_ffff
    }

    open spec fn wf(&self) -> bool {
        true
    }

    proof fn lemma_bounds(&self) {
    }

    fn zero() -> (r: Self) {
        0
    }

    fn step_up(&self) -> (r: Self) {
        if *self == 0x7fff_ffff {
            0
        } else {
            *self + 1
        }
    }

    fn step_down(&self) -> (r: Self) {
        if *self == -0x8000_0000 {
            *self
        } else {
            *self - 1
        }
    }
}

impl StepCounter for u64 {
    open spec fn value(&self) -> int {
        *self as int
    }

    open spec fn min_value() -> int {
        0
    }

    open spec fn max_value() -> int {
        0xffff_ffff_ffff_ffff
    }

    open spec fn wf(&self) -> bool {
        true
    }

    proof fn lemma_bounds(&self) {
    }

    fn zero() -> (r: Self) {
        0
    }

    fn step_up(&self) -> (r: Self) {
        if *self == 0xffff_ffff_ffff_ffff {
            0
        } else {
            *self + 1
        }
    }

    fn step_down(&self) -> (r: Self) {
        if *self == 0 {
            *self
        } else {
            *self - 1
        }
    }
}

impl StepCounter for i64 {
    open spec fn value(&self) -> int {
        *self as int
    }

    open spec fn min_value() -> int {
        -0x8000_0000_0000_0000
    }

    open spec fn max_value() -> int {
        0x7fff_ffff_ffff_ffff
    }

    open spec fn wf(&self) -> bool {
        true
    }

    proof fn lemma_bounds(&self) {
    }

    fn zero() -> (r: Self) {
        0
    }

    fn step_up(&self) -> (r: Self) {
        if *self == 0x7fff_ffff_ffff_ffff {
            0
        } else {
            *self + 1
        }
    }

    fn step_down(&self) -> (r: Self) {
        if *self == -0x8000_0000_0000_0000 {
            *self
        } else {
            *self - 1
        }
    }
}

impl StepCounter for usize {
    open spec fn value(&self) -> int {
        *self as int
    }

    open spec fn min_value() -> int {
        0
    }

    open spec fn max_value() -> int {
        usize::MAX as int
    }

    open spec fn wf(&self) -> bool {
        true
    }

    proof fn lemma_bounds(&self) {
    }

    fn zero() -> (r: Self) {
        0
    }

    fn step_up(&self) -> (r: Self) {
        if *self == usize::MAX {
            0
        } else {
            *self + 1
        }
    }

    fn step_down(&self) -> (r: Self) {
        if *self == 0 {
            *self
        } else {
            *self - 1
        }
    }
}

impl StepCounter for isize {
    open spec fn value(&self) -> int {
        *self as int
    }

    open spec fn min_value() -> int {
        isize::MIN as int
    }

    open spec fn max_value() -> int {
        isize::MAX as int
    }

    open spec fn wf(&self) -> bool {
        true
    }

    proof fn lemma_bounds(&self) {
    }

    fn zero() -> (r: Self) {
        0
    }

    fn step_up(&self) -> (r: Self) {
        if *self == isize::MAX {
            0
        } else {
            *self + 1
        }
    }

    fn step_down(&self) -> (r: Self) {
        if *self == isize::MIN {
            *self
        } else {
            *self - 1
        }
    }
}

/// A counter confined to the four values of a two-bit register, for
/// encoders whose position is read modulo a small cycle. It exercises the
/// bound policies without a primitive integer of that width.
#[derive(Clone, Copy, Debug, PartialEq, Eq, Structural)]
pub struct TwoBitCounter {
    bits: u8,
}

impl TwoBitCounter {
    /// Build a counter holding `bits`, which must fit in two bits.
    pub fn new(bits: u8) -> (r: Self)
        requires
            bits <= 3,
        ensures
            r.wf(),
            r.value() == bits as int,
    {
        TwoBitCounter { bits }
    }

    /// The held value, always at most three.
    pub fn get(&self) -> (r: u8)
        requires
            self.wf(),
        ensures
            r as int == self.value(),
            r <= 3,
    {
        self.bits
    }
}

impl StepCounter for TwoBitCounter {
    closed spec fn value(&self) -> int {
        self.bits as int
    }

    open spec fn min_value() -> int {
        0
    }

    open spec fn max_value() -> int {
        3
    }

    closed spec fn wf(&self) -> bool {
        self.bits <= 3
    }

    proof fn lemma_bounds(&self) {
    }

    fn zero() -> (r: Self) {
        TwoBitCounter { bits: 0 }
    }

    fn step_up(&self) -> (r: Self) {
        if self.bits == 3 {
            TwoBitCounter { bits: 0 }
        } else {
            TwoBitCounter { bits: self.bits + 1 }
        }
    }

    fn step_down(&self) -> (r: Self) {
        if self.bits == 0 {
            *self
        } else {
            TwoBitCounter { bits: self.bits - 1 }
        }
    }
}

} // verus!
