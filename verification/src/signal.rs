use vstd::prelude::*;

verus! {

/// The capability a decoder reads its lines through: one synchronous,
/// infallible sample of a digital level, `true` for high. Hardware pin
/// bindings implement this outside the library; nothing is assumed about
/// the level a sample returns, so every decoder contract holds whatever
/// the line does.
pub trait InputSignal {
    /// Sample the line once and report whether it reads high.
    fn read_level(&mut self) -> bool;
}

/// A scripted input line for tests and simulation: it replays a fixed list
/// of levels, one per sample, and keeps reporting the final level once the
/// list is exhausted. An empty script reads low forever.
pub struct SignalTrace {
    levels: Vec<bool>,
    position: usize,
}

impl SignalTrace {
    /// The scripted levels, in the order they are replayed.
    pub closed spec fn script(&self) -> Seq<bool> {
        self.levels@
    }

    /// How many samples have been taken so far, capped at the script's end.
    pub closed spec fn cursor(&self) -> int {
        self.position as int
    }

    /// Build a line that will replay `levels`.
    pub fn new(levels: Vec<bool>) -> (r: Self)
        ensures
            r.script() == levels@,
            r.cursor() == 0,
    {
        SignalTrace { levels, position: 0 }
    }
}

impl InputSignal for SignalTrace {
    fn read_level(&mut self) -> (r: bool)
        ensures
            final(self).script() == old(self).script(),
            old(self).cursor() < old(self).script().len() ==> {
                &&& r == old(self).script()[old(self).cursor()]
                &&& final(self).cursor() == old(self).cursor() + 1
            },
            old(self).cursor() >= old(self).script().len() ==> {
                &&& final(self).cursor() == old(self).cursor()
                &&& r == (if old(self).script().len() > 0 {
                    old(self).script().last()
                } else {
                    false
                })
            },
    {
        if self.position < self.levels.len() {
            let level = self.levels[self.position];
            self.position = self.position + 1;
            level
        } else if self.levels.len() > 0 {
            self.levels[self.levels.len() - 1]
        } else {
            false
        }
    }
}

} // verus!
