use vstd::prelude::*;

verus! {

/// The crusher's two switch controls as last handed to it: automatic gain
/// (else the fixed gain) and symmetric quantization (else asymmetric).
#[derive(Clone, Copy, Debug, PartialEq, Eq, Structural)]
pub struct Switches {
    pub auto_gain: bool,
    pub symmetric: bool,
}

/// Which switches an update found different from the recorded ones.
#[derive(Clone, Copy, Debug, PartialEq, Eq, Structural)]
pub struct SwitchChanges {
    pub auto_gain: bool,
    pub symmetric: bool,
}

impl Switches {
    /// The defaults of a fresh crusher: fixed gain, asymmetric mode.
    pub fn new() -> (r: Switches)
        ensures
            !r.auto_gain,
            !r.symmetric,
    {
        Switches { auto_gain: false, symmetric: false }
    }

    /// Records the host's current switch values and reports which of them
    /// differ from those recorded before, so that only those are passed on.
    pub fn update(&mut self, auto_gain: bool, symmetric: bool) -> (r: SwitchChanges)
        ensures
            final(self).auto_gain == auto_gain,
            final(self).symmetric == symmetric,
            r.auto_gain == (auto_gain != old(self).auto_gain),
            r.symmetric == (symmetric != old(self).symmetric),
    {
        let changes = SwitchChanges {
            auto_gain: auto_gain != self.auto_gain,
            symmetric: symmetric != self.symmetric,
        };
        self.auto_gain = auto_gain;
        self.symmetric = symmetric;
        changes
    }
}

} // verus!
