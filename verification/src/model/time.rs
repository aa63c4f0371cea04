use vstd::prelude::*;

verus! {

/// A rational number expressing seconds per tick for a stream.
/// Constant-rate audio uses `1 / sample_rate`; video uses
/// `framerate_den / framerate_num`.
#[derive(Debug, Clone, Copy, PartialEq, Eq, Structural)]
pub struct Timebase {
    pub num: u32,
    pub den: u32,
}

impl Timebase {
    /// A timebase is a positive rational when both parts are nonzero.
    pub open spec fn is_positive(self) -> bool {
        self.num > 0 && self.den > 0
    }

    pub fn new(num: u32, den: u32) -> (r: Timebase)
        ensures
            r == (Timebase { num, den }),
    {
        Timebase { num, den }
    }
}

} // verus!
