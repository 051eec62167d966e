use vstd::prelude::*;

verus! {

/// Number of parameter steps a curve is sampled at: the parameter runs over
/// `k / STEPS` for `k` in `0..=STEPS`.
pub const STEPS: u32 = 1000;

/// A finite sequence of sampling ticks `0, 1, ..., STEPS`; tick `k` stands for
/// the curve parameter `t = k / STEPS`.
#[derive(Clone, Copy, Debug, PartialEq, Eq, Structural)]
pub struct TickTimer {
    pub tick: u32,
}

impl TickTimer {
    /// The ticks still to come.
    pub open spec fn remaining(self) -> Seq<u32> {
        Seq::new(
            if self.tick <= STEPS { (STEPS + 1 - self.tick) as nat } else { 0 },
            |i: int| (self.tick + i) as u32,
        )
    }

    /// A timer at the start of its ticks.
    pub fn new() -> (r: TickTimer)
        ensures
            r.tick == 0,
    {
        TickTimer { tick: 0 }
    }

    /// Yields the next tick, or `None` once every tick up to `STEPS` was given.
    pub fn next(&mut self) -> (r: Option<u32>)
        ensures
            old(self).tick <= STEPS ==> r == Some(old(self).tick) && final(self).tick
                == old(self).tick + 1,
            old(self).tick > STEPS ==> r.is_none() && *final(self) == *old(self),
            final(self).remaining() =~= if old(self).tick <= STEPS {
                old(self).remaining().drop_first()
            } else {
                old(self).remaining()
            },
    {
        if self.tick > STEPS {
            None
        } else {
            let t = self.tick;
            self.tick = self.tick + 1;
            Some(t)
        }
    }
}

} // verus!
