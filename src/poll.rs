use vstd::prelude::*;

verus! {

/// Follows the levels sampled from an input line and tells when one differs
/// from the one before.
#[derive(Clone, Copy, Debug, PartialEq, Eq, Structural)]
pub struct LevelWatch {
    /// The level sampled last; `None` before the first sample.
    pub last: Option<u8>,
}

impl LevelWatch {
    pub fn new() -> (w: LevelWatch)
        ensures
            w.last is None,
    {
        LevelWatch { last: None }
    }

    /// Records `level`; true when it is the first sample or differs from the last.
    pub fn observe(&mut self, level: u8) -> (changed: bool)
        ensures
            changed == (old(self).last != Some(level)),
            final(self).last == Some(level),
    {
        let changed = match self.last {
            None => true,
            Some(prev) => prev != level,
        };
        self.last = Some(level);
        changed
    }
}

/// The name of a sampled level: 0 is low, anything else high.
pub fn level_name(level: u8) -> (r: &'static str)
    ensures
        level == 0 ==> r@ == "Low"@,
        level != 0 ==> r@ == "High"@,
{
    if level == 0 {
        "Low"
    } else {
        "High"
    }
}

} // verus!
