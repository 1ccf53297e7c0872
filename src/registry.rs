use vstd::prelude::*;

verus! {

/// The set of line indices currently claimed for export, so that no two
/// owners ever export the same line.
#[derive(Clone, Debug)]
pub struct PinRegistry {
    held: Vec<u64>,
}

impl View for PinRegistry {
    type V = Set<u64>;

    closed spec fn view(&self) -> Set<u64> {
        self.held@.to_set()
    }
}

impl PinRegistry {
    /// Each index is listed once.
    pub closed spec fn wf(&self) -> bool {
        self.held@.no_duplicates()
    }

    pub fn new() -> (r: PinRegistry)
        ensures
            r.wf(),
            r@ == Set::<u64>::empty(),
    {
        let r = PinRegistry { held: Vec::new() };
        proof {
            assert(r.held@.to_set() =~= Set::<u64>::empty());
        }
        r
    }

    fn position_of(&self, pin: u64) -> (r: Option<usize>)
        ensures
            r matches Some(i) ==> i < self.held@.len() && self.held@[i as int] == pin,
            r is None ==> !self.held@.contains(pin),
    {
        let mut i: usize = 0;
        while i < self.held.len()
            invariant
                i <= self.held@.len(),
                forall|j: int| 0 <= j < i ==> self.held@[j] != pin,
            decreases self.held@.len() - i,
        {
            if self.held[i] == pin {
                return Some(i);
            }
            i = i + 1;
        }
        None
    }

    pub fn is_claimed(&self, pin: u64) -> (r: bool)
        ensures
            r == self@.contains(pin),
    {
        self.position_of(pin).is_some()
    }

    /// Claims `pin` for one owner: true when it was free, and it is held after.
    pub fn claim(&mut self, pin: u64) -> (r: bool)
        requires
            old(self).wf(),
        ensures
            final(self).wf(),
            r == !old(self)@.contains(pin),
            final(self)@ == old(self)@.insert(pin),
    {
        match self.position_of(pin) {
            Some(_) => {
                proof {
                    assert(self@.insert(pin) =~= self@);
                }
                false
            },
            None => {
                self.held.push(pin);
                proof {
                    let old_held = old(self).held@;
                    assert(self.held@ == old_held.push(pin));
                    assert forall|x: u64| #[trigger] self.held@.contains(x) == (old_held.contains(x)
                        || x == pin) by {
                        if old_held.contains(x) {
                            let k = choose|k: int| 0 <= k < old_held.len() && old_held[k] == x;
                            assert(self.held@[k] == x);
                        }
                        if x == pin {
                            assert(self.held@[old_held.len() as int] == x);
                        }
                    }
                    assert(self@ =~= old(self)@.insert(pin));
                }
                true
            },
        }
    }

    /// Gives `pin` back: true when it was held, and it is free after.
    pub fn release(&mut self, pin: u64) -> (r: bool)
        requires
            old(self).wf(),
        ensures
            final(self).wf(),
            r == old(self)@.contains(pin),
            final(self)@ == old(self)@.remove(pin),
    {
        match self.position_of(pin) {
            None => {
                proof {
                    assert(self@.remove(pin) =~= self@);
                }
                false
            },
            Some(i) => {
                let ghost old_held = self.held@;
                self.held.swap_remove(i);
                proof {
                    assert(self.held@.no_duplicates()) by {
                        assert forall|a: int, b: int|
                            0 <= a < self.held@.len() && 0 <= b < self.held@.len() && a != b
                            implies self.held@[a] != self.held@[b] by {
                            let ia = if a == i { old_held.len() - 1 } else { a };
                            let ib = if b == i { old_held.len() - 1 } else { b };
                            assert(self.held@[a] == old_held[ia]);
                            assert(self.held@[b] == old_held[ib]);
                        }
                    }
                    assert forall|x: u64| #[trigger] self@.contains(x) == (old(self)@.contains(x)
                        && x != pin) by {
                        if old(self)@.contains(x) && x != pin {
                            let k = choose|k: int| 0 <= k < old_held.len() && old_held[k] == x;
                            let m = if k == old_held.len() - 1 { i as int } else { k };
                            assert(self.held@[m] == x);
                        }
                        if self@.contains(x) {
                            let k = choose|k: int| 0 <= k < self.held@.len() && self.held@[k] == x;
                            let m = if k == i { old_held.len() - 1 } else { k };
                            assert(old_held[m] == x);
                        }
                    }
                    assert(self@ =~= old(self)@.remove(pin));
                }
                true
            },
        }
    }
}

/// Owners of distinct lines do not interfere: claiming or releasing line `a`
/// leaves whether line `b` is claimed as it was, so a claim of a free `b`
/// succeeds whatever happens to `a`.
pub proof fn lemma_distinct_pins_independent(held: Set<u64>, a: u64, b: u64)
    requires
        a != b,
    ensures
        held.insert(a).contains(b) == held.contains(b),
        held.remove(a).contains(b) == held.contains(b),
{
}

} // verus!
