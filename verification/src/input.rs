use vstd::prelude::*;

verus! {

/// Which keys or buttons are down in this frame and which were down in
/// the frame before, by codes that stand for them.
pub struct PressState {
    pressed: Vec<u64>,
    previous: Vec<u64>,
}

/// Whether `code` is among the first `upto` elements.
spec fn among(codes: Seq<u64>, code: u64, upto: int) -> bool {
    exists|i: int| 0 <= i < upto && i < codes.len() && codes[i] == code
}

/// Whether a vector of codes holds `code`.
fn holds(codes: &Vec<u64>, code: u64) -> (found: bool)
    ensures
        found == codes@.to_set().contains(code),
{
    let mut i: usize = 0;
    while i < codes.len()
        invariant
            i <= codes@.len(),
            !among(codes@, code, i as int),
        decreases codes@.len() - i,
    {
        if codes[i] == code {
            assert(codes@.contains(code));
            return true;
        }
        i += 1;
    }
    proof {
        if codes@.contains(code) {
            let j = choose|j: int| 0 <= j < codes@.len() && codes@[j] == code;
            assert(among(codes@, code, codes@.len() as int));
        }
    }
    false
}

impl PressState {
    /// The codes that are down in this frame.
    pub closed spec fn pressed(&self) -> Set<u64> {
        self.pressed@.to_set()
    }

    /// The codes that were down when the frame began.
    pub closed spec fn previous(&self) -> Set<u64> {
        self.previous@.to_set()
    }

    /// A state in which nothing is down or was down.
    pub fn new() -> (state: Self)
        ensures
            state.pressed() == Set::<u64>::empty(),
            state.previous() == Set::<u64>::empty(),
    {
        let state = PressState { pressed: Vec::new(), previous: Vec::new() };
        proof {
            assert(state.pressed@.to_set() =~= Set::<u64>::empty());
            assert(state.previous@.to_set() =~= Set::<u64>::empty());
        }
        state
    }

    /// Ends the frame: what is down now is what was down before the next.
    pub fn update(&mut self)
        ensures
            final(self).pressed() == old(self).pressed(),
            final(self).previous() == old(self).pressed(),
    {
        let mut copy: Vec<u64> = Vec::new();
        let mut i: usize = 0;
        while i < self.pressed.len()
            invariant
                i <= self.pressed@.len(),
                copy@ == self.pressed@.subrange(0, i as int),
            decreases self.pressed@.len() - i,
        {
            copy.push(self.pressed[i]);
            proof {
                assert(copy@ =~= self.pressed@.subrange(0, i + 1));
            }
            i += 1;
        }
        proof {
            assert(copy@ =~= self.pressed@);
        }
        self.previous = copy;
    }

    /// Records that `code` went down.
    pub fn press(&mut self, code: u64)
        ensures
            final(self).pressed() == old(self).pressed().insert(code),
            final(self).previous() == old(self).previous(),
    {
        if !holds(&self.pressed, code) {
            self.pressed.push(code);
            proof {
                assert forall|x: u64|
                    self.pressed@.to_set().contains(x) <==> old(self).pressed@.to_set().insert(
                        code,
                    ).contains(x) by {
                    if self.pressed@.to_set().contains(x) {
                        let j = choose|j: int| 0 <= j < self.pressed@.len() && self.pressed@[j] == x;
                        if j < old(self).pressed@.len() {
                            assert(old(self).pressed@[j] == x);
                        }
                    }
                    if old(self).pressed@.to_set().insert(code).contains(x) {
                        if x == code {
                            assert(self.pressed@[old(self).pressed@.len() as int] == x);
                        } else {
                            let j = choose|j: int|
                                0 <= j < old(self).pressed@.len() && old(self).pressed@[j] == x;
                            assert(self.pressed@[j] == x);
                        }
                    }
                }
                assert(self.pressed@.to_set() =~= old(self).pressed@.to_set().insert(code));
            }
        } else {
            proof {
                assert(self.pressed@.to_set() =~= old(self).pressed@.to_set().insert(code));
            }
        }
    }

    /// Records that `code` went up.
    pub fn release(&mut self, code: u64)
        ensures
            final(self).pressed() == old(self).pressed().remove(code),
            final(self).previous() == old(self).previous(),
    {
        let mut kept: Vec<u64> = Vec::new();
        let mut i: usize = 0;
        while i < self.pressed.len()
            invariant
                i <= self.pressed@.len(),
                forall|x: u64|
                    kept@.contains(x) <==> x != code && among(self.pressed@, x, i as int),
            decreases self.pressed@.len() - i,
        {
            let c = self.pressed[i];
            let ghost before = kept@;
            if c != code {
                kept.push(c);
            }
            proof {
                assert forall|x: u64|
                    kept@.contains(x) <==> x != code && among(self.pressed@, x, i + 1) by {
                    if kept@.contains(x) {
                        let j = choose|j: int| 0 <= j < kept@.len() && kept@[j] == x;
                        if j < before.len() {
                            assert(before[j] == x);
                            assert(before.contains(x));
                            let k = choose|k: int|
                                0 <= k < i && k < self.pressed@.len() && self.pressed@[k] == x;
                            assert(0 <= k < i + 1 && self.pressed@[k] == x);
                        } else {
                            assert(self.pressed@[i as int] == x);
                        }
                    }
                    if x != code && among(self.pressed@, x, i + 1) {
                        let k = choose|k: int|
                            0 <= k < i + 1 && k < self.pressed@.len() && self.pressed@[k] == x;
                        if k < i {
                            assert(among(self.pressed@, x, i as int));
                            assert(before.contains(x));
                            let j = choose|j: int| 0 <= j < before.len() && before[j] == x;
                            assert(kept@[j] == x);
                        } else {
                            assert(kept@[kept@.len() - 1] == x);
                        }
                    }
                }
            }
            i += 1;
        }
        proof {
            assert forall|x: u64|
                kept@.to_set().contains(x) <==> self.pressed@.to_set().remove(code).contains(x) by {
                if self.pressed@.to_set().remove(code).contains(x) {
                    let j = choose|j: int| 0 <= j < self.pressed@.len() && self.pressed@[j] == x;
                    assert(among(self.pressed@, x, self.pressed@.len() as int));
                }
                if kept@.to_set().contains(x) {
                    assert(kept@.contains(x));
                    let k = choose|k: int|
                        0 <= k < self.pressed@.len() && k < self.pressed@.len() && self.pressed@[k]
                            == x;
                    assert(self.pressed@.contains(x));
                }
            }
            assert(kept@.to_set() =~= self.pressed@.to_set().remove(code));
        }
        self.pressed = kept;
    }

    /// Whether `code` is down.
    pub fn is_pressed(&self, code: u64) -> (down: bool)
        ensures
            down == self.pressed().contains(code),
    {
        holds(&self.pressed, code)
    }

    /// Whether `code` went down in this frame.
    pub fn just_pressed(&self, code: u64) -> (down: bool)
        ensures
            down == (self.pressed().contains(code) && !self.previous().contains(code)),
    {
        holds(&self.pressed, code) && !holds(&self.previous, code)
    }

    /// Whether `code` went up in this frame.
    pub fn just_released(&self, code: u64) -> (up: bool)
        ensures
            up == (!self.pressed().contains(code) && self.previous().contains(code)),
    {
        !holds(&self.pressed, code) && holds(&self.previous, code)
    }
}

} // verus!
