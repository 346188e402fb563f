//! The sixteen-key input state, with the previous frame's snapshot for
//! edge detection.

use vstd::prelude::*;

verus! {

pub const KEY_COUNT: usize = 16;

/// Key `k` went down between the previous frame and this one.
pub open spec fn press_edge(previous: Seq<bool>, current: Seq<bool>, k: int) -> bool {
    !previous[k] && current[k]
}

/// The lowest key at or above `k` that went down since the previous frame.
pub open spec fn first_press_from(previous: Seq<bool>, current: Seq<bool>, k: int) -> Option<u8>
    decreases KEY_COUNT - k,
{
    if k < 0 || k >= KEY_COUNT {
        None
    } else if press_edge(previous, current, k) {
        Some(k as u8)
    } else {
        first_press_from(previous, current, k + 1)
    }
}

/// The lowest key that went down since the previous frame.
pub open spec fn first_press_spec(previous: Seq<bool>, current: Seq<bool>) -> Option<u8> {
    first_press_from(previous, current, 0)
}

/// Where key `k` is the only one at or above `j` and at or below `k` that
/// went down, the search from `j` finds it.
pub proof fn lemma_first_press_finds(previous: Seq<bool>, current: Seq<bool>, j: int, k: int)
    requires
        0 <= j <= k < KEY_COUNT,
        press_edge(previous, current, k),
        forall|i: int| j <= i < k ==> !press_edge(previous, current, i),
    ensures
        first_press_from(previous, current, j) == Some(k as u8),
    decreases k - j,
{
    if j < k {
        lemma_first_press_finds(previous, current, j + 1, k);
    }
}

/// Where no key at or above `j` went down, the search from `j` finds none.
pub proof fn lemma_first_press_none(previous: Seq<bool>, current: Seq<bool>, j: int)
    requires
        0 <= j,
        forall|i: int| j <= i < KEY_COUNT ==> !press_edge(previous, current, i),
    ensures
        first_press_from(previous, current, j) is None,
    decreases KEY_COUNT - j,
{
    if j < KEY_COUNT {
        lemma_first_press_none(previous, current, j + 1);
    }
}

/// Which keys are down in this frame and which were in the previous one.
pub struct Keypad {
    current: Vec<bool>,
    previous: Vec<bool>,
}

impl Keypad {
    /// Keys down in this frame.
    pub closed spec fn down(&self) -> Seq<bool> {
        self.current@
    }

    /// Keys that were down in the previous frame.
    pub closed spec fn was_down(&self) -> Seq<bool> {
        self.previous@
    }

    pub open spec fn wf(&self) -> bool {
        &&& self.down().len() == KEY_COUNT
        &&& self.was_down().len() == KEY_COUNT
    }

    /// All keys up, in this frame and the previous one.
    pub fn new() -> (r: Keypad)
        ensures
            r.wf(),
            forall|k: int| 0 <= k < KEY_COUNT ==> !#[trigger] r.down()[k] && !r.was_down()[k],
    {
        Keypad { current: vec![false; KEY_COUNT], previous: vec![false; KEY_COUNT] }
    }

    /// Records that key `key` is down or up in this frame.
    pub fn set_key(&mut self, key: u8, down: bool)
        requires
            old(self).wf(),
            key < KEY_COUNT,
        ensures
            final(self).down() == old(self).down().update(key as int, down),
            final(self).was_down() == old(self).was_down(),
    {
        self.current.set(key as usize, down);
    }

    /// Starts a new frame: this frame's keys become the previous frame's.
    pub fn begin_frame(&mut self)
        requires
            old(self).wf(),
        ensures
            final(self).down() == old(self).down(),
            final(self).was_down() == old(self).down(),
    {
        self.previous = self.current.clone();
    }

    pub fn is_down(&self, key: u8) -> (r: bool)
        requires
            self.wf(),
            key < KEY_COUNT,
        ensures
            r == self.down()[key as int],
    {
        self.current[key as usize]
    }

    /// The lowest key that is down in this frame and was up in the previous
    /// one, if any.
    pub fn first_press(&self) -> (r: Option<u8>)
        requires
            self.wf(),
        ensures
            r == first_press_spec(self.was_down(), self.down()),
            r matches Some(k) ==> k < KEY_COUNT && press_edge(self.was_down(), self.down(), k as int)
                && forall|j: int| 0 <= j < k ==> !press_edge(self.was_down(), self.down(), j),
            r is None ==> forall|k: int|
                0 <= k < KEY_COUNT ==> !press_edge(self.was_down(), self.down(), k),
    {
        let mut k: usize = 0;
        while k < KEY_COUNT
            invariant
                self.wf(),
                k <= KEY_COUNT,
                first_press_spec(self.was_down(), self.down()) == first_press_from(
                    self.was_down(),
                    self.down(),
                    k as int,
                ),
                forall|j: int| 0 <= j < k ==> !press_edge(self.was_down(), self.down(), j),
            decreases KEY_COUNT - k,
        {
            if !self.previous[k] && self.current[k] {
                return Some(k as u8);
            }
            k = k + 1;
        }
        None
    }
}

} // verus!
