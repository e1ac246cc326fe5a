//! The opacity ladder: five fixed levels that the window steps through in a
//! circle, one step per request.

use vstd::prelude::*;

verus! {

/// The number of levels on the ladder.
pub const OPACITY_STEPS: usize = 5;

/// The levels in the order they are stepped through, in per cent of full
/// opacity: fully opaque first, then down in tenths.
pub open spec fn opacity_levels() -> Seq<u8> {
    seq![100u8, 90u8, 80u8, 70u8, 60u8]
}

/// The position that follows `index` on the ladder; the last is followed by
/// the first.
pub open spec fn next_index(index: int) -> int {
    (index + 1) % (OPACITY_STEPS as int)
}

/// The position reached from `index` after `count` steps.
pub open spec fn index_after(index: int, count: nat) -> int
    decreases count,
{
    if count == 0 {
        index
    } else {
        next_index(index_after(index, (count - 1) as nat))
    }
}

/// The levels handed out by `count` steps in a row that start from
/// `index`, in the order of the steps.
pub open spec fn levels_after(index: int, count: nat) -> Seq<u8> {
    Seq::new(count, |i: int| opacity_levels()[index_after(index, (i + 1) as nat)])
}

/// The level at position `index`, in per cent.
pub fn opacity_percent(index: usize) -> (percent: u8)
    requires
        index < OPACITY_STEPS,
    ensures
        percent == opacity_levels()[index as int],
{
    if index == 0 {
        100
    } else if index == 1 {
        90
    } else if index == 2 {
        80
    } else if index == 3 {
        70
    } else {
        60
    }
}

/// What a running session keeps in memory: the current position on the
/// opacity ladder. It is never stored, and every session starts at the
/// first level.
#[derive(Debug)]
pub struct AppState {
    opacity_ix: usize,
}

impl AppState {
    #[verifier::type_invariant]
    spec fn on_ladder(self) -> bool {
        self.opacity_ix < OPACITY_STEPS
    }

    /// The current position on the ladder.
    pub closed spec fn index(&self) -> int {
        self.opacity_ix as int
    }

    /// The state of a fresh session: the first, fully opaque level.
    pub fn new() -> (state: AppState)
        ensures
            state.index() == 0,
    {
        AppState { opacity_ix: 0 }
    }

    /// The current position on the ladder, always below `OPACITY_STEPS`.
    pub fn opacity_ix(&self) -> (index: usize)
        ensures
            index == self.index(),
            index < OPACITY_STEPS,
    {
        proof {
            use_type_invariant(self);
        }
        self.opacity_ix
    }

    /// Steps to the next level, from the last back to the first, and
    /// returns the level reached, in per cent.
    pub fn advance(&mut self) -> (percent: u8)
        ensures
            final(self).index() == next_index(old(self).index()),
            0 <= final(self).index() < OPACITY_STEPS,
            percent == opacity_levels()[final(self).index()],
    {
        proof {
            use_type_invariant(&*self);
        }
        let next: usize = (self.opacity_ix + 1) % OPACITY_STEPS;
        self.opacity_ix = next;
        opacity_percent(next)
    }
}

impl Default for AppState {
    fn default() -> (state: AppState)
        ensures
            state.index() == 0,
    {
        AppState::new()
    }
}

/// A position on the ladder stays on the ladder, however many steps follow.
pub proof fn lemma_index_stays_on_ladder(index: int, count: nat)
    requires
        0 <= index < OPACITY_STEPS,
    ensures
        0 <= index_after(index, count) < OPACITY_STEPS,
    decreases count,
{
    if count > 0 {
        lemma_index_stays_on_ladder(index, (count - 1) as nat);
    }
}

/// Steps add up around the circle: `count` steps from `index` end at
/// `(index + count) mod 5`.
pub proof fn lemma_index_after(index: int, count: nat)
    requires
        0 <= index < OPACITY_STEPS,
    ensures
        index_after(index, count) == (index + count) % (OPACITY_STEPS as int),
    decreases count,
{
    if count > 0 {
        lemma_index_after(index, (count - 1) as nat);
    }
}

/// The ladder has period five: five more steps end where fewer did.
pub proof fn lemma_period(index: int, count: nat)
    requires
        0 <= index < OPACITY_STEPS,
    ensures
        index_after(index, count + 5) == index_after(index, count),
{
    lemma_index_after(index, count);
    lemma_index_after(index, count + 5);
}

/// From a fresh session, the `k`-th step in a row hands out the level at
/// position `k mod 5`: 90, 80, 70, 60, 100, and then the same again. No
/// level is skipped and none comes out of turn.
pub proof fn lemma_levels_from_fresh(count: nat)
    ensures
        levels_after(0, count).len() == count,
        forall|i: int|
            0 <= i < count ==> #[trigger] levels_after(0, count)[i] == opacity_levels()[(i + 1)
                % 5],
        forall|i: int|
            0 <= i < count ==> #[trigger] levels_after(0, count)[i] == 100 - 10 * ((i + 1) % 5),
{
    assert forall|i: int| 0 <= i < count implies #[trigger] levels_after(0, count)[i]
        == opacity_levels()[(i + 1) % 5] && levels_after(0, count)[i] == 100 - 10 * ((i + 1)
        % 5) by {
        lemma_index_after(0, (i + 1) as nat);
    }
}

} // verus!
