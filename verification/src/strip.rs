//! The strip of tiles: its size, keyboard focus over it, and the key
//! presses one frame delivers.
use vstd::prelude::*;

verus! {

/// The number of tiles in the strip.
pub const TILE_COUNT: usize = 5;

/// The page the web tile opens.
pub const SEARCH_URL: &'static str = "https://duckduckgo.com/";

/// The keys of one frame that the launcher reacts to.
#[derive(Clone, Copy, PartialEq, Eq, Structural, Debug)]
pub struct KeyPresses {
    /// Right arrow or Tab.
    pub tab_or_right: bool,
    /// Left arrow.
    pub left: bool,
    /// Enter or Space.
    pub enter_or_space: bool,
    pub esc: bool,
    pub f1: bool,
}

/// The tile after `i`, wrapping from the last to the first.
pub open spec fn spec_next_focus(i: int) -> int {
    (i + 1) % (TILE_COUNT as int)
}

/// The tile before `i`, wrapping from the first to the last.
pub open spec fn spec_prev_focus(i: int) -> int {
    if i == 0 {
        TILE_COUNT - 1
    } else {
        i - 1
    }
}

/// Where the focus stands after the navigation keys of one frame: Right/Tab
/// moves it forward first, then Left moves it back.
pub open spec fn focus_after(i: int, keys: KeyPresses) -> int {
    let a = if keys.tab_or_right { spec_next_focus(i) } else { i };
    if keys.left { spec_prev_focus(a) } else { a }
}

/// The tile after `i`.
pub fn next_focus(i: usize) -> (r: usize)
    requires
        i < TILE_COUNT,
    ensures
        r == spec_next_focus(i as int),
        r < TILE_COUNT,
{
    (i + 1) % TILE_COUNT
}

/// The tile before `i`.
pub fn prev_focus(i: usize) -> (r: usize)
    requires
        i < TILE_COUNT,
    ensures
        r == spec_prev_focus(i as int),
        r < TILE_COUNT,
{
    if i == 0 {
        TILE_COUNT - 1
    } else {
        i - 1
    }
}

/// The focus after the navigation keys of one frame.
pub fn move_focus(i: usize, keys: KeyPresses) -> (r: usize)
    requires
        i < TILE_COUNT,
    ensures
        r == focus_after(i as int, keys),
        r < TILE_COUNT,
{
    let mut f = i;
    if keys.tab_or_right {
        f = next_focus(f);
    }
    if keys.left {
        f = prev_focus(f);
    }
    f
}

/// Left undoes Right and Right undoes Left: on every tile, stepping one way
/// and then the other comes back to where it started.
pub proof fn lemma_focus_steps_undo(i: int)
    requires
        0 <= i < TILE_COUNT,
    ensures
        spec_prev_focus(spec_next_focus(i)) == i,
        spec_next_focus(spec_prev_focus(i)) == i,
        0 <= spec_next_focus(i) < TILE_COUNT,
        0 <= spec_prev_focus(i) < TILE_COUNT,
{
}

/// Pressing Right as many times as there are tiles brings the focus back to
/// the tile it started on, and a single press always moves it.
pub proof fn lemma_focus_cycles(i: int)
    requires
        0 <= i < TILE_COUNT,
    ensures
        spec_next_focus(spec_next_focus(spec_next_focus(spec_next_focus(spec_next_focus(i))))) == i,
        spec_next_focus(i) != i,
{
}

} // verus!
