//! What the zoom tiles ask of the screen magnifier, and how often its state
//! is read back.
use vstd::prelude::*;

verus! {

/// How often the magnifier's state is read back, in milliseconds.
pub const MAG_CHECK_MS: u64 = 1500;

/// What a zoom tile (or Escape) asks of the screen magnifier.
#[derive(Clone, Copy, PartialEq, Eq, Structural, Debug)]
pub enum ZoomRequest {
    /// Close it.
    Close,
    /// Close it, then start it full screen.
    CloseThenLaunchFullscreen,
    /// Close it, then start it as a lens.
    CloseThenLaunchLens,
}

/// Whether the magnifier's state is due to be read back, `elapsed_ms` after
/// it was last read.
pub fn magnifier_check_due(elapsed_ms: u128) -> (r: bool)
    ensures
        r == (elapsed_ms >= MAG_CHECK_MS),
{
    elapsed_ms >= MAG_CHECK_MS as u128
}

} // verus!
