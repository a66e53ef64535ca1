//! The unit of generation work handed to the engine by an action source.

use vstd::prelude::*;

verus! {

/// One unit of generation work.
///
/// `Idle` means "nothing to render right now"; the generation loop treats it
/// as the end of a refill batch and checks again later. `Wait` holds the
/// current pin state for the given duration. `Pin` raises the bits of
/// `on` and lowers the bits of `off` before the next timing step; the two
/// masks are meant to be disjoint. Where a bit appears in both masks, the
/// engine passes both masks through unchanged and the pin controller decides;
/// the controller provided under `app/` applies `off` first, so `on` wins.
#[derive(Clone, Copy, PartialEq, Eq, Debug, Structural)]
pub enum Action {
    Idle,
    Wait { microseconds: u32 },
    Pin { on: u32, off: u32 },
}

} // verus!
