//! The first playfield display, which places tap notes only; its
//! placement of notes and receptors is float arithmetic done by the renderer.
use vstd::prelude::*;

verus! {

/// The playfield and its configuration `C`.
pub struct PlayfieldDisplay<C> {
    pub config: C,
}

impl<C> PlayfieldDisplay<C> {
    pub fn new(config: C) -> (r: Self)
        ensures
            r.config == config,
    {
        PlayfieldDisplay { config }
    }
}

} // verus!
