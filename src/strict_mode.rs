//! The switch behind strict-mode input suppression. The platform's event tap
//! that swallows input is installed when the switch goes on and removed when
//! it goes off; turning it on or off twice does nothing the second time.
use vstd::prelude::*;

verus! {

/// Whether input suppression is on.
#[derive(Clone, Copy, Debug, PartialEq, Eq, Structural)]
pub struct InputSuppression {
    pub active: bool,
}

impl InputSuppression {
    pub fn new() -> (r: InputSuppression)
        ensures
            !r.active,
    {
        InputSuppression { active: false }
    }

    /// The event tap could not be installed: suppression is off again.
    pub fn tap_failed(&mut self)
        ensures
            !final(self).active,
    {
        self.active = false;
    }
}

/// Turn suppression on. The result says whether it was off, that is whether
/// the event tap is to be installed now.
pub fn enable_strict_input_suppression(state: &mut InputSuppression) -> (install: bool)
    ensures
        final(state).active,
        install == !old(state).active,
{
    let was_active = state.active;
    state.active = true;
    !was_active
}

/// Turn suppression off. The result says whether it was on, that is whether
/// the event tap is to be removed now.
pub fn disable_strict_input_suppression(state: &mut InputSuppression) -> (remove: bool)
    ensures
        !final(state).active,
        remove == old(state).active,
{
    let was_active = state.active;
    state.active = false;
    was_active
}

} // verus!
