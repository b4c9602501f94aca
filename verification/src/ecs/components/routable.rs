use vstd::prelude::*;

use crate::ecs::entities::RouteAction;

verus! {

/// A pending order of a player: what it is about and for how many ticks it
/// has been pending (or stalled). The target point belongs to the caller.
pub struct Routable {
    pub name: String,
    pub counter: u8,
    pub action: RouteAction,
}

} // verus!
