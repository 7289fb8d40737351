//! Kinds of resource.
use vstd::prelude::*;

verus! {

/// The kinds of resource a planet stocks and trades.
#[derive(Debug, Clone, Copy, PartialEq, Eq, Hash, Structural)]
pub enum ResourceType {
    Food,
    Minerals,
    Energy,
    ManufacturedGoods,
}

} // verus!
