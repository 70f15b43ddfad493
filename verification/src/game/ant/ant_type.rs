use vstd::prelude::*;

verus! {

/// The kinds of ants a building sends out.
#[derive(Clone, Copy, Debug, Default, PartialEq, Eq, Hash, Structural)]
pub enum AntType {
    #[default]
    Unit,
    Worker,
    Soldier,
}

} // verus!
