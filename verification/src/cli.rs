use vstd::prelude::*;

verus! {

/// What a ray that escapes to the celestial sphere sees.
#[derive(Clone, Copy, Debug, PartialEq, Eq, Structural)]
pub enum SkyMode {
    Black,
    Checker,
    Stars,
}

} // verus!
