use vstd::prelude::*;

verus! {

/// Role of a zone in the authority storage that surrounds this core: held
/// authoritatively (master or slave copy), as a hint, or forwarded.
#[derive(Clone, Copy, Debug, PartialEq, Eq, Structural)]
pub enum ZoneType {
    Master,
    Slave,
    Hint,
    Forward,
}

} // verus!
