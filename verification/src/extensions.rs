use vstd::prelude::*;

verus! {

/// Opaque capability-negotiation payload (EDNS-equivalent) exchanged
/// opportunistically per connection. The core never inspects the bytes; it
/// only remembers whether a payload was negotiated and carries it unchanged.
#[derive(Clone, Debug, PartialEq, Eq)]
pub struct ExtensionOptions {
    pub payload: Vec<u8>,
}

} // verus!
