//! What the mirror has to say when something goes other than hoped.

use crate::classify::ProtocolError;
use vstd::prelude::*;

verus! {

/// Something that went other than hoped, worth a line in the log. None of
/// them stops the mirror.
#[derive(Debug, Copy, Clone, PartialEq, Eq, Structural)]
pub enum Diagnostic {
    /// The announced object `id` was turned away.
    Rejected { id: u32, error: ProtocolError },
    /// The port `port` names a node that is not in the store.
    NodeNotFound { port: u32 },
    /// The object `id` was withdrawn, but is not in the store.
    UnknownRemoval { id: u32 },
    /// A link was to be toggled at the port `port`, which is not in the
    /// store.
    PortNotFound { port: u32 },
}

} // verus!
