use vstd::prelude::*;

verus! {

/// The ways a run can fail as a whole.
#[derive(Clone, Copy, Debug, PartialEq, Eq, Structural)]
pub enum RunError {
    /// The output directory is missing or not a directory, or the input
    /// path does not name a `.dem` capture.
    Argument,
    /// The capture header could not be decoded.
    HeaderDecode,
    /// The state accumulator rejected a decoded packet.
    PacketApply,
    /// An output file could not be created or written.
    Resource,
}

} // verus!
