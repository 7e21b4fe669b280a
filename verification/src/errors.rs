use vstd::prelude::*;

verus! {

/// Why an engine operation was refused. A failed operation leaves all engine
/// state unchanged; none of these is fatal, and callers may re-submit.
#[derive(Clone, Copy, Debug, PartialEq, Eq, Structural)]
pub enum Error {
    /// A registration named a device id that is already present.
    AlreadyExists,
    /// An operation named a device id that was never registered.
    NotFound,
    /// A telemetry submission came from an actor that is not allow-listed.
    Unauthorized,
}

} // verus!
