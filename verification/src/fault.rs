//! What can stop an access to memory or an instruction from being carried out.
use vstd::prelude::*;

verus! {

/// Why the bus, a bank controller or the processor refused to go on. A fault
/// leaves the state it was raised on as it was.
#[derive(Clone, Copy, Debug, PartialEq, Eq)]
pub enum Fault {
    /// The address lies in video memory, which no device serves yet.
    Unimplemented,
    /// A bank controller was given an address outside the windows it accepts.
    OutsideCartridge,
    /// The address lies in a cartridge window, but past the end of the image.
    BeyondImage,
    /// A write reached a cartridge that has nothing to write to.
    ReadOnly,
    /// The byte fetched as an instruction stands for none.
    UnknownOpcode,
}

/// Whether an operation that was owed `expected` delivered it: on success the
/// state `after` it is the expected one, and on a fault the same fault is
/// reported and the state is the one `before`.
pub open spec fn settled<S>(
    before: S,
    after: S,
    result: Result<(), Fault>,
    expected: Result<S, Fault>,
) -> bool {
    match expected {
        Ok(next) => result is Ok && after == next,
        Err(fault) => result == Err::<(), Fault>(fault) && after == before,
    }
}

} // verus!
