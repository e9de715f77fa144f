//! The console's internal memory.
use vstd::prelude::*;
use crate::rom::zeros;

verus! {

/// The size in bytes of each internal memory bank.
pub const BANK_SIZE: usize = 8192;

/// Work memory and high memory, both owned by the bus.
pub struct Ram {
    pub work: [u8; BANK_SIZE],
    pub high: [u8; BANK_SIZE],
}

impl Ram {
    /// Both banks filled with zero.
    pub fn new() -> (ram: Ram)
        ensures
            ram.work@ == zeros(BANK_SIZE as nat),
            ram.high@ == zeros(BANK_SIZE as nat),
    {
        let ram = Ram { work: [0; BANK_SIZE], high: [0; BANK_SIZE] };
        assert(ram.work@ =~= zeros(BANK_SIZE as nat));
        assert(ram.high@ =~= zeros(BANK_SIZE as nat));
        ram
    }

}

} // verus!
