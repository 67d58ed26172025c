//! Flash memory support types: one erasable sector, used as the page
//! buffer for nonvolatile storage.

use vstd::prelude::*;

verus! {

/// Size of one flash sector in bytes.
pub const SECTOR_SIZE: usize = 4096;

/// One flash sector's worth of bytes.
pub struct K66Sector(pub [u8; SECTOR_SIZE]);

impl K66Sector {
    /// A zero-filled sector buffer.
    pub fn new() -> (s: K66Sector)
        ensures
            s.0@.len() == SECTOR_SIZE,
            forall|i: int| 0 <= i < SECTOR_SIZE ==> s.0@[i] == 0u8,
    {
        K66Sector([0; SECTOR_SIZE])
    }

    /// The sector size in bytes.
    pub fn len(&self) -> (n: usize)
        ensures
            n == SECTOR_SIZE,
    {
        SECTOR_SIZE
    }
}

} // verus!
