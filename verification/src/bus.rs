//! The address-bus capability the core is generic over, and a flat RAM
//! implementation of it.

use vstd::prelude::*;

verus! {

/// A byte-addressed backing store with a 16-bit address space. The core
/// never constructs or owns memory; the host supplies an implementation.
///
/// `mem()` is the implementation's own model of its contents; `inv()` is its
/// well-formedness condition. `read` returns the modelled byte and leaves the
/// model unchanged; `write` updates the model at exactly the written address.
pub trait AddressBusIO: Sized {
    spec fn inv(&self) -> bool;

    spec fn mem(&self) -> Map<u16, u8>;

    fn read(&mut self, address: u16) -> (value: u8)
        requires
            old(self).inv(),
        ensures
            final(self).inv(),
            final(self).mem() == old(self).mem(),
            value == old(self).mem()[address],
    ;

    fn write(&mut self, address: u16, value: u8)
        requires
            old(self).inv(),
        ensures
            final(self).inv(),
            final(self).mem() == old(self).mem().insert(address, value),
    ;
}

/// A flat 64 KiB RAM: one cell per 16-bit address, all zero at construction.
pub struct Ram {
    cells: Vec<u8>,
}

impl Ram {
    /// Builds a RAM whose every cell is zero.
    pub fn new() -> (r: Ram)
        ensures
            r.inv(),
            forall|a: u16| r.mem()[a] == 0u8,
    {
        let mut cells: Vec<u8> = Vec::new();
        let mut i: usize = 0;
        while i < 0x10000
            invariant
                i <= 0x10000,
                cells@.len() == i,
                forall|j: int| 0 <= j < i ==> cells@[j] == 0u8,
            decreases 0x10000 - i,
        {
            cells.push(0);
            i = i + 1;
        }
        Ram { cells }
    }
}

impl AddressBusIO for Ram {
    closed spec fn inv(&self) -> bool {
        self.cells@.len() == 0x10000
    }

    closed spec fn mem(&self) -> Map<u16, u8> {
        Map::new(|a: u16| true, |a: u16| self.cells@[a as int])
    }

    fn read(&mut self, address: u16) -> (value: u8) {
        self.cells[address as usize]
    }

    fn write(&mut self, address: u16, value: u8) {
        self.cells[address as usize] = value;
        proof {
            assert(self.mem() =~= old(self).mem().insert(address, value));
        }
    }
}

} // verus!
