use vstd::prelude::*;

use std::collections::HashMap;

use crate::types::{Address, Data};

verus! {

broadcast use vstd::std_specs::hash::group_hash_axioms;

/// What a read of `addr` gives on memory whose written cells are `cells`:
/// the last byte written there, or nothing if the address was never written.
pub open spec fn read_of(cells: Map<Address, Data>, addr: Address) -> Option<Data> {
    if cells.contains_key(addr) {
        Some(cells[addr])
    } else {
        None
    }
}

/// A byte-addressed memory device, as seen from the bus.
pub trait Memory {
    /// The cells written so far, each with its last written byte.
    spec fn cells(&self) -> Map<Address, Data>;

    fn read(&self, addr: &Address) -> (r: Option<Data>)
        ensures
            r == read_of(self.cells(), *addr),
    ;

    fn write(&mut self, addr: Address, val: Data)
        ensures
            final(self).cells() == old(self).cells().insert(addr, val),
    ;
}

/// A sparse memory: only the cells that were written are stored.
#[derive(Debug)]
pub struct CheapoMemory {
    map: HashMap<Address, Data>,
}

impl CheapoMemory {
    pub fn new() -> (r: CheapoMemory)
        ensures
            r.cells() == Map::<Address, Data>::empty(),
    {
        CheapoMemory { map: HashMap::new() }
    }
}

impl Memory for CheapoMemory {
    closed spec fn cells(&self) -> Map<Address, Data> {
        self.map@
    }

    fn read(&self, addr: &Address) -> (r: Option<Data>) {
        let val = self.map.get(addr);
        match val {
            None => None,
            Some(data) => Some(*data),
        }
    }

    fn write(&mut self, addr: Address, val: Data) {
        self.map.insert(addr, val);
    }
}

/// Fresh memory reads as unset at every address.
pub proof fn lemma_fresh_memory_unset(addr: Address)
    ensures
        read_of(Map::<Address, Data>::empty(), addr) is None,
{
}

/// A read returns the last byte written at that address, with no trace of
/// earlier writes there.
pub proof fn lemma_last_write_wins(cells: Map<Address, Data>, addr: Address, v1: Data, v2: Data)
    ensures
        read_of(cells.insert(addr, v1), addr) == Some(v1),
        read_of(cells.insert(addr, v1).insert(addr, v2), addr) == Some(v2),
        cells.insert(addr, v1).insert(addr, v2) == cells.insert(addr, v2),
{
    assert(cells.insert(addr, v1).insert(addr, v2) =~= cells.insert(addr, v2));
}

} // verus!
