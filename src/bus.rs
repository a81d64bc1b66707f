use vstd::prelude::*;

use crate::flag::Flag;
use crate::memory::{read_of, Memory};
use crate::state::{is_negative, loaded_status, CpuState};
use crate::types::{Address, Data};

verus! {

/// Direction of the current bus transaction, from the CPU's side.
#[allow(non_camel_case_types, clippy::upper_case_acronyms)]
#[derive(Debug, Clone, Copy, PartialEq, Eq, Structural)]
pub enum BusMode {
    READ,
    WRITE,
}

/// Address the CPU asserts in the setup phase, until a decode stage drives it.
pub const SETUP_ADDRESS: Address = 0xFF;

/// Byte the CPU asserts in the setup phase, until a decode stage drives it.
pub const SETUP_DATA: Data = 42;

/// A CPU that exchanges one byte per cycle over its bus lines.
#[derive(Debug)]
pub struct Cpu {
    /// Register file
    pub state: CpuState,
    /// Address bus
    pub addr_bus: Address,
    /// Data bus
    pub data_bus: Data,
    /// Read/write direction line
    pub rwb: BusMode,
}

impl Cpu {
    pub fn new() -> (r: Cpu)
        ensures
            r.state.pc == 0,
            r.state.sp == 0,
            r.state.a == 0,
            r.state.ir == 0,
            r.state.mar == 0,
            r.state.mdr == 0,
            r.state.sr.bits() == 0,
            forall|f: Flag| !r.state.flag(f),
            r.addr_bus == r.state.mar,
            r.data_bus == r.state.mdr,
            r.rwb == BusMode::READ,
    {
        let state = CpuState::new();
        let addr = state.mar;
        let data = state.mdr;
        Cpu { state: state, addr_bus: addr, data_bus: data, rwb: BusMode::READ }
    }

    /// First phase of a cycle: assert address, then data, then direction.
    /// Afterwards the bus lines hold the transaction to be serviced.
    pub fn setup_cycle(&mut self)
        ensures
            final(self).addr_bus == SETUP_ADDRESS,
            final(self).data_bus == SETUP_DATA,
            final(self).rwb == BusMode::WRITE,
            final(self).state == old(self).state,
    {
        self.addr_bus = SETUP_ADDRESS;
        self.data_bus = SETUP_DATA;
        // the direction goes last, once the data lines are valid
        self.rwb = BusMode::WRITE;
    }

    /// Services the bus against `mem`, as the driver does between the two
    /// phases. On WRITE the data bus is stored at the address bus. On READ the
    /// byte at the address bus is placed on the data bus; if that address was
    /// never written, nothing changes and the address comes back as the error.
    pub fn service_bus<M: Memory>(&mut self, mem: &mut M) -> (r: Result<(), Address>)
        ensures
            final(self).state == old(self).state,
            final(self).addr_bus == old(self).addr_bus,
            final(self).rwb == old(self).rwb,
            old(self).rwb == BusMode::WRITE ==> {
                &&& r is Ok
                &&& final(mem).cells() == old(mem).cells().insert(
                    old(self).addr_bus,
                    old(self).data_bus,
                )
                &&& final(self).data_bus == old(self).data_bus
            },
            old(self).rwb == BusMode::READ ==> {
                &&& final(mem).cells() == old(mem).cells()
                &&& match read_of(old(mem).cells(), old(self).addr_bus) {
                    Some(v) => r is Ok && final(self).data_bus == v,
                    None => r == Err::<(), Address>(old(self).addr_bus) && final(self).data_bus
                        == old(self).data_bus,
                }
            },
    {
        match self.rwb {
            BusMode::READ => {
                let addr = self.addr_bus;
                match mem.read(&addr) {
                    Some(val) => {
                        self.data_bus = val;
                        Ok(())
                    },
                    None => Err(addr),
                }
            },
            BusMode::WRITE => {
                let addr = self.addr_bus;
                let data = self.data_bus;
                mem.write(addr, data);
                Ok(())
            },
        }
    }

    /// Final phase of a cycle: the byte on the data bus is loaded into the
    /// accumulator, which refreshes the flags.
    pub fn complete_cycle(&mut self)
        ensures
            final(self).state.a == old(self).data_bus,
            final(self).state.flag(Flag::ZRO) == (old(self).data_bus == 0),
            final(self).state.flag(Flag::NEG) == is_negative(old(self).data_bus),
            final(self).state.sr.bits() == loaded_status(old(self).state.sr.bits(), old(self).data_bus),
            final(self).state.pc == old(self).state.pc,
            final(self).state.sp == old(self).state.sp,
            final(self).state.ir == old(self).state.ir,
            final(self).state.mar == old(self).state.mar,
            final(self).state.mdr == old(self).state.mdr,
            final(self).addr_bus == old(self).addr_bus,
            final(self).data_bus == old(self).data_bus,
            final(self).rwb == old(self).rwb,
    {
        let data = self.data_bus;
        self.state.set_a(data);
    }
}

} // verus!
