use vstd::prelude::*;

verus! {

/// An 8-bit unsigned value.
pub type Byte = u8;

/// A 16-bit unsigned value.
pub type Word = u16;

/// A bus address: the full 16-bit range.
pub type Address = Word;

/// A byte moved over the data bus.
pub type Data = Byte;

/// A status register's bits.
pub type Flags = Data;

/// Number of bits in a data byte.
pub const DATA_WIDTH: u8 = 8;

} // verus!
