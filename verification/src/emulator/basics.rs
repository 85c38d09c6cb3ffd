use vstd::prelude::*;

verus! {

/// Number of bytes of addressable memory.
pub const MEMORY_SIZE: usize = 4096;

/// Width of the display in pixels.
pub const SCREEN_WIDTH: u8 = 64;

/// Height of the display in pixels.
pub const SCREEN_HEIGHT: u8 = 32;

/// Address of the first byte of the built-in font table.
pub const FONT_OFFSET: u16 = 0;

/// Address at which a loaded program starts.
pub const PROGRAM_START: u16 = 0x200;

/// Greatest number of return addresses the call stack may hold.
pub const STACK_DEPTH: usize = 16;

/// A 16-bit machine address. Arithmetic on addresses wraps at 16 bits.
#[derive(PartialEq, Eq, Structural, Clone, Copy, Debug)]
pub struct Address(pub u16);

impl Address {
    /// Advances the address by one, wrapping from `0xFFFF` to `0`.
    pub fn incr(&mut self)
        ensures
            final(self).0 == (old(self).0 + 1) % 0x1_0000,
    {
        self.0 = self.0.wrapping_add(1);
    }
}

/// Index of one of the sixteen general registers.
#[derive(PartialEq, Eq, Structural, Clone, Copy, Debug)]
pub struct Register(pub u8);

/// An 8-bit value held in a register or a memory cell.
#[derive(PartialEq, Eq, Structural, Clone, Copy, Debug)]
pub struct Value(pub u8);

/// The conditions that stop the machine. None of them can be recovered from:
/// an operation that reports one leaves the machine as it found it.
#[derive(PartialEq, Eq, Structural, Clone, Copy, Debug)]
pub enum VmError {
    /// A subroutine call was made with the call stack already full.
    StackOverflow,
    /// A return was made with the call stack empty.
    StackUnderflow,
    /// An instruction names a register index of 16 or more.
    InvalidRegister,
    /// The two fetched bytes match no instruction.
    InvalidOpcode,
    /// A machine-code routine was asked for; none is supported.
    UnsupportedRoutine,
    /// An instruction reads or writes memory beyond the last byte.
    InvalidAddress,
}

} // verus!
