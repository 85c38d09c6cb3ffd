use vstd::prelude::*;
use crate::emulator::basics::{Address, Register, Value, VmError};

verus! {

/// One decoded instruction.
///
/// The four instructions that compare a register are named after the
/// condition under which the *following* instruction runs: `IfEqualConst`
/// lets it run when the register equals the constant and skips it otherwise.
/// The two that test a key are named after the condition under which the
/// following instruction is *skipped*: `IfKey` skips it when the key is down.
#[derive(PartialEq, Eq, Structural, Clone, Copy, Debug)]
pub enum Instruction {
    /// Does nothing.
    Noop,
    /// Calls a native routine at the address; always a fault.
    MachineCodeRoutine(Address),
    /// Switches every pixel off.
    ClearDisplay,
    /// Returns to the address on top of the call stack.
    ReturnSubroutine,
    /// Continues at the address.
    Jump(Address),
    /// Pushes the return address and continues at the address.
    CallSubroutine(Address),
    /// Skips the next instruction if the register equals the constant.
    IfNotEqualConst(Register, Value),
    /// Skips the next instruction if the register differs from the constant.
    IfEqualConst(Register, Value),
    /// Skips the next instruction if the two registers are equal.
    IfNotEqual(Register, Register),
    /// Loads the constant into the register.
    SetConst(Register, Value),
    /// Adds the constant to the register, wrapping; the flag is untouched.
    AddConst(Register, Value),
    /// Copies the second register into the first.
    SetReg(Register, Register),
    /// Bitwise or of both registers into the first.
    Or(Register, Register),
    /// Bitwise and of both registers into the first.
    And(Register, Register),
    /// Bitwise exclusive or of both registers into the first.
    Xor(Register, Register),
    /// Adds the second register to the first; the flag receives the carry.
    Add(Register, Register),
    /// Subtracts the second register from the first; the flag is 1 if the
    /// first was greater.
    Sub(Register, Register),
    /// Shifts the register right by one; the flag receives the lowest bit.
    RightShift(Register),
    /// Stores second minus first in the first; the flag is 1 if the second
    /// was greater.
    NegSub(Register, Register),
    /// Shifts the register left by one; the flag receives the highest bit.
    LeftShift(Register),
    /// Skips the next instruction if the two registers differ.
    IfEqual(Register, Register),
    /// Loads the address into the index register.
    SetI(Address),
    /// Continues at the address plus register 0.
    JumpAdd(Address),
    /// Loads a random byte, masked by the constant, into the register.
    Rand(Register, Value),
    /// Draws a sprite of the given number of rows, read from memory at the
    /// index register, at the position held by the two registers.
    Draw(Register, Register, Value),
    /// Skips the next instruction unless the key held by the register is down.
    IfNotKey(Register),
    /// Skips the next instruction if the key held by the register is down.
    IfKey(Register),
    /// Loads the delay timer into the register.
    GetDelayTimer(Register),
    /// Loads the pressed key into the register, or repeats itself while no
    /// key is down.
    WaitKey(Register),
    /// Loads the register into the delay timer.
    SetDelayTimer(Register),
    /// Loads the register into the sound timer.
    SetSoundTimer(Register),
    /// Adds the register to the index register.
    AddToI(Register),
    /// Points the index register at the glyph of the digit in the register.
    SpriteAddr(Register),
    /// Stores the three decimal digits of the register at the index register.
    Decimal(Register),
    /// Stores registers 0 up to and including the given one at the index
    /// register.
    StoreRegisters(Register),
    /// Loads registers 0 up to and including the given one from the index
    /// register.
    LoadRegisters(Register),
}

/// The instruction that the opcode made of the bytes `a` (first) and `b`
/// (second) stands for.
///
/// The opcode splits into four 4-bit fields: `a / 16`, `a % 16`, `b / 16` and
/// `b % 16`. The last three together form a 12-bit address, the last two the
/// byte `b`.
pub open spec fn decode(a: u8, b: u8) -> Result<Instruction, VmError> {
    let kind = a / 16;
    let x = Register(a % 16);
    let y = Register(b / 16);
    let low = b % 16;
    let address = Address(((a % 16) * 256 + b) as u16);
    let byte = Value(b);
    if kind == 0 {
        if a == 0 && b == 0x00 {
            Ok(Instruction::Noop)
        } else if a == 0 && b == 0xE0 {
            Ok(Instruction::ClearDisplay)
        } else if a == 0 && b == 0xEE {
            Ok(Instruction::ReturnSubroutine)
        } else if a >= 2 {
            Ok(Instruction::MachineCodeRoutine(address))
        } else {
            Err(VmError::InvalidOpcode)
        }
    } else if kind == 1 {
        Ok(Instruction::Jump(address))
    } else if kind == 2 {
        Ok(Instruction::CallSubroutine(address))
    } else if kind == 3 {
        Ok(Instruction::IfNotEqualConst(x, byte))
    } else if kind == 4 {
        Ok(Instruction::IfEqualConst(x, byte))
    } else if kind == 5 {
        if low == 0 {
            Ok(Instruction::IfNotEqual(x, y))
        } else {
            Err(VmError::InvalidOpcode)
        }
    } else if kind == 6 {
        Ok(Instruction::SetConst(x, byte))
    } else if kind == 7 {
        Ok(Instruction::AddConst(x, byte))
    } else if kind == 8 {
        if low == 0 {
            Ok(Instruction::SetReg(x, y))
        } else if low == 1 {
            Ok(Instruction::Or(x, y))
        } else if low == 2 {
            Ok(Instruction::And(x, y))
        } else if low == 3 {
            Ok(Instruction::Xor(x, y))
        } else if low == 4 {
            Ok(Instruction::Add(x, y))
        } else if low == 5 {
            Ok(Instruction::Sub(x, y))
        } else if low == 6 {
            Ok(Instruction::RightShift(x))
        } else if low == 7 {
            Ok(Instruction::NegSub(x, y))
        } else if low == 14 {
            Ok(Instruction::LeftShift(x))
        } else {
            Err(VmError::InvalidOpcode)
        }
    } else if kind == 9 {
        if low == 0 {
            Ok(Instruction::IfEqual(x, y))
        } else {
            Err(VmError::InvalidOpcode)
        }
    } else if kind == 10 {
        Ok(Instruction::SetI(address))
    } else if kind == 11 {
        Ok(Instruction::JumpAdd(address))
    } else if kind == 12 {
        Ok(Instruction::Rand(x, byte))
    } else if kind == 13 {
        Ok(Instruction::Draw(x, y, Value(low)))
    } else if kind == 14 {
        if b == 0x9E {
            Ok(Instruction::IfNotKey(x))
        } else if b == 0xA1 {
            Ok(Instruction::IfKey(x))
        } else {
            Err(VmError::InvalidOpcode)
        }
    } else {
        if b == 0x07 {
            Ok(Instruction::GetDelayTimer(x))
        } else if b == 0x0A {
            Ok(Instruction::WaitKey(x))
        } else if b == 0x15 {
            Ok(Instruction::SetDelayTimer(x))
        } else if b == 0x18 {
            Ok(Instruction::SetSoundTimer(x))
        } else if b == 0x1E {
            Ok(Instruction::AddToI(x))
        } else if b == 0x29 {
            Ok(Instruction::SpriteAddr(x))
        } else if b == 0x33 {
            Ok(Instruction::Decimal(x))
        } else if b == 0x55 {
            Ok(Instruction::StoreRegisters(x))
        } else if b == 0x65 {
            Ok(Instruction::LoadRegisters(x))
        } else {
            Err(VmError::InvalidOpcode)
        }
    }
}

impl Instruction {
    /// Decodes the big-endian opcode made of the bytes `a` and `b`.
    pub fn from_16bit(a: u8, b: u8) -> (decoded: Result<Instruction, VmError>)
        ensures
            decoded == decode(a, b),
    {
        let bytes = (a >> 4 & 0x0F, a & 0x0F, b >> 4 & 0x0F, b & 0x0F);
        assert((a >> 4 & 0x0F) == a / 16 && (a & 0x0F) == a % 16) by (bit_vector);
        assert((b >> 4 & 0x0F) == b / 16 && (b & 0x0F) == b % 16) by (bit_vector);
        let address = Address((bytes.1 as u16) * 256 + (bytes.2 as u16) * 16 + (bytes.3 as u16));
        let x = Register(bytes.1);
        let y = Register(bytes.2);
        let byte = Value(bytes.2 * 16 + bytes.3);
        let nibble = Value(bytes.3);
        match bytes {
            (0, 0, 0, 0) => Ok(Instruction::Noop),
            (0, 0, 14, 0) => Ok(Instruction::ClearDisplay),
            (0, 0, 14, 14) => Ok(Instruction::ReturnSubroutine),
            (0, 2..=15, _, _) => Ok(Instruction::MachineCodeRoutine(address)),
            (1, _, _, _) => Ok(Instruction::Jump(address)),
            (2, _, _, _) => Ok(Instruction::CallSubroutine(address)),
            (3, _, _, _) => Ok(Instruction::IfNotEqualConst(x, byte)),
            (4, _, _, _) => Ok(Instruction::IfEqualConst(x, byte)),
            (5, _, _, 0) => Ok(Instruction::IfNotEqual(x, y)),
            (6, _, _, _) => Ok(Instruction::SetConst(x, byte)),
            (7, _, _, _) => Ok(Instruction::AddConst(x, byte)),
            (8, _, _, 0) => Ok(Instruction::SetReg(x, y)),
            (8, _, _, 1) => Ok(Instruction::Or(x, y)),
            (8, _, _, 2) => Ok(Instruction::And(x, y)),
            (8, _, _, 3) => Ok(Instruction::Xor(x, y)),
            (8, _, _, 4) => Ok(Instruction::Add(x, y)),
            (8, _, _, 5) => Ok(Instruction::Sub(x, y)),
            (8, _, _, 6) => Ok(Instruction::RightShift(x)),
            (8, _, _, 7) => Ok(Instruction::NegSub(x, y)),
            (8, _, _, 14) => Ok(Instruction::LeftShift(x)),
            (9, _, _, 0) => Ok(Instruction::IfEqual(x, y)),
            (10, _, _, _) => Ok(Instruction::SetI(address)),
            (11, _, _, _) => Ok(Instruction::JumpAdd(address)),
            (12, _, _, _) => Ok(Instruction::Rand(x, byte)),
            (13, _, _, _) => Ok(Instruction::Draw(x, y, nibble)),
            (14, _, 9, 14) => Ok(Instruction::IfNotKey(x)),
            (14, _, 10, 1) => Ok(Instruction::IfKey(x)),
            (15, _, 0, 7) => Ok(Instruction::GetDelayTimer(x)),
            (15, _, 0, 10) => Ok(Instruction::WaitKey(x)),
            (15, _, 1, 5) => Ok(Instruction::SetDelayTimer(x)),
            (15, _, 1, 8) => Ok(Instruction::SetSoundTimer(x)),
            (15, _, 1, 14) => Ok(Instruction::AddToI(x)),
            (15, _, 2, 9) => Ok(Instruction::SpriteAddr(x)),
            (15, _, 3, 3) => Ok(Instruction::Decimal(x)),
            (15, _, 5, 5) => Ok(Instruction::StoreRegisters(x)),
            (15, _, 6, 5) => Ok(Instruction::LoadRegisters(x)),
            _ => Err(VmError::InvalidOpcode),
        }
    }
}

} // verus!
