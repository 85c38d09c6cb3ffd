use vstd::prelude::*;
use crate::emulator::basics::{
    Address, Register, Value, VmError, FONT_OFFSET, MEMORY_SIZE, SCREEN_HEIGHT, SCREEN_WIDTH,
    STACK_DEPTH,
};
use crate::emulator::display::{collides, toggle_all};
use crate::emulator::program::{decode, Instruction};

verus! {

/// The state of a machine as a mathematical value.
#[verifier::ext_equal]
pub struct MachineState {
    /// Address of the next instruction.
    pub pc: Address,
    /// Return addresses, the most recent one last.
    pub stack: Seq<Address>,
    /// The sixteen general registers; the last one is the flag register.
    pub registers: Seq<Value>,
    /// The index register.
    pub index: Address,
    /// The 4096 bytes of memory.
    pub memory: Seq<Value>,
    /// The pixels that are on, as `(column, row)`.
    pub lit: Set<(u8, u8)>,
}

/// What the machine shares with the world around it, as a mathematical value.
#[verifier::ext_equal]
pub struct InterfaceState {
    /// The delay timer.
    pub delay_timer: Value,
    /// The sound timer.
    pub sound_timer: Value,
    /// The key that is held down, if any.
    pub key_down: Option<u8>,
    /// The pixels that the display sink holds switched on.
    pub lit: Set<(u8, u8)>,
}

impl MachineState {
    /// The shape that every machine has: sixteen registers, 4096 bytes of
    /// memory, and a call stack within its bound.
    pub open spec fn wf(self) -> bool {
        &&& self.registers.len() == 16
        &&& self.memory.len() == MEMORY_SIZE
        &&& self.stack.len() <= STACK_DEPTH
    }

    /// The content of a register.
    pub open spec fn reg(self, r: Register) -> u8 {
        self.registers[r.0 as int].0
    }

    /// The content of the flag register.
    pub open spec fn flag(self) -> u8 {
        self.registers[15].0
    }

    /// This state with `v` in register `r`.
    pub open spec fn with_reg(self, r: Register, v: u8) -> MachineState {
        MachineState { registers: self.registers.update(r.0 as int, Value(v)), ..self }
    }

    /// This state with `v` in the flag register.
    pub open spec fn with_flag(self, v: u8) -> MachineState {
        self.with_reg(Register(15), v)
    }

    /// This state with the program counter moved past one instruction.
    pub open spec fn advance(self) -> MachineState {
        MachineState { pc: address_plus(self.pc, 2), ..self }
    }

    /// This state with the program counter moved past one more instruction
    /// if `condition` holds.
    pub open spec fn skip_if(self, condition: bool) -> MachineState {
        if condition {
            self.advance()
        } else {
            self
        }
    }
}

/// The address `n` bytes after `a`, wrapping at 16 bits.
pub open spec fn address_plus(a: Address, n: int) -> Address {
    Address(((a.0 + n) % 0x1_0000) as u16)
}

/// Whether bit `k` of a sprite row is set, counted from the left, that is
/// from the most significant bit.
pub open spec fn sprite_bit(row: u8, k: u8) -> bool {
    row & (0x80u8 >> k) != 0
}

/// The display column of bit `k` of a sprite drawn at column `x0`.
pub open spec fn sprite_column(x0: u8, k: int) -> u8 {
    ((x0 + k) % (SCREEN_WIDTH as int)) as u8
}

/// The display row of row `r` of a sprite drawn at row `y0`.
pub open spec fn sprite_row(y0: u8, r: int) -> u8 {
    ((y0 + r) % (SCREEN_HEIGHT as int)) as u8
}

/// The pixels that the leftmost `bits` bits of one sprite row flip when the
/// row is drawn at column `x0` of display row `y`, from left to right.
pub open spec fn row_pixels(row: u8, x0: u8, y: u8, bits: nat) -> Seq<(u8, u8)>
    decreases bits,
{
    if bits == 0 {
        Seq::empty()
    } else {
        let before = row_pixels(row, x0, y, (bits - 1) as nat);
        if sprite_bit(row, (bits - 1) as u8) {
            before.push((sprite_column(x0, bits - 1), y))
        } else {
            before
        }
    }
}

/// The pixels that a sprite of `rows` rows, read from `memory` at `index`,
/// flips when it is drawn at `(x0, y0)`: row by row from the top, each row
/// from left to right. Columns and rows wrap around the display.
pub open spec fn sprite_pixels(memory: Seq<Value>, index: int, x0: u8, y0: u8, rows: nat) -> Seq<
    (u8, u8),
>
    decreases rows,
{
    if rows == 0 {
        Seq::empty()
    } else {
        sprite_pixels(memory, index, x0, y0, (rows - 1) as nat) + row_pixels(
            memory[index + rows - 1].0,
            x0,
            sprite_row(y0, rows - 1),
            8,
        )
    }
}

/// The pixels that `Draw(x, y, n)` flips in state `m`. The flag register is
/// reset before the position is read: a position taken from the flag
/// register is 0.
pub open spec fn drawn_pixels(m: MachineState, x: Register, y: Register, n: Value) -> Seq<
    (u8, u8),
> {
    let reset = m.with_flag(0);
    sprite_pixels(m.memory, m.index.0 as int, reset.reg(x), reset.reg(y), n.0 as nat)
}

/// Whether every register that the instruction names exists.
pub open spec fn registers_valid(instruction: Instruction) -> bool {
    match instruction {
        Instruction::IfNotEqualConst(x, _)
        | Instruction::IfEqualConst(x, _)
        | Instruction::SetConst(x, _)
        | Instruction::AddConst(x, _)
        | Instruction::RightShift(x)
        | Instruction::LeftShift(x)
        | Instruction::Rand(x, _)
        | Instruction::IfNotKey(x)
        | Instruction::IfKey(x)
        | Instruction::GetDelayTimer(x)
        | Instruction::WaitKey(x)
        | Instruction::SetDelayTimer(x)
        | Instruction::SetSoundTimer(x)
        | Instruction::AddToI(x)
        | Instruction::SpriteAddr(x)
        | Instruction::Decimal(x)
        | Instruction::StoreRegisters(x)
        | Instruction::LoadRegisters(x) => x.0 < 16,
        Instruction::IfNotEqual(x, y)
        | Instruction::SetReg(x, y)
        | Instruction::Or(x, y)
        | Instruction::And(x, y)
        | Instruction::Xor(x, y)
        | Instruction::Add(x, y)
        | Instruction::Sub(x, y)
        | Instruction::NegSub(x, y)
        | Instruction::IfEqual(x, y)
        | Instruction::Draw(x, y, _) => x.0 < 16 && y.0 < 16,
        _ => true,
    }
}

/// The fault, if any, with which the instruction stops the machine in state
/// `m`. A faulting instruction changes nothing.
pub open spec fn fault(m: MachineState, instruction: Instruction) -> Option<VmError> {
    if instruction is MachineCodeRoutine {
        Some(VmError::UnsupportedRoutine)
    } else if !registers_valid(instruction) {
        Some(VmError::InvalidRegister)
    } else {
        match instruction {
            Instruction::CallSubroutine(_) => if m.stack.len() >= STACK_DEPTH {
                Some(VmError::StackOverflow)
            } else {
                None
            },
            Instruction::ReturnSubroutine => if m.stack.len() == 0 {
                Some(VmError::StackUnderflow)
            } else {
                None
            },
            Instruction::Draw(_, _, n) => if n.0 > 0 && m.index.0 + n.0 > MEMORY_SIZE {
                Some(VmError::InvalidAddress)
            } else {
                None
            },
            Instruction::Decimal(_) => if m.index.0 + 3 > MEMORY_SIZE {
                Some(VmError::InvalidAddress)
            } else {
                None
            },
            Instruction::StoreRegisters(x) | Instruction::LoadRegisters(x) => if m.index.0 + x.0
                + 1 > MEMORY_SIZE {
                Some(VmError::InvalidAddress)
            } else {
                None
            },
            _ => None,
        }
    }
}

/// The memory after registers 0 to `last` are stored from address `index` on.
pub open spec fn stored_registers(
    memory: Seq<Value>,
    registers: Seq<Value>,
    index: int,
    last: int,
) -> Seq<Value> {
    Seq::new(
        memory.len(),
        |i: int|
            if index <= i <= index + last {
                registers[i - index]
            } else {
                memory[i]
            },
    )
}

/// The registers after registers 0 to `last` are loaded from address `index`
/// on.
pub open spec fn loaded_registers(
    memory: Seq<Value>,
    registers: Seq<Value>,
    index: int,
    last: int,
) -> Seq<Value> {
    Seq::new(
        registers.len(),
        |i: int|
            if i <= last {
                memory[index + i]
            } else {
                registers[i]
            },
    )
}

/// The memory after the hundreds, tens and ones digit of `v` are stored at
/// `index`, `index + 1` and `index + 2`.
pub open spec fn stored_decimal(memory: Seq<Value>, index: int, v: u8) -> Seq<Value> {
    memory.update(index, Value(v / 100)).update(index + 1, Value((v / 10) % 10)).update(
        index + 2,
        Value(v % 10),
    )
}

/// The state in which the instruction leaves a machine that was in state `m`,
/// given the key that is down, the delay timer, and the random byte drawn
/// for it. It has a meaning only where `fault(m, instruction)` is `None`.
///
/// The program counter moves past the instruction first; the instruction's
/// own effect comes after.
pub open spec fn next_machine(
    m: MachineState,
    key_down: Option<u8>,
    delay_timer: Value,
    instruction: Instruction,
    random: u8,
) -> MachineState {
    let a = m.advance();
    match instruction {
        Instruction::Noop | Instruction::MachineCodeRoutine(_) => a,
        Instruction::ClearDisplay => MachineState { lit: Set::empty(), ..a },
        Instruction::ReturnSubroutine => MachineState {
            pc: m.stack.last(),
            stack: m.stack.drop_last(),
            ..a
        },
        Instruction::Jump(address) => MachineState { pc: address, ..a },
        Instruction::CallSubroutine(address) => MachineState {
            pc: address,
            stack: m.stack.push(a.pc),
            ..a
        },
        Instruction::IfNotEqualConst(x, n) => a.skip_if(m.reg(x) == n.0),
        Instruction::IfEqualConst(x, n) => a.skip_if(m.reg(x) != n.0),
        Instruction::IfNotEqual(x, y) => a.skip_if(m.reg(x) == m.reg(y)),
        Instruction::IfEqual(x, y) => a.skip_if(m.reg(x) != m.reg(y)),
        Instruction::SetConst(x, n) => a.with_reg(x, n.0),
        Instruction::AddConst(x, n) => a.with_reg(x, ((m.reg(x) + n.0) % 256) as u8),
        Instruction::SetReg(x, y) => a.with_reg(x, m.reg(y)),
        Instruction::Or(x, y) => a.with_reg(x, m.reg(x) | m.reg(y)),
        Instruction::And(x, y) => a.with_reg(x, m.reg(x) & m.reg(y)),
        Instruction::Xor(x, y) => a.with_reg(x, m.reg(x) ^ m.reg(y)),
        Instruction::Add(x, y) => a.with_flag(
            if m.reg(x) + m.reg(y) > 255 {
                1
            } else {
                0
            },
        ).with_reg(x, ((m.reg(x) + m.reg(y)) % 256) as u8),
        Instruction::Sub(x, y) => a.with_flag(
            if m.reg(x) > m.reg(y) {
                1
            } else {
                0
            },
        ).with_reg(x, ((m.reg(x) - m.reg(y)) % 256) as u8),
        Instruction::NegSub(x, y) => a.with_flag(
            if m.reg(y) > m.reg(x) {
                1
            } else {
                0
            },
        ).with_reg(x, ((m.reg(y) - m.reg(x)) % 256) as u8),
        Instruction::RightShift(x) => a.with_flag(m.reg(x) % 2).with_reg(x, m.reg(x) / 2),
        Instruction::LeftShift(x) => a.with_flag(m.reg(x) / 128).with_reg(
            x,
            ((m.reg(x) * 2) % 256) as u8,
        ),
        Instruction::SetI(address) => MachineState { index: address, ..a },
        Instruction::JumpAdd(address) => MachineState {
            pc: address_plus(address, m.reg(Register(0)) as int),
            ..a
        },
        Instruction::Rand(x, n) => a.with_reg(x, random & n.0),
        Instruction::Draw(x, y, n) => {
            let pixels = drawn_pixels(m, x, y, n);
            MachineState {
                lit: toggle_all(m.lit, pixels),
                ..a.with_flag(
                    if collides(m.lit, pixels) {
                        1
                    } else {
                        0
                    },
                )
            }
        },
        Instruction::IfNotKey(x) => a.skip_if(key_down != Some(m.reg(x))),
        Instruction::IfKey(x) => a.skip_if(key_down == Some(m.reg(x))),
        Instruction::GetDelayTimer(x) => a.with_reg(x, delay_timer.0),
        Instruction::WaitKey(x) => match key_down {
            Some(key) => a.with_reg(x, key),
            None => m,
        },
        Instruction::SetDelayTimer(_) | Instruction::SetSoundTimer(_) => a,
        Instruction::AddToI(x) => MachineState { index: address_plus(m.index, m.reg(x) as int), ..a },
        Instruction::SpriteAddr(x) => MachineState {
            index: Address((FONT_OFFSET + m.reg(x) * 5) as u16),
            ..a
        },
        Instruction::Decimal(x) => MachineState {
            memory: stored_decimal(m.memory, m.index.0 as int, m.reg(x)),
            ..a
        },
        Instruction::StoreRegisters(x) => MachineState {
            memory: stored_registers(m.memory, m.registers, m.index.0 as int, x.0 as int),
            ..a
        },
        Instruction::LoadRegisters(x) => MachineState {
            registers: loaded_registers(m.memory, m.registers, m.index.0 as int, x.0 as int),
            ..a
        },
    }
}

/// What the instruction leaves in the interface, executed in machine state
/// `m`. It has a meaning only where `fault(m, instruction)` is `None`.
pub open spec fn next_interface(
    m: MachineState,
    i: InterfaceState,
    instruction: Instruction,
) -> InterfaceState {
    match instruction {
        Instruction::SetDelayTimer(x) => InterfaceState { delay_timer: Value(m.reg(x)), ..i },
        Instruction::SetSoundTimer(x) => InterfaceState { sound_timer: Value(m.reg(x)), ..i },
        Instruction::ClearDisplay => InterfaceState { lit: Set::empty(), ..i },
        Instruction::Draw(x, y, n) => InterfaceState {
            lit: toggle_all(i.lit, drawn_pixels(m, x, y, n)),
            ..i
        },
        _ => i,
    }
}

/// Whether the instruction hands anything to the display sink.
pub open spec fn touches_display(instruction: Instruction) -> bool {
    instruction is ClearDisplay || instruction is Draw
}

/// The instruction at the program counter, or the fault that fetching or
/// decoding it raises.
pub open spec fn fetch(m: MachineState) -> Result<Instruction, VmError> {
    if m.pc.0 + 1 >= MEMORY_SIZE {
        Err(VmError::InvalidAddress)
    } else {
        decode(m.memory[m.pc.0 as int].0, m.memory[m.pc.0 + 1].0)
    }
}

/// What one tick of the 60 Hz clock leaves in the interface: each timer that
/// is above zero goes down by one.
pub open spec fn ticked(i: InterfaceState) -> InterfaceState {
    InterfaceState {
        delay_timer: Value(if i.delay_timer.0 > 0 { (i.delay_timer.0 - 1) as u8 } else { 0 }),
        sound_timer: Value(if i.sound_timer.0 > 0 { (i.sound_timer.0 - 1) as u8 } else { 0 }),
        ..i
    }
}

} // verus!
