use vstd::prelude::*;
use crate::emulator::basics::{
    Address, Register, Value, VmError, FONT_OFFSET, MEMORY_SIZE, PROGRAM_START, STACK_DEPTH,
};
use crate::emulator::display::{
    clear_grid, collides, lit_pixels, on_screen, toggle, toggle_all, toggle_pixel, Display, Grid,
    SimpleDisplay,
};
use crate::emulator::font::{font_byte, font_sprites, FONT_SIZE};
use crate::emulator::laws::lemma_stack_bounded;
use crate::emulator::program::Instruction;
use crate::emulator::semantics::{
    drawn_pixels, fault, fetch, loaded_registers, next_interface, next_machine, registers_valid,
    row_pixels, sprite_pixels, stored_decimal, stored_registers, ticked, touches_display,
    InterfaceState, MachineState,
};

verus! {

/// What the machine shares with the world around it: the two timers, the key
/// that is held down, and the display sink. Whoever runs the machine next to
/// a clock, a keyboard and a renderer keeps one interface for all of them and
/// lends it to each in turn.
pub struct VMInterface {
    /// Counts down to zero at 60 Hz; programs set and read it.
    pub delay_timer: Value,
    /// Counts down to zero at 60 Hz; a tone sounds while it is above zero.
    pub sound_timer: Value,
    /// The key that is held down, 0 to 15, if any.
    pub key_down: Option<u8>,
    /// Where the machine's drawing goes.
    pub display: Box<dyn Display>,
}

impl View for VMInterface {
    type V = InterfaceState;

    open spec fn view(&self) -> InterfaceState {
        InterfaceState {
            delay_timer: self.delay_timer,
            sound_timer: self.sound_timer,
            key_down: self.key_down,
            lit: self.display.lit(),
        }
    }
}

impl VMInterface {
    /// An interface with both timers at zero, no key down, and a plain sink
    /// with every pixel off.
    pub fn new() -> (interface: VMInterface)
        ensures
            interface@ == (InterfaceState {
                delay_timer: Value(0),
                sound_timer: Value(0),
                key_down: None,
                lit: Set::empty(),
            }),
    {
        VMInterface {
            delay_timer: Value(0),
            sound_timer: Value(0),
            key_down: None,
            display: Box::new(SimpleDisplay::new()),
        }
    }

    /// Records which key is held down, given for each of the sixteen keys
    /// whether it is pressed. There is room for one key only: of several
    /// pressed keys the one with the greatest number counts.
    pub fn update_key(&mut self, keys_pressed: &[bool; 16])
        ensures
            match final(self).key_down {
                Some(key) => key < 16 && keys_pressed[key as int] && forall|other: int|
                    key < other < 16 ==> !keys_pressed[other],
                None => forall|other: int| 0 <= other < 16 ==> !keys_pressed[other],
            },
            final(self).delay_timer == old(self).delay_timer,
            final(self).sound_timer == old(self).sound_timer,
            final(self).display == old(self).display,
    {
        self.key_down = None;
        let mut i: u8 = 0;
        while i < 16
            invariant
                i <= 16,
                self.delay_timer == old(self).delay_timer,
                self.sound_timer == old(self).sound_timer,
                self.display == old(self).display,
                match self.key_down {
                    Some(key) => key < i && keys_pressed[key as int] && forall|other: int|
                        key < other < i ==> !keys_pressed[other],
                    None => forall|other: int| 0 <= other < i ==> !keys_pressed[other],
                },
            decreases 16 - i,
        {
            if keys_pressed[i as usize] {
                self.key_down = Some(i);
            }
            i += 1;
        }
    }

    /// One tick of the 60 Hz clock: each timer that is above zero goes down
    /// by one; a timer at zero stays there. Key and display are left alone.
    pub fn tick_timers(&mut self)
        ensures
            final(self)@ == ticked(old(self)@),
            final(self).display == old(self).display,
    {
        if self.delay_timer.0 > 0 {
            self.delay_timer = Value(self.delay_timer.0 - 1);
        }
        if self.sound_timer.0 > 0 {
            self.sound_timer = Value(self.sound_timer.0 - 1);
        }
    }
}

/// The machine proper: program counter, call stack, registers, memory, and
/// the display as the machine knows it, which decides collisions.
pub struct VirtualMachine {
    /// Address of the next instruction.
    pub program_counter: Address,
    /// Return addresses of the subroutines that are running, the innermost
    /// last.
    pub stack: Vec<Address>,
    /// The general registers; the last one is the flag register.
    pub registers: [Value; 16],
    /// The index register.
    pub register_i: Address,
    /// The memory: font, program and data.
    pub memory: [Value; 4096],
    /// Which pixels are on, by column and row.
    pub logical_display: Grid,
}

impl View for VirtualMachine {
    type V = MachineState;

    open spec fn view(&self) -> MachineState {
        MachineState {
            pc: self.program_counter,
            stack: self.stack@,
            registers: self.registers@,
            index: self.register_i,
            memory: self.memory@,
            lit: lit_pixels(self.logical_display),
        }
    }
}

/// The memory of a machine that has just been given `program`: the font
/// table from `FONT_OFFSET` on, the program from `PROGRAM_START` on, as far
/// as it fits, and zero everywhere else.
pub open spec fn initial_memory(program: Seq<u8>) -> Seq<Value> {
    Seq::new(
        MEMORY_SIZE as nat,
        |i: int|
            if PROGRAM_START <= i < PROGRAM_START + program.len() {
                Value(program[i - PROGRAM_START])
            } else if FONT_OFFSET <= i < FONT_OFFSET + FONT_SIZE {
                Value(font_byte(i - FONT_OFFSET))
            } else {
                Value(0)
            },
    )
}

/// Whether executing the instruction on a machine in state `m`, lent the
/// interface `i` and given the random byte `random`, may end with `outcome`,
/// the machine in state `m2` and the interface as `i2`.
///
/// An instruction that faults reports the fault and changes nothing. One that
/// does not fault leaves the machine and the interface as `next_machine` and
/// `next_interface` say; the sink is touched only by the two instructions
/// that draw.
pub open spec fn executes(
    m: MachineState,
    i: VMInterface,
    instruction: Instruction,
    random: u8,
    outcome: Result<(), VmError>,
    m2: MachineState,
    i2: VMInterface,
) -> bool {
    match fault(m, instruction) {
        Some(error) => outcome == Err::<(), VmError>(error) && m2 == m && i2 == i,
        None => {
            &&& outcome is Ok
            &&& m2 == next_machine(m, i.key_down, i.delay_timer, instruction, random)
            &&& i2@ == next_interface(m, i@, instruction)
            &&& touches_display(instruction) || i2.display == i.display
        },
    }
}

/// Draws one byte from the generator that `rand::thread_rng` returns, with
/// `rand::Rng::gen`. The byte is a matter of chance, so nothing is claimed
/// of it. The generator is seeded by the operating system on a thread's
/// first draw, and `rand` panics if that fails.
#[verifier::external_body]
fn random_byte() -> (byte: u8) {
    rand::Rng::gen::<u8>(&mut rand::thread_rng())
}

/// The instructions that only move the program counter, or wait for a key.
spec fn is_flow(instruction: Instruction) -> bool {
    match instruction {
        Instruction::Noop
        | Instruction::MachineCodeRoutine(_)
        | Instruction::CallSubroutine(_)
        | Instruction::ReturnSubroutine
        | Instruction::Jump(_)
        | Instruction::JumpAdd(_)
        | Instruction::IfNotEqualConst(_, _)
        | Instruction::IfEqualConst(_, _)
        | Instruction::IfNotEqual(_, _)
        | Instruction::IfEqual(_, _)
        | Instruction::IfNotKey(_)
        | Instruction::IfKey(_)
        | Instruction::WaitKey(_) => true,
        _ => false,
    }
}

/// The instructions that compute a register.
spec fn is_arithmetic(instruction: Instruction) -> bool {
    match instruction {
        Instruction::SetConst(_, _)
        | Instruction::AddConst(_, _)
        | Instruction::SetReg(_, _)
        | Instruction::Or(_, _)
        | Instruction::And(_, _)
        | Instruction::Xor(_, _)
        | Instruction::Add(_, _)
        | Instruction::Sub(_, _)
        | Instruction::NegSub(_, _)
        | Instruction::RightShift(_)
        | Instruction::LeftShift(_)
        | Instruction::Rand(_, _)
        | Instruction::GetDelayTimer(_) => true,
        _ => false,
    }
}

/// The instructions that work on the index register or on the memory that it
/// points to.
spec fn is_memory(instruction: Instruction) -> bool {
    match instruction {
        Instruction::SetI(_)
        | Instruction::AddToI(_)
        | Instruction::SpriteAddr(_)
        | Instruction::Decimal(_)
        | Instruction::StoreRegisters(_)
        | Instruction::LoadRegisters(_) => true,
        _ => false,
    }
}

/// The instructions that write to the interface.
spec fn is_output(instruction: Instruction) -> bool {
    match instruction {
        Instruction::Draw(_, _, _)
        | Instruction::ClearDisplay
        | Instruction::SetDelayTimer(_)
        | Instruction::SetSoundTimer(_) => true,
        _ => false,
    }
}

impl VirtualMachine {
    /// A machine ready to run `program` from its first byte: registers,
    /// index register and display cleared, the call stack empty.
    pub fn new(program: &[u8]) -> (vm: VirtualMachine)
        ensures
            vm@ == (MachineState {
                pc: Address(PROGRAM_START),
                stack: Seq::empty(),
                registers: Seq::new(16, |i: int| Value(0)),
                index: Address(0),
                memory: initial_memory(program@),
                lit: Set::empty(),
            }),
            vm@.wf(),
    {
        let vm = VirtualMachine {
            program_counter: Address(PROGRAM_START),
            stack: Vec::new(),
            registers: [Value(0); 16],
            register_i: Address(0),
            memory: VirtualMachine::setup_memory(program),
            logical_display: [[false; 32]; 64],
        };
        assert(vm@.lit =~= Set::empty());
        assert(vm@.registers =~= Seq::new(16, |i: int| Value(0)));
        vm
    }

    /// The memory that a machine starts with.
    pub fn setup_memory(program: &[u8]) -> (memory: [Value; 4096])
        ensures
            memory@ == initial_memory(program@),
    {
        let mut memory = [Value(0); 4096];
        let font = font_sprites();
        let mut i: usize = 0;
        while i < FONT_SIZE
            invariant
                i <= FONT_SIZE,
                forall|k: int| 0 <= k < FONT_SIZE ==> font[k] == font_byte(k),
                forall|k: int| 0 <= k < i ==> memory[FONT_OFFSET + k] == Value(font_byte(k)),
                forall|k: int|
                    0 <= k < MEMORY_SIZE && !(FONT_OFFSET <= k < FONT_OFFSET + i) ==> memory[k]
                        == Value(0),
            decreases FONT_SIZE - i,
        {
            memory[FONT_OFFSET as usize + i] = Value(font[i]);
            i += 1;
        }
        let mut j: usize = 0;
        while j < program.len() && PROGRAM_START as usize + j < MEMORY_SIZE
            invariant
                forall|k: int|
                    0 <= k < j && PROGRAM_START + k < MEMORY_SIZE ==> memory[PROGRAM_START + k]
                        == Value(program@[k]),
                forall|k: int|
                    0 <= k < MEMORY_SIZE && !(PROGRAM_START <= k < PROGRAM_START + j)
                        ==> memory[k] == initial_memory(Seq::<u8>::empty())[k],
                j <= program.len(),
                PROGRAM_START + j <= MEMORY_SIZE,
            decreases MEMORY_SIZE - j,
        {
            memory[PROGRAM_START as usize + j] = Value(program[j]);
            j += 1;
        }
        assert(memory@ =~= initial_memory(program@));
        memory
    }

    /// The instruction at the program counter.
    pub fn current_instruction(&self) -> (fetched: Result<Instruction, VmError>)
        ensures
            fetched == fetch(self@),
    {
        let pc = self.program_counter.0 as usize;
        if pc + 1 >= MEMORY_SIZE {
            return Err(VmError::InvalidAddress);
        }
        let a = self.memory[pc].0;
        let b = self.memory[pc + 1].0;
        Instruction::from_16bit(a, b)
    }

    /// The content of a register.
    pub fn register(&self, reg: &Register) -> (value: Value)
        requires
            reg.0 < 16,
        ensures
            value.0 == self@.reg(*reg),
    {
        self.registers[reg.0 as usize]
    }

    /// Puts a value into a register.
    pub fn set_register(&mut self, reg: &Register, value: Value)
        requires
            reg.0 < 16,
        ensures
            final(self)@ == old(self)@.with_reg(*reg, value.0),
    {
        self.registers[reg.0 as usize] = value;
    }

    /// Puts a value into the flag register.
    pub fn set_vf(&mut self, value: u8)
        ensures
            final(self)@ == old(self)@.with_flag(value),
    {
        self.registers[15] = Value(value);
    }

    /// Moves the program counter past one instruction.
    fn advance(&mut self)
        ensures
            final(self)@ == old(self)@.advance(),
    {
        self.program_counter = Address(self.program_counter.0.wrapping_add(2));
    }

    /// Moves the program counter past one more instruction if the condition
    /// holds.
    fn skip_if(&mut self, condition: bool)
        ensures
            final(self)@ == old(self)@.skip_if(condition),
    {
        if condition {
            self.advance();
        }
    }

    /// Switches every pixel off, on the machine's own display and on the
    /// sink.
    fn clear_display(&mut self, interface: &mut VMInterface)
        ensures
            final(self)@ == (MachineState { lit: Set::empty(), ..old(self)@ }),
            final(interface)@ == (InterfaceState { lit: Set::empty(), ..old(interface)@ }),
    {
        clear_grid(&mut self.logical_display);
        interface.display.clear();
    }

    /// Leaves a subroutine: continues at the address on top of the call
    /// stack, and takes it off.
    fn return_subroutine(&mut self)
        requires
            old(self)@.stack.len() > 0,
        ensures
            final(self)@ == (MachineState {
                pc: old(self)@.stack.last(),
                stack: old(self)@.stack.drop_last(),
                ..old(self)@
            }),
    {
        let top = self.stack.pop();
        if let Some(address) = top {
            self.program_counter = address;
        }
        assert(self.stack@ =~= old(self).stack@.drop_last());
    }

    /// Enters a subroutine: puts the program counter on the call stack and
    /// continues at `addr`.
    fn call_subroutine(&mut self, addr: &Address)
        ensures
            final(self)@ == (MachineState {
                pc: *addr,
                stack: old(self)@.stack.push(old(self)@.pc),
                ..old(self)@
            }),
    {
        self.stack.push(self.program_counter);
        self.program_counter = *addr;
    }

    /// The pixels that a sprite of `rows` rows at `index` flips when drawn
    /// at `(x0, y0)`.
    fn sprite(memory: &[Value; 4096], index: usize, x0: u8, y0: u8, rows: u8) -> (pixels: Vec<
        (u8, u8),
    >)
        requires
            rows > 0 ==> index + rows <= MEMORY_SIZE,
        ensures
            pixels@ == sprite_pixels(memory@, index as int, x0, y0, rows as nat),
            forall|i: int| 0 <= i < pixels@.len() ==> on_screen(#[trigger] pixels@[i]),
    {
        let mut pixels: Vec<(u8, u8)> = Vec::new();
        let mut y_off: u8 = 0;
        while y_off < rows
            invariant
                y_off <= rows,
                rows > 0 ==> index + rows <= MEMORY_SIZE,
                pixels@ == sprite_pixels(memory@, index as int, x0, y0, y_off as nat),
                forall|i: int| 0 <= i < pixels@.len() ==> on_screen(#[trigger] pixels@[i]),
            decreases rows - y_off,
        {
            let row = memory[index + y_off as usize].0;
            let y = ((y0 as u16 + y_off as u16) % 32) as u8;
            let ghost above = pixels@;
            let mut x_off: u8 = 0;
            while x_off < 8
                invariant
                    x_off <= 8,
                    y < 32,
                    pixels@ == above + row_pixels(row, x0, y, x_off as nat),
                    forall|i: int| 0 <= i < pixels@.len() ==> on_screen(#[trigger] pixels@[i]),
                decreases 8 - x_off,
            {
                if row & (0x80u8 >> x_off) != 0 {
                    let x = ((x0 as u16 + x_off as u16) % 64) as u8;
                    pixels.push((x, y));
                }
                assert(pixels@ =~= above + row_pixels(row, x0, y, (x_off + 1) as nat));
                x_off += 1;
            }
            y_off += 1;
        }
        pixels
    }

    /// Flips one pixel of the machine's display. If that switches a lit pixel
    /// off, the flag register is set to 1; otherwise the flag register is
    /// left alone.
    pub fn draw_pixel(&mut self, x: u8, y: u8)
        requires
            on_screen((x, y)),
        ensures
            final(self)@ == (MachineState {
                lit: toggle(old(self)@.lit, (x, y)),
                ..(if old(self)@.lit.contains((x, y)) {
                    old(self)@.with_flag(1)
                } else {
                    old(self)@
                })
            }),
    {
        let was_lit = toggle_pixel(&mut self.logical_display, x, y);
        if was_lit {
            self.set_vf(1);
        }
    }

    /// Flips the given pixels, in order, on the machine's display, setting
    /// the flag register to 1 if any flip switches a lit pixel off, and then
    /// hands the whole list to the sink in one call.
    fn draw_pixels(&mut self, pixels: &[(u8, u8)], interface: &mut VMInterface)
        requires
            forall|i: int| 0 <= i < pixels@.len() ==> on_screen(#[trigger] pixels@[i]),
        ensures
            final(self)@ == (MachineState {
                lit: toggle_all(old(self)@.lit, pixels@),
                ..(if collides(old(self)@.lit, pixels@) {
                    old(self)@.with_flag(1)
                } else {
                    old(self)@
                })
            }),
            final(interface)@ == (InterfaceState {
                lit: toggle_all(old(interface)@.lit, pixels@),
                ..old(interface)@
            }),
    {
        let mut i: usize = 0;
        while i < pixels.len()
            invariant
                i <= pixels.len(),
                forall|k: int| 0 <= k < pixels@.len() ==> on_screen(#[trigger] pixels@[k]),
                self@ == (MachineState {
                    lit: toggle_all(old(self)@.lit, pixels@.take(i as int)),
                    ..(if collides(old(self)@.lit, pixels@.take(i as int)) {
                        old(self)@.with_flag(1)
                    } else {
                        old(self)@
                    })
                }),
            decreases pixels.len() - i,
        {
            let (x, y) = pixels[i];
            assert(pixels@.take(i + 1).drop_last() =~= pixels@.take(i as int));
            self.draw_pixel(x, y);
            i += 1;
        }
        assert(pixels@.take(pixels.len() as int) =~= pixels@);
        interface.display.draw_pixels(pixels);
    }

    /// Draws the sprite of `n` rows that memory holds at the index register
    /// at the position held by the registers `vx` and `vy`. The flag register
    /// tells afterwards whether any lit pixel was switched off.
    fn draw_shape(&mut self, vx: &Register, vy: &Register, n: &Value, interface: &mut VMInterface)
        requires
            vx.0 < 16,
            vy.0 < 16,
            n.0 > 0 ==> old(self)@.index.0 + n.0 <= MEMORY_SIZE,
        ensures
            final(self)@ == (MachineState {
                lit: toggle_all(old(self)@.lit, drawn_pixels(old(self)@, *vx, *vy, *n)),
                ..old(self)@.with_flag(
                    if collides(old(self)@.lit, drawn_pixels(old(self)@, *vx, *vy, *n)) {
                        1
                    } else {
                        0
                    },
                )
            }),
            final(interface)@ == (InterfaceState {
                lit: toggle_all(old(interface)@.lit, drawn_pixels(old(self)@, *vx, *vy, *n)),
                ..old(interface)@
            }),
    {
        self.set_vf(0);
        let x0 = self.register(vx).0;
        let y0 = self.register(vy).0;
        let pixels = VirtualMachine::sprite(&self.memory, self.register_i.0 as usize, x0, y0, n.0);
        self.draw_pixels(pixels.as_slice(), interface);
    }

    /// Whether every register that the instruction names exists.
    fn registers_exist(instruction: &Instruction) -> (valid: bool)
        ensures
            valid == registers_valid(*instruction),
    {
        match *instruction {
            Instruction::IfNotEqualConst(x, _)
            | Instruction::IfEqualConst(x, _)
            | Instruction::SetConst(x, _)
            | Instruction::AddConst(x, _)
            | Instruction::RightShift(x)
            | Instruction::LeftShift(x)
            | Instruction::Rand(x, _)
            | Instruction::IfNotKey(x)
            | Instruction::IfKey(x)
            | Instruction::GetDelayTimer(x)
            | Instruction::WaitKey(x)
            | Instruction::SetDelayTimer(x)
            | Instruction::SetSoundTimer(x)
            | Instruction::AddToI(x)
            | Instruction::SpriteAddr(x)
            | Instruction::Decimal(x)
            | Instruction::StoreRegisters(x)
            | Instruction::LoadRegisters(x) => x.0 < 16,
            Instruction::IfNotEqual(x, y)
            | Instruction::SetReg(x, y)
            | Instruction::Or(x, y)
            | Instruction::And(x, y)
            | Instruction::Xor(x, y)
            | Instruction::Add(x, y)
            | Instruction::Sub(x, y)
            | Instruction::NegSub(x, y)
            | Instruction::IfEqual(x, y)
            | Instruction::Draw(x, y, _) => x.0 < 16 && y.0 < 16,
            _ => true,
        }
    }

    /// The fault, if any, with which the instruction would stop the machine
    /// as it is now.
    pub fn check(&self, instruction: &Instruction) -> (found: Option<VmError>)
        ensures
            found == fault(self@, *instruction),
    {
        if let Instruction::MachineCodeRoutine(_) = *instruction {
            return Some(VmError::UnsupportedRoutine);
        }
        if !VirtualMachine::registers_exist(instruction) {
            return Some(VmError::InvalidRegister);
        }
        let index = self.register_i.0 as usize;
        let out_of_memory = match *instruction {
            Instruction::CallSubroutine(_) => {
                if self.stack.len() >= STACK_DEPTH {
                    return Some(VmError::StackOverflow);
                }
                false
            },
            Instruction::ReturnSubroutine => {
                if self.stack.len() == 0 {
                    return Some(VmError::StackUnderflow);
                }
                false
            },
            Instruction::Draw(_, _, n) => n.0 > 0 && index + n.0 as usize > MEMORY_SIZE,
            Instruction::Decimal(_) => index + 3 > MEMORY_SIZE,
            Instruction::StoreRegisters(x) | Instruction::LoadRegisters(x) => index + x.0 as usize
                + 1 > MEMORY_SIZE,
            _ => false,
        };
        if out_of_memory {
            Some(VmError::InvalidAddress)
        } else {
            None
        }
    }

    /// Stores registers 0 to `last` in memory from the index register on.
    fn store_registers(&mut self, last: &Register)
        requires
            last.0 < 16,
            old(self)@.index.0 + last.0 + 1 <= MEMORY_SIZE,
        ensures
            final(self)@ == (MachineState {
                memory: stored_registers(
                    old(self)@.memory,
                    old(self)@.registers,
                    old(self)@.index.0 as int,
                    last.0 as int,
                ),
                ..old(self)@
            }),
    {
        let index = self.register_i.0 as usize;
        let mut i: usize = 0;
        while i <= last.0 as usize
            invariant
                i <= last.0 + 1,
                last.0 < 16,
                index + last.0 + 1 <= MEMORY_SIZE,
                index == old(self)@.index.0,
                self@ == (MachineState {
                    memory: stored_registers(
                        old(self)@.memory,
                        old(self)@.registers,
                        index as int,
                        i - 1,
                    ),
                    ..old(self)@
                }),
            decreases last.0 + 1 - i,
        {
            self.memory[index + i] = self.registers[i];
            assert(self@.memory =~= stored_registers(
                old(self)@.memory,
                old(self)@.registers,
                index as int,
                i as int,
            ));
            i += 1;
        }
    }

    /// Loads registers 0 to `last` from memory at the index register.
    fn load_registers(&mut self, last: &Register)
        requires
            last.0 < 16,
            old(self)@.index.0 + last.0 + 1 <= MEMORY_SIZE,
        ensures
            final(self)@ == (MachineState {
                registers: loaded_registers(
                    old(self)@.memory,
                    old(self)@.registers,
                    old(self)@.index.0 as int,
                    last.0 as int,
                ),
                ..old(self)@
            }),
    {
        let index = self.register_i.0 as usize;
        let mut i: usize = 0;
        while i <= last.0 as usize
            invariant
                i <= last.0 + 1,
                last.0 < 16,
                index + last.0 + 1 <= MEMORY_SIZE,
                index == old(self)@.index.0,
                self@ == (MachineState {
                    registers: loaded_registers(
                        old(self)@.memory,
                        old(self)@.registers,
                        index as int,
                        i - 1,
                    ),
                    ..old(self)@
                }),
            decreases last.0 + 1 - i,
        {
            self.registers[i] = self.memory[index + i];
            assert(self@.registers =~= loaded_registers(
                old(self)@.memory,
                old(self)@.registers,
                index as int,
                i as int,
            ));
            i += 1;
        }
    }

    /// Stores the three decimal digits of `value` in memory at the index
    /// register.
    fn store_decimal(&mut self, value: u8)
        requires
            old(self)@.index.0 + 3 <= MEMORY_SIZE,
        ensures
            final(self)@ == (MachineState {
                memory: stored_decimal(old(self)@.memory, old(self)@.index.0 as int, value),
                ..old(self)@
            }),
    {
        let index = self.register_i.0 as usize;
        self.memory[index] = Value(value / 100);
        self.memory[index + 1] = Value(value / 10 % 10);
        self.memory[index + 2] = Value(value % 10);
    }

    /// Executes an instruction that moves the program counter only, or
    /// waits for a key.
    fn execute_flow(&mut self, instruction: &Instruction, key_down: Option<u8>)
        requires
            fault(old(self)@, *instruction) is None,
            is_flow(*instruction),
        ensures
            forall|delay_timer: Value, random: u8|
                final(self)@ == #[trigger] next_machine(
                    old(self)@,
                    key_down,
                    delay_timer,
                    *instruction,
                    random,
                ),
    {
        self.advance();
        match *instruction {
            Instruction::CallSubroutine(addr) => self.call_subroutine(&addr),
            Instruction::ReturnSubroutine => self.return_subroutine(),
            Instruction::Jump(addr) => self.program_counter = addr,
            Instruction::JumpAdd(addr) => {
                let offset = self.register(&Register(0)).0 as u16;
                self.program_counter = Address(addr.0.wrapping_add(offset));
            },
            Instruction::IfNotEqualConst(vx, n) => {
                let x = self.register(&vx);
                self.skip_if(x.0 == n.0);
            },
            Instruction::IfEqualConst(vx, n) => {
                let x = self.register(&vx);
                self.skip_if(x.0 != n.0);
            },
            Instruction::IfNotEqual(vx, vy) => {
                let x = self.register(&vx);
                let y = self.register(&vy);
                self.skip_if(x.0 == y.0);
            },
            Instruction::IfEqual(vx, vy) => {
                let x = self.register(&vx);
                let y = self.register(&vy);
                self.skip_if(x.0 != y.0);
            },
            Instruction::IfNotKey(vx) => {
                let target = self.register(&vx).0;
                let unpressed = match key_down {
                    Some(key) => key != target,
                    None => true,
                };
                self.skip_if(unpressed);
            },
            Instruction::IfKey(vx) => {
                let target = self.register(&vx).0;
                let pressed = match key_down {
                    Some(key) => key == target,
                    None => false,
                };
                self.skip_if(pressed);
            },
            Instruction::WaitKey(vx) => {
                match key_down {
                    Some(key) => self.set_register(&vx, Value(key)),
                    None => {
                        self.program_counter = Address(self.program_counter.0.wrapping_sub(2));
                    },
                }
            },
            _ => (),
        }
    }

    /// Executes an instruction that computes a register.
    fn execute_arithmetic(&mut self, instruction: &Instruction, delay_timer: Value, random: u8)
        requires
            fault(old(self)@, *instruction) is None,
            is_arithmetic(*instruction),
        ensures
            forall|key_down: Option<u8>|
                final(self)@ == #[trigger] next_machine(
                    old(self)@,
                    key_down,
                    delay_timer,
                    *instruction,
                    random,
                ),
    {
        self.advance();
        match *instruction {
            Instruction::SetConst(vx, n) => self.set_register(&vx, n),
            Instruction::AddConst(vx, n) => {
                let x = self.register(&vx).0;
                self.set_register(&vx, Value(x.wrapping_add(n.0)));
            },
            Instruction::SetReg(vx, vy) => {
                let y = self.register(&vy);
                self.set_register(&vx, y);
            },
            Instruction::Or(vx, vy) => {
                let x = self.register(&vx).0;
                let y = self.register(&vy).0;
                self.set_register(&vx, Value(x | y));
            },
            Instruction::And(vx, vy) => {
                let x = self.register(&vx).0;
                let y = self.register(&vy).0;
                self.set_register(&vx, Value(x & y));
            },
            Instruction::Xor(vx, vy) => {
                let x = self.register(&vx).0;
                let y = self.register(&vy).0;
                self.set_register(&vx, Value(x ^ y));
            },
            Instruction::Add(vx, vy) => {
                let x = self.register(&vx).0;
                let y = self.register(&vy).0;
                self.set_vf(if x.checked_add(y).is_none() { 1 } else { 0 });
                self.set_register(&vx, Value(x.wrapping_add(y)));
            },
            Instruction::Sub(vx, vy) => {
                let x = self.register(&vx).0;
                let y = self.register(&vy).0;
                self.set_vf(if x > y { 1 } else { 0 });
                self.set_register(&vx, Value(x.wrapping_sub(y)));
            },
            Instruction::NegSub(vx, vy) => {
                let x = self.register(&vx).0;
                let y = self.register(&vy).0;
                self.set_vf(if y > x { 1 } else { 0 });
                self.set_register(&vx, Value(y.wrapping_sub(x)));
            },
            Instruction::RightShift(vx) => {
                let x = self.register(&vx).0;
                assert(x & 1 == x % 2 && x >> 1 == x / 2) by (bit_vector);
                self.set_vf(x & 1);
                self.set_register(&vx, Value(x >> 1));
            },
            Instruction::LeftShift(vx) => {
                let x = self.register(&vx).0;
                assert((x & 128 != 0) == (x / 128 == 1) && x / 128 <= 1 && x << 1 == (x * 2) % 256)
                    by (bit_vector);
                self.set_vf(if x & 128 != 0 { 1 } else { 0 });
                self.set_register(&vx, Value(x << 1));
            },
            Instruction::Rand(vx, n) => self.set_register(&vx, Value(random & n.0)),
            Instruction::GetDelayTimer(vx) => self.set_register(&vx, delay_timer),
            _ => (),
        }
    }

    /// Executes an instruction that works on the index register or on the
    /// memory that it points to.
    fn execute_memory(&mut self, instruction: &Instruction)
        requires
            fault(old(self)@, *instruction) is None,
            is_memory(*instruction),
        ensures
            forall|key_down: Option<u8>, delay_timer: Value, random: u8|
                final(self)@ == #[trigger] next_machine(
                    old(self)@,
                    key_down,
                    delay_timer,
                    *instruction,
                    random,
                ),
    {
        self.advance();
        match *instruction {
            Instruction::SpriteAddr(vx) => {
                let digit = self.register(&vx).0;
                self.register_i = Address(FONT_OFFSET + (digit as u16) * 5);
            },
            Instruction::SetI(addr) => self.register_i = addr,
            Instruction::AddToI(vx) => {
                let x = self.register(&vx).0 as u16;
                self.register_i = Address(self.register_i.0.wrapping_add(x));
            },
            Instruction::Decimal(vx) => {
                let x = self.register(&vx).0;
                self.store_decimal(x);
            },
            Instruction::StoreRegisters(vx) => self.store_registers(&vx),
            Instruction::LoadRegisters(vx) => self.load_registers(&vx),
            _ => (),
        }
    }

    /// Executes an instruction that writes to the interface.
    fn execute_output(&mut self, instruction: &Instruction, interface: &mut VMInterface)
        requires
            fault(old(self)@, *instruction) is None,
            is_output(*instruction),
        ensures
            forall|key_down: Option<u8>, delay_timer: Value, random: u8|
                final(self)@ == #[trigger] next_machine(
                    old(self)@,
                    key_down,
                    delay_timer,
                    *instruction,
                    random,
                ),
            final(interface)@ == next_interface(old(self)@, old(interface)@, *instruction),
            touches_display(*instruction) || final(interface).display == old(interface).display,
    {
        self.advance();
        match *instruction {
            Instruction::Draw(vx, vy, n) => self.draw_shape(&vx, &vy, &n, interface),
            Instruction::ClearDisplay => self.clear_display(interface),
            Instruction::SetDelayTimer(vx) => {
                interface.delay_timer = self.register(&vx);
            },
            Instruction::SetSoundTimer(vx) => {
                interface.sound_timer = self.register(&vx);
            },
            _ => (),
        }
    }

    /// Executes one instruction with `random` as the random byte that it
    /// draws, if it draws one.
    ///
    /// The program counter is first moved past the instruction; the
    /// instruction's own effect comes after. An instruction that faults leaves
    /// machine and interface untouched.
    pub fn execute_with(
        &mut self,
        instruction: &Instruction,
        interface: &mut VMInterface,
        random: u8,
    ) -> (outcome: Result<(), VmError>)
        ensures
            executes(
                old(self)@,
                *old(interface),
                *instruction,
                random,
                outcome,
                final(self)@,
                *final(interface),
            ),
            outcome is Err ==> *final(self) == *old(self),
            old(self)@.wf() ==> final(self)@.wf(),
    {
        if let Some(error) = self.check(instruction) {
            return Err(error);
        }
        match *instruction {
            Instruction::Noop
            | Instruction::MachineCodeRoutine(_)
            | Instruction::CallSubroutine(_)
            | Instruction::ReturnSubroutine
            | Instruction::Jump(_)
            | Instruction::JumpAdd(_)
            | Instruction::IfNotEqualConst(_, _)
            | Instruction::IfEqualConst(_, _)
            | Instruction::IfNotEqual(_, _)
            | Instruction::IfEqual(_, _)
            | Instruction::IfNotKey(_)
            | Instruction::IfKey(_)
            | Instruction::WaitKey(_) => self.execute_flow(instruction, interface.key_down),
            Instruction::SetConst(_, _)
            | Instruction::AddConst(_, _)
            | Instruction::SetReg(_, _)
            | Instruction::Or(_, _)
            | Instruction::And(_, _)
            | Instruction::Xor(_, _)
            | Instruction::Add(_, _)
            | Instruction::Sub(_, _)
            | Instruction::NegSub(_, _)
            | Instruction::RightShift(_)
            | Instruction::LeftShift(_)
            | Instruction::Rand(_, _)
            | Instruction::GetDelayTimer(_) => self.execute_arithmetic(
                instruction,
                interface.delay_timer,
                random,
            ),
            Instruction::SetI(_)
            | Instruction::AddToI(_)
            | Instruction::SpriteAddr(_)
            | Instruction::Decimal(_)
            | Instruction::StoreRegisters(_)
            | Instruction::LoadRegisters(_) => self.execute_memory(instruction),
            Instruction::Draw(_, _, _)
            | Instruction::ClearDisplay
            | Instruction::SetDelayTimer(_)
            | Instruction::SetSoundTimer(_) => self.execute_output(instruction, interface),
        }
        proof {
            if old(self)@.wf() {
                lemma_stack_bounded(
                    old(self)@,
                    *instruction,
                    old(interface).key_down,
                    old(interface).delay_timer,
                    random,
                );
            }
        }
        Ok(())
    }

    /// Executes one instruction. `Rand` draws its byte from the thread's
    /// random number generator, so what it leaves in its register is one of
    /// the values that `execute_with` leaves there for some byte; every other
    /// instruction does exactly what `execute_with` does.
    pub fn execute_instruction(
        &mut self,
        instruction: &Instruction,
        interface: &mut VMInterface,
    ) -> (outcome: Result<(), VmError>)
        ensures
            exists|random: u8|
                executes(
                    old(self)@,
                    *old(interface),
                    *instruction,
                    random,
                    outcome,
                    final(self)@,
                    *final(interface),
                ),
            outcome is Err ==> *final(self) == *old(self),
            old(self)@.wf() ==> final(self)@.wf(),
    {
        let random = match *instruction {
            Instruction::Rand(_, _) => random_byte(),
            _ => 0,
        };
        self.execute_with(instruction, interface, random)
    }

    /// Fetches the instruction at the program counter and executes it. A
    /// fault in fetching or decoding leaves machine and interface untouched,
    /// as a fault in executing does.
    pub fn step(&mut self, interface: &mut VMInterface) -> (outcome: Result<(), VmError>)
        ensures
            match fetch(old(self)@) {
                Err(error) => outcome == Err::<(), VmError>(error) && *final(interface) == *old(
                    interface,
                ),
                Ok(instruction) => exists|random: u8|
                    executes(
                        old(self)@,
                        *old(interface),
                        instruction,
                        random,
                        outcome,
                        final(self)@,
                        *final(interface),
                    ),
            },
            outcome is Err ==> *final(self) == *old(self),
            old(self)@.wf() ==> final(self)@.wf(),
    {
        match self.current_instruction() {
            Err(error) => Err(error),
            Ok(instruction) => self.execute_instruction(&instruction, interface),
        }
    }
}

} // verus!
