use vstd::prelude::*;
use crate::emulator::basics::{
    Address, Register, Value, VmError, MEMORY_SIZE, SCREEN_HEIGHT, STACK_DEPTH,
};
use crate::emulator::display::{collides, toggle_all};
use crate::emulator::program::{decode, Instruction};
use crate::emulator::semantics::{
    address_plus, fault, next_interface, next_machine, registers_valid, row_pixels, sprite_bit, sprite_column,
    sprite_pixels, sprite_row, ticked, InterfaceState, MachineState,
};

verus! {

/// Whether the operands of an instruction are within what an opcode can
/// hold: register indices below 16, addresses below 4096, and at most 15
/// sprite rows.
pub open spec fn operands_in_range(instruction: Instruction) -> bool {
    &&& registers_valid(instruction)
    &&& match instruction {
        Instruction::MachineCodeRoutine(address)
        | Instruction::Jump(address)
        | Instruction::CallSubroutine(address)
        | Instruction::SetI(address)
        | Instruction::JumpAdd(address) => address.0 < MEMORY_SIZE,
        Instruction::Draw(_, _, rows) => rows.0 < 16,
        _ => true,
    }
}

/// Decoding is total. Every pair of bytes either stands for an instruction,
/// whose operands are then in range, or is an invalid opcode; decoding fails
/// in no other way. A machine-code routine decodes as an instruction, and is
/// the one decoded instruction that faults wherever it is executed. No
/// decoded instruction ever faults for naming a register that does not
/// exist.
pub proof fn lemma_decode_total(a: u8, b: u8)
    ensures
        match decode(a, b) {
            Ok(instruction) => operands_in_range(instruction),
            Err(error) => error == VmError::InvalidOpcode,
        },
        forall|m: MachineState|
            decode(a, b) is Ok ==> #[trigger] fault(m, decode(a, b)->Ok_0) != Some(
                VmError::InvalidRegister,
            ),
        forall|m: MachineState, address: Address|
            decode(a, b) == Ok::<Instruction, VmError>(Instruction::MachineCodeRoutine(address))
                ==> #[trigger] fault(m, Instruction::MachineCodeRoutine(address)) == Some(
                VmError::UnsupportedRoutine,
            ),
{
}

/// What the five instructions that report through the flag register leave
/// in their register and in the flag register.
///
/// With `v` and `w` the contents of the registers `x` and `y` beforehand:
/// `Add` stores `(v + w) % 256` with flag 1 if `v + w > 255`; `Sub` stores
/// `(v - w) % 256` with flag 1 if `v > w`; `NegSub` stores `(w - v) % 256`
/// with flag 1 if `w > v`; `RightShift` stores `v / 2` with flag `v % 2`;
/// `LeftShift` stores `(2 * v) % 256` with flag `v / 128`. The flag is
/// written first: where `x` is the flag register itself, the result
/// replaces the flag, which is why the flag is stated for other `x` only.
/// No other register changes.
pub proof fn lemma_arithmetic_flags(
    m: MachineState,
    x: Register,
    y: Register,
    key_down: Option<u8>,
    delay_timer: Value,
    random: u8,
)
    requires
        m.wf(),
        x.0 < 16,
        y.0 < 16,
    ensures
        ({
            let n = next_machine(m, key_down, delay_timer, Instruction::Add(x, y), random);
            &&& n.reg(x) == (m.reg(x) + m.reg(y)) % 256
            &&& x.0 != 15 ==> n.flag() == if m.reg(x) + m.reg(y) > 255 { 1u8 } else { 0u8 }
            &&& forall|r: int| 0 <= r < 15 && r != x.0 ==> n.registers[r] == m.registers[r]
        }),
        ({
            let n = next_machine(m, key_down, delay_timer, Instruction::Sub(x, y), random);
            &&& n.reg(x) == (m.reg(x) - m.reg(y)) % 256
            &&& x.0 != 15 ==> n.flag() == if m.reg(x) > m.reg(y) { 1u8 } else { 0u8 }
            &&& forall|r: int| 0 <= r < 15 && r != x.0 ==> n.registers[r] == m.registers[r]
        }),
        ({
            let n = next_machine(m, key_down, delay_timer, Instruction::NegSub(x, y), random);
            &&& n.reg(x) == (m.reg(y) - m.reg(x)) % 256
            &&& x.0 != 15 ==> n.flag() == if m.reg(y) > m.reg(x) { 1u8 } else { 0u8 }
            &&& forall|r: int| 0 <= r < 15 && r != x.0 ==> n.registers[r] == m.registers[r]
        }),
        ({
            let n = next_machine(m, key_down, delay_timer, Instruction::RightShift(x), random);
            &&& n.reg(x) == m.reg(x) / 2
            &&& x.0 != 15 ==> n.flag() == m.reg(x) % 2
            &&& forall|r: int| 0 <= r < 15 && r != x.0 ==> n.registers[r] == m.registers[r]
        }),
        ({
            let n = next_machine(m, key_down, delay_timer, Instruction::LeftShift(x), random);
            &&& n.reg(x) == (2 * m.reg(x)) % 256
            &&& x.0 != 15 ==> n.flag() == m.reg(x) / 128
            &&& forall|r: int| 0 <= r < 15 && r != x.0 ==> n.registers[r] == m.registers[r]
        }),
{
}

/// The instructions that leave the flag register alone: the bitwise ones,
/// the two that load a register, and the addition of a constant.
pub proof fn lemma_flag_untouched(
    m: MachineState,
    x: Register,
    y: Register,
    c: Value,
    key_down: Option<u8>,
    delay_timer: Value,
    random: u8,
)
    requires
        m.wf(),
        x.0 < 15,
        y.0 < 16,
    ensures
        next_machine(m, key_down, delay_timer, Instruction::Or(x, y), random).flag() == m.flag(),
        next_machine(m, key_down, delay_timer, Instruction::And(x, y), random).flag() == m.flag(),
        next_machine(m, key_down, delay_timer, Instruction::Xor(x, y), random).flag() == m.flag(),
        next_machine(m, key_down, delay_timer, Instruction::SetReg(x, y), random).flag()
            == m.flag(),
        next_machine(m, key_down, delay_timer, Instruction::SetConst(x, c), random).flag()
            == m.flag(),
        next_machine(m, key_down, delay_timer, Instruction::AddConst(x, c), random).flag()
            == m.flag(),
{
}

/// Clearing the display leaves every pixel off, on the machine's own display
/// and on the sink, and touches nothing else but the program counter.
pub proof fn lemma_clear_display(
    m: MachineState,
    i: InterfaceState,
    key_down: Option<u8>,
    delay_timer: Value,
    random: u8,
)
    ensures
        fault(m, Instruction::ClearDisplay) is None,
        next_machine(m, key_down, delay_timer, Instruction::ClearDisplay, random) == (MachineState {
            lit: Set::empty(),
            ..m.advance()
        }),
        next_interface(m, i, Instruction::ClearDisplay) == (InterfaceState {
            lit: Set::empty(),
            ..i
        }),
{
}

/// The shape of the machine is kept by every instruction that does not
/// fault. In particular the call stack never grows beyond its bound.
pub proof fn lemma_stack_bounded(
    m: MachineState,
    instruction: Instruction,
    key_down: Option<u8>,
    delay_timer: Value,
    random: u8,
)
    requires
        m.wf(),
        fault(m, instruction) is None,
    ensures
        next_machine(m, key_down, delay_timer, instruction, random).wf(),
{
}

/// A call with the stack at its bound is a stack overflow; a return with the
/// stack empty is a stack underflow. Neither faults otherwise.
pub proof fn lemma_stack_faults(m: MachineState, address: Address)
    ensures
        fault(m, Instruction::CallSubroutine(address)) == if m.stack.len() >= STACK_DEPTH {
            Some(VmError::StackOverflow)
        } else {
            None
        },
        fault(m, Instruction::ReturnSubroutine) == if m.stack.len() == 0 {
            Some(VmError::StackUnderflow)
        } else {
            None
        },
{
}

/// The state after `count` calls of the subroutine at `address`, one after
/// the other.
pub open spec fn after_calls(m: MachineState, address: Address, count: nat) -> MachineState
    decreases count,
{
    if count == 0 {
        m
    } else {
        next_machine(
            after_calls(m, address, (count - 1) as nat),
            None,
            Value(0),
            Instruction::CallSubroutine(address),
            0,
        )
    }
}

/// Starting with an empty stack, sixteen calls in a row succeed, each making
/// the stack one deeper, and the seventeenth is a stack overflow.
pub proof fn lemma_consecutive_calls(m: MachineState, address: Address, count: nat)
    requires
        m.stack.len() == 0,
        count <= STACK_DEPTH,
    ensures
        after_calls(m, address, count).stack.len() == count,
        fault(after_calls(m, address, count), Instruction::CallSubroutine(address)) == if count
            < STACK_DEPTH {
            None
        } else {
            Some(VmError::StackOverflow)
        },
    decreases count,
{
    if count > 0 {
        lemma_consecutive_calls(m, address, (count - 1) as nat);
    }
}

/// A call followed by a return continues behind the call, with the stack as
/// it was.
pub proof fn lemma_call_then_return(
    m: MachineState,
    address: Address,
    key_down: Option<u8>,
    delay_timer: Value,
    random: u8,
)
    requires
        m.stack.len() < STACK_DEPTH,
    ensures
        ({
            let called = next_machine(
                m,
                key_down,
                delay_timer,
                Instruction::CallSubroutine(address),
                random,
            );
            &&& called.pc == address
            &&& fault(called, Instruction::ReturnSubroutine) is None
            &&& next_machine(called, key_down, delay_timer, Instruction::ReturnSubroutine, random)
                == m.advance()
        }),
{
    let called = next_machine(
        m,
        key_down,
        delay_timer,
        Instruction::CallSubroutine(address),
        random,
    );
    assert(called.stack.drop_last() =~= m.stack);
}

/// The interface after `count` ticks of the timer clock.
pub open spec fn after_ticks(i: InterfaceState, count: nat) -> InterfaceState
    decreases count,
{
    if count == 0 {
        i
    } else {
        ticked(after_ticks(i, (count - 1) as nat))
    }
}

/// However often the clock ticks, a timer goes down by one per tick until it
/// is zero and then stays there: it never passes below zero. Ticks touch
/// neither the key nor the display.
pub proof fn lemma_timers_stop_at_zero(i: InterfaceState, count: nat)
    ensures
        after_ticks(i, count).delay_timer.0 == if i.delay_timer.0 >= count {
            i.delay_timer.0 - count
        } else {
            0
        },
        after_ticks(i, count).sound_timer.0 == if i.sound_timer.0 >= count {
            i.sound_timer.0 - count
        } else {
            0
        },
        after_ticks(i, count).key_down == i.key_down,
        after_ticks(i, count).lit == i.lit,
    decreases count,
{
    if count > 0 {
        lemma_timers_stop_at_zero(i, (count - 1) as nat);
    }
}

/// Reading the delay timer gives the value that was last set, less the ticks
/// since, and zero once that many ticks have passed.
pub proof fn lemma_delay_timer_read_back(
    m: MachineState,
    i: InterfaceState,
    x: Register,
    y: Register,
    ticks: nat,
    random: u8,
)
    requires
        m.wf(),
        x.0 < 16,
        y.0 < 16,
    ensures
        ({
            let set = next_interface(m, i, Instruction::SetDelayTimer(x));
            let later = after_ticks(set, ticks);
            let read = next_machine(
                m,
                later.key_down,
                later.delay_timer,
                Instruction::GetDelayTimer(y),
                random,
            );
            read.reg(y) == if m.reg(x) >= ticks {
                m.reg(x) - ticks
            } else {
                0
            }
        }),
{
    lemma_timers_stop_at_zero(next_interface(m, i, Instruction::SetDelayTimer(x)), ticks);
}

/// The random byte matters to `Rand` alone, and of what `Rand` leaves in its
/// register no bit is set that its mask does not have.
pub proof fn lemma_random_byte(
    m: MachineState,
    instruction: Instruction,
    key_down: Option<u8>,
    delay_timer: Value,
    random: u8,
    other: u8,
)
    requires
        m.wf(),
        registers_valid(instruction),
    ensures
        !(instruction is Rand) ==> next_machine(m, key_down, delay_timer, instruction, random)
            == next_machine(m, key_down, delay_timer, instruction, other),
        instruction matches Instruction::Rand(x, mask) ==> next_machine(
            m,
            key_down,
            delay_timer,
            instruction,
            random,
        ).reg(x) & mask.0 == next_machine(m, key_down, delay_timer, instruction, random).reg(x),
{
    if let Instruction::Rand(x, mask) = instruction {
        let r = random;
        let k = mask.0;
        assert((r & k) & k == r & k) by (bit_vector);
    }
}

/// A sink that shows what the machine's own display holds keeps doing so:
/// every instruction hands the sink the very flips that it makes itself.
pub proof fn lemma_sink_follows_display(
    m: MachineState,
    i: InterfaceState,
    instruction: Instruction,
    random: u8,
)
    requires
        i.lit == m.lit,
    ensures
        next_interface(m, i, instruction).lit == next_machine(
            m,
            i.key_down,
            i.delay_timer,
            instruction,
            random,
        ).lit,
{
}

/// Whether one of the leftmost `bits` bits of a sprite row, drawn at column
/// `x0` of display row `y`, is set and lands on the pixel `p`.
pub open spec fn row_covers(row: u8, x0: u8, y: u8, bits: nat, p: (u8, u8)) -> bool {
    exists|k: int|
        0 <= k < bits && sprite_bit(row, k as u8) && p == (#[trigger] sprite_column(x0, k), y)
}

/// Whether a set bit of the sprite of `rows` rows at `index`, drawn at
/// `(x0, y0)`, lands on the pixel `p`.
pub open spec fn sprite_covers(
    memory: Seq<Value>,
    index: int,
    x0: u8,
    y0: u8,
    rows: nat,
    p: (u8, u8),
) -> bool {
    exists|r: int|
        0 <= r < rows && row_covers(memory[index + r].0, x0, #[trigger] sprite_row(y0, r), 8, p)
}

/// Flipping pixels that are all different flips exactly those pixels, and
/// switches a lit pixel off exactly if one of them is lit beforehand.
pub proof fn lemma_toggle_distinct(lit: Set<(u8, u8)>, pixels: Seq<(u8, u8)>)
    requires
        pixels.no_duplicates(),
    ensures
        forall|p: (u8, u8)|
            #[trigger] toggle_all(lit, pixels).contains(p) == (lit.contains(p) != pixels.contains(
                p,
            )),
        collides(lit, pixels) == exists|p: (u8, u8)|
            #[trigger] lit.contains(p) && pixels.contains(p),
    decreases pixels.len(),
{
    if pixels.len() > 0 {
        let init = pixels.drop_last();
        let last = pixels.last();
        lemma_toggle_distinct(lit, init);
        assert(!init.contains(last)) by {
            if init.contains(last) {
                let k = choose|k: int| 0 <= k < init.len() && init[k] == last;
                assert(pixels[k] == pixels[pixels.len() - 1]);
            }
        }
        assert forall|p: (u8, u8)| pixels.contains(p) == (init.contains(p) || p == last) by {
            if init.contains(p) {
                let k = choose|k: int| 0 <= k < init.len() && init[k] == p;
                assert(pixels[k] == p);
            }
            if p == last {
                assert(pixels[pixels.len() - 1] == p);
            }
            if pixels.contains(p) && p != last {
                let k = choose|k: int| 0 <= k < pixels.len() && pixels[k] == p;
                assert(init[k] == p);
            }
        }
        assert(toggle_all(lit, init).contains(last) == lit.contains(last));
        if collides(lit, pixels) {
            if collides(lit, init) {
                let p = choose|p: (u8, u8)| #[trigger] lit.contains(p) && init.contains(p);
                assert(lit.contains(p) && pixels.contains(p));
            } else {
                assert(lit.contains(last) && pixels.contains(last));
            }
        }
        if exists|p: (u8, u8)| #[trigger] lit.contains(p) && pixels.contains(p) {
            let p = choose|p: (u8, u8)| #[trigger] lit.contains(p) && pixels.contains(p);
            if p != last {
                assert(lit.contains(p) && init.contains(p));
            }
        }
    } else {
        assert forall|p: (u8, u8)| !pixels.contains(p) by {}
    }
}

/// The pixels of one sprite row are all different, and they are the pixels
/// on which a set bit of the row lands.
pub proof fn lemma_row_pixels(row: u8, x0: u8, y: u8, bits: nat)
    requires
        bits <= 8,
    ensures
        row_pixels(row, x0, y, bits).no_duplicates(),
        forall|p: (u8, u8)|
            #[trigger] row_pixels(row, x0, y, bits).contains(p) == row_covers(row, x0, y, bits, p),
    decreases bits,
{
    let pixels = row_pixels(row, x0, y, bits);
    if bits == 0 {
        assert forall|p: (u8, u8)| !pixels.contains(p) by {}
    } else {
        let k = (bits - 1) as int;
        let before = row_pixels(row, x0, y, (bits - 1) as nat);
        let here = (sprite_column(x0, k), y);
        lemma_row_pixels(row, x0, y, (bits - 1) as nat);
        assert(!before.contains(here)) by {
            if before.contains(here) {
                assert(row_covers(row, x0, y, (bits - 1) as nat, here));
                let j = choose|j: int|
                    0 <= j < bits - 1 && sprite_bit(row, j as u8) && here == (
                        #[trigger] sprite_column(x0, j),
                        y,
                    );
                assert(sprite_column(x0, j) != sprite_column(x0, k));
            }
        }
        assert forall|p: (u8, u8)| pixels.contains(p) == row_covers(row, x0, y, bits, p) by {
            if sprite_bit(row, k as u8) {
                assert(pixels == before.push(here));
                assert(pixels[pixels.len() - 1] == here);
                if before.contains(p) {
                    let i = choose|i: int| 0 <= i < before.len() && before[i] == p;
                    assert(pixels[i] == p);
                }
                if pixels.contains(p) && p != here {
                    let i = choose|i: int| 0 <= i < pixels.len() && pixels[i] == p;
                    assert(before[i] == p);
                }
            }
            if row_covers(row, x0, y, (bits - 1) as nat, p) {
                let j = choose|j: int|
                    0 <= j < bits - 1 && sprite_bit(row, j as u8) && p == (
                        #[trigger] sprite_column(x0, j),
                        y,
                    );
                assert(0 <= j < bits && sprite_bit(row, j as u8) && p == (sprite_column(x0, j), y));
            }
            if row_covers(row, x0, y, bits, p) {
                let j = choose|j: int|
                    0 <= j < bits && sprite_bit(row, j as u8) && p == (
                        #[trigger] sprite_column(x0, j),
                        y,
                    );
                if j < bits - 1 {
                    assert(row_covers(row, x0, y, (bits - 1) as nat, p));
                }
            }
            if sprite_bit(row, k as u8) && p == here {
                assert(0 <= k < bits && sprite_bit(row, k as u8) && p == (sprite_column(x0, k), y));
            }
        }
    }
}

/// The pixels of a sprite of at most 32 rows are all different, and they are
/// the pixels on which a set bit of the sprite lands.
pub proof fn lemma_sprite_pixels(memory: Seq<Value>, index: int, x0: u8, y0: u8, rows: nat)
    requires
        rows <= SCREEN_HEIGHT,
    ensures
        sprite_pixels(memory, index, x0, y0, rows).no_duplicates(),
        forall|p: (u8, u8)|
            #[trigger] sprite_pixels(memory, index, x0, y0, rows).contains(p) == sprite_covers(
                memory,
                index,
                x0,
                y0,
                rows,
                p,
            ),
    decreases rows,
{
    let pixels = sprite_pixels(memory, index, x0, y0, rows);
    if rows == 0 {
        assert forall|p: (u8, u8)| !pixels.contains(p) by {}
    } else {
        let r = (rows - 1) as int;
        let above = sprite_pixels(memory, index, x0, y0, (rows - 1) as nat);
        let y = sprite_row(y0, r);
        let row = memory[index + r].0;
        let here = row_pixels(row, x0, y, 8);
        lemma_sprite_pixels(memory, index, x0, y0, (rows - 1) as nat);
        lemma_row_pixels(row, x0, y, 8);
        assert(pixels == above + here);
        assert forall|p: (u8, u8)| above.contains(p) implies p.1 != y by {
            assert(sprite_covers(memory, index, x0, y0, (rows - 1) as nat, p));
            let q = choose|q: int|
                0 <= q < rows - 1 && row_covers(
                    memory[index + q].0,
                    x0,
                    #[trigger] sprite_row(y0, q),
                    8,
                    p,
                );
            assert(p.1 == sprite_row(y0, q));
            assert(sprite_row(y0, q) != sprite_row(y0, r));
        }
        assert forall|p: (u8, u8)| here.contains(p) implies p.1 == y by {
            assert(row_covers(row, x0, y, 8, p));
        }
        assert forall|i: int, j: int| 0 <= i < above.len() && 0 <= j < here.len() implies above[i]
            != here[j] by {
            assert(above.contains(above[i]));
            assert(here.contains(here[j]));
        }
        vstd::seq_lib::lemma_no_dup_in_concat(above, here);
        assert forall|p: (u8, u8)| pixels.contains(p) == sprite_covers(
            memory,
            index,
            x0,
            y0,
            rows,
            p,
        ) by {
            if above.contains(p) {
                let i = choose|i: int| 0 <= i < above.len() && above[i] == p;
                assert(pixels[i] == p);
                let q = choose|q: int|
                    0 <= q < rows - 1 && row_covers(
                        memory[index + q].0,
                        x0,
                        #[trigger] sprite_row(y0, q),
                        8,
                        p,
                    );
                assert(0 <= q < rows && row_covers(
                    memory[index + q].0,
                    x0,
                    sprite_row(y0, q),
                    8,
                    p,
                ));
            }
            if here.contains(p) {
                let j = choose|j: int| 0 <= j < here.len() && here[j] == p;
                assert(pixels[above.len() + j] == p);
                assert(0 <= r < rows && row_covers(
                    memory[index + r].0,
                    x0,
                    sprite_row(y0, r),
                    8,
                    p,
                ));
            }
            if pixels.contains(p) {
                let i = choose|i: int| 0 <= i < pixels.len() && pixels[i] == p;
                if i < above.len() {
                    assert(above[i] == p);
                } else {
                    assert(here[i - above.len()] == p);
                }
            }
            if sprite_covers(memory, index, x0, y0, rows, p) {
                let q = choose|q: int|
                    0 <= q < rows && row_covers(
                        memory[index + q].0,
                        x0,
                        #[trigger] sprite_row(y0, q),
                        8,
                        p,
                    );
                if q < rows - 1 {
                    assert(sprite_covers(memory, index, x0, y0, (rows - 1) as nat, p));
                } else {
                    assert(here.contains(p));
                }
            }
        }
    }
}

/// What `Draw` does with a sprite of at most 32 rows, which is every sprite
/// that an opcode can ask for.
///
/// A pixel changes exactly if a set bit of the sprite lands on it. The flag
/// register ends as 1 if a set bit of any row of the sprite, the last or
/// another, lands on a pixel that is lit beforehand, and as 0 otherwise. The
/// sink is handed the same flips as the machine's own display. A taller
/// sprite wraps onto its own rows and flips some pixels twice; what holds
/// then is in `next_machine`.
pub proof fn lemma_draw_collision(
    m: MachineState,
    i: InterfaceState,
    x: Register,
    y: Register,
    n: Value,
    key_down: Option<u8>,
    delay_timer: Value,
    random: u8,
)
    requires
        m.wf(),
        x.0 < 16,
        y.0 < 16,
        n.0 <= SCREEN_HEIGHT,
    ensures
        ({
            let after = next_machine(m, key_down, delay_timer, Instruction::Draw(x, y, n), random);
            let sink = next_interface(m, i, Instruction::Draw(x, y, n));
            let x0 = m.with_flag(0).reg(x);
            let y0 = m.with_flag(0).reg(y);
            let index = m.index.0 as int;
            let rows = n.0 as nat;
            &&& forall|p: (u8, u8)|
                #[trigger] after.lit.contains(p) == (m.lit.contains(p) != sprite_covers(
                    m.memory,
                    index,
                    x0,
                    y0,
                    rows,
                    p,
                ))
            &&& forall|p: (u8, u8)|
                #[trigger] sink.lit.contains(p) == (i.lit.contains(p) != sprite_covers(
                    m.memory,
                    index,
                    x0,
                    y0,
                    rows,
                    p,
                ))
            &&& after.flag() == if exists|p: (u8, u8)|
                #[trigger] m.lit.contains(p) && sprite_covers(m.memory, index, x0, y0, rows, p) {
                1u8
            } else {
                0u8
            }
            &&& forall|r: int| 0 <= r < 15 ==> after.registers[r] == m.registers[r]
        }),
{
    let x0 = m.with_flag(0).reg(x);
    let y0 = m.with_flag(0).reg(y);
    let index = m.index.0 as int;
    let rows = n.0 as nat;
    let pixels = sprite_pixels(m.memory, index, x0, y0, rows);
    lemma_sprite_pixels(m.memory, index, x0, y0, rows);
    lemma_toggle_distinct(m.lit, pixels);
    lemma_toggle_distinct(i.lit, pixels);
    if collides(m.lit, pixels) {
        let p = choose|p: (u8, u8)| #[trigger] m.lit.contains(p) && pixels.contains(p);
        assert(m.lit.contains(p) && sprite_covers(m.memory, index, x0, y0, rows, p));
    }
    if exists|p: (u8, u8)|
        #[trigger] m.lit.contains(p) && sprite_covers(m.memory, index, x0, y0, rows, p) {
        let p = choose|p: (u8, u8)|
            #[trigger] m.lit.contains(p) && sprite_covers(m.memory, index, x0, y0, rows, p);
        assert(m.lit.contains(p) && pixels.contains(p));
    }
}

/// While no key is down, waiting for a key changes nothing, so that the same
/// instruction is fetched again; once a key is down, the key is in the
/// register and the program goes on.
pub proof fn lemma_wait_key(m: MachineState, x: Register, key: u8, delay_timer: Value, random: u8)
    requires
        m.wf(),
        x.0 < 16,
    ensures
        next_machine(m, None, delay_timer, Instruction::WaitKey(x), random) == m,
        next_machine(m, Some(key), delay_timer, Instruction::WaitKey(x), random)
            == m.advance().with_reg(x, key),
{
}

/// The three bytes that `Decimal` stores are the decimal digits of the
/// register: each is at most 9, and a hundred times the first plus ten times
/// the second plus the third is the register's content. Nothing else in
/// memory changes.
pub proof fn lemma_decimal_digits(
    m: MachineState,
    x: Register,
    key_down: Option<u8>,
    delay_timer: Value,
    random: u8,
)
    requires
        m.wf(),
        x.0 < 16,
        fault(m, Instruction::Decimal(x)) is None,
    ensures
        ({
            let n = next_machine(m, key_down, delay_timer, Instruction::Decimal(x), random);
            let at = m.index.0 as int;
            &&& n.memory[at].0 <= 9 && n.memory[at + 1].0 <= 9 && n.memory[at + 2].0 <= 9
            &&& 100 * n.memory[at].0 + 10 * n.memory[at + 1].0 + n.memory[at + 2].0 == m.reg(x)
            &&& forall|i: int|
                0 <= i < MEMORY_SIZE && !(at <= i < at + 3) ==> n.memory[i] == m.memory[i]
            &&& n.index == m.index
        }),
{
}

/// Registers that are stored and then loaded again are what they were, and
/// neither instruction moves the index register.
pub proof fn lemma_store_then_load(
    m: MachineState,
    x: Register,
    key_down: Option<u8>,
    delay_timer: Value,
    random: u8,
)
    requires
        m.wf(),
        x.0 < 16,
        fault(m, Instruction::StoreRegisters(x)) is None,
    ensures
        ({
            let stored = next_machine(
                m,
                key_down,
                delay_timer,
                Instruction::StoreRegisters(x),
                random,
            );
            let loaded = next_machine(
                stored,
                key_down,
                delay_timer,
                Instruction::LoadRegisters(x),
                random,
            );
            &&& fault(stored, Instruction::LoadRegisters(x)) is None
            &&& forall|r: int|
                0 <= r <= x.0 ==> stored.memory[m.index.0 + r] == #[trigger] m.registers[r]
            &&& forall|i: int|
                0 <= i < MEMORY_SIZE && !(m.index.0 <= i <= m.index.0 + x.0)
                    ==> #[trigger] stored.memory[i] == m.memory[i]
            &&& loaded.registers == m.registers
            &&& loaded.index == m.index
        }),
{
    let stored = next_machine(m, key_down, delay_timer, Instruction::StoreRegisters(x), random);
    let loaded = next_machine(stored, key_down, delay_timer, Instruction::LoadRegisters(x), random);
    assert(loaded.registers =~= m.registers);
}

/// The state `m` with the program counter four bytes on if `skip` holds and
/// two bytes on if not.
pub open spec fn skipped(m: MachineState, skip: bool) -> MachineState {
    MachineState {
        pc: address_plus(
            m.pc,
            if skip {
                4
            } else {
                2
            },
        ),
        ..m
    }
}

/// A conditional instruction either skips the instruction behind it, leaving
/// the program counter four bytes on, or does not, leaving it two bytes on;
/// it changes nothing else. The comparisons skip as their opcodes say:
/// `IfNotEqualConst` and `IfNotEqual` on equality, `IfEqualConst` and
/// `IfEqual` on difference. `IfKey` skips if a key is down and it is the one
/// that the register holds; `IfNotKey` skips if no key is down or another
/// one is.
pub proof fn lemma_conditional_skips(
    m: MachineState,
    x: Register,
    y: Register,
    c: Value,
    key_down: Option<u8>,
    delay_timer: Value,
    random: u8,
)
    requires
        m.wf(),
        x.0 < 16,
        y.0 < 16,
    ensures
        next_machine(m, key_down, delay_timer, Instruction::IfNotEqualConst(x, c), random)
            == skipped(m, m.reg(x) == c.0),
        next_machine(m, key_down, delay_timer, Instruction::IfEqualConst(x, c), random) == skipped(
            m,
            m.reg(x) != c.0,
        ),
        next_machine(m, key_down, delay_timer, Instruction::IfNotEqual(x, y), random) == skipped(
            m,
            m.reg(x) == m.reg(y),
        ),
        next_machine(m, key_down, delay_timer, Instruction::IfEqual(x, y), random) == skipped(
            m,
            m.reg(x) != m.reg(y),
        ),
        next_machine(m, key_down, delay_timer, Instruction::IfKey(x), random) == skipped(
            m,
            key_down is Some && key_down->Some_0 == m.reg(x),
        ),
        next_machine(m, key_down, delay_timer, Instruction::IfNotKey(x), random) == skipped(
            m,
            key_down is None || key_down->Some_0 != m.reg(x),
        ),
{
}

} // verus!
