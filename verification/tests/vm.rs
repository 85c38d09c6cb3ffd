use chip8::emulator::basics::{
    Address, Register, Value, FONT_OFFSET, SCREEN_HEIGHT, SCREEN_WIDTH, STACK_DEPTH,
};
use chip8::emulator::program::Instruction;
use chip8::emulator::vm::{VMInterface, VirtualMachine};

fn run(vm: &mut VirtualMachine, interface: &mut VMInterface, instruction: Instruction) {
    vm.execute_instruction(&instruction, interface).unwrap();
}

fn values(bytes: [u8; 16]) -> [Value; 16] {
    let mut registers = [Value(0); 16];
    for (register, byte) in registers.iter_mut().zip(bytes.iter()) {
        *register = Value(*byte);
    }
    registers
}

#[test]
fn test_vm_new() {
    let vm = VirtualMachine::new(&[]);
    let interface = VMInterface::new();
    assert_eq!(vm.program_counter, Address(0x200));
    assert!(vm.stack.is_empty());
    for r in vm.registers.iter() {
        assert_eq!(*r, Value(0));
    }
    assert_eq!(vm.register_i, Address(0));
    assert_eq!(interface.delay_timer, Value(0));
    assert_eq!(interface.sound_timer, Value(0));
    for x in vm.memory.iter().skip(FONT_OFFSET as usize).take(5 * 16) {
        assert_ne!(*x, Value(0));
    }
    for x in vm.memory.iter().skip(512) {
        assert_eq!(*x, Value(0));
    }
    assert_eq!(interface.key_down, None);
    for x in 0..SCREEN_WIDTH as usize {
        for y in 0..SCREEN_HEIGHT as usize {
            assert!(!vm.logical_display[x][y]);
        }
    }
}

#[test]
fn test_noop() {
    let mut vm = VirtualMachine::new(&[]);
    let mut interface = VMInterface::new();
    assert_eq!(vm.program_counter, Address(0x200));
    run(&mut vm, &mut interface, Instruction::Noop);
    assert_eq!(vm.program_counter, Address(0x202));
    run(&mut vm, &mut interface, Instruction::Noop);
    assert_eq!(vm.program_counter, Address(0x204));
}

#[test]
fn test_subroutines() {
    let mut vm = VirtualMachine::new(&[]);
    let mut interface = VMInterface::new();
    vm.program_counter = Address(0);
    assert_eq!(vm.program_counter, Address(0));
    run(&mut vm, &mut interface, Instruction::Noop);
    assert_eq!(vm.program_counter, Address(2));
    assert_eq!(vm.stack.len(), 0);
    run(&mut vm, &mut interface, Instruction::CallSubroutine(Address(123)));
    assert_eq!(vm.program_counter, Address(123));
    assert_eq!(vm.stack.len(), 1);
    run(&mut vm, &mut interface, Instruction::Noop);
    assert_eq!(vm.program_counter, Address(125));
    run(&mut vm, &mut interface, Instruction::CallSubroutine(Address(456)));
    assert_eq!(vm.program_counter, Address(456));
    assert_eq!(vm.stack.len(), 2);
    run(&mut vm, &mut interface, Instruction::ReturnSubroutine);
    assert_eq!(vm.program_counter, Address(127));
    assert_eq!(vm.stack.len(), 1);
    run(&mut vm, &mut interface, Instruction::Noop);
    assert_eq!(vm.program_counter, Address(129));
    run(&mut vm, &mut interface, Instruction::ReturnSubroutine);
    assert_eq!(vm.program_counter, Address(4));
    assert_eq!(vm.stack.len(), 0);
}

#[test]
fn test_stack_no_overflow() {
    let mut vm = VirtualMachine::new(&[]);
    let mut interface = VMInterface::new();
    let call = Instruction::CallSubroutine(Address(0));
    for _ in 0..STACK_DEPTH {
        vm.execute_instruction(&call, &mut interface).unwrap();
    }
}

#[test]
#[should_panic]
fn test_stack_overflow() {
    let mut vm = VirtualMachine::new(&[]);
    let mut interface = VMInterface::new();
    let call = Instruction::CallSubroutine(Address(0));
    for _ in 0..STACK_DEPTH {
        vm.execute_instruction(&call, &mut interface).unwrap();
    }
    vm.execute_instruction(&call, &mut interface).unwrap();
}

#[test]
#[should_panic]
fn test_stack_empty() {
    let mut vm = VirtualMachine::new(&[]);
    let mut interface = VMInterface::new();
    let call = Instruction::ReturnSubroutine;
    vm.execute_instruction(&call, &mut interface).unwrap();
}

#[test]
fn test_jumps() {
    let mut vm = VirtualMachine::new(&[]);
    let mut interface = VMInterface::new();
    vm.program_counter = Address(0);
    assert_eq!(vm.program_counter, Address(0));
    run(&mut vm, &mut interface, Instruction::Noop);
    assert_eq!(vm.program_counter, Address(2));
    run(&mut vm, &mut interface, Instruction::Jump(Address(42)));
    assert_eq!(vm.program_counter, Address(42));
    assert_eq!(vm.registers[0], Value(0));
    run(&mut vm, &mut interface, Instruction::JumpAdd(Address(100)));
    assert_eq!(vm.program_counter, Address(100));
    vm.registers[0] = Value(13);
    run(&mut vm, &mut interface, Instruction::JumpAdd(Address(100)));
    assert_eq!(vm.program_counter, Address(113));
    run(&mut vm, &mut interface, Instruction::Jump(Address(50)));
    assert_eq!(vm.program_counter, Address(50));
}

#[test]
fn test_conditionals() {
    let mut vm = VirtualMachine::new(&[]);
    let mut interface = VMInterface::new();
    vm.program_counter = Address(0);
    vm.registers = values([0, 1, 2, 3, 4, 5, 6, 7, 8, 9, 10, 11, 12, 13, 14, 0]);
    assert_eq!(vm.program_counter, Address(0));
    run(&mut vm, &mut interface, Instruction::IfEqualConst(Register(0), Value(0)));
    assert_eq!(vm.program_counter, Address(2));
    run(&mut vm, &mut interface, Instruction::IfEqualConst(Register(1), Value(2)));
    assert_eq!(vm.program_counter, Address(6));
    run(&mut vm, &mut interface, Instruction::IfNotEqualConst(Register(1), Value(1)));
    assert_eq!(vm.program_counter, Address(10));
    run(&mut vm, &mut interface, Instruction::IfNotEqualConst(Register(2), Value(0)));
    assert_eq!(vm.program_counter, Address(12));
    run(&mut vm, &mut interface, Instruction::IfEqual(Register(4), Register(4)));
    assert_eq!(vm.program_counter, Address(14));
    run(&mut vm, &mut interface, Instruction::IfEqual(Register(4), Register(5)));
    assert_eq!(vm.program_counter, Address(18));
    run(&mut vm, &mut interface, Instruction::IfEqual(Register(0), Register(15)));
    assert_eq!(vm.program_counter, Address(20));
    run(&mut vm, &mut interface, Instruction::IfNotEqual(Register(4), Register(4)));
    assert_eq!(vm.program_counter, Address(24));
    run(&mut vm, &mut interface, Instruction::IfNotEqual(Register(4), Register(5)));
    assert_eq!(vm.program_counter, Address(26));
    run(&mut vm, &mut interface, Instruction::IfNotEqual(Register(0), Register(15)));
    assert_eq!(vm.program_counter, Address(30));
}

#[test]
fn test_arithmetic() {
    let mut vm = VirtualMachine::new(&[]);
    let mut interface = VMInterface::new();
    vm.program_counter = Address(0);
    vm.registers = values([0, 1, 2, 3, 4, 5, 6, 7, 8, 9, 10, 11, 12, 13, 14, 0]);
    assert_eq!(vm.program_counter, Address(0));
    assert_eq!(vm.registers[0], Value(0));
    run(&mut vm, &mut interface, Instruction::SetConst(Register(0), Value(5)));
    assert_eq!(vm.program_counter, Address(2));
    assert_eq!(vm.registers[0], Value(5));
    run(&mut vm, &mut interface, Instruction::AddConst(Register(1), Value(2)));
    assert_eq!(vm.program_counter, Address(4));
    assert_eq!(vm.registers[1], Value(3));
    run(&mut vm, &mut interface, Instruction::SetReg(Register(0), Register(2)));
    assert_eq!(vm.program_counter, Address(6));
    assert_eq!(vm.registers[0], Value(2));
    assert_eq!(vm.registers[2], Value(2));
    run(&mut vm, &mut interface, Instruction::Or(Register(4), Register(1)));
    assert_eq!(vm.program_counter, Address(8));
    assert_eq!(vm.registers[4], Value(7));
    assert_eq!(vm.registers[1], Value(3));
    run(&mut vm, &mut interface, Instruction::And(Register(0), Register(1)));
    assert_eq!(vm.program_counter, Address(10));
    assert_eq!(vm.registers[0], Value(2));
    assert_eq!(vm.registers[1], Value(3));
    run(&mut vm, &mut interface, Instruction::Xor(Register(14), Register(4)));
    assert_eq!(vm.program_counter, Address(12));
    assert_eq!(vm.registers[14], Value(9));
    assert_eq!(vm.registers[4], Value(7));
    run(&mut vm, &mut interface, Instruction::Add(Register(6), Register(7)));
    assert_eq!(vm.program_counter, Address(14));
    assert_eq!(vm.registers[6], Value(13));
    assert_eq!(vm.registers[7], Value(7));
    run(&mut vm, &mut interface, Instruction::Sub(Register(6), Register(5)));
    assert_eq!(vm.program_counter, Address(16));
    assert_eq!(vm.registers[6], Value(8));
    assert_eq!(vm.registers[5], Value(5));
    run(&mut vm, &mut interface, Instruction::NegSub(Register(1), Register(4)));
    assert_eq!(vm.program_counter, Address(18));
    assert_eq!(vm.registers[1], Value(4));
    assert_eq!(vm.registers[4], Value(7));
    run(&mut vm, &mut interface, Instruction::LeftShift(Register(0)));
    assert_eq!(vm.program_counter, Address(20));
    assert_eq!(vm.registers[0], Value(4));
    run(&mut vm, &mut interface, Instruction::RightShift(Register(7)));
    assert_eq!(vm.program_counter, Address(22));
    assert_eq!(vm.registers[7], Value(3));
}

#[test]
fn test_arithmetic_overflow() {
    let mut vm = VirtualMachine::new(&[]);
    let mut interface = VMInterface::new();
    vm.program_counter = Address(0);
    vm.registers = values([100, 100, 60, 40, 100, 0, 8, 9, 0, 65, 129, 0, 0, 0, 0, 0]);
    assert_eq!(vm.program_counter, Address(0));
    run(&mut vm, &mut interface, Instruction::Add(Register(0), Register(1)));
    assert_eq!(vm.program_counter, Address(2));
    assert_eq!(vm.registers[0], Value(200));
    assert_eq!(vm.registers[15], Value(0));
    run(&mut vm, &mut interface, Instruction::Add(Register(0), Register(1)));
    assert_eq!(vm.program_counter, Address(4));
    assert_eq!(vm.registers[0], Value(44));
    assert_eq!(vm.registers[15], Value(1));
    run(&mut vm, &mut interface, Instruction::Sub(Register(1), Register(2)));
    assert_eq!(vm.program_counter, Address(6));
    assert_eq!(vm.registers[1], Value(40));
    assert_eq!(vm.registers[15], Value(1));
    run(&mut vm, &mut interface, Instruction::Sub(Register(1), Register(2)));
    assert_eq!(vm.program_counter, Address(8));
    assert_eq!(vm.registers[1], Value(236));
    assert_eq!(vm.registers[15], Value(0));
    run(&mut vm, &mut interface, Instruction::NegSub(Register(2), Register(3)));
    assert_eq!(vm.program_counter, Address(10));
    assert_eq!(vm.registers[2], Value(236));
    assert_eq!(vm.registers[15], Value(0));
    run(&mut vm, &mut interface, Instruction::NegSub(Register(3), Register(4)));
    assert_eq!(vm.program_counter, Address(12));
    assert_eq!(vm.registers[3], Value(60));
    assert_eq!(vm.registers[15], Value(1));
    run(&mut vm, &mut interface, Instruction::RightShift(Register(6)));
    assert_eq!(vm.program_counter, Address(14));
    assert_eq!(vm.registers[6], Value(4));
    assert_eq!(vm.registers[15], Value(0));
    run(&mut vm, &mut interface, Instruction::RightShift(Register(7)));
    assert_eq!(vm.program_counter, Address(16));
    assert_eq!(vm.registers[7], Value(4));
    assert_eq!(vm.registers[15], Value(1));
    run(&mut vm, &mut interface, Instruction::LeftShift(Register(9)));
    assert_eq!(vm.program_counter, Address(18));
    assert_eq!(vm.registers[9], Value(130));
    assert_eq!(vm.registers[15], Value(0));
    run(&mut vm, &mut interface, Instruction::LeftShift(Register(10)));
    assert_eq!(vm.program_counter, Address(20));
    assert_eq!(vm.registers[10], Value(2));
    assert_eq!(vm.registers[15], Value(1));
}

#[test]
fn test_key_conditionals() {
    // `IfKey` skips when the key held by the register is down, `IfNotKey`
    // when it is not.
    let mut vm = VirtualMachine::new(&[]);
    let mut interface = VMInterface::new();
    vm.program_counter = Address(0);
    assert_eq!(interface.key_down, None);
    vm.registers[0] = Value(0);

    assert_eq!(vm.program_counter, Address(0));
    run(&mut vm, &mut interface, Instruction::IfKey(Register(0)));
    assert_eq!(vm.program_counter, Address(2));
    run(&mut vm, &mut interface, Instruction::IfNotKey(Register(0)));
    assert_eq!(vm.program_counter, Address(6));
    interface.key_down = Some(1);
    run(&mut vm, &mut interface, Instruction::IfKey(Register(0)));
    assert_eq!(vm.program_counter, Address(8));
    run(&mut vm, &mut interface, Instruction::IfNotKey(Register(0)));
    assert_eq!(vm.program_counter, Address(12));
    vm.registers[0] = Value(1);
    run(&mut vm, &mut interface, Instruction::IfKey(Register(0)));
    assert_eq!(vm.program_counter, Address(16));
    run(&mut vm, &mut interface, Instruction::IfNotKey(Register(0)));
    assert_eq!(vm.program_counter, Address(18));

    // The same three situations with the two instructions in the other
    // order.
    vm.program_counter = Address(0);
    interface.key_down = None;
    vm.registers[0] = Value(0);
    run(&mut vm, &mut interface, Instruction::IfNotKey(Register(0)));
    assert_eq!(vm.program_counter, Address(4));
    run(&mut vm, &mut interface, Instruction::IfKey(Register(0)));
    assert_eq!(vm.program_counter, Address(6));
    interface.key_down = Some(1);
    run(&mut vm, &mut interface, Instruction::IfNotKey(Register(0)));
    assert_eq!(vm.program_counter, Address(10));
    run(&mut vm, &mut interface, Instruction::IfKey(Register(0)));
    assert_eq!(vm.program_counter, Address(12));
    vm.registers[0] = Value(1);
    run(&mut vm, &mut interface, Instruction::IfNotKey(Register(0)));
    assert_eq!(vm.program_counter, Address(14));
    run(&mut vm, &mut interface, Instruction::IfKey(Register(0)));
    assert_eq!(vm.program_counter, Address(18));
}

#[test]
fn test_key_wait() {
    let mut vm = VirtualMachine::new(&[]);
    let mut interface = VMInterface::new();
    assert!(interface.key_down.is_none());
    assert_eq!(vm.program_counter, Address(0x200));
    run(&mut vm, &mut interface, Instruction::WaitKey(Register(0)));
    assert_eq!(vm.program_counter, Address(0x200));
    interface.key_down = Some(4);
    run(&mut vm, &mut interface, Instruction::WaitKey(Register(0)));
    assert_eq!(vm.program_counter, Address(0x202));
    assert_eq!(vm.registers[0], Value(4));
}

#[test]
fn test_graphics_draw_simple() {
    let mut vm = VirtualMachine::new(&[]);
    let mut interface = VMInterface::new();
    vm.registers = values([0, 1, 2, 3, 4, 5, 6, 7, 8, 9, 10, 11, 12, 13, 14, 0]);
    vm.register_i = Address(0x200);

    assert!(!vm.logical_display[0][0]);
    vm.draw_pixel(0, 0);
    assert!(vm.logical_display[0][0]);

    run(&mut vm, &mut interface, Instruction::Draw(Register(0), Register(1), Value(1)));
    assert!(!vm.logical_display[0][1]);
    assert!(!vm.logical_display[1][1]);
    assert!(!vm.logical_display[2][1]);
    assert!(!vm.logical_display[3][1]);
    assert!(!vm.logical_display[4][1]);
    assert!(!vm.logical_display[5][1]);
    assert!(!vm.logical_display[6][1]);
    assert!(!vm.logical_display[7][1]);
    assert_eq!(vm.registers[15], Value(0));

    vm.memory[vm.register_i.0 as usize] = Value(0b01010101);
    run(&mut vm, &mut interface, Instruction::Draw(Register(0), Register(1), Value(1)));
    assert!(!vm.logical_display[0][1]);
    assert!(vm.logical_display[1][1]);
    assert!(!vm.logical_display[2][1]);
    assert!(vm.logical_display[3][1]);
    assert!(!vm.logical_display[4][1]);
    assert!(vm.logical_display[5][1]);
    assert!(!vm.logical_display[6][1]);
    assert!(vm.logical_display[7][1]);
    assert_eq!(vm.registers[15], Value(0));

    run(&mut vm, &mut interface, Instruction::ClearDisplay);
    assert!(!vm.logical_display[0][0]);
    assert!(!vm.logical_display[0][1]);
    assert!(!vm.logical_display[1][1]);
    assert!(!vm.logical_display[2][1]);
    assert!(!vm.logical_display[3][1]);
    assert!(!vm.logical_display[4][1]);
    assert!(!vm.logical_display[5][1]);
    assert!(!vm.logical_display[6][1]);
    assert!(!vm.logical_display[7][1]);
    assert_eq!(vm.registers[15], Value(0));
}

#[test]
fn test_graphics_draw_collision() {
    let mut vm = VirtualMachine::new(&[]);
    let mut interface = VMInterface::new();
    assert_eq!(vm.registers[15], Value(0));
    // Sprite 1:
    // 10101
    // 01010
    // 10101
    // 01010
    vm.memory[0x200] = Value(0b10101000);
    vm.memory[0x201] = Value(0b01010000);
    vm.memory[0x202] = Value(0b10101000);
    vm.memory[0x203] = Value(0b01010000);
    vm.register_i = Address(0x200);
    run(&mut vm, &mut interface, Instruction::Draw(Register(0), Register(0), Value(4)));
    assert_eq!(vm.registers[15], Value(0));
    // Sprite 2:
    // 11111
    // 10001
    // 10001
    // 11111
    vm.memory[0x204] = Value(0b11111000);
    vm.memory[0x205] = Value(0b10001000);
    vm.memory[0x206] = Value(0b10001000);
    vm.memory[0x207] = Value(0b11111000);
    vm.register_i = Address(0x204);
    run(&mut vm, &mut interface, Instruction::Draw(Register(0), Register(0), Value(4)));
    assert_eq!(vm.registers[15], Value(1));
    // Both together:
    // 01010
    // 11011
    // 00100
    // 10101
    assert!(!vm.logical_display[0][0]);
    assert!(vm.logical_display[1][0]);
    assert!(!vm.logical_display[2][0]);
    assert!(vm.logical_display[3][0]);
    assert!(!vm.logical_display[4][0]);
    assert!(vm.logical_display[0][1]);
    assert!(vm.logical_display[1][1]);
    assert!(!vm.logical_display[2][1]);
    assert!(vm.logical_display[3][1]);
    assert!(vm.logical_display[4][1]);
    assert!(!vm.logical_display[0][2]);
    assert!(!vm.logical_display[1][2]);
    assert!(vm.logical_display[2][2]);
    assert!(!vm.logical_display[3][2]);
    assert!(!vm.logical_display[4][2]);
    assert!(vm.logical_display[0][3]);
    assert!(!vm.logical_display[1][3]);
    assert!(vm.logical_display[2][3]);
    assert!(!vm.logical_display[3][3]);
    assert!(vm.logical_display[4][3]);
}

#[test]
fn test_graphics_sprite_addr() {
    let mut vm = VirtualMachine::new(&[]);
    let mut interface = VMInterface::new();
    vm.register_i = Address(0x200);
    vm.registers[0] = Value(5);
    run(&mut vm, &mut interface, Instruction::SpriteAddr(Register(0)));
    run(&mut vm, &mut interface, Instruction::Draw(Register(1), Register(1), Value(5)));
    assert!(vm.logical_display[0][0]);
    assert!(vm.logical_display[1][0]);
    assert!(vm.logical_display[2][0]);
    assert!(vm.logical_display[3][0]);
    assert!(vm.logical_display[0][1]);
    assert!(!vm.logical_display[1][1]);
    assert!(!vm.logical_display[2][1]);
    assert!(!vm.logical_display[3][1]);
    assert!(vm.logical_display[0][2]);
    assert!(vm.logical_display[1][2]);
    assert!(vm.logical_display[2][2]);
    assert!(vm.logical_display[3][2]);
    assert!(!vm.logical_display[0][3]);
    assert!(!vm.logical_display[1][3]);
    assert!(!vm.logical_display[2][3]);
    assert!(vm.logical_display[3][3]);
    assert!(vm.logical_display[0][4]);
    assert!(vm.logical_display[1][4]);
    assert!(vm.logical_display[2][4]);
    assert!(vm.logical_display[3][4]);
}

#[test]
fn test_timers() {
    let mut vm = VirtualMachine::new(&[]);
    let mut interface = VMInterface::new();
    vm.program_counter = Address(0);
    vm.registers[0] = Value(42);
    assert_eq!(vm.program_counter, Address(0));
    run(&mut vm, &mut interface, Instruction::SetDelayTimer(Register(0)));
    assert_eq!(vm.program_counter, Address(2));
    assert_eq!(interface.delay_timer, Value(42));
    vm.registers[0] = Value(130);
    run(&mut vm, &mut interface, Instruction::SetSoundTimer(Register(0)));
    assert_eq!(vm.program_counter, Address(4));
    assert_eq!(interface.sound_timer, Value(130));
    run(&mut vm, &mut interface, Instruction::GetDelayTimer(Register(0)));
    assert_eq!(vm.program_counter, Address(6));
    assert_eq!(vm.registers[0], Value(42));
}

#[test]
fn test_i_register() {
    let mut vm = VirtualMachine::new(&[]);
    let mut interface = VMInterface::new();
    vm.registers = values([0, 1, 11, 0, 213, 0, 0, 50, 43, 212, 0, 0, 0, 0, 0, 0]);

    assert_eq!(vm.register_i, Address(0));
    run(&mut vm, &mut interface, Instruction::SetI(Address(1247)));
    assert_eq!(vm.register_i, Address(1247));
    run(&mut vm, &mut interface, Instruction::AddToI(Register(2)));
    assert_eq!(vm.register_i, Address(1258));

    vm.memory[1263] = Value(99);
    run(&mut vm, &mut interface, Instruction::StoreRegisters(Register(4)));
    assert_eq!(vm.register_i, Address(1258));
    assert_eq!(vm.memory[1258], Value(0));
    assert_eq!(vm.memory[1259], Value(1));
    assert_eq!(vm.memory[1260], Value(11));
    assert_eq!(vm.memory[1261], Value(0));
    assert_eq!(vm.memory[1262], Value(213));
    assert_eq!(vm.memory[1263], Value(99));

    run(&mut vm, &mut interface, Instruction::Decimal(Register(4)));
    assert_eq!(vm.register_i, Address(1258));
    assert_eq!(vm.memory[1258], Value(2));
    assert_eq!(vm.memory[1259], Value(1));
    assert_eq!(vm.memory[1260], Value(3));

    vm.memory[1261] = Value(4);
    vm.memory[1262] = Value(5);
    run(&mut vm, &mut interface, Instruction::LoadRegisters(Register(3)));
    assert_eq!(vm.registers[0], Value(2));
    assert_eq!(vm.registers[1], Value(1));
    assert_eq!(vm.registers[2], Value(3));
    assert_eq!(vm.registers[3], Value(4));
    assert_eq!(vm.registers[4], Value(213));
}

#[test]
fn test_rand() {
    let mut vm = VirtualMachine::new(&[]);
    let mut interface = VMInterface::new();
    let mut seen = [false; 256];
    for _ in 0..4096 {
        vm.program_counter = Address(0x200);
        run(&mut vm, &mut interface, Instruction::Rand(Register(3), Value(0xFF)));
        assert_eq!(vm.program_counter, Address(0x202));
        seen[vm.registers[3].0 as usize] = true;
    }
    assert!(seen.iter().filter(|s| **s).count() > 16);
    for _ in 0..256 {
        run(&mut vm, &mut interface, Instruction::Rand(Register(3), Value(0x3C)));
        assert_eq!(vm.registers[3].0 & !0x3C, 0);
        run(&mut vm, &mut interface, Instruction::Rand(Register(4), Value(0)));
        assert_eq!(vm.registers[4], Value(0));
    }
}
