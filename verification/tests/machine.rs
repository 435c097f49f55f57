use glulx::interpreter::decode::{operand_kinds, HostCall, Kind, Operand};
use glulx::interpreter::{Fault, FaultKind, Load, Save};
use glulx::memory::{GlulxMemory, LoadError, Memory};
use glulx::stack::{GlulxStack, Stack};
use glulx::Glulx;

fn rom_with(code: &[(usize, &[u8])]) -> Vec<u8> {
    let mut rom = vec![0u8; 0x100];
    let header: [u32; 7] = [0x476C_756C, 0x0003_0100, 0x100, 0x100, 0x200, 0x100, 0x30];
    for (i, w) in header.iter().enumerate() {
        rom[4 * i..4 * i + 4].copy_from_slice(&w.to_be_bytes());
    }
    for (at, bytes) in code {
        rom[*at..*at + bytes.len()].copy_from_slice(bytes);
    }
    let mut sum = 0u32;
    for chunk in rom.chunks_exact(4) {
        sum = sum.wrapping_add(u32::from_be_bytes([chunk[0], chunk[1], chunk[2], chunk[3]]));
    }
    rom[0x20..0x24].copy_from_slice(&sum.to_be_bytes());
    rom
}

/// A machine inside a frame with two 32-bit locals, about to run `code` at 0x40.
fn machine_at_0x40(code: &[u8]) -> Glulx {
    let memory = GlulxMemory::from_rom(rom_with(&[(0x40, code)])).unwrap();
    let mut stack = GlulxStack::new(0x100);
    stack.push_call_stub(0, 0, 0);
    stack.push_call_frame_c0(vec![4, 2, 0, 0], vec![]);
    Glulx::new(memory, stack, 0x40)
}

fn one_instruction(vm: &mut Glulx) -> Option<HostCall> {
    let number = vm.opcode_number().expect("no opcode");
    vm.eval(number)
}

fn top(vm: &Glulx) -> u32 {
    vm.stack().peek()
}

fn byte_at(vm: &Glulx, ptr: u32) -> u8 {
    vm.memory().read(ptr)
}

fn word_at(vm: &Glulx, ptr: u32) -> u32 {
    vm.memory().read(ptr)
}

#[test]
fn loading_a_story_file() {
    let vm = Glulx::from_rom(rom_with(&[])).unwrap();
    assert_eq!(vm.program_counter(), 0);
    assert!(!vm.is_running());
    assert_eq!(vm.fault(), None);
    assert_eq!(vm.stack().len(), 0);
    assert_eq!(vm.stack().capacity(), 0x100);
    assert_eq!(vm.memory().get_mem_size(), 0x200);

    let mut bad = rom_with(&[]);
    bad[0x50] ^= 1;
    match Glulx::from_rom(bad) {
        Err(e) => assert_eq!(e, LoadError::BadChecksum),
        Ok(_) => panic!("accepted"),
    }
}

#[test]
fn add_from_memory_and_local_to_stack() {
    let mut memory =
        GlulxMemory::from_rom(rom_with(&[(0x40, &[0x10, 0x95, 0x08, 0x20, 0x04])])).unwrap();
    memory.write(0x20, 3u32);
    let mut stack = GlulxStack::new(0x100);
    stack.push_call_frame_c0(vec![4, 2, 0, 0], vec![]);
    stack.write(4, 4u32);
    let mut vm = Glulx::new(memory, stack, 0x40);
    let before = vm.stack().len();

    assert_eq!(vm.opcode_number(), Some(0x10));
    assert_eq!(vm.program_counter(), 0x41);
    assert_eq!(vm.eval(0x10), None);
    assert_eq!(vm.fault(), None);
    assert_eq!(vm.program_counter(), 0x45);
    assert_eq!(vm.stack().len(), before + 4);
    assert_eq!(top(&vm), 7);
}

#[test]
fn jump_is_biased_by_two() {
    let mut vm = machine_at_0x40(&[0x20, 0x01, 0xFE]);
    assert_eq!(one_instruction(&mut vm), None);
    assert_eq!(vm.fault(), None);
    // after the operand the program counter is 0x43; 0x43 - 2 - 2
    assert_eq!(vm.program_counter(), 0x3F);

    let mut vm = machine_at_0x40(&[0x20, 0x01, 0x02]);
    assert_eq!(one_instruction(&mut vm), None);
    assert_eq!(vm.program_counter(), 0x43);

    let mut vm = machine_at_0x40(&[0x20, 0x02, 0x01, 0x00]);
    assert_eq!(one_instruction(&mut vm), None);
    assert_eq!(vm.program_counter(), 0x44 + 0x100 - 2);

    let mut vm = machine_at_0x40(&[]);
    vm.op_jump(0xFFFF_FFFF);
    assert_eq!(vm.program_counter(), 0x40 - 3);
    vm.op_jumpabs(0x1234_5678);
    assert_eq!(vm.program_counter(), 0x1234_5678);
}

#[test]
fn jump_by_zero_or_one_returns() {
    for offset in [0u8, 1] {
        let memory = GlulxMemory::from_rom(rom_with(&[(0x40, &[0x20, 0x01, offset])])).unwrap();
        let mut stack = GlulxStack::new(0x100);
        stack.push_call_frame_c0(vec![0, 0], vec![]);
        let caller = stack.frame_ptr();
        stack.push_call_stub(3, 0, 0x77);
        stack.push_call_frame_c0(vec![0, 0], vec![]);
        let mut vm = Glulx::new(memory, stack, 0x40);
        assert_eq!(one_instruction(&mut vm), None);
        assert_eq!(vm.fault(), None);
        assert_eq!(vm.program_counter(), 0x77);
        assert_eq!(vm.stack().frame_ptr(), caller);
        assert_eq!(vm.stack().operand_count(), 1);
        assert_eq!(top(&vm), offset as u32);
    }
}

#[test]
fn call_and_return() {
    let rom = rom_with(&[
        (0x30, &[0xC0, 0x00, 0x00, 0x30, 0x01, 0x08, 0x50, 0x81, 0x20]),
        (0x50, &[0xC0, 0x04, 0x01, 0x00, 0x00, 0x31, 0x01, 0x05]),
    ]);
    let mut vm = Glulx::from_rom(rom).unwrap();
    vm.init();
    assert!(vm.is_running());
    assert_eq!(vm.program_counter(), 0x33);
    let main_frame = vm.stack().frame_ptr();
    assert_eq!(main_frame, 16);
    let main_len = vm.stack().len();
    assert_eq!(vm.stack().operand_count(), 0);

    assert_eq!(vm.step(), None);
    assert_eq!(vm.program_counter(), 0x55);
    assert_eq!(vm.stack().frame_ptr(), main_len + 16);
    assert_eq!(vm.stack().local_pos(), 12);
    assert_eq!(vm.stack().frame_len(), 16);
    let local: u32 = vm.stack().read(0);
    assert_eq!(local, 0);
    assert_eq!(vm.stack().operand_count(), 0);

    assert_eq!(vm.step(), None);
    assert_eq!(vm.program_counter(), 0x37);
    assert_eq!(vm.stack().frame_ptr(), main_frame);
    assert_eq!(vm.stack().len(), main_len + 4);
    assert_eq!(top(&vm), 5);

    assert_eq!(vm.step(), None);
    assert!(!vm.is_running());
    assert_eq!(vm.fault(), None);
    let pc = vm.program_counter();
    assert_eq!(vm.step(), None);
    assert_eq!(vm.program_counter(), pc);
}

#[test]
fn run_stops_at_quit() {
    let rom = rom_with(&[
        (0x30, &[0xC0, 0x00, 0x00, 0x30, 0x01, 0x08, 0x50, 0x81, 0x20]),
        (0x50, &[0xC0, 0x04, 0x01, 0x00, 0x00, 0x31, 0x01, 0x05]),
    ]);
    let mut vm = Glulx::from_rom(rom.clone()).unwrap();
    vm.init();
    assert_eq!(vm.run(100), None);
    assert!(!vm.is_running());
    assert_eq!(vm.fault(), None);
    assert_eq!(vm.program_counter(), 0x39);
    assert_eq!(top(&vm), 5);

    let mut vm = Glulx::from_rom(rom).unwrap();
    vm.init();
    assert_eq!(vm.run(1), None);
    assert!(vm.is_running());
    assert_eq!(vm.program_counter(), 0x55);
    assert_eq!(vm.run(0), None);
    assert_eq!(vm.program_counter(), 0x55);
}

#[test]
fn endless_loop_runs_out_of_cycles() {
    // the jump has three bytes, so the offset 2 - 3 leads back to its first byte
    let rom = rom_with(&[(0x30, &[0xC0, 0x00, 0x00, 0x20, 0x01, 0xFF])]);
    let mut vm = Glulx::from_rom(rom).unwrap();
    vm.init();
    assert_eq!(vm.run(1000), None);
    assert!(vm.is_running());
    assert_eq!(vm.program_counter(), 0x33);
}

#[test]
fn arguments_go_to_the_locals_of_a_c1_function() {
    let rom = rom_with(&[
        (0x30, &[0xC0, 0x00, 0x00, 0x81, 0x62, 0x11, 0x91, 0x50, 0x07, 0xFE, 0x09]),
        (0x50, &[0xC1, 0x04, 0x01, 0x02, 0x01, 0x00, 0x00, 0x31, 0x09, 0x00]),
    ]);
    let mut vm = Glulx::from_rom(rom).unwrap();
    vm.init();
    // CALLFII 0x50 7 -2 -> local at offset 9 of the caller: no such local
    assert_eq!(vm.step(), None);
    assert_eq!(vm.fault(), None);
    assert_eq!(vm.program_counter(), 0x57);
    let first: u32 = vm.stack().read(0);
    assert_eq!(first, 7);
    let second: u16 = vm.stack().read(4);
    assert_eq!(second, 0xFFFE);
    assert_eq!(vm.stack().operand_count(), 0);
    // RETURN local 0
    assert_eq!(vm.step(), None);
    assert_eq!(vm.fault(), Some(Fault::LocalOutOfBounds));
    assert!(!vm.is_running());
}

#[test]
fn float_instructions_go_to_the_host() {
    let rom = rom_with(&[(
        0x30,
        &[
            0xC0, 0x00, 0x00, // the start function
            0x81, 0xA3, 0x33, 0x08, 0x3F, 0x80, 0x00, 0x00, 0x00, 0x00, 0x00, 0x00, // FDIV
            0x81, 0xC9, 0x18, 0x10, // JISINF
        ],
    )]);
    let mut vm = Glulx::from_rom(rom).unwrap();
    vm.init();
    let call = vm.step().expect("FDIV is for the host");
    assert_eq!(call.opcode, 0x1A3);
    assert_eq!(call.o1, Operand::Value(1.0f32.to_bits()));
    assert_eq!(call.o2, Operand::Value(0.0f32.to_bits()));
    assert_eq!(call.o3, Operand::Place(Save::Push));
    assert_eq!(call.o4, Operand::Value(0));
    assert_eq!(vm.program_counter(), 0x3F);
    let quotient = match (call.o1, call.o2) {
        (Operand::Value(a), Operand::Value(b)) => f32::from_bits(a) / f32::from_bits(b),
        _ => panic!("operands"),
    };
    assert_eq!(quotient, f32::INFINITY);
    match call.o3 {
        Operand::Place(save) => vm.save_u32(save, quotient.to_bits()),
        _ => panic!("place"),
    }
    assert_eq!(top(&vm), 0x7F80_0000);

    let call = vm.step().expect("JISINF is for the host");
    assert_eq!(call.opcode, 0x1C9);
    assert_eq!(call.o1, Operand::Value(0x7F80_0000));
    assert_eq!(call.o2, Operand::Value(0x10));
    assert_eq!(vm.stack().operand_count(), 0);
    assert_eq!(vm.program_counter(), 0x43);
    let taken = match call.o1 {
        Operand::Value(bits) => f32::from_bits(bits).is_infinite(),
        _ => false,
    };
    assert!(taken);
    vm.jump_if(taken, 0x10);
    assert_eq!(vm.program_counter(), 0x43 + 0x10 - 2);
    assert!(vm.is_running());
}

#[test]
fn float_constants_need_four_bytes() {
    let mut vm = machine_at_0x40(&[0x81, 0xA0, 0x31, 0x08, 0x3F, 0x80, 0x00, 0x00, 0x01]);
    assert_eq!(one_instruction(&mut vm), None);
    assert_eq!(vm.fault(), Some(Fault::InvalidMode));
    let mut vm = machine_at_0x40(&[0x81, 0xA0, 0x02, 0x08, 0x00, 0x01]);
    assert_eq!(one_instruction(&mut vm), None);
    assert_eq!(vm.fault(), Some(Fault::InvalidMode));
    let mut vm = machine_at_0x40(&[0x81, 0xA0, 0x00, 0x00]);
    let call = one_instruction(&mut vm).expect("FADD is for the host");
    assert_eq!((call.o1, call.o2), (Operand::Value(0), Operand::Value(0)));
    assert_eq!(call.o3, Operand::Place(Save::Null));
}

#[test]
fn overlapping_mcopy() {
    let mut memory = GlulxMemory::from_rom(rom_with(&[])).unwrap();
    for (i, b) in [1u8, 2, 3, 4, 5, 6].iter().enumerate() {
        memory.write(0x100 + i as u32, *b);
    }
    let mut vm = Glulx::new(memory, GlulxStack::new(0x100), 0);
    vm.op_mcopy(4, 0x100, 0x102);
    assert_eq!(vm.fault(), None);
    let got: Vec<u8> = (0x100..0x106u32).map(|p| byte_at(&vm, p)).collect();
    assert_eq!(got, vec![1, 2, 1, 2, 3, 4]);

    vm.op_mzero(3, 0x101);
    let got: Vec<u8> = (0x100..0x106u32).map(|p| byte_at(&vm, p)).collect();
    assert_eq!(got, vec![1, 0, 0, 0, 3, 4]);

    vm.op_mcopy(4, 0x1FE, 0x100);
    assert_eq!(vm.fault(), Some(Fault::MemoryOutOfBounds));
    let mut vm = machine_at_0x40(&[]);
    vm.op_mzero(1, 0x200);
    assert_eq!(vm.fault(), Some(Fault::MemoryOutOfBounds));
    assert_eq!(Fault::MemoryOutOfBounds.kind(), FaultKind::Runtime);
}

#[test]
fn opcode_numbers_of_one_two_and_four_bytes() {
    let mut vm = machine_at_0x40(&[0x7F]);
    assert_eq!(vm.opcode_number(), Some(0x7F));
    assert_eq!(vm.program_counter(), 0x41);
    let mut vm = machine_at_0x40(&[0x81, 0x20]);
    assert_eq!(vm.opcode_number(), Some(0x120));
    assert_eq!(vm.program_counter(), 0x42);
    let mut vm = machine_at_0x40(&[0xBF, 0xFF]);
    assert_eq!(vm.opcode_number(), Some(0x3FFF));
    let mut vm = machine_at_0x40(&[0xC0, 0x00, 0x01, 0x30]);
    assert_eq!(vm.opcode_number(), Some(0x130));
    assert_eq!(vm.program_counter(), 0x44);
    let mut vm = machine_at_0x40(&[0xFF, 0xFF, 0xFF, 0xFF]);
    assert_eq!(vm.opcode_number(), Some(0x3FFF_FFFF));

    let mut vm = machine_at_0x40(&[]);
    vm.op_jumpabs(0x1FF);
    vm.op_astoreb(0x1FF, 0, 0xC0);
    assert_eq!(vm.opcode_number(), None);
    assert_eq!(vm.fault(), Some(Fault::MemoryOutOfBounds));
    assert_eq!(vm.program_counter(), 0x1FF);
}

#[test]
fn mode_halves() {
    let mut vm = machine_at_0x40(&[0xA5]);
    assert_eq!(vm.lo_hi(), Some((0x5, 0xA)));
    assert_eq!(vm.program_counter(), 0x41);
    let mut vm = machine_at_0x40(&[0x21, 0x43, 0x05]);
    assert_eq!(vm.read_modes(5), Some(vec![1, 2, 3, 4, 5]));
    assert_eq!(vm.program_counter(), 0x43);
    let mut vm = machine_at_0x40(&[0x21, 0x43]);
    assert_eq!(vm.read_modes(4), Some(vec![1, 2, 3, 4]));
    assert_eq!(vm.program_counter(), 0x42);
    assert_eq!(vm.read_modes(0), Some(vec![]));
    assert_eq!(vm.program_counter(), 0x42);
}

#[test]
fn operands_by_mode() {
    let mut vm = machine_at_0x40(&[0xFE, 0xFF, 0xFE, 0x80, 0x00, 0x00, 0x01, 0x12, 0x34]);
    assert_eq!(vm.materialize_load(0, Kind::Word), Some(Load::Const(0)));
    assert_eq!(vm.materialize_load(1, Kind::Word), Some(Load::Const(-2)));
    assert_eq!(vm.materialize_load(2, Kind::Word), Some(Load::Const(-2)));
    assert_eq!(vm.materialize_load(3, Kind::Word), Some(Load::Const(i32::MIN + 1)));
    assert_eq!(vm.materialize_load(8, Kind::Word), Some(Load::Pop));
    assert_eq!(vm.program_counter(), 0x47);
    assert_eq!(vm.materialize_load(6, Kind::Word), Some(Load::Addr(0x1234)));
    vm.op_jumpabs(0x47);
    assert_eq!(vm.materialize_load(0x9, Kind::Byte), Some(Load::Frame(0x12)));
    assert_eq!(vm.materialize_load(0xD, Kind::Short), Some(Load::Ram(0x34)));
    vm.op_jumpabs(0x43);
    assert_eq!(vm.materialize_load(0xF, Kind::Float), Some(Load::Ram(0x8000_0001)));
    vm.op_jumpabs(0x43);
    assert_eq!(vm.materialize_save(0x7), Some(Save::Addr(0x8000_0001)));
    assert_eq!(vm.materialize_save(0xA), Some(Save::Frame(0x1234)));
    assert_eq!(vm.materialize_save(0xD), Some(Save::Ram(0)));
    assert_eq!(vm.materialize_save(0x0), Some(Save::Null));
    assert_eq!(vm.materialize_save(0x8), Some(Save::Push));
    assert_eq!(vm.fault(), None);
}

#[test]
fn modes_that_are_not_admitted() {
    for (mode, kind) in [
        (0x4, Kind::Word),
        (0xC, Kind::Word),
        (0x10, Kind::Word),
        (0x2, Kind::Byte),
        (0x3, Kind::Byte),
        (0x3, Kind::Short),
        (0x1, Kind::Float),
        (0x2, Kind::Float),
        (0x0, Kind::Store),
    ] {
        let mut vm = machine_at_0x40(&[0, 0, 0, 0]);
        assert_eq!(vm.materialize_load(mode, kind), None);
        assert_eq!(vm.fault(), Some(Fault::InvalidMode));
        assert_eq!(vm.program_counter(), 0x40);
    }
    for mode in [0x1, 0x2, 0x3, 0x4, 0xC, 0x10] {
        let mut vm = machine_at_0x40(&[0, 0, 0, 0]);
        assert_eq!(vm.materialize_save(mode), None);
        assert_eq!(vm.fault(), Some(Fault::InvalidMode));
    }
    assert_eq!(Fault::InvalidMode.kind(), FaultKind::Decode);
    let mut vm = machine_at_0x40(&[0x10, 0x41, 0x00, 0x01]);
    assert_eq!(one_instruction(&mut vm), None);
    assert_eq!(vm.fault(), Some(Fault::InvalidMode));
}

#[test]
fn operands_are_fetched_by_width() {
    let mut memory = GlulxMemory::from_rom(rom_with(&[])).unwrap();
    memory.write(0x110, 0xA1B2_C3D4u32);
    let mut stack = GlulxStack::new(0x100);
    stack.push_call_frame_c0(vec![4, 2, 0, 0], vec![]);
    stack.write(0, 0x1122_3344u32);
    stack.push(0x5566_7788u32);
    let mut vm = Glulx::new(memory, stack, 0);
    assert_eq!(vm.fetch(Load::Const(-2), 4), Some(0xFFFF_FFFE));
    assert_eq!(vm.fetch(Load::Const(-2), 2), Some(0xFFFE));
    assert_eq!(vm.fetch(Load::Const(-2), 1), Some(0xFE));
    assert_eq!(vm.fetch(Load::Addr(0x110), 4), Some(0xA1B2_C3D4));
    assert_eq!(vm.fetch(Load::Addr(0x110), 2), Some(0xA1B2));
    assert_eq!(vm.fetch(Load::Addr(0x110), 1), Some(0xA1));
    assert_eq!(vm.fetch(Load::Ram(0x12), 2), Some(0xC3D4));
    assert_eq!(vm.fetch(Load::Ram(0x10), 4), Some(0xA1B2_C3D4));
    assert_eq!(vm.fetch(Load::Frame(0), 4), Some(0x1122_3344));
    let half = u16::from_ne_bytes([0x1122_3344u32.to_ne_bytes()[2], 0x1122_3344u32.to_ne_bytes()[3]]);
    assert_eq!(vm.fetch(Load::Frame(2), 2), Some(half as u32));
    assert_eq!(vm.fetch(Load::Frame(1), 1), Some(0x1122_3344u32.to_ne_bytes()[1] as u32));
    assert_eq!(vm.fetch(Load::Pop, 2), Some(0x7788));
    assert_eq!(vm.stack().operand_count(), 0);
    assert_eq!(vm.fault(), None);
    assert_eq!(vm.fetch(Load::Pop, 4), None);
    assert_eq!(vm.fault(), Some(Fault::StackUnderflow));
}

#[test]
fn fetches_outside_stop_the_machine() {
    let mut vm = machine_at_0x40(&[]);
    assert_eq!(vm.fetch(Load::Addr(0x1FD), 4), None);
    assert_eq!(vm.fault(), Some(Fault::MemoryOutOfBounds));
    let mut vm = machine_at_0x40(&[]);
    assert_eq!(vm.fetch(Load::Addr(0x1FC), 4), Some(0));
    assert_eq!(vm.fetch(Load::Ram(0xFD), 4), None);
    assert_eq!(vm.fault(), Some(Fault::MemoryOutOfBounds));
    let mut vm = machine_at_0x40(&[]);
    assert_eq!(vm.fetch(Load::Ram(0xFFFF_FFFF), 1), None);
    assert_eq!(vm.fault(), Some(Fault::MemoryOutOfBounds));
    let mut vm = machine_at_0x40(&[]);
    assert_eq!(vm.fetch(Load::Frame(4), 4), Some(0));
    assert_eq!(vm.fetch(Load::Frame(5), 4), None);
    assert_eq!(vm.fault(), Some(Fault::LocalOutOfBounds));
}

#[test]
fn results_go_where_the_place_says() {
    let mut vm = machine_at_0x40(&[]);
    vm.save_u32(Save::Null, 1);
    vm.save_u32(Save::Addr(0x104), 0x0102_0304);
    vm.save_u16(Save::Ram(0x10), 0x0506);
    vm.save_u8(Save::Addr(0x120), 0x07);
    vm.save_i32(Save::Ram(0x30), -2);
    vm.save_u32(Save::Frame(4), 0x0809_0A0B);
    vm.save_u16(Save::Frame(0), 0x0C0D);
    vm.save_u8(Save::Frame(3), 0x0E);
    vm.save_u16(Save::Push, 0xFFFF);
    vm.save_u8(Save::Push, 0xFF);
    vm.save_u32(Save::Push, 0xFFFF_FFFF);
    assert_eq!(vm.fault(), None);
    assert_eq!(word_at(&vm, 0x104), 0x0102_0304);
    assert_eq!(word_at(&vm, 0x110), 0x0506_0000);
    assert_eq!(byte_at(&vm, 0x120), 0x07);
    assert_eq!(byte_at(&vm, 0x121), 0);
    assert_eq!(word_at(&vm, 0x130), 0xFFFF_FFFE);
    assert_eq!(vm.fetch(Load::Frame(4), 4), Some(0x0809_0A0B));
    assert_eq!(vm.fetch(Load::Frame(0), 2), Some(0x0C0D));
    assert_eq!(vm.fetch(Load::Frame(3), 1), Some(0x0E));
    assert_eq!(vm.pop(), Some(0xFFFF_FFFF));
    assert_eq!(vm.pop(), Some(0xFF));
    assert_eq!(vm.pop(), Some(0xFFFF));
    assert_eq!(vm.pop(), None);
    assert_eq!(vm.fault(), Some(Fault::StackUnderflow));
}

#[test]
fn results_outside_stop_the_machine() {
    let mut vm = machine_at_0x40(&[]);
    vm.save_u32(Save::Addr(0x1FD), 1);
    assert_eq!(vm.fault(), Some(Fault::MemoryOutOfBounds));
    let mut vm = machine_at_0x40(&[]);
    vm.save_u16(Save::Ram(0xFF), 1);
    assert_eq!(vm.fault(), Some(Fault::MemoryOutOfBounds));
    let mut vm = machine_at_0x40(&[]);
    vm.save_u8(Save::Addr(0x200), 1);
    assert_eq!(vm.fault(), Some(Fault::MemoryOutOfBounds));
    let mut vm = machine_at_0x40(&[]);
    vm.save_u8(Save::Frame(8), 1);
    assert_eq!(vm.fault(), Some(Fault::LocalOutOfBounds));
    assert!(!vm.is_running());
}

#[test]
fn arithmetic_instructions() {
    let mut vm = machine_at_0x40(&[]);
    vm.op_add(i32::MAX, 1, Save::Push);
    assert_eq!(top(&vm), 0x8000_0000);
    vm.op_sub(3, 5, Save::Push);
    assert_eq!(top(&vm), 0xFFFF_FFFE);
    vm.op_mul(-3, 5, Save::Push);
    assert_eq!(top(&vm) as i32, -15);
    vm.op_div(-7, 2, Save::Push);
    assert_eq!(top(&vm) as i32, -3);
    vm.op_mod(-7, 2, Save::Push);
    assert_eq!(top(&vm) as i32, -1);
    vm.op_neg(i32::MIN, Save::Push);
    assert_eq!(top(&vm), 0x8000_0000);
    vm.op_bitand(0xC, 0xA, Save::Push);
    assert_eq!(top(&vm), 0x8);
    vm.op_bitor(0xC, 0xA, Save::Push);
    assert_eq!(top(&vm), 0xE);
    vm.op_bitxor(0xC, 0xA, Save::Push);
    assert_eq!(top(&vm), 0x6);
    vm.op_bitnot(0, Save::Push);
    assert_eq!(top(&vm), 0xFFFF_FFFF);
    vm.op_shiftl(1, 31, Save::Push);
    assert_eq!(top(&vm), 0x8000_0000);
    vm.op_shiftl(1, 32, Save::Push);
    assert_eq!(top(&vm), 0);
    vm.op_sshiftr(-8, 1, Save::Push);
    assert_eq!(top(&vm) as i32, -4);
    vm.op_sshiftr(-8, 40, Save::Push);
    assert_eq!(top(&vm) as i32, -1);
    vm.op_ushiftr(0x8000_0000, 4, Save::Push);
    assert_eq!(top(&vm), 0x0800_0000);
    vm.op_ushiftr(0x8000_0000, 32, Save::Push);
    assert_eq!(top(&vm), 0);
    vm.op_sexs(0xFFFE, Save::Push);
    assert_eq!(top(&vm) as i32, -2);
    vm.op_sexb(0x17F, Save::Push);
    assert_eq!(top(&vm), 0x7F);
    vm.op_copy(0x1234_5678, Save::Addr(0x100));
    vm.op_copys(0xABCD, Save::Addr(0x102));
    vm.op_copyb(0xEF, Save::Addr(0x101));
    assert_eq!(word_at(&vm, 0x100), 0x12EF_ABCD);
    vm.op_nop();
    assert_eq!(vm.fault(), None);
    assert_eq!(vm.program_counter(), 0x40);
}

#[test]
fn division_by_zero_stops_the_machine() {
    let mut vm = machine_at_0x40(&[0x13, 0x01, 0x08, 0x07]);
    let len = vm.stack().len();
    assert_eq!(one_instruction(&mut vm), None);
    assert_eq!(vm.fault(), Some(Fault::DivisionByZero));
    assert!(!vm.is_running());
    assert_eq!(vm.stack().len(), len);
    let mut vm = machine_at_0x40(&[]);
    vm.op_mod(1, 0, Save::Push);
    assert_eq!(vm.fault(), Some(Fault::DivisionByZero));
    assert_eq!(Fault::DivisionByZero.kind(), FaultKind::Runtime);
}

#[test]
fn conditional_jumps() {
    let mut vm = machine_at_0x40(&[]);
    vm.op_jz(0, 0x12);
    assert_eq!(vm.program_counter(), 0x50);
    vm.op_jz(1, 0x12);
    vm.op_jnz(0, 0x12);
    vm.op_jeq(1, 2, 0x12);
    vm.op_jne(1, 1, 0x12);
    vm.op_jlt(0, -1, 0x12);
    vm.op_jge(-1, 0, 0x12);
    vm.op_jgt(-1, 0, 0x12);
    vm.op_jle(0, -1, 0x12);
    vm.op_jltu(0xFFFF_FFFF, 0, 0x12);
    vm.op_jgeu(0, 0xFFFF_FFFF, 0x12);
    vm.op_jgtu(0, 0xFFFF_FFFF, 0x12);
    vm.op_jleu(0xFFFF_FFFF, 0, 0x12);
    assert_eq!(vm.program_counter(), 0x50);
    vm.op_jnz(1, 3);
    vm.op_jeq(1, 1, 3);
    vm.op_jne(1, 2, 3);
    vm.op_jlt(-1, 0, 3);
    vm.op_jge(0, 0, 3);
    vm.op_jgt(0, -1, 3);
    vm.op_jle(-1, -1, 3);
    vm.op_jltu(0, 0xFFFF_FFFF, 3);
    vm.op_jgeu(0xFFFF_FFFF, 0, 3);
    vm.op_jgtu(0xFFFF_FFFF, 0, 3);
    vm.op_jleu(0, 0, 3);
    assert_eq!(vm.program_counter(), 0x50 + 11);
    assert_eq!(vm.fault(), None);
    // JLT -1 0 by 0x10, as an instruction
    let mut vm = machine_at_0x40(&[0x26, 0x01, 0x01, 0xFF, 0x10]);
    assert_eq!(one_instruction(&mut vm), None);
    assert_eq!(vm.program_counter(), 0x45 + 0x10 - 2);
    // JLTU 0xFFFFFFFF 0: not taken
    let mut vm = machine_at_0x40(&[0x2A, 0x01, 0x01, 0xFF, 0x10]);
    assert_eq!(one_instruction(&mut vm), None);
    assert_eq!(vm.program_counter(), 0x45);
}

#[test]
fn arrays_in_memory() {
    let mut vm = machine_at_0x40(&[]);
    vm.op_astore(0x100, 2, 0x0102_0304);
    assert_eq!(word_at(&vm, 0x108), 0x0102_0304);
    vm.op_astores(0x100, 2, 0xFFFF_A1B2);
    assert_eq!(word_at(&vm, 0x104), 0xA1B2_0000);
    vm.op_astoreb(0x100, 2, 0xFFFF_FFC3);
    assert_eq!(byte_at(&vm, 0x102), 0xC3);
    vm.op_aload(0x100, 2, Save::Push);
    assert_eq!(top(&vm), 0x0102_0304);
    vm.op_aloads(0x100, 2, Save::Push);
    assert_eq!(top(&vm), 0xA1B2);
    vm.op_aloadb(0x100, 2, Save::Push);
    assert_eq!(top(&vm), 0xC3);
    vm.op_aload(0x10C, 0xFFFF_FFFF, Save::Push);
    assert_eq!(top(&vm), 0x0102_0304);
    vm.op_astorebit(0x140, 11, 1);
    assert_eq!(byte_at(&vm, 0x141), 0x08);
    vm.op_astorebit(0x140, 8, 5);
    assert_eq!(byte_at(&vm, 0x141), 0x09);
    vm.op_aloadbit(0x140, 11, Save::Push);
    assert_eq!(top(&vm), 1);
    vm.op_aloadbit(0x140, 10, Save::Push);
    assert_eq!(top(&vm), 0);
    vm.op_astorebit(0x140, 11, 0);
    assert_eq!(byte_at(&vm, 0x141), 0x01);
    assert_eq!(vm.fault(), None);
    vm.op_aload(0x1FC, 1, Save::Push);
    assert_eq!(vm.fault(), Some(Fault::MemoryOutOfBounds));
}

#[test]
fn stack_instructions() {
    let mut vm = machine_at_0x40(&[]);
    vm.op_stkcount(Save::Addr(0x100));
    assert_eq!(word_at(&vm, 0x100), 0);
    vm.push(1);
    vm.push(2);
    vm.push(3);
    vm.op_stkcount(Save::Addr(0x100));
    assert_eq!(word_at(&vm, 0x100), 3);
    vm.op_stkpeek(0, Save::Addr(0x104));
    vm.op_stkpeek(2, Save::Addr(0x108));
    assert_eq!((word_at(&vm, 0x104), word_at(&vm, 0x108)), (3, 1));
    vm.op_stkswap();
    assert_eq!(top(&vm), 2);
    vm.op_stkcopy(2);
    assert_eq!(vm.fault(), None);
    assert_eq!(vm.stack().operand_count(), 5);
    let got: Vec<Option<u32>> = (0..5).map(|_| vm.pop()).collect();
    assert_eq!(got, vec![Some(2), Some(3), Some(2), Some(3), Some(1)]);
    vm.op_stkcopy(0);
    assert_eq!(vm.fault(), None);
    vm.op_stkpeek(0, Save::Null);
    assert_eq!(vm.fault(), Some(Fault::StackUnderflow));
    let mut vm = machine_at_0x40(&[]);
    vm.push(1);
    vm.op_stkswap();
    assert_eq!(vm.fault(), Some(Fault::StackUnderflow));
    let mut vm = machine_at_0x40(&[]);
    vm.push(1);
    vm.op_stkcopy(2);
    assert_eq!(vm.fault(), Some(Fault::StackUnderflow));
}

#[test]
fn rolling_the_stack() {
    fn stack_of(vm: &mut Glulx, n: usize) -> Vec<u32> {
        let mut got: Vec<u32> = (0..n).map(|_| vm.pop().unwrap()).collect();
        got.reverse();
        got
    }
    let mut vm = machine_at_0x40(&[]);
    for v in [8u32, 7, 6, 5, 4, 3, 2, 1, 0] {
        vm.push(v);
    }
    vm.op_stkroll(5, 1);
    assert_eq!(vm.fault(), None);
    assert_eq!(vm.stack().operand_count(), 9);
    assert_eq!(stack_of(&mut vm, 9), vec![8, 7, 6, 5, 0, 4, 3, 2, 1]);
    for v in [8u32, 7, 6, 5, 0, 4, 3, 2, 1] {
        vm.push(v);
    }
    vm.op_stkroll(9, -3);
    assert_eq!(stack_of(&mut vm, 9), vec![5, 0, 4, 3, 2, 1, 8, 7, 6]);
    for v in [1u32, 2, 3] {
        vm.push(v);
    }
    vm.op_stkroll(3, 3);
    vm.op_stkroll(3, 0);
    vm.op_stkroll(0, 5);
    vm.op_stkroll(1, i32::MIN);
    vm.op_stkroll(3, -6);
    assert_eq!(vm.stack().peek_slot(0), 3);
    vm.op_stkroll(3, 4);
    assert_eq!(stack_of(&mut vm, 3), vec![3, 1, 2]);
    assert_eq!(vm.fault(), None);
    vm.push(1);
    vm.op_stkroll(2, 1);
    assert_eq!(vm.fault(), Some(Fault::StackUnderflow));
    // STKROLL 2 -1, as an instruction
    let mut vm = machine_at_0x40(&[0x53, 0x11, 0x02, 0xFF]);
    vm.push(1);
    vm.push(2);
    assert_eq!(one_instruction(&mut vm), None);
    assert_eq!(stack_of(&mut vm, 2), vec![2, 1]);
}

#[test]
fn full_stack_stops_the_machine() {
    let memory = GlulxMemory::from_rom(rom_with(&[])).unwrap();
    let mut stack = GlulxStack::new(24);
    stack.push_call_frame_c0(vec![4, 1, 0, 0], vec![]);
    let mut vm = Glulx::new(memory, stack, 0x40);
    vm.push(1);
    assert_eq!(vm.fault(), None);
    assert_eq!(vm.stack().len(), 20);
    vm.op_stkcopy(1);
    assert_eq!(vm.fault(), None);
    assert_eq!(vm.stack().len(), 24);
    vm.op_stkcopy(1);
    assert_eq!(vm.fault(), Some(Fault::StackOverflow));
    let mut vm = Glulx::from_rom(rom_with(&[(0x30, &[0xC0, 0x04, 0xFF, 0x00, 0x00])])).unwrap();
    vm.init();
    assert_eq!(vm.fault(), Some(Fault::StackOverflow));
    assert!(!vm.is_running());
}

#[test]
fn questions_about_the_machine() {
    let mut vm = machine_at_0x40(&[]);
    for (selector, arg, answer) in [
        (0u16, 0u16, 0x0003_0100u32),
        (1, 0, 1),
        (2, 0, 0),
        (3, 0, 0),
        (4, 0, 1),
        (4, 1, 0),
        (4, 2, 0),
        (5, 0, 0),
        (6, 0, 1),
        (7, 0, 0),
        (8, 0, 0),
        (9, 0, 0),
        (0xA, 0, 0),
        (0xB, 0, 1),
        (0xC, 0, 0),
        (0xFFFF, 0, 0),
    ] {
        vm.op_gestalt(selector, arg, Save::Addr(0x100));
        assert_eq!(word_at(&vm, 0x100), answer);
    }
    vm.op_getmemsize(Save::Push);
    assert_eq!(top(&vm), 0x200);
    vm.op_setmemsize(0x400, Save::Push);
    assert_eq!(top(&vm), 0);
    assert_eq!(vm.memory().get_mem_size(), 0x400);
    vm.op_setmemsize(0x100, Save::Push);
    assert_eq!(top(&vm), 1);
    vm.op_setmemsize(0x201, Save::Push);
    assert_eq!(top(&vm), 1);
    assert_eq!(vm.memory().get_mem_size(), 0x400);
    // GESTALT 4 0 -> push, as an instruction
    let mut vm = machine_at_0x40(&[0x81, 0x00, 0x01, 0x08, 0x04]);
    assert_eq!(one_instruction(&mut vm), None);
    assert_eq!(top(&vm), 1);
}

#[test]
fn calls_take_their_arguments_from_the_stack() {
    let rom = rom_with(&[
        (0x30, &[0xC0, 0x00, 0x00]),
        (0x50, &[0xC0, 0x00, 0x00, 0x31, 0x08]),
    ]);
    let mut vm = Glulx::from_rom(rom).unwrap();
    vm.init();
    vm.push(30);
    vm.push(20);
    vm.push(10);
    vm.op_call(0x50, 2, Save::Ram(0x10));
    assert_eq!(vm.fault(), None);
    assert_eq!(vm.program_counter(), 0x53);
    assert_eq!(vm.stack().operand_count(), 2);
    assert_eq!(vm.stack().peek_slot(0), 10);
    assert_eq!(vm.stack().peek_slot(1), 20);
    // RETURN pop
    assert_eq!(vm.step(), None);
    assert_eq!(vm.fault(), None);
    assert_eq!(vm.program_counter(), 0x33);
    assert_eq!(word_at(&vm, 0x110), 10);
    assert_eq!(vm.stack().operand_count(), 1);
    assert_eq!(top(&vm), 30);

    vm.op_call(0x50, 2, Save::Null);
    assert_eq!(vm.fault(), Some(Fault::StackUnderflow));
}

#[test]
fn calls_with_arguments_in_the_instruction() {
    let rom = rom_with(&[(0x30, &[0xC0, 0x00, 0x00]), (0x50, &[0xC0, 0x00, 0x00])]);
    let mut vm = Glulx::from_rom(rom.clone()).unwrap();
    vm.init();
    vm.op_callf(0x50, Save::Null);
    assert_eq!(vm.stack().operand_count(), 0);
    vm.op_callfi(0x50, 1, Save::Null);
    assert_eq!(vm.stack().operand_count(), 1);
    vm.op_callfii(0x50, 1, 2, Save::Null);
    assert_eq!(vm.stack().operand_count(), 2);
    assert_eq!(vm.stack().peek_slot(0), 1);
    vm.op_callfiii(0x50, 1, 2, 3, Save::Frame(8));
    assert_eq!(vm.stack().operand_count(), 3);
    assert_eq!(vm.stack().peek_slot(0), 1);
    assert_eq!(vm.stack().peek_slot(2), 3);
    assert_eq!(vm.fault(), None);
    assert_eq!(vm.program_counter(), 0x53);
    vm.op_return(9);
    assert_eq!(vm.fault(), Some(Fault::LocalOutOfBounds));
}

#[test]
fn functions_must_start_with_their_type() {
    let rom = rom_with(&[(0x30, &[0xC2, 0x00, 0x00])]);
    let mut vm = Glulx::from_rom(rom).unwrap();
    vm.init();
    assert_eq!(vm.fault(), Some(Fault::InvalidFunctionType));
    assert!(!vm.is_running());
    assert_eq!(Fault::InvalidFunctionType.kind(), FaultKind::Decode);
    assert_eq!(vm.stack().len(), 16);

    let mut vm = machine_at_0x40(&[]);
    vm.call_func(0x200, vec![]);
    assert_eq!(vm.fault(), Some(Fault::MemoryOutOfBounds));
    let mut vm = machine_at_0x40(&[]);
    vm.op_astoreb(0x1FD, 0, 0xC0);
    vm.op_astoreb(0x1FE, 0, 0x04);
    vm.op_astoreb(0x1FF, 0, 0x01);
    vm.call_func(0x1FD, vec![]);
    assert_eq!(vm.fault(), Some(Fault::MemoryOutOfBounds));
    assert_eq!(vm.program_counter(), 0x40);
}

#[test]
fn descriptors_end_with_two_zeros() {
    let vm = machine_at_0x40(&[0x04, 0x01, 0x00, 0x02, 0x01, 0x00, 0x00, 0x00, 0x09]);
    assert_eq!(vm.read_locals(0x40), Some(vec![4, 1, 0, 2, 1, 0, 0, 0]));
    assert_eq!(vm.read_locals(0x46), Some(vec![0, 0]));
    assert_eq!(vm.read_locals(0x1FF), None);
    assert_eq!(vm.read_locals(0x1FE), Some(vec![0, 0]));
}

#[test]
fn returns_without_a_caller_stop_the_machine() {
    let memory = GlulxMemory::from_rom(rom_with(&[])).unwrap();
    let mut stack = GlulxStack::new(0x100);
    stack.push_call_frame_c0(vec![0, 0], vec![]);
    let mut vm = Glulx::new(memory, stack, 0x40);
    vm.op_return(1);
    assert_eq!(vm.fault(), Some(Fault::StackUnderflow));

    let memory = GlulxMemory::from_rom(rom_with(&[])).unwrap();
    let mut stack = GlulxStack::new(0x100);
    stack.push_call_stub(4, 0, 0x99);
    stack.push_call_frame_c0(vec![0, 0], vec![]);
    let mut vm = Glulx::new(memory, stack, 0x40);
    vm.op_return(1);
    assert_eq!(vm.fault(), Some(Fault::InvalidDestType));
    assert_eq!(vm.program_counter(), 0x99);
    assert_eq!(vm.stack().len(), 0);
}

#[test]
fn instructions_that_do_not_exist() {
    let mut vm = machine_at_0x40(&[0x01]);
    assert_eq!(one_instruction(&mut vm), None);
    assert_eq!(vm.fault(), Some(Fault::InvalidOpcode));
    assert_eq!(Fault::InvalidOpcode.kind(), FaultKind::Decode);
    assert_eq!(operand_kinds(0x01), None);
    assert_eq!(operand_kinds(0x1CA), None);
    assert_eq!(operand_kinds(0x10), Some(vec![Kind::Word, Kind::Word, Kind::Store]));
    assert_eq!(operand_kinds(0x41), Some(vec![Kind::Short, Kind::Store]));
    assert_eq!(operand_kinds(0x42), Some(vec![Kind::Byte, Kind::Store]));
    assert_eq!(operand_kinds(0x120), Some(vec![]));
    assert_eq!(
        operand_kinds(0x1C0),
        Some(vec![Kind::Float, Kind::Float, Kind::Float, Kind::Word])
    );
}

#[test]
fn instructions_that_are_not_carried_out() {
    // RESTART
    let mut vm = machine_at_0x40(&[0x81, 0x22]);
    assert_eq!(one_instruction(&mut vm), None);
    assert_eq!(vm.fault(), Some(Fault::Unimplemented));
    assert_eq!(Fault::Unimplemented.kind(), FaultKind::Unimplemented);
    assert!(!vm.is_running());
    let mut vm = machine_at_0x40(&[]);
    vm.op_malloc(8, Save::Push);
    assert_eq!(vm.fault(), Some(Fault::Unimplemented));
    assert_eq!(vm.stack().operand_count(), 0);
    let mut vm = machine_at_0x40(&[]);
    vm.op_tailcall(1, 0);
    assert_eq!(vm.fault(), Some(Fault::Unimplemented));
}

#[test]
fn output_goes_to_the_host() {
    let zero = Operand::Value(0);
    // STREAMCHAR 'A'
    let mut vm = machine_at_0x40(&[0x70, 0x01, 0x41]);
    let call = one_instruction(&mut vm).expect("STREAMCHAR is for the host");
    assert_eq!(call, HostCall { opcode: 0x70, o1: Operand::Value(0x41), o2: zero, o3: zero, o4: zero });
    assert_eq!(vm.fault(), None);
    assert_eq!(vm.program_counter(), 0x43);
    // GLK 0x20 1 -> push
    let mut vm = machine_at_0x40(&[0x81, 0x30, 0x11, 0x08, 0x20, 0x01]);
    let call = one_instruction(&mut vm).expect("GLK is for the host");
    assert_eq!(
        call,
        HostCall {
            opcode: 0x130,
            o1: Operand::Value(0x20),
            o2: Operand::Value(1),
            o3: Operand::Place(Save::Push),
            o4: zero
        }
    );
    // GETIOSYS -> 0x100, local 4
    let mut vm = machine_at_0x40(&[0x81, 0x48, 0x96, 0x01, 0x00, 0x04]);
    let call = one_instruction(&mut vm).expect("GETIOSYS is for the host");
    assert_eq!(
        call,
        HostCall {
            opcode: 0x148,
            o1: Operand::Place(Save::Addr(0x100)),
            o2: Operand::Place(Save::Frame(4)),
            o3: zero,
            o4: zero
        }
    );
    let vm = machine_at_0x40(&[]);
    assert_eq!(vm.op_setiosys(1, 0x50).opcode, 0x149);
    assert_eq!(vm.op_setiosys(1, 0x50).o2, Operand::Value(0x50));
    assert_eq!(vm.op_streamnum(7).opcode, 0x71);
    assert_eq!(vm.op_streamstr(7).opcode, 0x72);
    assert_eq!(vm.op_streamunichar(7).opcode, 0x73);
    assert_eq!(vm.op_getstringtbl(Save::Push).o1, Operand::Place(Save::Push));
    assert_eq!(vm.op_setstringtbl(9).o1, Operand::Value(9));
    assert_eq!(vm.op_glk(1, 2, Save::Null).o3, Operand::Place(Save::Null));
    assert_eq!(vm.op_getiosys(Save::Push, Save::Null).o2, Operand::Place(Save::Null));
    assert_eq!(vm.op_streamchar(0x41).o1, Operand::Value(0x41));
}

#[test]
fn narrow_copies_as_instructions() {
    // COPYS from 0x100 to 0x104; COPYB from 0x100 to the stack
    let mut memory = GlulxMemory::from_rom(rom_with(&[(
        0x40,
        &[0x41, 0x66, 0x01, 0x00, 0x01, 0x04, 0x42, 0x86, 0x01, 0x00],
    )]))
    .unwrap();
    memory.write(0x100, 0xA1B2_C3D4u32);
    let mut stack = GlulxStack::new(0x100);
    stack.push_call_frame_c0(vec![0, 0], vec![]);
    let mut vm = Glulx::new(memory, stack, 0x40);
    assert_eq!(one_instruction(&mut vm), None);
    assert_eq!(word_at(&vm, 0x104), 0xA1B2_0000);
    assert_eq!(one_instruction(&mut vm), None);
    assert_eq!(top(&vm), 0xA1);
    assert_eq!(vm.fault(), None);
    assert_eq!(vm.program_counter(), 0x4A);
}
