//! The Glulx machine: a memory, a stack and a program counter, and the
//! instructions that change them.
//!
//! An instruction never panics. One that cannot be carried out (an address
//! outside the memory, a pop from an empty operand stack, a division by
//! zero) stops the machine and leaves the reason in it as a `Fault`.

pub mod arith;
pub mod branch;
pub mod decode;
pub mod host;
pub mod store;

use crate::bytes::{be_bytes_u16, be_bytes_u32, enc_u16, enc_u32};
pub use crate::instructions::{Load, Save};
use crate::memory::{GlulxMemory, LoadError, Memory, MemoryView};
use crate::stack::{frame_size, GlulxStack, Stack, StackView};
use vstd::prelude::*;

verus! {

/// Why the machine stopped other than by the instruction QUIT.
#[derive(Clone, Copy, Debug, PartialEq, Eq, Structural)]
pub enum Fault {
    /// The instruction stream names an opcode that does not exist.
    InvalidOpcode,
    /// An operand has an addressing mode that does not exist, or that its
    /// place in the instruction does not admit.
    InvalidMode,
    /// The first byte of a called function is neither 0xC0 nor 0xC1.
    InvalidFunctionType,
    /// A division or a remainder by zero.
    DivisionByZero,
    /// A pop from an empty operand stack, or a return without a caller.
    StackUnderflow,
    /// The stack has no room left.
    StackOverflow,
    /// A read or a write outside the memory.
    MemoryOutOfBounds,
    /// A read or a write of a local outside the stack.
    LocalOutOfBounds,
    /// A call stub names a kind of destination that does not exist.
    InvalidDestType,
    /// The instruction exists, and this machine does not carry it out.
    Unimplemented,
}

/// The families of faults.
#[derive(Clone, Copy, Debug, PartialEq, Eq, Structural)]
pub enum FaultKind {
    Decode,
    Runtime,
    Unimplemented,
}

impl Fault {
    /// The family of this fault.
    pub open spec fn spec_kind(self) -> FaultKind {
        match self {
            Fault::InvalidOpcode | Fault::InvalidMode | Fault::InvalidFunctionType => FaultKind::Decode,
            Fault::Unimplemented => FaultKind::Unimplemented,
            _ => FaultKind::Runtime,
        }
    }

    /// The family of this fault.
    pub fn kind(&self) -> (k: FaultKind)
        ensures
            k == self.spec_kind(),
    {
        match self {
            Fault::InvalidOpcode | Fault::InvalidMode | Fault::InvalidFunctionType => FaultKind::Decode,
            Fault::Unimplemented => FaultKind::Unimplemented,
            _ => FaultKind::Runtime,
        }
    }
}

/// The low `width` bytes of `v`, for a width of 1, 2 or 4.
pub open spec fn low_bytes(v: u32, width: int) -> u32 {
    if width == 1 {
        v % 0x100
    } else if width == 2 {
        v % 0x1_0000
    } else {
        v
    }
}

/// What a machine is: its program counter, its stack, its memory, whether
/// it runs, and why it stopped if a fault stopped it.
pub struct VmView {
    pub pc: u32,
    pub stack: StackView,
    pub memory: MemoryView,
    pub running: bool,
    pub fault: Option<Fault>,
}

impl VmView {
    /// The stack and the memory are well formed.
    pub open spec fn wf(self) -> bool {
        self.stack.wf() && self.memory.wf()
    }

    /// The machine stopped by the fault `f`, all else kept.
    pub open spec fn halted(self, f: Fault) -> VmView {
        VmView { running: false, fault: Some(f), ..self }
    }

    /// The machine with another program counter.
    pub open spec fn with_pc(self, pc: u32) -> VmView {
        VmView { pc, ..self }
    }

    /// The machine with another stack.
    pub open spec fn with_stack(self, stack: StackView) -> VmView {
        VmView { stack, ..self }
    }

    /// The machine with another memory.
    pub open spec fn with_memory(self, memory: MemoryView) -> VmView {
        VmView { memory, ..self }
    }

    /// The value of `width` bytes in memory at `ptr`, big-endian.
    pub open spec fn mem_value(self, ptr: int, width: int) -> u32 {
        if width == 1 {
            self.memory.read_u8(ptr) as u32
        } else if width == 2 {
            self.memory.read_u16(ptr) as u32
        } else {
            self.memory.read_u32(ptr)
        }
    }

    /// The value of the local of `width` bytes at `offset`.
    pub open spec fn local_value(self, offset: u32, width: int) -> u32 {
        if width == 1 {
            self.stack.bytes[self.stack.local_addr(offset)] as u32
        } else if width == 2 {
            self.stack.half(self.stack.local_addr(offset)) as u32
        } else {
            self.stack.word(self.stack.local_addr(offset))
        }
    }

    /// The machine after a push of `v`; it stops where the stack is full.
    pub open spec fn push(self, v: u32) -> VmView {
        if self.stack.len() + 4 <= self.stack.capacity {
            self.with_stack(self.stack.pushed(v))
        } else {
            self.halted(Fault::StackOverflow)
        }
    }

    /// The machine after a pop, and the value popped; it stops where the
    /// operand stack of the current frame is empty.
    pub open spec fn pop(self) -> (VmView, Option<u32>) {
        if self.stack.operand_count() >= 1 {
            (self.with_stack(self.stack.popped()), Some(self.stack.top()))
        } else {
            (self.halted(Fault::StackUnderflow), None)
        }
    }

    /// The machine after a result went to `save`: `in_memory` is the result
    /// as memory holds it, `in_local` as a local holds it, and `slot` as a
    /// slot of the stack holds it. The machine stops where the place named
    /// lies outside the memory or the stack.
    pub open spec fn put(self, save: Save, in_memory: Seq<u8>, in_local: Seq<u8>, slot: u32) -> VmView {
        match save {
            Save::Null => self,
            Save::Addr(ptr) => if self.memory.in_range(ptr as int, in_memory.len() as int) {
                self.with_memory(self.memory.store(ptr as int, in_memory))
            } else {
                self.halted(Fault::MemoryOutOfBounds)
            },
            Save::Push => self.push(slot),
            Save::Frame(offset) => if self.stack.local_in_range(offset, in_local.len() as int) {
                self.with_stack(self.stack.store(self.stack.local_addr(offset), in_local))
            } else {
                self.halted(Fault::LocalOutOfBounds)
            },
            Save::Ram(offset) => if self.memory.in_range(
                self.memory.ramstart + offset,
                in_memory.len() as int,
            ) {
                self.with_memory(self.memory.store(self.memory.ramstart + offset, in_memory))
            } else {
                self.halted(Fault::MemoryOutOfBounds)
            },
        }
    }

    /// The machine after the 8-bit result `v` went to `save`.
    pub open spec fn save_u8(self, save: Save, v: u8) -> VmView {
        self.put(save, seq![v], seq![v], v as u32)
    }

    /// The machine after the 16-bit result `v` went to `save`.
    pub open spec fn save_u16(self, save: Save, v: u16) -> VmView {
        self.put(save, be_bytes_u16(v), enc_u16(self.stack.little, v), v as u32)
    }

    /// The machine after the 32-bit result `v` went to `save`.
    pub open spec fn save_u32(self, save: Save, v: u32) -> VmView {
        self.put(save, be_bytes_u32(v), enc_u32(self.stack.little, v), v)
    }

    /// The machine after the operand `load` was fetched as a value of
    /// `width` bytes, and the value, widened with zeros. A constant and a
    /// popped value give their low `width` bytes. The machine stops where
    /// the operand lies outside the memory or the stack.
    pub open spec fn fetch(self, load: Load, width: int) -> (VmView, Option<u32>) {
        match load {
            Load::Const(c) => (self, Some(low_bytes(c as u32, width))),
            Load::Addr(ptr) => if self.memory.in_range(ptr as int, width) {
                (self, Some(self.mem_value(ptr as int, width)))
            } else {
                (self.halted(Fault::MemoryOutOfBounds), None)
            },
            Load::Pop => match self.pop() {
                (s, Some(v)) => (s, Some(low_bytes(v, width))),
                (s, None) => (s, None),
            },
            Load::Frame(offset) => if self.stack.local_in_range(offset, width) {
                (self, Some(self.local_value(offset, width)))
            } else {
                (self.halted(Fault::LocalOutOfBounds), None)
            },
            Load::Ram(offset) => if self.memory.in_range(self.memory.ramstart + offset, width) {
                (self, Some(self.mem_value(self.memory.ramstart + offset, width)))
            } else {
                (self.halted(Fault::MemoryOutOfBounds), None)
            },
        }
    }
}

/// The locals' descriptor that starts at `pc` in the memory `mem`: the
/// pairs of bytes from there up to and with the first pair of two zeros.
/// `None` where the memory ends before such a pair.
pub open spec fn locals_from(mem: Seq<u8>, pc: int) -> Option<Seq<u8>>
    decreases mem.len() - pc,
{
    if pc < 0 || pc + 2 > mem.len() {
        None
    } else if mem[pc] == 0 && mem[pc + 1] == 0 {
        Some(seq![0u8, 0u8])
    } else {
        match locals_from(mem, pc + 2) {
            Some(rest) => Some(seq![mem[pc], mem[pc + 1]] + rest),
            None => None,
        }
    }
}

/// The place for a result that a call stub with these two words names.
pub open spec fn save_of(dest_type: u32, dest_addr: u32) -> Option<Save> {
    if dest_type == 0 {
        Some(Save::Null)
    } else if dest_type == 1 {
        Some(Save::Addr(dest_addr))
    } else if dest_type == 2 {
        Some(Save::Frame(dest_addr))
    } else if dest_type == 3 {
        Some(Save::Push)
    } else {
        None
    }
}

impl VmView {
    /// The two words by which a call stub names the place `save`. A place
    /// in the RAM is named by its address in memory, modulo 2^32.
    pub open spec fn dest_of(self, save: Save) -> (u32, u32) {
        match save {
            Save::Null => (0, 0),
            Save::Addr(addr) => (1, addr),
            Save::Frame(addr) => (2, addr),
            Save::Push => (3, 0),
            Save::Ram(offset) => (1, ((self.memory.ramstart + offset) % 0x1_0000_0000) as u32),
        }
    }

    /// The machine after a call stub for `save` and the program counter
    /// was pushed; it stops where the stack has no room for the stub.
    pub open spec fn push_call_stub(self, save: Save) -> VmView {
        if self.stack.len() + 16 <= self.stack.capacity {
            self.with_stack(
                self.stack.with_call_stub(self.dest_of(save).0, self.dest_of(save).1, self.pc),
            )
        } else {
            self.halted(Fault::StackOverflow)
        }
    }

    /// The machine at the first instruction of the function at `address`,
    /// in a new frame made for the function's locals and `args`. The
    /// function's first byte says where the arguments go: 0xC0 for the
    /// stack, 0xC1 for the locals. The machine stops, otherwise unchanged,
    /// where that byte is another, where the function's header runs out of
    /// the memory, and where the stack has no room for the frame.
    pub open spec fn call_func(self, address: u32, args: Seq<u32>) -> VmView {
        if !self.memory.in_range(address as int, 1) {
            self.halted(Fault::MemoryOutOfBounds)
        } else if self.memory.read_u8(address as int) != 0xC0 && self.memory.read_u8(
            address as int,
        ) != 0xC1 {
            self.halted(Fault::InvalidFunctionType)
        } else {
            match locals_from(self.memory.bytes, address + 1) {
                None => self.halted(Fault::MemoryOutOfBounds),
                Some(d) => if self.memory.read_u8(address as int) == 0xC0 {
                    if self.stack.len() + frame_size(d) + 4 * args.len() <= self.stack.capacity {
                        self.with_pc((address + 1 + d.len()) as u32).with_stack(
                            self.stack.with_frame_c0(d, args),
                        )
                    } else {
                        self.halted(Fault::StackOverflow)
                    }
                } else {
                    if self.stack.len() + frame_size(d) <= self.stack.capacity {
                        self.with_pc((address + 1 + d.len()) as u32).with_stack(
                            self.stack.with_frame_c1(d, args),
                        )
                    } else {
                        self.halted(Fault::StackOverflow)
                    }
                },
            }
        }
    }

    /// The machine after a call of the function at `address` with the
    /// result to go to `save`: a call stub is pushed, and the function is
    /// entered.
    pub open spec fn call(self, address: u32, args: Seq<u32>, save: Save) -> VmView {
        if self.stack.len() + 16 <= self.stack.capacity {
            self.push_call_stub(save).call_func(address, args)
        } else {
            self.halted(Fault::StackOverflow)
        }
    }

    /// The machine after CALL: `l2` arguments are popped, the first of them
    /// from the top, and the function at `l1` is called with them. The
    /// machine stops where the operand stack holds fewer than `l2` values.
    pub open spec fn op_call(self, l1: u32, l2: u32, s1: Save) -> VmView {
        if self.stack.operand_count() < l2 {
            self.halted(Fault::StackUnderflow)
        } else {
            self.with_stack(self.stack.popped_n(l2 as int)).call(
                l1,
                self.stack.top_slots(l2 as int),
                s1,
            )
        }
    }

    /// The machine after RETURN: the current frame and the call stub under
    /// it are gone, the program counter and the frame pointer are those of
    /// the stub, and `l1` went to the place that the stub names. The machine
    /// stops where there is no stub under the frame, and where the stub
    /// names no place.
    pub open spec fn op_return(self, l1: u32) -> VmView {
        if self.stack.frame_ptr < 16 || self.stack.frame_ptr > self.stack.len() {
            self.halted(Fault::StackUnderflow)
        } else {
            let cut = self.stack.without_frame();
            let back = self.with_stack(cut.without_call_stub()).with_pc(cut.slot(1));
            match save_of(cut.slot(3), cut.slot(2)) {
                Some(save) => back.save_u32(save, l1),
                None => back.halted(Fault::InvalidDestType),
            }
        }
    }

    /// The machine after JUMP: the offsets 0 and 1 return that value from
    /// the current function; any other offset is added to the program
    /// counter, less two, modulo 2^32.
    pub open spec fn op_jump(self, l1: u32) -> VmView {
        if l1 == 0 || l1 == 1 {
            self.op_return(l1)
        } else {
            self.with_pc(((self.pc + l1 - 2) % 0x1_0000_0000) as u32)
        }
    }

    /// The machine after the jump by `offset` was taken or not.
    pub open spec fn jump_if(self, taken: bool, offset: u32) -> VmView {
        if taken {
            self.op_jump(offset)
        } else {
            self
        }
    }

    /// The machine after QUIT: it does not run.
    pub open spec fn op_quit(self) -> VmView {
        VmView { running: false, ..self }
    }

    /// The machine after JUMPABS: the program counter is `l1`.
    pub open spec fn op_jumpabs(self, l1: u32) -> VmView {
        self.with_pc(l1)
    }

    /// The machine after CALLF: the function at `l1` is called with no
    /// arguments.
    pub open spec fn op_callf(self, l1: u32, s1: Save) -> VmView {
        self.call(l1, Seq::<u32>::empty(), s1)
    }

    /// The machine after CALLFI: the function at `l1` is called with the
    /// argument `l2`.
    pub open spec fn op_callfi(self, l1: u32, l2: u32, s1: Save) -> VmView {
        self.call(l1, seq![l2], s1)
    }

    /// The machine after CALLFII: the function at `l1` is called with the
    /// arguments `l2` and `l3`.
    pub open spec fn op_callfii(self, l1: u32, l2: u32, l3: u32, s1: Save) -> VmView {
        self.call(l1, seq![l2, l3], s1)
    }

    /// The machine after CALLFIII: the function at `l1` is called with the
    /// arguments `l2`, `l3` and `l4`.
    pub open spec fn op_callfiii(self, l1: u32, l2: u32, l3: u32, l4: u32, s1: Save) -> VmView {
        self.call(l1, seq![l2, l3, l4], s1)
    }

    /// The machine after it was started: the function that the header
    /// names is called with no arguments and no place for its result, and
    /// the machine runs unless a fault has stopped it.
    pub open spec fn init(self) -> VmView {
        let called = self.op_call(self.memory.read_u32(0x18), 0, Save::Null);
        if called.fault is None {
            VmView { running: true, ..called }
        } else {
            called
        }
    }
}

/// A Glulx machine.
pub struct Glulx {
    program_counter: u32,
    stack: GlulxStack,
    memory: GlulxMemory,
    running: bool,
    fault: Option<Fault>,
}

impl View for Glulx {
    type V = VmView;

    closed spec fn view(&self) -> VmView {
        VmView {
            pc: self.program_counter,
            stack: self.stack@,
            memory: self.memory@,
            running: self.running,
            fault: self.fault,
        }
    }
}

impl Glulx {
    /// A machine with the story file `rom` loaded: the program counter is
    /// zero, the stack is empty and has the size that the header asks for,
    /// and the machine does not run yet. A file that is no Glulx story file
    /// is refused with the first rule that it breaks.
    pub fn from_rom(rom: Vec<u8>) -> (r: Result<Glulx, LoadError>)
        ensures
            match r {
                Ok(vm) => {
                    &&& crate::memory::load_error(rom@) is None
                    &&& vm@.wf()
                    &&& vm@.pc == 0
                    &&& vm@.memory == MemoryView::loaded(rom@)
                    &&& vm@.stack.bytes == Seq::<u8>::empty()
                    &&& vm@.stack.frame_ptr == 0
                    &&& vm@.stack.capacity == vm@.memory.read_u32(0x14)
                    &&& !vm@.running
                    &&& vm@.fault is None
                },
                Err(e) => crate::memory::load_error(rom@) == Some(e),
            },
    {
        match GlulxMemory::from_rom(rom) {
            Ok(memory) => {
                let stack = GlulxStack::new(memory.stack_size());
                Ok(Glulx { program_counter: 0, stack, memory, running: false, fault: None })
            },
            Err(e) => Err(e),
        }
    }

    /// A machine made of a memory and a stack, with the program counter at
    /// `program_counter`, that does not run yet.
    pub fn new(memory: GlulxMemory, stack: GlulxStack, program_counter: u32) -> (vm: Glulx)
        ensures
            vm@ == (VmView {
                pc: program_counter,
                stack: stack@,
                memory: memory@,
                running: false,
                fault: None,
            }),
    {
        Glulx { program_counter, stack, memory, running: false, fault: None }
    }

    /// The program counter.
    pub fn program_counter(&self) -> (r: u32)
        ensures
            r == self@.pc,
    {
        self.program_counter
    }

    /// The memory.
    pub fn memory(&self) -> (r: &GlulxMemory)
        ensures
            r@ == self@.memory,
    {
        &self.memory
    }

    /// The stack.
    pub fn stack(&self) -> (r: &GlulxStack)
        ensures
            r@ == self@.stack,
    {
        &self.stack
    }

    /// The fault that stopped the machine, if one did.
    pub fn fault(&self) -> (r: Option<Fault>)
        ensures
            r == self@.fault,
    {
        self.fault
    }

    /// Whether the machine runs: it does from `init` until QUIT or a fault.
    pub fn is_running(&self) -> (r: bool)
        ensures
            r == self@.running,
    {
        self.running
    }

    /// Stops the machine by the fault `f`.
    pub fn halt(&mut self, f: Fault)
        ensures
            final(self)@ == old(self)@.halted(f),
    {
        self.running = false;
        self.fault = Some(f);
    }

    /// Pushes `v` on the stack, or stops the machine where the stack is full.
    pub fn push(&mut self, v: u32)
        requires
            old(self)@.wf(),
        ensures
            final(self)@ == old(self)@.push(v),
            final(self)@.wf(),
    {
        if self.stack.capacity() - self.stack.len() >= 4 {
            self.stack.push(v);
        } else {
            self.halt(Fault::StackOverflow);
        }
    }

    /// Pops a value off the operand stack of the current frame, or stops
    /// the machine where that is empty.
    pub fn pop(&mut self) -> (r: Option<u32>)
        requires
            old(self)@.wf(),
        ensures
            (final(self)@, r) == old(self)@.pop(),
            final(self)@.wf(),
    {
        if self.stack.operand_count() >= 1 {
            let v: u32 = self.stack.pop();
            Some(v)
        } else {
            self.halt(Fault::StackUnderflow);
            None
        }
    }

    /// Puts the 8-bit result `value` where `save` says.
    pub fn save_u8(&mut self, save: Save, value: u8)
        requires
            old(self)@.wf(),
        ensures
            final(self)@ == old(self)@.save_u8(save, value),
            final(self)@.wf(),
    {
        match save {
            Save::Null => {},
            Save::Addr(ptr) => {
                if ptr < self.memory.get_mem_size() {
                    self.memory.write(ptr, value);
                } else {
                    self.halt(Fault::MemoryOutOfBounds);
                }
            },
            Save::Push => self.push(value as u32),
            Save::Frame(offset) => {
                if self.stack.holds_local(offset, 1) {
                    self.stack.write(offset, value);
                } else {
                    self.halt(Fault::LocalOutOfBounds);
                }
            },
            Save::Ram(offset) => {
                if (self.memory.ramstart() as u64 + offset as u64) < self.memory.get_mem_size() as u64 {
                    self.memory.ram_write(offset, value);
                } else {
                    self.halt(Fault::MemoryOutOfBounds);
                }
            },
        }
    }

    /// Puts the 16-bit result `value` where `save` says.
    pub fn save_u16(&mut self, save: Save, value: u16)
        requires
            old(self)@.wf(),
        ensures
            final(self)@ == old(self)@.save_u16(save, value),
            final(self)@.wf(),
    {
        match save {
            Save::Null => {},
            Save::Addr(ptr) => {
                if ptr as u64 + 2 <= self.memory.get_mem_size() as u64 {
                    self.memory.write(ptr, value);
                } else {
                    self.halt(Fault::MemoryOutOfBounds);
                }
            },
            Save::Push => self.push(value as u32),
            Save::Frame(offset) => {
                if self.stack.holds_local(offset, 2) {
                    self.stack.write(offset, value);
                } else {
                    self.halt(Fault::LocalOutOfBounds);
                }
            },
            Save::Ram(offset) => {
                if self.memory.ramstart() as u64 + offset as u64 + 2 <= self.memory.get_mem_size() as u64 {
                    self.memory.ram_write(offset, value);
                } else {
                    self.halt(Fault::MemoryOutOfBounds);
                }
            },
        }
    }

    /// Puts the 32-bit result `value` where `save` says.
    pub fn save_u32(&mut self, save: Save, value: u32)
        requires
            old(self)@.wf(),
        ensures
            final(self)@ == old(self)@.save_u32(save, value),
            final(self)@.wf(),
    {
        match save {
            Save::Null => {},
            Save::Addr(ptr) => {
                if ptr as u64 + 4 <= self.memory.get_mem_size() as u64 {
                    self.memory.write(ptr, value);
                } else {
                    self.halt(Fault::MemoryOutOfBounds);
                }
            },
            Save::Push => self.push(value),
            Save::Frame(offset) => {
                if self.stack.holds_local(offset, 4) {
                    self.stack.write(offset, value);
                } else {
                    self.halt(Fault::LocalOutOfBounds);
                }
            },
            Save::Ram(offset) => {
                if self.memory.ramstart() as u64 + offset as u64 + 4 <= self.memory.get_mem_size() as u64 {
                    self.memory.ram_write(offset, value);
                } else {
                    self.halt(Fault::MemoryOutOfBounds);
                }
            },
        }
    }

    /// Puts the 32-bit signed result `value` where `save` says.
    pub fn save_i32(&mut self, save: Save, value: i32)
        requires
            old(self)@.wf(),
        ensures
            final(self)@ == old(self)@.save_u32(save, value as u32),
            final(self)@.wf(),
    {
        let bits = #[verifier::truncate]
        (value as u32);
        self.save_u32(save, bits)
    }

    /// The value of `width` bytes in memory at `ptr`, for a width of 1, 2 or 4.
    fn mem_value(&self, ptr: u32, width: u8) -> (r: u32)
        requires
            self@.wf(),
            width == 1 || width == 2 || width == 4,
            self@.memory.in_range(ptr as int, width as int),
        ensures
            r == self@.mem_value(ptr as int, width as int),
    {
        if width == 1 {
            let v: u8 = self.memory.read(ptr);
            v as u32
        } else if width == 2 {
            let v: u16 = self.memory.read(ptr);
            v as u32
        } else {
            self.memory.read(ptr)
        }
    }

    /// Fetches the operand `load` as a value of `width` bytes, for a width
    /// of 1, 2 or 4. `None` where the machine stopped over it.
    pub fn fetch(&mut self, load: Load, width: u8) -> (r: Option<u32>)
        requires
            old(self)@.wf(),
            width == 1 || width == 2 || width == 4,
        ensures
            (final(self)@, r) == old(self)@.fetch(load, width as int),
            final(self)@.wf(),
    {
        match load {
            Load::Const(c) => {
                let bits = #[verifier::truncate]
                (c as u32);
                Some(low(bits, width))
            },
            Load::Addr(ptr) => {
                if ptr as u64 + width as u64 <= self.memory.get_mem_size() as u64 {
                    Some(self.mem_value(ptr, width))
                } else {
                    self.halt(Fault::MemoryOutOfBounds);
                    None
                }
            },
            Load::Pop => match self.pop() {
                Some(v) => Some(low(v, width)),
                None => None,
            },
            Load::Frame(offset) => {
                if self.stack.holds_local(offset, width as u32) {
                    if width == 1 {
                        let v: u8 = self.stack.read(offset);
                        Some(v as u32)
                    } else if width == 2 {
                        let v: u16 = self.stack.read(offset);
                        Some(v as u32)
                    } else {
                        let v: u32 = self.stack.read(offset);
                        Some(v)
                    }
                } else {
                    self.halt(Fault::LocalOutOfBounds);
                    None
                }
            },
            Load::Ram(offset) => {
                let ptr = self.memory.ramstart() as u64 + offset as u64;
                if ptr + width as u64 <= self.memory.get_mem_size() as u64 {
                    Some(self.mem_value(ptr as u32, width))
                } else {
                    self.halt(Fault::MemoryOutOfBounds);
                    None
                }
            },
        }
    }

    /// Pushes a call stub that names `save` as the place for the result
    /// and the program counter as the address to resume at.
    pub fn push_call_stub(&mut self, save: Save)
        requires
            old(self)@.wf(),
        ensures
            final(self)@ == old(self)@.push_call_stub(save),
            final(self)@.wf(),
    {
        let (dest_type, dest_addr) = match save {
            Save::Null => (0, 0),
            Save::Addr(addr) => (1, addr),
            Save::Frame(addr) => (2, addr),
            Save::Push => (3, 0),
            Save::Ram(offset) => (1, self.memory.ramstart().wrapping_add(offset)),
        };
        if self.stack.capacity() - self.stack.len() >= 16 {
            self.stack.push_call_stub(dest_type, dest_addr, self.program_counter);
        } else {
            self.halt(Fault::StackOverflow);
        }
    }

    /// Reads the locals' descriptor at `start`, up to and with its closing
    /// pair of zeros. `None` where the memory ends before that pair.
    pub fn read_locals(&self, start: u32) -> (r: Option<Vec<u8>>)
        requires
            self@.wf(),
        ensures
            match r {
                Some(v) => locals_from(self@.memory.bytes, start as int) == Some(v@),
                None => locals_from(self@.memory.bytes, start as int) is None,
            },
    {
        let size = self.memory.get_mem_size();
        let ghost mem = self@.memory.bytes;
        let mut vec: Vec<u8> = Vec::new();
        let mut pc: u32 = start;
        loop
            invariant
                self@.wf(),
                mem == self@.memory.bytes,
                size == mem.len(),
                start <= pc,
                locals_from(mem, start as int) == match locals_from(mem, pc as int) {
                    Some(rest) => Some(vec@ + rest),
                    None => None,
                },
            decreases size - pc,
        {
            if size < 2 || pc > size - 2 {
                return None;
            }
            let local_type: u8 = self.memory.read(pc);
            let local_count: u8 = self.memory.read(pc + 1);
            let ghost before = vec@;
            vec.push(local_type);
            vec.push(local_count);
            if local_type == 0 && local_count == 0 {
                assert(vec@ =~= before + seq![0u8, 0u8]);
                return Some(vec);
            }
            proof {
                match locals_from(mem, pc + 2) {
                    Some(rest) => {
                        assert(before + (seq![local_type, local_count] + rest) =~= vec@ + rest);
                    },
                    None => {},
                }
            }
            pc = pc + 2;
        }
    }

    /// Enters the function at `address` with the arguments `args`.
    pub fn call_func(&mut self, address: u32, args: Vec<u32>)
        requires
            old(self)@.wf(),
        ensures
            final(self)@ == old(self)@.call_func(address, args@),
            final(self)@.wf(),
    {
        if address >= self.memory.get_mem_size() {
            self.halt(Fault::MemoryOutOfBounds);
            return ;
        }
        let func_type: u8 = self.memory.read(address);
        if func_type != 0xC0 && func_type != 0xC1 {
            self.halt(Fault::InvalidFunctionType);
            return ;
        }
        let locals = match self.read_locals(address + 1) {
            Some(locals) => locals,
            None => {
                self.halt(Fault::MemoryOutOfBounds);
                return ;
            },
        };
        proof {
            lemma_locals_fit(self@.memory.bytes, address + 1);
        }
        let room = self.stack.capacity() - self.stack.len();
        let entry = address + 1 + locals.len() as u32;
        match GlulxStack::checked_frame_size(&locals, room) {
            None => {
                self.halt(Fault::StackOverflow);
            },
            Some(size) => {
                if func_type == 0xC0 {
                    if args.len() > 0x4000_0000 || (room - size) as usize / 4 < args.len() {
                        self.halt(Fault::StackOverflow);
                    } else {
                        self.program_counter = entry;
                        self.stack.push_call_frame_c0(locals, args);
                    }
                } else {
                    self.program_counter = entry;
                    self.stack.push_call_frame_c1(locals, args);
                }
            },
        }
    }

    /// CALL: calls the function at `l1` with `l2` arguments from the
    /// stack; the result is to go to `s1`.
    pub fn op_call(&mut self, l1: u32, l2: u32, s1: Save)
        requires
            old(self)@.wf(),
        ensures
            final(self)@ == old(self)@.op_call(l1, l2, s1),
            final(self)@.wf(),
    {
        if self.stack.operand_count() < l2 {
            self.halt(Fault::StackUnderflow);
            return ;
        }
        let args = self.stack.pop_args(l2);
        self.call(l1, args, s1);
    }

    /// Calls the function at `address` with `args`; the result is to go to
    /// `save`.
    pub fn call(&mut self, address: u32, args: Vec<u32>, save: Save)
        requires
            old(self)@.wf(),
        ensures
            final(self)@ == old(self)@.call(address, args@, save),
            final(self)@.wf(),
    {
        if self.stack.capacity() - self.stack.len() >= 16 {
            self.push_call_stub(save);
            self.call_func(address, args);
        } else {
            self.halt(Fault::StackOverflow);
        }
    }

    /// CALLF: calls the function at `l1` with no arguments; the result is
    /// to go to `s1`.
    pub fn op_callf(&mut self, l1: u32, s1: Save)
        requires
            old(self)@.wf(),
        ensures
            final(self)@ == old(self)@.op_callf(l1, s1),
            final(self)@.wf(),
    {
        let args: Vec<u32> = Vec::new();
        assert(args@ =~= Seq::<u32>::empty());
        self.call(l1, args, s1);
    }

    /// CALLFI: calls the function at `l1` with the argument `l2`.
    pub fn op_callfi(&mut self, l1: u32, l2: u32, s1: Save)
        requires
            old(self)@.wf(),
        ensures
            final(self)@ == old(self)@.op_callfi(l1, l2, s1),
            final(self)@.wf(),
    {
        let args: Vec<u32> = vec![l2];
        assert(args@ =~= seq![l2]);
        self.call(l1, args, s1);
    }

    /// CALLFII: calls the function at `l1` with the arguments `l2` and `l3`.
    pub fn op_callfii(&mut self, l1: u32, l2: u32, l3: u32, s1: Save)
        requires
            old(self)@.wf(),
        ensures
            final(self)@ == old(self)@.op_callfii(l1, l2, l3, s1),
            final(self)@.wf(),
    {
        let args: Vec<u32> = vec![l2, l3];
        assert(args@ =~= seq![l2, l3]);
        self.call(l1, args, s1);
    }

    /// CALLFIII: calls the function at `l1` with the arguments `l2`, `l3`
    /// and `l4`.
    pub fn op_callfiii(&mut self, l1: u32, l2: u32, l3: u32, l4: u32, s1: Save)
        requires
            old(self)@.wf(),
        ensures
            final(self)@ == old(self)@.op_callfiii(l1, l2, l3, l4, s1),
            final(self)@.wf(),
    {
        let args: Vec<u32> = vec![l2, l3, l4];
        assert(args@ =~= seq![l2, l3, l4]);
        self.call(l1, args, s1);
    }

    /// RETURN: returns `l1` from the current function.
    pub fn op_return(&mut self, l1: u32)
        requires
            old(self)@.wf(),
        ensures
            final(self)@ == old(self)@.op_return(l1),
            final(self)@.wf(),
    {
        if self.stack.frame_ptr() < 16 || self.stack.frame_ptr() > self.stack.len() {
            self.halt(Fault::StackUnderflow);
            return ;
        }
        self.stack.pop_call_frame();
        let (dest_type, dest_addr, program_counter) = self.stack.pop_call_stub();
        self.program_counter = program_counter;
        if dest_type == 0 {
            self.save_u32(Save::Null, l1)
        } else if dest_type == 1 {
            self.save_u32(Save::Addr(dest_addr), l1)
        } else if dest_type == 2 {
            self.save_u32(Save::Frame(dest_addr), l1)
        } else if dest_type == 3 {
            self.save_u32(Save::Push, l1)
        } else {
            self.halt(Fault::InvalidDestType)
        }
    }

    /// JUMP: jumps by the offset `l1`, or returns `l1` where it is 0 or 1.
    pub fn op_jump(&mut self, l1: u32)
        requires
            old(self)@.wf(),
        ensures
            final(self)@ == old(self)@.op_jump(l1),
            final(self)@.wf(),
    {
        if l1 == 0 || l1 == 1 {
            self.op_return(l1)
        } else {
            self.program_counter = self.program_counter.wrapping_add(l1).wrapping_sub(0x2);
        }
    }

    /// Jumps by `offset` where `taken` holds.
    pub fn jump_if(&mut self, taken: bool, offset: u32)
        requires
            old(self)@.wf(),
        ensures
            final(self)@ == old(self)@.jump_if(taken, offset),
            final(self)@.wf(),
    {
        if taken {
            self.op_jump(offset)
        }
    }

    /// JUMPABS: sets the program counter to `l1`.
    pub fn op_jumpabs(&mut self, l1: u32)
        ensures
            final(self)@ == old(self)@.op_jumpabs(l1),
    {
        self.program_counter = l1
    }

    /// NOP: does nothing.
    pub fn op_nop(&mut self)
        ensures
            final(self)@ == old(self)@,
    {
    }

    /// QUIT: stops the machine.
    pub fn op_quit(&mut self)
        ensures
            final(self)@ == old(self)@.op_quit(),
    {
        self.running = false
    }

    /// Starts the machine: calls the function that the header names, with
    /// no arguments and no place for its result.
    pub fn init(&mut self)
        requires
            old(self)@.wf(),
        ensures
            final(self)@ == old(self)@.init(),
            final(self)@.wf(),
    {
        let start = self.memory.start_func();
        self.op_call(start, 0x0, Save::Null);
        if self.fault.is_none() {
            self.running = true;
        }
    }
}

/// A pop that the machine grants leaves the stack no shorter than the
/// current frame: the operands end where the frame's locals do.
pub proof fn lemma_pop_stays_in_frame(s: VmView)
    requires
        s.pop().1 is Some,
    ensures
        s.pop().0.stack.frame_ptr == s.stack.frame_ptr,
        s.pop().0.stack.len() == s.stack.len() - 4,
        s.pop().0.stack.len() >= s.stack.operand_base(),
        s.pop().0.stack.len() >= s.stack.frame_ptr,
        !s.pop().0.running || s.running,
        s.pop().0.fault == s.fault,
{
}

/// A locals' descriptor that the memory holds ends inside the memory.
pub proof fn lemma_locals_fit(mem: Seq<u8>, pc: int)
    requires
        0 <= pc,
    ensures
        match locals_from(mem, pc) {
            Some(d) => pc + d.len() <= mem.len(),
            None => true,
        },
    decreases mem.len() - pc,
{
    if pc + 2 <= mem.len() && !(mem[pc] == 0 && mem[pc + 1] == 0) {
        lemma_locals_fit(mem, pc + 2);
    }
}

/// The low `width` bytes of `v`, for a width of 1, 2 or 4.
pub fn low(v: u32, width: u8) -> (r: u32)
    ensures
        r == low_bytes(v, width as int),
{
    if width == 1 {
        v % 0x100
    } else if width == 2 {
        v % 0x1_0000
    } else {
        v
    }
}

} // verus!
