//! The decoder and the cycle of the machine: an instruction is read from
//! memory at the program counter, its operands are fetched, and it is
//! carried out.
//!
//! An instruction starts with its number, in one, two or four bytes. Then
//! come the addressing modes of its operands, four bits each, two to a
//! byte, the first operand in the low half. Then come the operands' own
//! bytes, in the order of the operands.
//!
//! The machine does no floating-point arithmetic, and no input or output.
//! For an instruction that needs either, it fetches the operands and hands
//! them to its host as a `HostCall`; the host does the work, and stores
//! the result or takes the jump.

use crate::interpreter::{Fault, Glulx, Load, Save, VmView};
use crate::memory::Memory;
use crate::opcodes::{sign_extend_16, sign_extend_8};
use vstd::prelude::*;

verus! {

/// What an instruction expects of an operand.
#[derive(Clone, Copy, Debug, PartialEq, Eq, Structural)]
pub enum Kind {
    /// A value of 8 bits.
    Byte,
    /// A value of 16 bits.
    Short,
    /// A value of 32 bits.
    Word,
    /// A floating-point number of 32 bits.
    Float,
    /// A place for a result.
    Store,
}

/// An operand of an instruction, once fetched.
#[derive(Clone, Copy, Debug, PartialEq, Eq, Structural)]
pub enum Operand {
    /// A value, widened with zeros to 32 bits.
    Value(u32),
    /// A place for a result.
    Place(Save),
}

/// An instruction that the host has to carry out: its number and its first
/// four operands. Where the instruction has fewer operands, the others are
/// the value zero.
#[derive(Clone, Copy, Debug, PartialEq, Eq, Structural)]
pub struct HostCall {
    pub opcode: u32,
    pub o1: Operand,
    pub o2: Operand,
    pub o3: Operand,
    pub o4: Operand,
}

/// The number of bytes of a value of this kind.
pub open spec fn width_of(kind: Kind) -> int {
    match kind {
        Kind::Byte => 1,
        Kind::Short => 2,
        _ => 4,
    }
}

/// The number of bytes that follow for an operand with this addressing mode.
pub open spec fn imm_size(mode: u8) -> int {
    if mode % 4 == 1 {
        1
    } else if mode % 4 == 2 {
        2
    } else {
        4
    }
}

/// The value `v` of `size` bytes, read as a signed number.
pub open spec fn sign_extended(v: u32, size: int) -> i32 {
    if size == 1 {
        sign_extend_8(v)
    } else if size == 2 {
        sign_extend_16(v)
    } else {
        v as i32
    }
}

/// Whether an operand of this kind that is read may have this mode. The
/// modes 4 and 12 do not exist. A constant may not be wider than the
/// operand, and a floating-point constant has four bytes or is zero.
pub open spec fn load_mode_ok(mode: u8, kind: Kind) -> bool {
    &&& mode <= 0xF
    &&& mode != 0x4
    &&& mode != 0xC
    &&& match kind {
        Kind::Byte => mode != 0x2 && mode != 0x3,
        Kind::Short => mode != 0x3,
        Kind::Word => true,
        Kind::Float => mode != 0x1 && mode != 0x2,
        Kind::Store => false,
    }
}

/// Whether a place for a result may have this mode: no constant is one.
pub open spec fn save_mode_ok(mode: u8) -> bool {
    mode == 0 || (5 <= mode <= 0xF && mode != 0xC)
}

/// The low or the high half of a byte.
pub open spec fn nibble(byte: u8, high: bool) -> u8 {
    if high {
        byte / 16
    } else {
        byte % 16
    }
}

/// The value of the operand `i`; zero for a place.
pub open spec fn word(ops: Seq<Operand>, i: int) -> u32 {
    match ops[i] {
        Operand::Value(v) => v,
        Operand::Place(_) => 0,
    }
}

/// The value of the operand `i`, read as a signed number.
pub open spec fn signed(ops: Seq<Operand>, i: int) -> i32 {
    word(ops, i) as i32
}

/// The low 16 bits of the value of the operand `i`.
pub open spec fn half(ops: Seq<Operand>, i: int) -> u16 {
    (word(ops, i) % 0x1_0000) as u16
}

/// The low 8 bits of the value of the operand `i`.
pub open spec fn byte(ops: Seq<Operand>, i: int) -> u8 {
    (word(ops, i) % 0x100) as u8
}

/// The place that the operand `i` is; the place that drops the result for
/// a value.
pub open spec fn place(ops: Seq<Operand>, i: int) -> Save {
    match ops[i] {
        Operand::Value(_) => Save::Null,
        Operand::Place(p) => p,
    }
}

/// Whether the instruction with this number is left to the host: the
/// output streams, Glk, the choice of the output system and of the string
/// table, and all floating-point arithmetic.
pub open spec fn for_host(number: u32) -> bool {
    ||| number >= 0x190
    ||| 0x70 <= number <= 0x73
    ||| number == 0x130
    ||| number == 0x140
    ||| number == 0x141
    ||| number == 0x148
    ||| number == 0x149
}

/// The call that hands the instruction `opcode` with the operands `ops` to
/// the host: the number of the instruction and its first four operands.
/// An instruction for input or output has fewer: the rest is zero.
pub open spec fn host_call(opcode: u32, ops: Seq<Operand>) -> HostCall {
    let zero = Operand::Value(0);
    match opcode {
        0x70 | 0x71 | 0x72 | 0x73 | 0x141 => HostCall {
            opcode,
            o1: Operand::Value(word(ops, 0)),
            o2: zero,
            o3: zero,
            o4: zero,
        },
        0x130 => HostCall {
            opcode,
            o1: Operand::Value(word(ops, 0)),
            o2: Operand::Value(word(ops, 1)),
            o3: Operand::Place(place(ops, 2)),
            o4: zero,
        },
        0x140 => HostCall { opcode, o1: Operand::Place(place(ops, 0)), o2: zero, o3: zero, o4: zero },
        0x148 => HostCall {
            opcode,
            o1: Operand::Place(place(ops, 0)),
            o2: Operand::Place(place(ops, 1)),
            o3: zero,
            o4: zero,
        },
        0x149 => HostCall {
            opcode,
            o1: Operand::Value(word(ops, 0)),
            o2: Operand::Value(word(ops, 1)),
            o3: zero,
            o4: zero,
        },
        _ => HostCall { opcode, o1: ops[0], o2: ops[1], o3: ops[2], o4: ops[3] },
    }
}

/// `ops` followed by values of zero up to eight operands.
pub open spec fn padded(ops: Seq<Operand>) -> Seq<Operand> {
    ops + Seq::new((8 - ops.len()) as nat, |i: int| Operand::Value(0))
}

/// The kinds of the operands of the instruction with this number, in the
/// order of the instruction stream; `None` where there is no such instruction.
pub open spec fn kinds_of(number: u32) -> Option<Seq<Kind>> {
    match number {
        0x00 | 0x52 | 0x120 | 0x122 => Some(seq![]),
        0x10 | 0x11 | 0x12 | 0x13 | 0x14 | 0x18 | 0x19 | 0x1A | 0x1C | 0x1D | 0x1E | 0x30
        | 0x48 | 0x49 | 0x4A | 0x4B | 0x130 | 0x161 => Some(
            seq![
                Kind::Word,
                Kind::Word,
                Kind::Store,
            ],
        ),
        0x15 | 0x1B | 0x40 | 0x44 | 0x45 | 0x51 | 0x103 | 0x110 | 0x123 | 0x124 | 0x160
        | 0x178 | 0x190 => Some(seq![Kind::Word, Kind::Store]),
        0x20 | 0x31 | 0x54 | 0x70 | 0x71 | 0x72 | 0x73 | 0x101 | 0x104 | 0x111 | 0x141
        | 0x179 => Some(seq![Kind::Word]),
        0x22 | 0x23 | 0x33 | 0x34 | 0x53 | 0x127 | 0x149 | 0x170 | 0x180 | 0x181 => Some(
            seq![
                Kind::Word,
                Kind::Word,
            ],
        ),
        0x24 | 0x25 | 0x26 | 0x27 | 0x28 | 0x29 | 0x2A | 0x2B | 0x2C | 0x2D | 0x4C | 0x4D
        | 0x4E | 0x4F | 0x171 => Some(seq![Kind::Word, Kind::Word, Kind::Word]),
        0x32 => Some(seq![Kind::Store, Kind::Word]),
        0x41 => Some(seq![Kind::Short, Kind::Store]),
        0x42 => Some(seq![Kind::Byte, Kind::Store]),
        0x50 | 0x102 | 0x121 | 0x125 | 0x126 | 0x140 => Some(seq![Kind::Store]),
        0x100 => Some(seq![Kind::Short, Kind::Short, Kind::Store]),
        0x148 => Some(seq![Kind::Store, Kind::Store]),
        0x150 | 0x151 => Some(
            seq![
                Kind::Word,
                Kind::Word,
                Kind::Word,
                Kind::Word,
                Kind::Word,
                Kind::Word,
                Kind::Word,
                Kind::Store,
            ],
        ),
        0x152 => Some(
            seq![
                Kind::Word,
                Kind::Word,
                Kind::Word,
                Kind::Word,
                Kind::Word,
                Kind::Word,
                Kind::Store,
            ],
        ),
        0x162 => Some(seq![Kind::Word, Kind::Word, Kind::Word, Kind::Store]),
        0x163 => Some(seq![Kind::Word, Kind::Word, Kind::Word, Kind::Word, Kind::Store]),
        0x191 | 0x192 | 0x198 | 0x199 | 0x1A8 | 0x1A9 | 0x1AA | 0x1B0 | 0x1B1 | 0x1B2
        | 0x1B3 | 0x1B4 | 0x1B5 => Some(seq![Kind::Float, Kind::Store]),
        0x1A0 | 0x1A1 | 0x1A2 | 0x1A3 | 0x1AB | 0x1B6 => Some(
            seq![
                Kind::Float,
                Kind::Float,
                Kind::Store,
            ],
        ),
        0x1A4 => Some(seq![Kind::Float, Kind::Float, Kind::Store, Kind::Store]),
        0x1C0 | 0x1C1 => Some(seq![Kind::Float, Kind::Float, Kind::Float, Kind::Word]),
        0x1C2 | 0x1C3 | 0x1C4 | 0x1C5 => Some(seq![Kind::Float, Kind::Float, Kind::Word]),
        0x1C8 | 0x1C9 => Some(seq![Kind::Float, Kind::Word]),
        _ => None,
    }
}

/// The kinds of the operands of the instruction with this number.
pub fn operand_kinds(number: u32) -> (r: Option<Vec<Kind>>)
    ensures
        match r {
            Some(v) => kinds_of(number) == Some(v@),
            None => kinds_of(number) is None,
        },
{
    let kinds: Vec<Kind> = match number {
        0x00 | 0x52 | 0x120 | 0x122 => Vec::new(),
        0x10 | 0x11 | 0x12 | 0x13 | 0x14 | 0x18 | 0x19 | 0x1A | 0x1C | 0x1D | 0x1E | 0x30
        | 0x48 | 0x49 | 0x4A | 0x4B | 0x130 | 0x161 => vec![Kind::Word, Kind::Word, Kind::Store],
        0x15 | 0x1B | 0x40 | 0x44 | 0x45 | 0x51 | 0x103 | 0x110 | 0x123 | 0x124 | 0x160
        | 0x178 | 0x190 => vec![Kind::Word, Kind::Store],
        0x20 | 0x31 | 0x54 | 0x70 | 0x71 | 0x72 | 0x73 | 0x101 | 0x104 | 0x111 | 0x141
        | 0x179 => vec![Kind::Word],
        0x22 | 0x23 | 0x33 | 0x34 | 0x53 | 0x127 | 0x149 | 0x170 | 0x180 | 0x181 => vec![
            Kind::Word,
            Kind::Word,
        ],
        0x24 | 0x25 | 0x26 | 0x27 | 0x28 | 0x29 | 0x2A | 0x2B | 0x2C | 0x2D | 0x4C | 0x4D
        | 0x4E | 0x4F | 0x171 => vec![Kind::Word, Kind::Word, Kind::Word],
        0x32 => vec![Kind::Store, Kind::Word],
        0x41 => vec![Kind::Short, Kind::Store],
        0x42 => vec![Kind::Byte, Kind::Store],
        0x50 | 0x102 | 0x121 | 0x125 | 0x126 | 0x140 => vec![Kind::Store],
        0x100 => vec![Kind::Short, Kind::Short, Kind::Store],
        0x148 => vec![Kind::Store, Kind::Store],
        0x150 | 0x151 => vec![
            Kind::Word,
            Kind::Word,
            Kind::Word,
            Kind::Word,
            Kind::Word,
            Kind::Word,
            Kind::Word,
            Kind::Store,
        ],
        0x152 => vec![
            Kind::Word,
            Kind::Word,
            Kind::Word,
            Kind::Word,
            Kind::Word,
            Kind::Word,
            Kind::Store,
        ],
        0x162 => vec![Kind::Word, Kind::Word, Kind::Word, Kind::Store],
        0x163 => vec![Kind::Word, Kind::Word, Kind::Word, Kind::Word, Kind::Store],
        0x191 | 0x192 | 0x198 | 0x199 | 0x1A8 | 0x1A9 | 0x1AA | 0x1B0 | 0x1B1 | 0x1B2
        | 0x1B3 | 0x1B4 | 0x1B5 => vec![Kind::Float, Kind::Store],
        0x1A0 | 0x1A1 | 0x1A2 | 0x1A3 | 0x1AB | 0x1B6 => vec![
            Kind::Float,
            Kind::Float,
            Kind::Store,
        ],
        0x1A4 => vec![Kind::Float, Kind::Float, Kind::Store, Kind::Store],
        0x1C0 | 0x1C1 => vec![Kind::Float, Kind::Float, Kind::Float, Kind::Word],
        0x1C2 | 0x1C3 | 0x1C4 | 0x1C5 => vec![Kind::Float, Kind::Float, Kind::Word],
        0x1C8 | 0x1C9 => vec![Kind::Float, Kind::Word],
        _ => {
            return None;
        },
    };
    assert(kinds_of(number) is Some && kinds@ =~= kinds_of(number)->0);
    Some(kinds)
}

/// Whether the instruction with this number is left to the host.
pub fn for_host_number(number: u32) -> (r: bool)
    ensures
        r == for_host(number),
{
    number >= 0x190 || (0x70 <= number && number <= 0x73) || number == 0x130 || number == 0x140
        || number == 0x141 || number == 0x148 || number == 0x149
}

fn get_word(ops: &Vec<Operand>, i: usize) -> (r: u32)
    requires
        i < ops@.len(),
    ensures
        r == word(ops@, i as int),
{
    match ops[i] {
        Operand::Value(v) => v,
        Operand::Place(_) => 0,
    }
}

fn get_signed(ops: &Vec<Operand>, i: usize) -> (r: i32)
    requires
        i < ops@.len(),
    ensures
        r == signed(ops@, i as int),
{
    let v = get_word(ops, i);
    #[verifier::truncate]
    (v as i32)
}

fn get_half(ops: &Vec<Operand>, i: usize) -> (r: u16)
    requires
        i < ops@.len(),
    ensures
        r == half(ops@, i as int),
{
    (get_word(ops, i) % 0x1_0000) as u16
}

fn get_byte(ops: &Vec<Operand>, i: usize) -> (r: u8)
    requires
        i < ops@.len(),
    ensures
        r == byte(ops@, i as int),
{
    (get_word(ops, i) % 0x100) as u8
}

fn get_place(ops: &Vec<Operand>, i: usize) -> (r: Save)
    requires
        i < ops@.len(),
    ensures
        r == place(ops@, i as int),
{
    match ops[i] {
        Operand::Value(_) => Save::Null,
        Operand::Place(p) => p,
    }
}

impl VmView {
    /// The machine after the number of the instruction at the program
    /// counter was read, and the number. A first byte below 0x80 is the
    /// number. A first byte below 0xC0 starts a number of two bytes, less
    /// 0x8000; any other starts a number of four bytes, less 0xC0000000.
    /// The machine stops where the number runs out of the memory.
    pub open spec fn opcode_number(self) -> (VmView, Option<u32>) {
        if !self.memory.in_range(self.pc as int, 1) {
            (self.halted(Fault::MemoryOutOfBounds), None)
        } else if self.memory.read_u8(self.pc as int) < 0x80 {
            (self.with_pc((self.pc + 1) as u32), Some(self.memory.read_u8(self.pc as int) as u32))
        } else if self.memory.read_u8(self.pc as int) < 0xC0 {
            if self.memory.in_range(self.pc as int, 2) {
                (
                    self.with_pc((self.pc + 2) as u32),
                    Some((self.memory.read_u16(self.pc as int) - 0x8000) as u32),
                )
            } else {
                (self.halted(Fault::MemoryOutOfBounds), None)
            }
        } else {
            if self.memory.in_range(self.pc as int, 4) {
                (
                    self.with_pc((self.pc + 4) as u32),
                    Some((self.memory.read_u32(self.pc as int) - 0xC000_0000) as u32),
                )
            } else {
                (self.halted(Fault::MemoryOutOfBounds), None)
            }
        }
    }

    /// The machine after the byte at the program counter was read, and the
    /// byte's low and high half.
    pub open spec fn lo_hi(self) -> (VmView, Option<(u8, u8)>) {
        if self.memory.in_range(self.pc as int, 1) {
            (
                self.with_pc((self.pc + 1) as u32),
                Some(
                    (
                        nibble(self.memory.read_u8(self.pc as int), false),
                        nibble(self.memory.read_u8(self.pc as int), true),
                    ),
                ),
            )
        } else {
            (self.halted(Fault::MemoryOutOfBounds), None)
        }
    }

    /// The machine after the addressing modes of `n` operands were read,
    /// and the modes: operand `k` has the low half of byte `k / 2` where
    /// `k` is even, and the high half where `k` is odd.
    pub open spec fn read_modes(self, n: int) -> (VmView, Option<Seq<u8>>) {
        if self.memory.in_range(self.pc as int, (n + 1) / 2) {
            (
                self.with_pc((self.pc + (n + 1) / 2) as u32),
                Some(
                    Seq::new(
                        n as nat,
                        |k: int| nibble(self.memory.bytes[self.pc + k / 2], k % 2 == 1),
                    ),
                ),
            )
        } else {
            (self.halted(Fault::MemoryOutOfBounds), None)
        }
    }

    /// The machine after `size` bytes at the program counter were read as
    /// one unsigned value, and the value.
    pub open spec fn take(self, size: int) -> (VmView, Option<u32>) {
        if self.memory.in_range(self.pc as int, size) {
            (self.with_pc((self.pc + size) as u32), Some(self.mem_value(self.pc as int, size)))
        } else {
            (self.halted(Fault::MemoryOutOfBounds), None)
        }
    }

    /// The machine after an operand to read, of the kind `kind` and with
    /// the addressing mode `mode`, was decoded, and where the operand is:
    /// mode 0 is the constant zero, modes 1 to 3 a signed constant of 1, 2
    /// or 4 bytes, modes 5 to 7 an address, mode 8 the stack, modes 9 to 11
    /// a local, modes 13 to 15 an offset into the RAM, each of 1, 2 or 4
    /// bytes. The machine stops on a mode that the kind does not admit.
    pub open spec fn materialize_load(self, mode: u8, kind: Kind) -> (VmView, Option<Load>) {
        if !load_mode_ok(mode, kind) {
            (self.halted(Fault::InvalidMode), None)
        } else if mode == 0x0 {
            (self, Some(Load::Const(0)))
        } else if mode == 0x8 {
            (self, Some(Load::Pop))
        } else {
            match self.take(imm_size(mode)) {
                (s, None) => (s, None),
                (s, Some(v)) => (
                    s,
                    Some(
                        if mode < 0x4 {
                            Load::Const(sign_extended(v, imm_size(mode)))
                        } else if mode < 0x8 {
                            Load::Addr(v)
                        } else if mode < 0xC {
                            Load::Frame(v)
                        } else {
                            Load::Ram(v)
                        },
                    ),
                ),
            }
        }
    }

    /// The machine after a place for a result with the addressing mode
    /// `mode` was decoded, and the place: mode 0 drops the result, modes 5
    /// to 7 are an address, mode 8 is the stack, modes 9 to 11 a local,
    /// modes 13 to 15 an offset into the RAM. The machine stops on any
    /// other mode.
    pub open spec fn materialize_save(self, mode: u8) -> (VmView, Option<Save>) {
        if !save_mode_ok(mode) {
            (self.halted(Fault::InvalidMode), None)
        } else if mode == 0x0 {
            (self, Some(Save::Null))
        } else if mode == 0x8 {
            (self, Some(Save::Push))
        } else {
            match self.take(imm_size(mode)) {
                (s, None) => (s, None),
                (s, Some(v)) => (
                    s,
                    Some(
                        if mode < 0x8 {
                            Save::Addr(v)
                        } else if mode < 0xC {
                            Save::Frame(v)
                        } else {
                            Save::Ram(v)
                        },
                    ),
                ),
            }
        }
    }

    /// The machine after an operand of the kind `kind` with the addressing
    /// mode `mode` was decoded and, unless it is a place, fetched; and the
    /// operand.
    pub open spec fn read_register(self, mode: u8, kind: Kind) -> (VmView, Option<Operand>) {
        if kind == Kind::Store {
            match self.materialize_save(mode) {
                (s, Some(p)) => (s, Some(Operand::Place(p))),
                (s, None) => (s, None),
            }
        } else {
            match self.materialize_load(mode, kind) {
                (s, None) => (s, None),
                (s, Some(load)) => match s.fetch(load, width_of(kind)) {
                    (t, Some(v)) => (t, Some(Operand::Value(v))),
                    (t, None) => (t, None),
                },
            }
        }
    }

    /// The machine after the first `k` operands were read, one after the
    /// other, and the operands. Once the machine has stopped over one
    /// operand, no further one is read.
    pub open spec fn read_registers(self, modes: Seq<u8>, kinds: Seq<Kind>, k: nat) -> (
        VmView,
        Option<Seq<Operand>>,
    )
        decreases k,
    {
        if k == 0 {
            (self, Some(Seq::<Operand>::empty()))
        } else {
            match self.read_registers(modes, kinds, (k - 1) as nat) {
                (s, None) => (s, None),
                (s, Some(ops)) => match s.read_register(modes[k - 1], kinds[k - 1]) {
                    (t, Some(op)) => (t, Some(ops.push(op))),
                    (t, None) => (t, None),
                },
            }
        }
    }

    /// The machine after an instruction among the arithmetic, the jumps and the calls,
    /// with the operands `ops`.
    pub open spec fn apply_basic(self, number: u32, ops: Seq<Operand>) -> VmView {
        match number {
            0x00 => self,
            0x10 => self.op_add(signed(ops, 0), signed(ops, 1), place(ops, 2)),
            0x11 => self.op_sub(signed(ops, 0), signed(ops, 1), place(ops, 2)),
            0x12 => self.op_mul(signed(ops, 0), signed(ops, 1), place(ops, 2)),
            0x13 => self.op_div(signed(ops, 0), signed(ops, 1), place(ops, 2)),
            0x14 => self.op_mod(signed(ops, 0), signed(ops, 1), place(ops, 2)),
            0x15 => self.op_neg(signed(ops, 0), place(ops, 1)),
            0x18 => self.op_bitand(signed(ops, 0), signed(ops, 1), place(ops, 2)),
            0x19 => self.op_bitor(signed(ops, 0), signed(ops, 1), place(ops, 2)),
            0x1A => self.op_bitxor(signed(ops, 0), signed(ops, 1), place(ops, 2)),
            0x1B => self.op_bitnot(signed(ops, 0), place(ops, 1)),
            0x1C => self.op_shiftl(word(ops, 0), word(ops, 1), place(ops, 2)),
            0x1D => self.op_sshiftr(signed(ops, 0), signed(ops, 1), place(ops, 2)),
            0x1E => self.op_ushiftr(word(ops, 0), word(ops, 1), place(ops, 2)),
            0x20 => self.op_jump(word(ops, 0)),
            0x22 => self.op_jz(signed(ops, 0), word(ops, 1)),
            0x23 => self.op_jnz(signed(ops, 0), word(ops, 1)),
            0x24 => self.op_jeq(signed(ops, 0), signed(ops, 1), word(ops, 2)),
            0x25 => self.op_jne(signed(ops, 0), signed(ops, 1), word(ops, 2)),
            0x26 => self.op_jlt(signed(ops, 0), signed(ops, 1), word(ops, 2)),
            0x27 => self.op_jge(signed(ops, 0), signed(ops, 1), word(ops, 2)),
            0x28 => self.op_jgt(signed(ops, 0), signed(ops, 1), word(ops, 2)),
            0x29 => self.op_jle(signed(ops, 0), signed(ops, 1), word(ops, 2)),
            0x2A => self.op_jltu(word(ops, 0), word(ops, 1), word(ops, 2)),
            0x2B => self.op_jgeu(word(ops, 0), word(ops, 1), word(ops, 2)),
            0x2C => self.op_jgtu(word(ops, 0), word(ops, 1), word(ops, 2)),
            0x2D => self.op_jleu(word(ops, 0), word(ops, 1), word(ops, 2)),
            0x30 => self.op_call(word(ops, 0), word(ops, 1), place(ops, 2)),
            0x31 => self.op_return(word(ops, 0)),
            0x32 => self.halted(Fault::Unimplemented),
            0x33 => self.halted(Fault::Unimplemented),
            0x34 => self.halted(Fault::Unimplemented),
            _ => self,
        }
    }

    /// The machine after an instruction among the copies, the arrays and the stack,
    /// with the operands `ops`.
    pub open spec fn apply_data(self, number: u32, ops: Seq<Operand>) -> VmView {
        match number {
            0x40 => self.op_copy(word(ops, 0), place(ops, 1)),
            0x41 => self.op_copys(half(ops, 0), place(ops, 1)),
            0x42 => self.op_copyb(byte(ops, 0), place(ops, 1)),
            0x44 => self.op_sexs(word(ops, 0), place(ops, 1)),
            0x45 => self.op_sexb(word(ops, 0), place(ops, 1)),
            0x48 => self.op_aload(word(ops, 0), word(ops, 1), place(ops, 2)),
            0x49 => self.op_aloads(word(ops, 0), word(ops, 1), place(ops, 2)),
            0x4A => self.op_aloadb(word(ops, 0), word(ops, 1), place(ops, 2)),
            0x4B => self.op_aloadbit(word(ops, 0), word(ops, 1), place(ops, 2)),
            0x4C => self.op_astore(word(ops, 0), word(ops, 1), word(ops, 2)),
            0x4D => self.op_astores(word(ops, 0), word(ops, 1), word(ops, 2)),
            0x4E => self.op_astoreb(word(ops, 0), word(ops, 1), word(ops, 2)),
            0x4F => self.op_astorebit(word(ops, 0), word(ops, 1), word(ops, 2)),
            0x50 => self.op_stkcount(place(ops, 0)),
            0x51 => self.op_stkpeek(word(ops, 0), place(ops, 1)),
            0x52 => self.op_stkswap(),
            0x53 => self.op_stkroll(word(ops, 0), signed(ops, 1)),
            0x54 => self.op_stkcopy(word(ops, 0)),
            _ => self,
        }
    }

    /// The machine after an instruction among the memory, the searches and the services of the machine,
    /// with the operands `ops`.
    pub open spec fn apply_system(self, number: u32, ops: Seq<Operand>) -> VmView {
        match number {
            0x100 => self.op_gestalt(half(ops, 0), half(ops, 1), place(ops, 2)),
            0x101 => self.halted(Fault::Unimplemented),
            0x102 => self.op_getmemsize(place(ops, 0)),
            0x103 => self.op_setmemsize(word(ops, 0), place(ops, 1)),
            0x104 => self.op_jumpabs(word(ops, 0)),
            0x110 => self.halted(Fault::Unimplemented),
            0x111 => self.halted(Fault::Unimplemented),
            0x120 => self.op_quit(),
            0x121 => self.halted(Fault::Unimplemented),
            0x122 => self.halted(Fault::Unimplemented),
            0x123 => self.halted(Fault::Unimplemented),
            0x124 => self.halted(Fault::Unimplemented),
            0x125 => self.halted(Fault::Unimplemented),
            0x126 => self.halted(Fault::Unimplemented),
            0x127 => self.halted(Fault::Unimplemented),
            0x150 => self.halted(Fault::Unimplemented),
            0x151 => self.halted(Fault::Unimplemented),
            0x152 => self.halted(Fault::Unimplemented),
            0x160 => self.op_callf(word(ops, 0), place(ops, 1)),
            0x161 => self.op_callfi(word(ops, 0), word(ops, 1), place(ops, 2)),
            0x162 => self.op_callfii(word(ops, 0), word(ops, 1), word(ops, 2), place(ops, 3)),
            0x163 => self.op_callfiii(
                word(ops, 0),
                word(ops, 1),
                word(ops, 2),
                word(ops, 3),
                place(ops, 4),
            ),
            0x170 => self.op_mzero(word(ops, 0), word(ops, 1)),
            0x171 => self.op_mcopy(word(ops, 0), word(ops, 1), word(ops, 2)),
            0x178 => self.halted(Fault::Unimplemented),
            0x179 => self.halted(Fault::Unimplemented),
            0x180 => self.halted(Fault::Unimplemented),
            0x181 => self.halted(Fault::Unimplemented),
            _ => self,
        }
    }

    /// The machine after the instruction with the number `number` was
    /// carried out with the operands `ops`, and what is left for the host
    /// to do. The instructions from 0x190 on are floating-point arithmetic:
    /// like those for input and output, they change nothing and go to the
    /// host.
    pub open spec fn apply(self, number: u32, ops: Seq<Operand>) -> (VmView, Option<HostCall>) {
        if for_host(number) {
            (self, Some(host_call(number, ops)))
        } else if number < 0x40 {
            (self.apply_basic(number, ops), None)
        } else if number < 0x100 {
            (self.apply_data(number, ops), None)
        } else {
            (self.apply_system(number, ops), None)
        }
    }

    /// The machine after the instruction with the number `number`, whose
    /// operands start at the program counter, was decoded and carried out,
    /// and what is left for the host to do. The machine stops where there
    /// is no instruction with that number.
    pub open spec fn eval(self, number: u32) -> (VmView, Option<HostCall>) {
        match kinds_of(number) {
            None => (self.halted(Fault::InvalidOpcode), None),
            Some(kinds) => match self.read_modes(kinds.len() as int) {
                (s, None) => (s, None),
                (s, Some(modes)) => match s.read_registers(modes, kinds, kinds.len()) {
                    (t, None) => (t, None),
                    (t, Some(ops)) => t.apply(number, padded(ops)),
                },
            },
        }
    }

    /// The machine after one cycle, and what is left for the host to do. A
    /// machine that does not run stays as it is.
    pub open spec fn step(self) -> (VmView, Option<HostCall>) {
        if !self.running {
            (self, None)
        } else {
            match self.opcode_number() {
                (s, None) => (s, None),
                (s, Some(number)) => s.eval(number),
            }
        }
    }

    /// The machine after at most `limit` cycles, and what is left for the
    /// host to do: the cycles end early where the machine stops, and where
    /// an instruction goes to the host.
    pub open spec fn run(self, limit: nat) -> (VmView, Option<HostCall>)
        decreases limit,
    {
        if limit == 0 || !self.running {
            (self, None)
        } else {
            match self.step() {
                (s, Some(call)) => (s, Some(call)),
                (s, None) => s.run((limit - 1) as nat),
            }
        }
    }
}

impl Glulx {
    /// Reads the number of the instruction at the program counter and
    /// moves the program counter past it. `None` where the machine stopped.
    pub fn opcode_number(&mut self) -> (r: Option<u32>)
        requires
            old(self)@.wf(),
        ensures
            (final(self)@, r) == old(self)@.opcode_number(),
            final(self)@.wf(),
    {
        let pc = self.program_counter;
        if !self.in_memory(pc, 1) {
            self.halt(Fault::MemoryOutOfBounds);
            return None;
        }
        let top: u8 = self.memory.read(pc);
        if top < 0x80 {
            self.program_counter = pc + 0x1;
            Some(top as u32)
        } else if top < 0xC0 {
            if !self.in_memory(pc, 2) {
                self.halt(Fault::MemoryOutOfBounds);
                return None;
            }
            let opcode: u16 = self.memory.read(pc);
            assert(self@.memory.bytes.subrange(pc as int, pc + 2)[0] == top);
            self.program_counter = pc + 0x2;
            Some(opcode as u32 - 0x8000)
        } else {
            if !self.in_memory(pc, 4) {
                self.halt(Fault::MemoryOutOfBounds);
                return None;
            }
            let opcode: u32 = self.memory.read(pc);
            assert(self@.memory.bytes.subrange(pc as int, pc + 4)[0] == top);
            self.program_counter = pc + 0x4;
            Some(opcode - 0xC000_0000)
        }
    }

    /// Reads the byte at the program counter, moves the program counter
    /// past it, and returns the byte's low and high half.
    pub fn lo_hi(&mut self) -> (r: Option<(u8, u8)>)
        requires
            old(self)@.wf(),
        ensures
            (final(self)@, r) == old(self)@.lo_hi(),
            final(self)@.wf(),
    {
        let pc = self.program_counter;
        if !self.in_memory(pc, 1) {
            self.halt(Fault::MemoryOutOfBounds);
            return None;
        }
        let bytes: u8 = self.memory.read(pc);
        self.program_counter = pc + 0x1;
        Some((bytes % 16, bytes / 16))
    }

    /// Reads the addressing modes of `n` operands.
    pub fn read_modes(&mut self, n: usize) -> (r: Option<Vec<u8>>)
        requires
            old(self)@.wf(),
            n <= 8,
        ensures
            final(self)@ == old(self)@.read_modes(n as int).0,
            match r {
                Some(v) => old(self)@.read_modes(n as int).1 == Some(v@),
                None => old(self)@.read_modes(n as int).1 is None,
            },
            final(self)@.wf(),
    {
        let ghost before = self@;
        let start = self.program_counter;
        if !self.in_memory(start, ((n + 1) / 2) as u32) {
            self.halt(Fault::MemoryOutOfBounds);
            return None;
        }
        let mut modes: Vec<u8> = Vec::new();
        while modes.len() < n
            invariant
                n <= 8,
                before.wf(),
                before.memory.in_range(start as int, (n + 1) / 2),
                start == before.pc,
                modes@.len() <= n,
                self@ == before.with_pc((start + (modes@.len() + 1) / 2) as u32),
                forall|k: int|
                    0 <= k < modes@.len() ==> modes@[k] == nibble(
                        before.memory.bytes[start + k / 2],
                        k % 2 == 1,
                    ),
                modes@.len() % 2 == 0 || modes@.len() == n,
            decreases n - modes@.len(),
        {
            let ghost done = modes@.len();
            match self.lo_hi() {
                Some((lo, hi)) => {
                    modes.push(lo);
                    if modes.len() < n {
                        modes.push(hi);
                    }
                },
                None => {
                    assert(false);
                },
            }
        }
        assert(modes@ =~= before.read_modes(n as int).1->0);
        Some(modes)
    }

    /// Reads `size` bytes at the program counter as one unsigned value,
    /// for a size of 1, 2 or 4, and moves the program counter past them.
    pub fn take(&mut self, size: u8) -> (r: Option<u32>)
        requires
            old(self)@.wf(),
            size == 1 || size == 2 || size == 4,
        ensures
            (final(self)@, r) == old(self)@.take(size as int),
            final(self)@.wf(),
    {
        let pc = self.program_counter;
        if !self.in_memory(pc, size as u32) {
            self.halt(Fault::MemoryOutOfBounds);
            return None;
        }
        let v: u32 = if size == 1 {
            let b: u8 = self.memory.read(pc);
            b as u32
        } else if size == 2 {
            let h: u16 = self.memory.read(pc);
            h as u32
        } else {
            self.memory.read(pc)
        };
        self.program_counter = pc + size as u32;
        Some(v)
    }

    /// Decodes an operand to read, of the kind `kind` and with the
    /// addressing mode `mode`.
    pub fn materialize_load(&mut self, mode: u8, kind: Kind) -> (r: Option<Load>)
        requires
            old(self)@.wf(),
        ensures
            (final(self)@, r) == old(self)@.materialize_load(mode, kind),
            final(self)@.wf(),
    {
        let admitted = mode <= 0xF && mode != 0x4 && mode != 0xC && match kind {
            Kind::Byte => mode != 0x2 && mode != 0x3,
            Kind::Short => mode != 0x3,
            Kind::Word => true,
            Kind::Float => mode != 0x1 && mode != 0x2,
            Kind::Store => false,
        };
        if !admitted {
            self.halt(Fault::InvalidMode);
            return None;
        }
        if mode == 0x0 {
            return Some(Load::Const(0));
        }
        if mode == 0x8 {
            return Some(Load::Pop);
        }
        let size: u8 = if mode % 4 == 1 {
            1
        } else if mode % 4 == 2 {
            2
        } else {
            4
        };
        match self.take(size) {
            None => None,
            Some(v) => {
                if mode < 0x4 {
                    let c: i32 = if size == 1 {
                        crate::opcodes::op_sexb(v)
                    } else if size == 2 {
                        crate::opcodes::op_sexs(v)
                    } else {
                        #[verifier::truncate]
                        (v as i32)
                    };
                    Some(Load::Const(c))
                } else if mode < 0x8 {
                    Some(Load::Addr(v))
                } else if mode < 0xC {
                    Some(Load::Frame(v))
                } else {
                    Some(Load::Ram(v))
                }
            },
        }
    }

    /// Decodes a place for a result with the addressing mode `mode`.
    pub fn materialize_save(&mut self, mode: u8) -> (r: Option<Save>)
        requires
            old(self)@.wf(),
        ensures
            (final(self)@, r) == old(self)@.materialize_save(mode),
            final(self)@.wf(),
    {
        if !(mode == 0 || (5 <= mode && mode <= 0xF && mode != 0xC)) {
            self.halt(Fault::InvalidMode);
            return None;
        }
        if mode == 0x0 {
            return Some(Save::Null);
        }
        if mode == 0x8 {
            return Some(Save::Push);
        }
        let size: u8 = if mode % 4 == 1 {
            1
        } else if mode % 4 == 2 {
            2
        } else {
            4
        };
        match self.take(size) {
            None => None,
            Some(v) => {
                if mode < 0x8 {
                    Some(Save::Addr(v))
                } else if mode < 0xC {
                    Some(Save::Frame(v))
                } else {
                    Some(Save::Ram(v))
                }
            },
        }
    }

    /// Decodes an operand of the kind `kind` with the addressing mode
    /// `mode` and, unless it is a place, fetches it.
    pub fn read_register(&mut self, mode: u8, kind: Kind) -> (r: Option<Operand>)
        requires
            old(self)@.wf(),
        ensures
            (final(self)@, r) == old(self)@.read_register(mode, kind),
            final(self)@.wf(),
    {
        match kind {
            Kind::Store => match self.materialize_save(mode) {
                Some(p) => Some(Operand::Place(p)),
                None => None,
            },
            _ => {
                let width: u8 = match kind {
                    Kind::Byte => 1,
                    Kind::Short => 2,
                    _ => 4,
                };
                match self.materialize_load(mode, kind) {
                    None => None,
                    Some(load) => match self.fetch(load, width) {
                        Some(v) => Some(Operand::Value(v)),
                        None => None,
                    },
                }
            },
        }
    }

    /// Carries out an instruction among the arithmetic, the jumps and the calls,
    /// with the operands `ops`.
    pub fn apply_basic(&mut self, number: u32, ops: &Vec<Operand>)
        requires
            old(self)@.wf(),
            ops@.len() == 8,
        ensures
            final(self)@ == old(self)@.apply_basic(number, ops@),
            final(self)@.wf(),
    {
        match number {
            0x00 => self.op_nop(),
            0x10 => self.op_add(get_signed(ops, 0), get_signed(ops, 1), get_place(ops, 2)),
            0x11 => self.op_sub(get_signed(ops, 0), get_signed(ops, 1), get_place(ops, 2)),
            0x12 => self.op_mul(get_signed(ops, 0), get_signed(ops, 1), get_place(ops, 2)),
            0x13 => self.op_div(get_signed(ops, 0), get_signed(ops, 1), get_place(ops, 2)),
            0x14 => self.op_mod(get_signed(ops, 0), get_signed(ops, 1), get_place(ops, 2)),
            0x15 => self.op_neg(get_signed(ops, 0), get_place(ops, 1)),
            0x18 => self.op_bitand(get_signed(ops, 0), get_signed(ops, 1), get_place(ops, 2)),
            0x19 => self.op_bitor(get_signed(ops, 0), get_signed(ops, 1), get_place(ops, 2)),
            0x1A => self.op_bitxor(get_signed(ops, 0), get_signed(ops, 1), get_place(ops, 2)),
            0x1B => self.op_bitnot(get_signed(ops, 0), get_place(ops, 1)),
            0x1C => self.op_shiftl(get_word(ops, 0), get_word(ops, 1), get_place(ops, 2)),
            0x1D => self.op_sshiftr(get_signed(ops, 0), get_signed(ops, 1), get_place(ops, 2)),
            0x1E => self.op_ushiftr(get_word(ops, 0), get_word(ops, 1), get_place(ops, 2)),
            0x20 => self.op_jump(get_word(ops, 0)),
            0x22 => self.op_jz(get_signed(ops, 0), get_word(ops, 1)),
            0x23 => self.op_jnz(get_signed(ops, 0), get_word(ops, 1)),
            0x24 => self.op_jeq(get_signed(ops, 0), get_signed(ops, 1), get_word(ops, 2)),
            0x25 => self.op_jne(get_signed(ops, 0), get_signed(ops, 1), get_word(ops, 2)),
            0x26 => self.op_jlt(get_signed(ops, 0), get_signed(ops, 1), get_word(ops, 2)),
            0x27 => self.op_jge(get_signed(ops, 0), get_signed(ops, 1), get_word(ops, 2)),
            0x28 => self.op_jgt(get_signed(ops, 0), get_signed(ops, 1), get_word(ops, 2)),
            0x29 => self.op_jle(get_signed(ops, 0), get_signed(ops, 1), get_word(ops, 2)),
            0x2A => self.op_jltu(get_word(ops, 0), get_word(ops, 1), get_word(ops, 2)),
            0x2B => self.op_jgeu(get_word(ops, 0), get_word(ops, 1), get_word(ops, 2)),
            0x2C => self.op_jgtu(get_word(ops, 0), get_word(ops, 1), get_word(ops, 2)),
            0x2D => self.op_jleu(get_word(ops, 0), get_word(ops, 1), get_word(ops, 2)),
            0x30 => self.op_call(get_word(ops, 0), get_word(ops, 1), get_place(ops, 2)),
            0x31 => self.op_return(get_word(ops, 0)),
            0x32 => self.op_catch(get_place(ops, 0), get_word(ops, 1)),
            0x33 => self.op_throw(get_word(ops, 0), get_word(ops, 1)),
            0x34 => self.op_tailcall(get_word(ops, 0), get_word(ops, 1)),
            _ => {},
        }
    }

    /// Carries out an instruction among the copies, the arrays and the stack,
    /// with the operands `ops`.
    pub fn apply_data(&mut self, number: u32, ops: &Vec<Operand>)
        requires
            old(self)@.wf(),
            ops@.len() == 8,
        ensures
            final(self)@ == old(self)@.apply_data(number, ops@),
            final(self)@.wf(),
    {
        match number {
            0x40 => self.op_copy(get_word(ops, 0), get_place(ops, 1)),
            0x41 => self.op_copys(get_half(ops, 0), get_place(ops, 1)),
            0x42 => self.op_copyb(get_byte(ops, 0), get_place(ops, 1)),
            0x44 => self.op_sexs(get_word(ops, 0), get_place(ops, 1)),
            0x45 => self.op_sexb(get_word(ops, 0), get_place(ops, 1)),
            0x48 => self.op_aload(get_word(ops, 0), get_word(ops, 1), get_place(ops, 2)),
            0x49 => self.op_aloads(get_word(ops, 0), get_word(ops, 1), get_place(ops, 2)),
            0x4A => self.op_aloadb(get_word(ops, 0), get_word(ops, 1), get_place(ops, 2)),
            0x4B => self.op_aloadbit(get_word(ops, 0), get_word(ops, 1), get_place(ops, 2)),
            0x4C => self.op_astore(get_word(ops, 0), get_word(ops, 1), get_word(ops, 2)),
            0x4D => self.op_astores(get_word(ops, 0), get_word(ops, 1), get_word(ops, 2)),
            0x4E => self.op_astoreb(get_word(ops, 0), get_word(ops, 1), get_word(ops, 2)),
            0x4F => self.op_astorebit(get_word(ops, 0), get_word(ops, 1), get_word(ops, 2)),
            0x50 => self.op_stkcount(get_place(ops, 0)),
            0x51 => self.op_stkpeek(get_word(ops, 0), get_place(ops, 1)),
            0x52 => self.op_stkswap(),
            0x53 => self.op_stkroll(get_word(ops, 0), get_signed(ops, 1)),
            0x54 => self.op_stkcopy(get_word(ops, 0)),
            _ => {},
        }
    }

    /// Carries out an instruction among the memory, the searches and the services of the machine,
    /// with the operands `ops`.
    pub fn apply_system(&mut self, number: u32, ops: &Vec<Operand>)
        requires
            old(self)@.wf(),
            ops@.len() == 8,
        ensures
            final(self)@ == old(self)@.apply_system(number, ops@),
            final(self)@.wf(),
    {
        match number {
            0x100 => self.op_gestalt(get_half(ops, 0), get_half(ops, 1), get_place(ops, 2)),
            0x101 => self.op_debugtrap(get_word(ops, 0)),
            0x102 => self.op_getmemsize(get_place(ops, 0)),
            0x103 => self.op_setmemsize(get_word(ops, 0), get_place(ops, 1)),
            0x104 => self.op_jumpabs(get_word(ops, 0)),
            0x110 => self.op_random(get_signed(ops, 0), get_place(ops, 1)),
            0x111 => self.op_setrandom(get_word(ops, 0)),
            0x120 => self.op_quit(),
            0x121 => self.op_verify(get_place(ops, 0)),
            0x122 => self.op_restart(),
            0x123 => self.op_save(get_word(ops, 0), get_place(ops, 1)),
            0x124 => self.op_restore(get_word(ops, 0), get_place(ops, 1)),
            0x125 => self.op_saveundo(get_place(ops, 0)),
            0x126 => self.op_restoreundo(get_place(ops, 0)),
            0x127 => self.op_protect(get_word(ops, 0), get_word(ops, 1)),
            0x150 => self.op_linearsearch(
                get_word(ops, 0),
                get_word(ops, 1),
                get_word(ops, 2),
                get_word(ops, 3),
                get_word(ops, 4),
                get_word(ops, 5),
                get_word(ops, 6),
                get_place(ops, 7),
            ),
            0x151 => self.op_binarysearch(
                get_word(ops, 0),
                get_word(ops, 1),
                get_word(ops, 2),
                get_word(ops, 3),
                get_word(ops, 4),
                get_word(ops, 5),
                get_word(ops, 6),
                get_place(ops, 7),
            ),
            0x152 => self.op_linkedsearch(
                get_word(ops, 0),
                get_word(ops, 1),
                get_word(ops, 2),
                get_word(ops, 3),
                get_word(ops, 4),
                get_word(ops, 5),
                get_place(ops, 6),
            ),
            0x160 => self.op_callf(get_word(ops, 0), get_place(ops, 1)),
            0x161 => self.op_callfi(get_word(ops, 0), get_word(ops, 1), get_place(ops, 2)),
            0x162 => self.op_callfii(
                get_word(ops, 0),
                get_word(ops, 1),
                get_word(ops, 2),
                get_place(ops, 3),
            ),
            0x163 => self.op_callfiii(
                get_word(ops, 0),
                get_word(ops, 1),
                get_word(ops, 2),
                get_word(ops, 3),
                get_place(ops, 4),
            ),
            0x170 => self.op_mzero(get_word(ops, 0), get_word(ops, 1)),
            0x171 => self.op_mcopy(get_word(ops, 0), get_word(ops, 1), get_word(ops, 2)),
            0x178 => self.op_malloc(get_word(ops, 0), get_place(ops, 1)),
            0x179 => self.op_mfree(get_word(ops, 0)),
            0x180 => self.op_accelfunc(get_word(ops, 0), get_word(ops, 1)),
            0x181 => self.op_accelparam(get_word(ops, 0), get_word(ops, 1)),
            _ => {},
        }
    }

    /// The call that hands the instruction with the number `number` and
    /// the operands `ops` to the host.
    pub fn hand_over(&self, number: u32, ops: &Vec<Operand>) -> (r: HostCall)
        requires
            ops@.len() == 8,
        ensures
            r == host_call(number, ops@),
    {
        match number {
            0x70 => self.op_streamchar(get_word(ops, 0)),
            0x71 => self.op_streamnum(get_word(ops, 0)),
            0x72 => self.op_streamstr(get_word(ops, 0)),
            0x73 => self.op_streamunichar(get_word(ops, 0)),
            0x130 => self.op_glk(get_word(ops, 0), get_word(ops, 1), get_place(ops, 2)),
            0x140 => self.op_getstringtbl(get_place(ops, 0)),
            0x141 => self.op_setstringtbl(get_word(ops, 0)),
            0x148 => self.op_getiosys(get_place(ops, 0), get_place(ops, 1)),
            0x149 => self.op_setiosys(get_word(ops, 0), get_word(ops, 1)),
            _ => HostCall { opcode: number, o1: ops[0], o2: ops[1], o3: ops[2], o4: ops[3] },
        }
    }

    /// Carries out the instruction with the number `number` with the
    /// operands `ops`, or hands it to the host.
    pub fn apply(&mut self, number: u32, ops: &Vec<Operand>) -> (r: Option<HostCall>)
        requires
            old(self)@.wf(),
            ops@.len() == 8,
        ensures
            (final(self)@, r) == old(self)@.apply(number, ops@),
            final(self)@.wf(),
    {
        if for_host_number(number) {
            Some(self.hand_over(number, ops))
        } else if number < 0x40 {
            self.apply_basic(number, ops);
            None
        } else if number < 0x100 {
            self.apply_data(number, ops);
            None
        } else {
            self.apply_system(number, ops);
            None
        }
    }

    /// Reads the operands of the kinds `kinds` with the addressing modes
    /// `modes`, one after the other. `None` where the machine stopped over
    /// one of them.
    pub fn read_registers(&mut self, modes: &Vec<u8>, kinds: &Vec<Kind>) -> (r: Option<
        Vec<Operand>,
    >)
        requires
            old(self)@.wf(),
            modes@.len() == kinds@.len(),
        ensures
            final(self)@ == old(self)@.read_registers(modes@, kinds@, kinds@.len()).0,
            match r {
                Some(v) => old(self)@.read_registers(modes@, kinds@, kinds@.len()).1 == Some(v@),
                None => old(self)@.read_registers(modes@, kinds@, kinds@.len()).1 is None,
            },
            final(self)@.wf(),
    {
        let ghost before = self@;
        let mut ops: Vec<Operand> = Vec::new();
        let mut k: usize = 0;
        while k < kinds.len()
            invariant
                k <= kinds@.len(),
                modes@.len() == kinds@.len(),
                self@.wf(),
                before == old(self)@,
                before.read_registers(modes@, kinds@, k as nat) == (self@, Some(ops@)),
            decreases kinds@.len() - k,
        {
            match self.read_register(modes[k], kinds[k]) {
                Some(op) => {
                    ops.push(op);
                },
                None => {
                    proof {
                        assert(before.read_registers(modes@, kinds@, (k + 1) as nat) == (
                            self@,
                            None::<Seq<Operand>>,
                        ));
                        lemma_read_registers_stops(
                            before,
                            modes@,
                            kinds@,
                            (k + 1) as nat,
                            kinds@.len(),
                        );
                    }
                    return None;
                },
            }
            k += 1;
        }
        Some(ops)
    }

    /// Decodes the operands of the instruction with the number `opcode`
    /// and carries it out, or hands it to the host.
    pub fn eval(&mut self, opcode: u32) -> (r: Option<HostCall>)
        requires
            old(self)@.wf(),
        ensures
            (final(self)@, r) == old(self)@.eval(opcode),
            final(self)@.wf(),
    {
        let kinds = match operand_kinds(opcode) {
            Some(kinds) => kinds,
            None => {
                self.halt(Fault::InvalidOpcode);
                return None;
            },
        };
        assert(kinds@.len() <= 8);
        let modes = match self.read_modes(kinds.len()) {
            Some(modes) => modes,
            None => {
                return None;
            },
        };
        let ops = match self.read_registers(&modes, &kinds) {
            Some(ops) => ops,
            None => {
                return None;
            },
        };
        proof {
            lemma_read_registers_len(
                old(self)@.read_modes(kinds@.len() as int).0,
                modes@,
                kinds@,
                kinds@.len(),
            );
        }
        let ops = pad(ops);
        self.apply(opcode, &ops)
    }

    /// One cycle: reads the instruction at the program counter and carries
    /// it out, or hands it to the host. A machine that does not run stays
    /// as it is.
    pub fn step(&mut self) -> (r: Option<HostCall>)
        requires
            old(self)@.wf(),
        ensures
            (final(self)@, r) == old(self)@.step(),
            final(self)@.wf(),
    {
        if !self.running {
            return None;
        }
        match self.opcode_number() {
            Some(opcode) => self.eval(opcode),
            None => None,
        }
    }

    /// Runs at most `limit` cycles: fewer where the machine stops, and
    /// where an instruction goes to the host, which is then returned.
    pub fn run(&mut self, limit: u64) -> (r: Option<HostCall>)
        requires
            old(self)@.wf(),
        ensures
            (final(self)@, r) == old(self)@.run(limit as nat),
            final(self)@.wf(),
    {
        let mut left: u64 = limit;
        while left > 0 && self.running
            invariant
                self@.wf(),
                old(self)@.run(limit as nat) == self@.run(left as nat),
            decreases left,
        {
            match self.step() {
                Some(call) => {
                    return Some(call);
                },
                None => {},
            }
            left -= 1;
        }
        None
    }
}

/// `ops` followed by values of zero up to eight operands.
fn pad(ops: Vec<Operand>) -> (r: Vec<Operand>)
    requires
        ops@.len() <= 8,
    ensures
        r@ == padded(ops@),
{
    let ghost read = ops@;
    let mut ops = ops;
    while ops.len() < 8
        invariant
            read.len() <= ops@.len() <= 8,
            ops@ =~= read + Seq::new((ops@.len() - read.len()) as nat, |i: int| Operand::Value(0)),
        decreases 8 - ops@.len(),
    {
        ops.push(Operand::Value(0));
    }
    assert(ops@ =~= padded(read));
    ops
}

/// As many operands are read as were asked for.
pub proof fn lemma_read_registers_len(s: VmView, modes: Seq<u8>, kinds: Seq<Kind>, k: nat)
    ensures
        match s.read_registers(modes, kinds, k).1 {
            Some(ops) => ops.len() == k,
            None => true,
        },
    decreases k,
{
    if k > 0 {
        lemma_read_registers_len(s, modes, kinds, (k - 1) as nat);
    }
}

/// Once the machine has stopped over an operand, reading further operands
/// changes nothing.
pub proof fn lemma_read_registers_stops(s: VmView, modes: Seq<u8>, kinds: Seq<Kind>, k: nat, n: nat)
    requires
        k <= n,
        s.read_registers(modes, kinds, k).1 is None,
    ensures
        s.read_registers(modes, kinds, n) == s.read_registers(modes, kinds, k),
    decreases n,
{
    if k < n {
        lemma_read_registers_stops(s, modes, kinds, k, (n - 1) as nat);
    }
}

} // verus!
