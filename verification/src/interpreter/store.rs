//! The instructions that read and write arrays in memory, that work on the
//! operand stack, and that ask about the machine.

use crate::bytes::lemma_enc_dec_u32;
use crate::interpreter::{Fault, Glulx, Save, VmView};
use crate::memory::Memory;
use crate::stack::Stack;
use vstd::arithmetic::div_mod::{lemma_fundamental_div_mod, lemma_fundamental_div_mod_converse};
use vstd::prelude::*;

verus! {

/// The address of the element `index` of an array at `base` whose elements
/// have `width` bytes, modulo 2^32.
pub open spec fn elem_addr(base: u32, index: u32, width: int) -> u32 {
    ((base + index * width) % 0x1_0000_0000) as u32
}

/// The address of the byte that holds the bit `index` of a bit array at
/// `base`, modulo 2^32.
pub open spec fn bit_addr(base: u32, index: u32) -> u32 {
    ((base + index / 8) % 0x1_0000_0000) as u32
}

/// The byte `byte` with its bit `bit` set where `on` holds, and cleared
/// where it does not.
pub open spec fn with_bit(byte: u8, bit: u32, on: bool) -> u8 {
    if on {
        byte | (1u8 << bit)
    } else {
        byte & !(1u8 << bit)
    }
}

/// What GESTALT answers for the selector `l1` and the argument `l2`, on a
/// machine whose story file has the Glulx version `version`.
pub open spec fn gestalt(version: u32, l1: u16, l2: u16) -> u32 {
    if l1 == 0x0 {
        version
    } else if l1 == 0x1 {
        0x1
    } else if l1 == 0x4 {
        if l2 == 0x0 {
            0x1
        } else {
            0x0
        }
    } else if l1 == 0x6 || l1 == 0xB {
        0x1
    } else {
        0x0
    }
}

impl VmView {
    /// ALOAD: the 32-bit element `l2` of the array at `l1` goes to `s1`.
    pub open spec fn op_aload(self, l1: u32, l2: u32, s1: Save) -> VmView {
        if self.memory.in_range(elem_addr(l1, l2, 4) as int, 4) {
            self.save_u32(s1, self.memory.read_u32(elem_addr(l1, l2, 4) as int))
        } else {
            self.halted(Fault::MemoryOutOfBounds)
        }
    }

    /// ALOADS: the 16-bit element `l2` of the array at `l1` goes to `s1`
    /// as a 32-bit value.
    pub open spec fn op_aloads(self, l1: u32, l2: u32, s1: Save) -> VmView {
        if self.memory.in_range(elem_addr(l1, l2, 2) as int, 2) {
            self.save_u32(s1, self.memory.read_u16(elem_addr(l1, l2, 2) as int) as u32)
        } else {
            self.halted(Fault::MemoryOutOfBounds)
        }
    }

    /// ALOADB: the byte `l2` of the array at `l1` goes to `s1` as a 32-bit
    /// value.
    pub open spec fn op_aloadb(self, l1: u32, l2: u32, s1: Save) -> VmView {
        if self.memory.in_range(elem_addr(l1, l2, 1) as int, 1) {
            self.save_u32(s1, self.memory.read_u8(elem_addr(l1, l2, 1) as int) as u32)
        } else {
            self.halted(Fault::MemoryOutOfBounds)
        }
    }

    /// ALOADBIT: the bit `l2` of the bit array at `l1` goes to `s1` as 0
    /// or 1. Bit 0 is the lowest bit of the first byte.
    pub open spec fn op_aloadbit(self, l1: u32, l2: u32, s1: Save) -> VmView {
        if self.memory.in_range(bit_addr(l1, l2) as int, 1) {
            self.save_u32(
                s1,
                ((self.memory.read_u8(bit_addr(l1, l2) as int) >> (l2 % 8)) & 1) as u32,
            )
        } else {
            self.halted(Fault::MemoryOutOfBounds)
        }
    }

    /// ASTORE: `l3` becomes the 32-bit element `l2` of the array at `l1`.
    pub open spec fn op_astore(self, l1: u32, l2: u32, l3: u32) -> VmView {
        if self.memory.in_range(elem_addr(l1, l2, 4) as int, 4) {
            self.with_memory(self.memory.write_u32(elem_addr(l1, l2, 4) as int, l3))
        } else {
            self.halted(Fault::MemoryOutOfBounds)
        }
    }

    /// ASTORES: the low 16 bits of `l3` become the element `l2` of the
    /// array at `l1`.
    pub open spec fn op_astores(self, l1: u32, l2: u32, l3: u32) -> VmView {
        if self.memory.in_range(elem_addr(l1, l2, 2) as int, 2) {
            self.with_memory(
                self.memory.write_u16(elem_addr(l1, l2, 2) as int, (l3 % 0x1_0000) as u16),
            )
        } else {
            self.halted(Fault::MemoryOutOfBounds)
        }
    }

    /// ASTOREB: the low 8 bits of `l3` become the byte `l2` of the array
    /// at `l1`.
    pub open spec fn op_astoreb(self, l1: u32, l2: u32, l3: u32) -> VmView {
        if self.memory.in_range(elem_addr(l1, l2, 1) as int, 1) {
            self.with_memory(self.memory.write_u8(elem_addr(l1, l2, 1) as int, (l3 % 0x100) as u8))
        } else {
            self.halted(Fault::MemoryOutOfBounds)
        }
    }

    /// ASTOREBIT: the bit `l2` of the bit array at `l1` is set where `l3`
    /// is not zero, and cleared where it is.
    pub open spec fn op_astorebit(self, l1: u32, l2: u32, l3: u32) -> VmView {
        if self.memory.in_range(bit_addr(l1, l2) as int, 1) {
            self.with_memory(
                self.memory.write_u8(
                    bit_addr(l1, l2) as int,
                    with_bit(self.memory.read_u8(bit_addr(l1, l2) as int), l2 % 8, l3 != 0),
                ),
            )
        } else {
            self.halted(Fault::MemoryOutOfBounds)
        }
    }

    /// STKCOUNT: the number of values on the operand stack of the current
    /// frame goes to `s1`.
    pub open spec fn op_stkcount(self, s1: Save) -> VmView {
        self.save_u32(s1, self.stack.operand_count() as u32)
    }

    /// STKPEEK: the value `l1` places below the top of the operand stack
    /// goes to `s1`. The machine stops where the operand stack of the
    /// current frame does not reach that far.
    pub open spec fn op_stkpeek(self, l1: u32, s1: Save) -> VmView {
        if l1 < self.stack.operand_count() {
            self.save_u32(s1, self.stack.slot(l1 as int))
        } else {
            self.halted(Fault::StackUnderflow)
        }
    }

    /// STKSWAP: the two topmost values of the operand stack change places.
    /// The machine stops where the operand stack holds fewer than two.
    pub open spec fn op_stkswap(self) -> VmView {
        if self.stack.operand_count() >= 2 {
            self.with_stack(
                self.stack.with_slot(0, self.stack.slot(1)).with_slot(1, self.stack.slot(0)),
            )
        } else {
            self.halted(Fault::StackUnderflow)
        }
    }

    /// STKCOPY: the topmost `l1` values of the operand stack are pushed
    /// again, in the same order. The machine stops where the operand stack
    /// holds fewer than `l1` values, and where the stack has no room.
    pub open spec fn op_stkcopy(self, l1: u32) -> VmView {
        if self.stack.operand_count() < l1 {
            self.halted(Fault::StackUnderflow)
        } else if self.stack.len() + 4 * l1 > self.stack.capacity {
            self.halted(Fault::StackOverflow)
        } else {
            self.with_stack(
                self.stack.with_bytes(
                    self.stack.bytes + self.stack.bytes.subrange(
                        self.stack.len() - 4 * l1,
                        self.stack.len(),
                    ),
                ),
            )
        }
    }

    /// STKROLL: the topmost `l1` values of the operand stack are rotated
    /// by `l2` places: the value `k` places below the top becomes the one
    /// that was `(k + l2) mod l1` places below it, so that a positive `l2`
    /// moves values towards the top and the topmost to the bottom of the
    /// `l1`. The machine stops where the operand stack holds fewer than
    /// `l1` values.
    pub open spec fn op_stkroll(self, l1: u32, l2: i32) -> VmView {
        if self.stack.operand_count() < l1 {
            self.halted(Fault::StackUnderflow)
        } else if l1 == 0 {
            self
        } else {
            self.with_stack(
                self.stack.rolled(self.stack, l1 as int, (l2 as int) % (l1 as int), l1 as nat),
            )
        }
    }

    /// GESTALT: the answer for the selector `l1` and the argument `l2`
    /// goes to `s1`.
    pub open spec fn op_gestalt(self, l1: u16, l2: u16, s1: Save) -> VmView {
        self.save_u32(s1, gestalt(self.memory.read_u32(0x4), l1, l2))
    }

    /// GETMEMSIZE: the size of the memory goes to `s1`.
    pub open spec fn op_getmemsize(self, s1: Save) -> VmView {
        self.save_u32(s1, self.memory.bytes.len() as u32)
    }

    /// SETMEMSIZE: the memory gets the size `l1`, and 0 goes to `s1`,
    /// where the change is granted; else 1 goes to `s1`.
    pub open spec fn op_setmemsize(self, l1: u32, s1: Save) -> VmView {
        if self.memory.may_resize(l1) {
            self.with_memory(self.memory.resized(l1)).save_u32(s1, 0)
        } else {
            self.save_u32(s1, 1)
        }
    }

    /// MZERO: the `l1` bytes of memory at `l2` become zero. The machine
    /// stops where they do not lie inside the memory.
    pub open spec fn op_mzero(self, l1: u32, l2: u32) -> VmView {
        if self.memory.in_range(l2 as int, l1 as int) {
            self.with_memory(self.memory.zeroed(l1 as int, l2 as int))
        } else {
            self.halted(Fault::MemoryOutOfBounds)
        }
    }

    /// MCOPY: the `l1` bytes of memory at `l2` are copied to `l3`, as if
    /// through a buffer. The machine stops where either range does not lie
    /// inside the memory.
    pub open spec fn op_mcopy(self, l1: u32, l2: u32, l3: u32) -> VmView {
        if self.memory.in_range(l2 as int, l1 as int) && self.memory.in_range(
            l3 as int,
            l1 as int,
        ) {
            self.with_memory(self.memory.copied(l1 as int, l2 as int, l3 as int))
        } else {
            self.halted(Fault::MemoryOutOfBounds)
        }
    }
}

/// The address of the element `index` of an array at `base` whose elements
/// have `width` bytes, for a width of 1, 2 or 4.
fn element(base: u32, index: u32, width: u32) -> (r: u32)
    requires
        width == 1 || width == 2 || width == 4,
    ensures
        r == elem_addr(base, index, width as int),
{
    let offset = if width == 1 {
        index
    } else if width == 2 {
        index.wrapping_mul(2)
    } else {
        index.wrapping_mul(4)
    };
    base.wrapping_add(offset)
}

/// The number of places, from 0 to `count - 1`, that a rotation of `count`
/// values by `places` comes to.
fn roll_shift(count: u32, places: i32) -> (r: u32)
    requires
        count > 0,
    ensures
        r == (places as int) % (count as int),
{
    if places >= 0 {
        (places as u32) % count
    } else {
        let back: u64 = (-(places as i64)) as u64;
        let rest: u64 = back % (count as u64);
        proof {
            let c = count as int;
            let q = (back as int) / c;
            lemma_fundamental_div_mod(back as int, c);
            assert(c * q == q * c) by (nonlinear_arith);
            if rest == 0 {
                assert(places as int == (-q) * c + 0) by (nonlinear_arith)
                    requires
                        places as int == -(q * c),
                ;
                lemma_fundamental_div_mod_converse(places as int, c, -q, 0);
            } else {
                assert(places as int == (-q - 1) * c + (c - rest)) by (nonlinear_arith)
                    requires
                        places as int == -(q * c + rest),
                ;
                lemma_fundamental_div_mod_converse(places as int, c, -q - 1, c - rest);
            }
        }
        if rest == 0 {
            0
        } else {
            count - rest as u32
        }
    }
}

impl Glulx {
    /// Whether the `width` bytes at `ptr` lie inside the memory.
    pub fn in_memory(&self, ptr: u32, width: u32) -> (r: bool)
        requires
            self@.wf(),
        ensures
            r == self@.memory.in_range(ptr as int, width as int),
    {
        ptr as u64 + width as u64 <= self.memory.get_mem_size() as u64
    }

    /// ALOAD: the 32-bit element `l2` of the array at `l1` goes to `s1`.
    pub fn op_aload(&mut self, l1: u32, l2: u32, s1: Save)
        requires
            old(self)@.wf(),
        ensures
            final(self)@ == old(self)@.op_aload(l1, l2, s1),
            final(self)@.wf(),
    {
        let ptr = element(l1, l2, 4);
        if self.in_memory(ptr, 4) {
            let ret: u32 = self.memory.read(ptr);
            self.save_u32(s1, ret);
        } else {
            self.halt(Fault::MemoryOutOfBounds);
        }
    }

    /// ALOADS: the 16-bit element `l2` of the array at `l1` goes to `s1`
    /// as a 32-bit value.
    pub fn op_aloads(&mut self, l1: u32, l2: u32, s1: Save)
        requires
            old(self)@.wf(),
        ensures
            final(self)@ == old(self)@.op_aloads(l1, l2, s1),
            final(self)@.wf(),
    {
        let ptr = element(l1, l2, 2);
        if self.in_memory(ptr, 2) {
            let ret: u16 = self.memory.read(ptr);
            self.save_u32(s1, ret as u32);
        } else {
            self.halt(Fault::MemoryOutOfBounds);
        }
    }

    /// ALOADB: the byte `l2` of the array at `l1` goes to `s1` as a 32-bit
    /// value.
    pub fn op_aloadb(&mut self, l1: u32, l2: u32, s1: Save)
        requires
            old(self)@.wf(),
        ensures
            final(self)@ == old(self)@.op_aloadb(l1, l2, s1),
            final(self)@.wf(),
    {
        let ptr = element(l1, l2, 1);
        if self.in_memory(ptr, 1) {
            let ret: u8 = self.memory.read(ptr);
            self.save_u32(s1, ret as u32);
        } else {
            self.halt(Fault::MemoryOutOfBounds);
        }
    }

    /// ALOADBIT: the bit `l2` of the bit array at `l1` goes to `s1` as 0
    /// or 1.
    pub fn op_aloadbit(&mut self, l1: u32, l2: u32, s1: Save)
        requires
            old(self)@.wf(),
        ensures
            final(self)@ == old(self)@.op_aloadbit(l1, l2, s1),
            final(self)@.wf(),
    {
        let ptr = l1.wrapping_add(l2 / 8);
        if self.in_memory(ptr, 1) {
            let byte: u8 = self.memory.read(ptr);
            let bit: u8 = (byte >> (l2 % 8)) & 1;
            self.save_u32(s1, bit as u32);
        } else {
            self.halt(Fault::MemoryOutOfBounds);
        }
    }

    /// ASTORE: `l3` becomes the 32-bit element `l2` of the array at `l1`.
    pub fn op_astore(&mut self, l1: u32, l2: u32, l3: u32)
        requires
            old(self)@.wf(),
        ensures
            final(self)@ == old(self)@.op_astore(l1, l2, l3),
            final(self)@.wf(),
    {
        let ptr = element(l1, l2, 4);
        if self.in_memory(ptr, 4) {
            self.memory.write(ptr, l3);
        } else {
            self.halt(Fault::MemoryOutOfBounds);
        }
    }

    /// ASTORES: the low 16 bits of `l3` become the element `l2` of the
    /// array at `l1`.
    pub fn op_astores(&mut self, l1: u32, l2: u32, l3: u32)
        requires
            old(self)@.wf(),
        ensures
            final(self)@ == old(self)@.op_astores(l1, l2, l3),
            final(self)@.wf(),
    {
        let ptr = element(l1, l2, 2);
        if self.in_memory(ptr, 2) {
            self.memory.write(ptr, (l3 % 0x1_0000) as u16);
        } else {
            self.halt(Fault::MemoryOutOfBounds);
        }
    }

    /// ASTOREB: the low 8 bits of `l3` become the byte `l2` of the array
    /// at `l1`.
    pub fn op_astoreb(&mut self, l1: u32, l2: u32, l3: u32)
        requires
            old(self)@.wf(),
        ensures
            final(self)@ == old(self)@.op_astoreb(l1, l2, l3),
            final(self)@.wf(),
    {
        let ptr = element(l1, l2, 1);
        if self.in_memory(ptr, 1) {
            self.memory.write(ptr, (l3 % 0x100) as u8);
        } else {
            self.halt(Fault::MemoryOutOfBounds);
        }
    }

    /// ASTOREBIT: the bit `l2` of the bit array at `l1` is set where `l3`
    /// is not zero, and cleared where it is.
    pub fn op_astorebit(&mut self, l1: u32, l2: u32, l3: u32)
        requires
            old(self)@.wf(),
        ensures
            final(self)@ == old(self)@.op_astorebit(l1, l2, l3),
            final(self)@.wf(),
    {
        let ptr = l1.wrapping_add(l2 / 8);
        if self.in_memory(ptr, 1) {
            let byte: u8 = self.memory.read(ptr);
            let mask: u8 = 1u8 << (l2 % 8);
            let changed: u8 = if l3 != 0 {
                byte | mask
            } else {
                byte & !mask
            };
            self.memory.write(ptr, changed);
        } else {
            self.halt(Fault::MemoryOutOfBounds);
        }
    }

    /// STKCOUNT: the number of values on the operand stack of the current
    /// frame goes to `s1`.
    pub fn op_stkcount(&mut self, s1: Save)
        requires
            old(self)@.wf(),
        ensures
            final(self)@ == old(self)@.op_stkcount(s1),
            final(self)@.wf(),
    {
        let count = self.stack.operand_count();
        self.save_u32(s1, count)
    }

    /// STKPEEK: the value `l1` places below the top of the operand stack
    /// goes to `s1`.
    pub fn op_stkpeek(&mut self, l1: u32, s1: Save)
        requires
            old(self)@.wf(),
        ensures
            final(self)@ == old(self)@.op_stkpeek(l1, s1),
            final(self)@.wf(),
    {
        if l1 < self.stack.operand_count() {
            let v = self.stack.peek_slot(l1);
            self.save_u32(s1, v)
        } else {
            self.halt(Fault::StackUnderflow)
        }
    }

    /// STKSWAP: the two topmost values of the operand stack change places.
    pub fn op_stkswap(&mut self)
        requires
            old(self)@.wf(),
        ensures
            final(self)@ == old(self)@.op_stkswap(),
            final(self)@.wf(),
    {
        if self.stack.operand_count() >= 2 {
            let top = self.stack.peek_slot(0);
            let below = self.stack.peek_slot(1);
            self.stack.set_slot(0, below);
            self.stack.set_slot(1, top);
        } else {
            self.halt(Fault::StackUnderflow)
        }
    }

    /// STKCOPY: the topmost `l1` values of the operand stack are pushed
    /// again, in the same order.
    pub fn op_stkcopy(&mut self, l1: u32)
        requires
            old(self)@.wf(),
        ensures
            final(self)@ == old(self)@.op_stkcopy(l1),
            final(self)@.wf(),
    {
        if self.stack.operand_count() < l1 {
            self.halt(Fault::StackUnderflow);
            return ;
        }
        if (self.stack.capacity() - self.stack.len()) / 4 < l1 {
            self.halt(Fault::StackOverflow);
            return ;
        }
        if l1 == 0 {
            assert(self@.stack.bytes =~= old(self)@.op_stkcopy(l1).stack.bytes);
            return ;
        }
        let ghost before = self@;
        let ghost len = before.stack.len();
        let mut k: u32 = 0;
        while k < l1
            invariant
                k <= l1,
                0 < l1,
                4 * l1 <= len,
                len == before.stack.len(),
                len + 4 * l1 <= before.stack.capacity,
                self@ == before.with_stack(
                    before.stack.with_bytes(
                        before.stack.bytes + before.stack.bytes.subrange(
                            len - 4 * l1,
                            len - 4 * l1 + 4 * k,
                        ),
                    ),
                ),
            decreases l1 - k,
        {
            let ghost cur = self@.stack;
            let v = self.stack.peek_slot(l1 - 1);
            self.stack.push(v);
            proof {
                let chunk = before.stack.bytes.subrange(len - 4 * l1 + 4 * k, len - 4 * l1 + 4 * k + 4);
                assert(cur.bytes.subrange(cur.len() - 4 * l1, cur.len() - 4 * l1 + 4) =~= chunk);
                lemma_enc_dec_u32(cur.little, chunk);
                assert(self@.stack.bytes =~= before.stack.bytes + before.stack.bytes.subrange(
                    len - 4 * l1,
                    len - 4 * l1 + 4 * (k + 1),
                ));
            }
            k += 1;
        }
    }

    /// STKROLL: the topmost `l1` values of the operand stack are rotated
    /// by `l2` places.
    pub fn op_stkroll(&mut self, l1: u32, l2: i32)
        requires
            old(self)@.wf(),
        ensures
            final(self)@ == old(self)@.op_stkroll(l1, l2),
            final(self)@.wf(),
    {
        if self.stack.operand_count() < l1 {
            self.halt(Fault::StackUnderflow);
            return ;
        }
        if l1 == 0 {
            return ;
        }
        let shift = roll_shift(l1, l2);
        let ghost before = self@;
        let mut vals: Vec<u32> = Vec::new();
        let mut k: u32 = 0;
        while k < l1
            invariant
                k <= l1,
                4 * l1 <= before.stack.len(),
                self@ == before,
                vals@.len() == k,
                forall|j: int| 0 <= j < k ==> vals@[j] == before.stack.slot(j),
            decreases l1 - k,
        {
            let v = self.stack.peek_slot(k);
            vals.push(v);
            k += 1;
        }
        let mut k: u32 = 0;
        while k < l1
            invariant
                k <= l1,
                shift < l1,
                4 * l1 <= before.stack.len(),
                before.wf(),
                vals@.len() == l1,
                forall|j: int| 0 <= j < l1 ==> vals@[j] == before.stack.slot(j),
                self@.stack.len() == before.stack.len(),
                self@.wf(),
                self@ == before.with_stack(
                    before.stack.rolled(before.stack, l1 as int, shift as int, k as nat),
                ),
            decreases l1 - k,
        {
            let from = ((k as u64 + shift as u64) % (l1 as u64)) as usize;
            self.stack.set_slot(k, vals[from]);
            k += 1;
        }
    }

    /// GESTALT: the answer for the selector `l1` and the argument `l2`
    /// goes to `s1`.
    pub fn op_gestalt(&mut self, l1: u16, l2: u16, s1: Save)
        requires
            old(self)@.wf(),
        ensures
            final(self)@ == old(self)@.op_gestalt(l1, l2, s1),
            final(self)@.wf(),
    {
        let ret: u32 = if l1 == 0x0 {
            self.memory.glulx_version()
        } else if l1 == 0x1 {
            0x1
        } else if l1 == 0x4 {
            if l2 == 0x0 {
                0x1
            } else {
                0x0
            }
        } else if l1 == 0x6 || l1 == 0xB {
            0x1
        } else {
            0x0
        };
        self.save_u32(s1, ret)
    }

    /// GETMEMSIZE: the size of the memory goes to `s1`.
    pub fn op_getmemsize(&mut self, s1: Save)
        requires
            old(self)@.wf(),
        ensures
            final(self)@ == old(self)@.op_getmemsize(s1),
            final(self)@.wf(),
    {
        let mem_size = self.memory.get_mem_size();
        self.save_u32(s1, mem_size)
    }

    /// SETMEMSIZE: the memory gets the size `l1`, and 0 goes to `s1`,
    /// where the change is granted; else 1 goes to `s1`.
    pub fn op_setmemsize(&mut self, l1: u32, s1: Save)
        requires
            old(self)@.wf(),
        ensures
            final(self)@ == old(self)@.op_setmemsize(l1, s1),
            final(self)@.wf(),
    {
        let mem_resized = self.memory.set_mem_size(l1);
        self.save_u32(s1, mem_resized)
    }

    /// MZERO: the `l1` bytes of memory at `l2` become zero.
    pub fn op_mzero(&mut self, l1: u32, l2: u32)
        requires
            old(self)@.wf(),
        ensures
            final(self)@ == old(self)@.op_mzero(l1, l2),
            final(self)@.wf(),
    {
        if self.in_memory(l2, l1) {
            self.memory.zero_range(l1, l2)
        } else {
            self.halt(Fault::MemoryOutOfBounds)
        }
    }

    /// MCOPY: the `l1` bytes of memory at `l2` are copied to `l3`, as if
    /// through a buffer.
    pub fn op_mcopy(&mut self, l1: u32, l2: u32, l3: u32)
        requires
            old(self)@.wf(),
        ensures
            final(self)@ == old(self)@.op_mcopy(l1, l2, l3),
            final(self)@.wf(),
    {
        if self.in_memory(l2, l1) && self.in_memory(l3, l1) {
            self.memory.copy_range(l1, l2, l3)
        } else {
            self.halt(Fault::MemoryOutOfBounds)
        }
    }
}

} // verus!
