//! The execution stack of a Glulx machine.
//!
//! The stack is a vector of bytes that holds call frames, one above the
//! other. A frame starts with two 32-bit words, its length and the position
//! of its locals; then come the locals' descriptor, the locals themselves and
//! the operand area. Between two frames lies a call stub of four words.
//! Values on the stack are stored in the byte order of the machine that runs
//! the interpreter, which is found out when the stack is made.

use crate::bytes::{
    be_read_u16, be_read_u32, be_write_u16, be_write_u32, dec_u16, dec_u32, enc_u16, enc_u32,
    le_read_u16, le_read_u32, le_write_u16, le_write_u32, lemma_dec_enc_u32, native_write_u32,
    splice,
};
use vstd::prelude::*;

verus! {

/// What a stack is: its bytes, the start of the current frame, the number of
/// bytes it may hold, and the byte order of its values.
pub struct StackView {
    pub bytes: Seq<u8>,
    pub frame_ptr: u32,
    pub capacity: u32,
    pub little: bool,
}

/// `n` zero bytes.
pub open spec fn zeros(n: int) -> Seq<u8> {
    Seq::new(n as nat, |i: int| 0u8)
}

impl StackView {
    /// The stack holds no more bytes than it may.
    pub open spec fn wf(self) -> bool {
        self.bytes.len() <= self.capacity
    }

    /// The number of bytes on the stack.
    pub open spec fn len(self) -> int {
        self.bytes.len() as int
    }

    /// The stack with other bytes, all else kept.
    pub open spec fn with_bytes(self, bytes: Seq<u8>) -> StackView {
        StackView { bytes, ..self }
    }

    /// The 32-bit value stored at byte `pos`.
    pub open spec fn word(self, pos: int) -> u32 {
        dec_u32(self.little, self.bytes.subrange(pos, pos + 4))
    }

    /// The 16-bit value stored at byte `pos`.
    pub open spec fn half(self, pos: int) -> u16 {
        dec_u16(self.little, self.bytes.subrange(pos, pos + 2))
    }

    /// The stack with one more 32-bit slot on top, holding `v`.
    pub open spec fn pushed(self, v: u32) -> StackView {
        self.with_bytes(self.bytes + enc_u32(self.little, v))
    }

    /// The value of the topmost 32-bit slot.
    pub open spec fn top(self) -> u32 {
        self.word(self.len() - 4)
    }

    /// The stack without its topmost 32-bit slot.
    pub open spec fn popped(self) -> StackView {
        self.with_bytes(self.bytes.subrange(0, self.len() - 4))
    }

    /// The stack without its topmost `n` slots.
    pub open spec fn popped_n(self, n: int) -> StackView {
        self.with_bytes(self.bytes.subrange(0, self.len() - 4 * n))
    }

    /// The `k`-th slot from the top, the topmost being slot 0.
    pub open spec fn slot(self, k: int) -> u32 {
        self.word(self.len() - 4 * (k + 1))
    }

    /// The current frame has its two header words.
    pub open spec fn has_frame(self) -> bool {
        self.frame_ptr + 8 <= self.len()
    }

    /// The length of the current frame up to the end of its locals, as its
    /// first header word gives it.
    pub open spec fn frame_len(self) -> u32 {
        self.word(self.frame_ptr as int)
    }

    /// The position of the locals in the current frame, as its second header
    /// word gives it.
    pub open spec fn local_pos(self) -> u32 {
        self.word(self.frame_ptr + 4)
    }

    /// The position on the stack of the local at `offset`.
    pub open spec fn local_addr(self, offset: u32) -> int {
        self.frame_ptr + self.local_pos() + offset
    }

    /// A local of `width` bytes at `offset` lies on the stack.
    pub open spec fn local_in_range(self, offset: u32, width: int) -> bool {
        self.has_frame() && self.local_addr(offset) + width <= self.len()
    }

    /// The stack with the bytes `b` stored from `pos` on.
    pub open spec fn store(self, pos: int, b: Seq<u8>) -> StackView {
        self.with_bytes(splice(self.bytes, pos, b))
    }

    /// The stack with a call stub on top: the kind and the address of the
    /// place for the result, the address to resume at, and the frame pointer.
    pub open spec fn with_call_stub(self, dest_type: u32, dest_addr: u32, pc: u32) -> StackView {
        self.pushed(dest_type).pushed(dest_addr).pushed(pc).pushed(self.frame_ptr)
    }

    /// The stack without the call stub on top of it, and with the frame
    /// pointer that the stub held.
    pub open spec fn without_call_stub(self) -> StackView {
        StackView { frame_ptr: self.slot(0), ..self.popped_n(4) }
    }

    /// The stack cut back to the start of the current frame.
    pub open spec fn without_frame(self) -> StackView {
        self.with_bytes(self.bytes.subrange(0, self.frame_ptr as int))
    }

    /// The stack with a new frame on top, made for the locals' descriptor
    /// `d`, whose locals hold `args`. The frame pointer is at the new frame.
    pub open spec fn with_frame(self, d: Seq<u8>, args: Seq<u32>) -> StackView {
        StackView {
            bytes: self.bytes + frame_image(self.little, d, args),
            frame_ptr: self.len() as u32,
            ..self
        }
    }

    /// The stack with the values of `args` pushed, the last of them first,
    /// so that the first of them is on top.
    pub open spec fn with_args(self, args: Seq<u32>) -> StackView
        decreases args.len(),
    {
        if args.len() == 0 {
            self
        } else {
            self.pushed(args.last()).with_args(args.drop_last())
        }
    }

    /// The stack with a new frame whose arguments are on its operand stack,
    /// the first of them on top, and whose locals are zero.
    pub open spec fn with_frame_c0(self, d: Seq<u8>, args: Seq<u32>) -> StackView {
        self.with_frame(d, Seq::<u32>::empty()).with_args(args)
    }

    /// The stack with a new frame whose arguments are in its locals, and
    /// whose operand stack is empty.
    pub open spec fn with_frame_c1(self, d: Seq<u8>, args: Seq<u32>) -> StackView {
        self.with_frame(d, args)
    }

    /// The position on the stack at which the operands of the current frame
    /// start: the end of its locals.
    pub open spec fn operand_base(self) -> int {
        self.frame_ptr + self.frame_len()
    }

    /// The current frame has its header, and its locals end on the stack.
    pub open spec fn has_operands(self) -> bool {
        self.has_frame() && self.operand_base() <= self.len()
    }

    /// The number of 32-bit values on the operand stack of the current
    /// frame; zero where there is no frame.
    pub open spec fn operand_count(self) -> int {
        if self.has_operands() {
            (self.len() - self.operand_base()) / 4
        } else {
            0
        }
    }

    /// The stack with `v` stored in the `k`-th slot from the top.
    pub open spec fn with_slot(self, k: int, v: u32) -> StackView {
        self.store(self.len() - 4 * (k + 1), enc_u32(self.little, v))
    }

    /// The stack after the `k` topmost slots were given new values: slot
    /// `j` holds what slot `(j + shift) % count` of the stack `from` held.
    pub open spec fn rolled(self, from: StackView, count: int, shift: int, k: nat) -> StackView
        decreases k,
    {
        if k == 0 {
            self
        } else {
            self.rolled(from, count, shift, (k - 1) as nat).with_slot(
                k - 1,
                from.slot((k - 1 + shift) % count),
            )
        }
    }

    /// The topmost `n` slots, the topmost first.
    pub open spec fn top_slots(self, n: int) -> Seq<u32> {
        Seq::new(n as nat, |k: int| self.slot(k))
    }
}

/// `x` rounded up to a multiple of `align`.
pub open spec fn align_up(x: int, align: int) -> int {
    x + (align - x % align) % align
}

/// `s` followed by as many zero bytes as make its length a multiple of `align`.
pub open spec fn pad_to(s: Seq<u8>, align: int) -> Seq<u8> {
    s + zeros(align_up(s.len() as int, align) - s.len())
}

/// The widths that a local may have.
pub open spec fn is_local_width(width: u8) -> bool {
    width == 1 || width == 2 || width == 4
}

/// The bytes of a local of `width` bytes that holds the low bits of `v`.
pub open spec fn local_bytes(little: bool, width: u8, v: u32) -> Seq<u8> {
    if width == 1 {
        seq![v as u8]
    } else if width == 2 {
        enc_u16(little, v as u16)
    } else {
        enc_u32(little, v)
    }
}

/// The `k`-th argument, or zero where there are fewer arguments.
pub open spec fn arg_or_zero(args: Seq<u32>, k: int) -> u32 {
    if 0 <= k < args.len() {
        args[k]
    } else {
        0
    }
}

/// The frame `s` with one more group of locals: zero bytes up to a multiple
/// of `width`, then `count` locals of that width. The locals take their
/// values from `args`, the first of them from `args[first]`, and are zero
/// where `args` has run out.
pub open spec fn with_locals(
    little: bool,
    s: Seq<u8>,
    width: u8,
    count: nat,
    args: Seq<u32>,
    first: int,
) -> Seq<u8>
    decreases count,
{
    if count == 0 {
        pad_to(s, width as int)
    } else {
        with_locals(little, s, width, (count - 1) as nat, args, first) + local_bytes(
            little,
            width,
            arg_or_zero(args, first + count - 1),
        )
    }
}

/// The number of locals that the first `n` pairs of the descriptor `d` declare.
pub open spec fn locals_declared(d: Seq<u8>, n: nat) -> int
    decreases n,
{
    if n == 0 {
        0
    } else if is_local_width(d[2 * (n - 1)]) {
        locals_declared(d, (n - 1) as nat) + d[2 * (n - 1) + 1]
    } else {
        locals_declared(d, (n - 1) as nat)
    }
}

/// The frame `s` with the groups of locals that the first `n` pairs of the
/// descriptor `d` declare. A pair whose width is not 1, 2 or 4 declares none.
pub open spec fn with_groups(little: bool, s: Seq<u8>, d: Seq<u8>, n: nat, args: Seq<u32>) -> Seq<
    u8,
>
    decreases n,
{
    if n == 0 {
        s
    } else if is_local_width(d[2 * (n - 1)]) {
        with_locals(
            little,
            with_groups(little, s, d, (n - 1) as nat, args),
            d[2 * (n - 1)],
            d[2 * (n - 1) + 1] as nat,
            args,
            locals_declared(d, (n - 1) as nat),
        )
    } else {
        with_groups(little, s, d, (n - 1) as nat, args)
    }
}

/// The header and the descriptor of a frame, before the header is filled in:
/// eight bytes, the descriptor `d`, and zeros up to a multiple of four.
pub open spec fn frame_head(d: Seq<u8>) -> Seq<u8> {
    pad_to(zeros(8) + d, 4)
}

/// A frame up to the end of its locals, for the locals' descriptor `d`. Its
/// first word is its length, its second the position of its locals. The
/// locals hold `args` from the first local on, each cut to its local's
/// width; the locals for which there is no argument are zero.
pub open spec fn frame_image(little: bool, d: Seq<u8>, args: Seq<u32>) -> Seq<u8> {
    let head = frame_head(d);
    let body = pad_to(with_groups(little, head, d, d.len() / 2, args), 4);
    splice(
        splice(body, 0, enc_u32(little, body.len() as u32)),
        4,
        enc_u32(little, head.len() as u32),
    )
}

/// The offset in a frame at which the locals of the first `n` pairs of the
/// descriptor `d` end, where they start at `start`.
pub open spec fn locals_end(d: Seq<u8>, n: nat, start: int) -> int
    decreases n,
{
    if n == 0 {
        start
    } else if is_local_width(d[2 * (n - 1)]) {
        align_up(locals_end(d, (n - 1) as nat, start), d[2 * (n - 1)] as int) + d[2 * (n - 1)]
            * d[2 * (n - 1) + 1]
    } else {
        locals_end(d, (n - 1) as nat, start)
    }
}

/// The length of a frame up to the end of its locals, for the descriptor `d`.
pub open spec fn frame_size(d: Seq<u8>) -> int {
    align_up(locals_end(d, d.len() / 2, align_up(8 + d.len() as int, 4)), 4)
}

proof fn lemma_with_locals_len(
    little: bool,
    s: Seq<u8>,
    width: u8,
    count: nat,
    args: Seq<u32>,
    first: int,
)
    requires
        is_local_width(width),
    ensures
        with_locals(little, s, width, count, args, first).len() == align_up(
            s.len() as int,
            width as int,
        ) + width * count,
    decreases count,
{
    if count > 0 {
        lemma_with_locals_len(little, s, width, (count - 1) as nat, args, first);
        assert(width * count == width * (count - 1) + width) by (nonlinear_arith);
    } else {
        assert(width * count == 0) by (nonlinear_arith)
            requires
                count == 0,
        ;
    }
}

proof fn lemma_with_groups_len(little: bool, s: Seq<u8>, d: Seq<u8>, n: nat, args: Seq<u32>)
    ensures
        with_groups(little, s, d, n, args).len() == locals_end(d, n, s.len() as int),
    decreases n,
{
    if n > 0 {
        lemma_with_groups_len(little, s, d, (n - 1) as nat, args);
        if is_local_width(d[2 * (n - 1)]) {
            lemma_with_locals_len(
                little,
                with_groups(little, s, d, (n - 1) as nat, args),
                d[2 * (n - 1)],
                d[2 * (n - 1) + 1] as nat,
                args,
                locals_declared(d, (n - 1) as nat),
            );
        }
    }
}

/// A frame is as long as its descriptor says, whatever its locals hold.
pub proof fn lemma_frame_image_len(little: bool, d: Seq<u8>, args: Seq<u32>)
    ensures
        frame_image(little, d, args).len() == frame_size(d),
        frame_size(d) >= 8 + d.len(),
{
    lemma_with_groups_len(little, frame_head(d), d, d.len() / 2, args);
    lemma_locals_end_grows(d, 0, d.len() / 2, align_up(8 + d.len() as int, 4));
}

/// The locals of more pairs end no earlier than those of fewer pairs.
pub proof fn lemma_locals_end_grows(d: Seq<u8>, n: nat, m: nat, start: int)
    requires
        n <= m,
    ensures
        locals_end(d, n, start) <= locals_end(d, m, start),
    decreases m,
{
    if n < m {
        lemma_locals_end_grows(d, n, (m - 1) as nat, start);
        if is_local_width(d[2 * (m - 1)]) {
            assert(d[2 * (m - 1)] * d[2 * (m - 1) + 1] >= 0) by (nonlinear_arith);
        }
    }
}

/// A value that was pushed is the value that a pop returns, and the pop
/// leaves the stack as it was before the push.
pub proof fn lemma_push_pop(s: StackView, v: u32)
    ensures
        s.pushed(v).top() == v,
        s.pushed(v).popped() == s,
        s.pushed(v).len() == s.len() + 4,
{
    lemma_dec_enc_u32(s.little, v);
    let p = s.pushed(v);
    assert(p.bytes.subrange(p.len() - 4, p.len()) =~= enc_u32(s.little, v));
    assert(p.bytes.subrange(0, p.len() - 4) =~= s.bytes);
}

/// A value of 8, 16 or 32 bits, signed or not, comes back out of the
/// 32-bit slot that it was put in.
pub proof fn lemma_slot_keeps_value(b: u8, h: u16, i: i32)
    ensures
        (b as u32) as u8 == b,
        (h as u32) as u16 == h,
        (i as u32) as i32 == i,
{
    assert((b as u32) as u8 == b) by (bit_vector);
    assert((h as u32) as u16 == h) by (bit_vector);
    assert((i as u32) as i32 == i) by (bit_vector);
}

/// A call stub that was pushed comes back as it was: the three words, and
/// the frame pointer; and the stack is as it was before the push.
pub proof fn lemma_call_stub_round_trip(s: StackView, dest_type: u32, dest_addr: u32, pc: u32)
    ensures
        s.with_call_stub(dest_type, dest_addr, pc).slot(3) == dest_type,
        s.with_call_stub(dest_type, dest_addr, pc).slot(2) == dest_addr,
        s.with_call_stub(dest_type, dest_addr, pc).slot(1) == pc,
        s.with_call_stub(dest_type, dest_addr, pc).without_call_stub() == s,
{
    let s1 = s.pushed(dest_type);
    let s2 = s1.pushed(dest_addr);
    let s3 = s2.pushed(pc);
    let s4 = s3.pushed(s.frame_ptr);
    lemma_push_pop(s, dest_type);
    lemma_push_pop(s1, dest_addr);
    lemma_push_pop(s2, pc);
    lemma_push_pop(s3, s.frame_ptr);
    let l = s4.len();
    assert(s4.bytes.subrange(l - 8, l - 4) =~= s3.bytes.subrange(s3.len() - 4, s3.len()));
    assert(s4.bytes.subrange(l - 12, l - 8) =~= s2.bytes.subrange(s2.len() - 4, s2.len()));
    assert(s4.bytes.subrange(l - 16, l - 12) =~= s1.bytes.subrange(s1.len() - 4, s1.len()));
    assert(s4.bytes.subrange(0, l - 16) =~= s.bytes);
}

/// Pushing arguments keeps the frame pointer, and what was on the stack
/// stays at its bottom.
pub proof fn lemma_with_args_keeps(s: StackView, args: Seq<u32>)
    ensures
        s.with_args(args).frame_ptr == s.frame_ptr,
        s.with_args(args).capacity == s.capacity,
        s.with_args(args).little == s.little,
        s.with_args(args).len() == s.len() + 4 * args.len(),
        s.with_args(args).bytes.subrange(0, s.len()) == s.bytes,
    decreases args.len(),
{
    if args.len() == 0 {
        assert(s.bytes.subrange(0, s.len()) =~= s.bytes);
    } else {
        let p = s.pushed(args.last());
        lemma_with_args_keeps(p, args.drop_last());
        let r = p.with_args(args.drop_last());
        assert(r.bytes.subrange(0, s.len()) =~= r.bytes.subrange(0, p.len()).subrange(0, s.len()));
        assert(p.bytes.subrange(0, s.len()) =~= s.bytes);
    }
}

/// A frame that was pushed, of either kind, is gone after the frame is
/// popped: the stack has the bytes that it had before the push.
pub proof fn lemma_frame_round_trip(s: StackView, d: Seq<u8>, args: Seq<u32>)
    requires
        s.len() <= u32::MAX,
    ensures
        s.with_frame_c0(d, args).without_frame().bytes == s.bytes,
        s.with_frame_c1(d, args).without_frame().bytes == s.bytes,
{
    let f0 = s.with_frame(d, Seq::<u32>::empty());
    lemma_with_args_keeps(f0, args);
    let c0 = f0.with_args(args);
    assert(c0.bytes.subrange(0, s.len()) =~= c0.bytes.subrange(0, f0.len()).subrange(0, s.len()));
    assert(f0.bytes.subrange(0, s.len()) =~= s.bytes);
    let c1 = s.with_frame(d, args);
    assert(c1.bytes.subrange(0, s.len()) =~= s.bytes);
}

/// A slot that was given a value holds it, and the other slots, the
/// length and the frame pointer stay.
pub proof fn lemma_with_slot(s: StackView, k: int, v: u32, j: int)
    requires
        0 <= k,
        4 * (k + 1) <= s.len(),
        0 <= j,
        4 * (j + 1) <= s.len(),
    ensures
        s.with_slot(k, v).len() == s.len(),
        s.with_slot(k, v).frame_ptr == s.frame_ptr,
        s.with_slot(k, v).little == s.little,
        s.with_slot(k, v).slot(j) == if j == k {
            v
        } else {
            s.slot(j)
        },
{
    lemma_dec_enc_u32(s.little, v);
    let w = s.with_slot(k, v);
    let at = s.len() - 4 * (j + 1);
    if j == k {
        assert(w.bytes.subrange(at, at + 4) =~= enc_u32(s.little, v));
    } else {
        assert(w.bytes.subrange(at, at + 4) =~= s.bytes.subrange(at, at + 4));
    }
}

/// After a rotation of the `k` topmost slots, each of them holds what the
/// slot `shift` places further down, counted round the `count`, held
/// before; the slots below them and the length of the stack stay.
pub proof fn lemma_rolled(s: StackView, from: StackView, count: int, shift: int, k: nat, j: int)
    requires
        4 * k <= s.len(),
        0 <= j,
        4 * (j + 1) <= s.len(),
    ensures
        s.rolled(from, count, shift, k).len() == s.len(),
        s.rolled(from, count, shift, k).slot(j) == if j < k {
            from.slot((j + shift) % count)
        } else {
            s.slot(j)
        },
    decreases k,
{
    if k > 0 {
        let r = s.rolled(from, count, shift, (k - 1) as nat);
        lemma_rolled(s, from, count, shift, (k - 1) as nat, j);
        lemma_rolled(s, from, count, shift, (k - 1) as nat, k - 1);
        lemma_with_slot(r, k - 1, from.slot((k - 1 + shift) % count), j);
    }
}

/// The header of a new frame says where things are: its second word is
/// the position of the locals, a multiple of four just past the
/// descriptor; its first word is the length of the frame; and the operand
/// stack starts at the end of the frame, empty where the arguments are in
/// the locals, and with the arguments on it where they are not.
pub proof fn lemma_frame_header(s: StackView, d: Seq<u8>, args: Seq<u32>)
    requires
        s.len() + frame_size(d) <= u32::MAX,
    ensures
        s.with_frame(d, args).has_frame(),
        s.with_frame(d, args).local_pos() == align_up(8 + d.len() as int, 4),
        s.with_frame(d, args).local_pos() % 4 == 0,
        s.with_frame(d, args).frame_len() == frame_size(d),
        s.with_frame(d, args).operand_base() == s.with_frame(d, args).len(),
        s.with_frame_c1(d, args).operand_count() == 0,
        s.with_frame_c0(d, args).operand_count() == args.len(),
{
    lemma_frame_words(s, d, args);
    lemma_frame_words(s, d, Seq::<u32>::empty());
    let f0 = s.with_frame(d, Seq::<u32>::empty());
    let c0 = f0.with_args(args);
    lemma_with_args_keeps(f0, args);
    let fp = s.len();
    assert(c0.bytes.subrange(fp, fp + 4) =~= c0.bytes.subrange(0, f0.len()).subrange(fp, fp + 4));
    assert(c0.bytes.subrange(fp + 4, fp + 8) =~= c0.bytes.subrange(0, f0.len()).subrange(
        fp + 4,
        fp + 8,
    ));
}

proof fn lemma_frame_words(s: StackView, d: Seq<u8>, args: Seq<u32>)
    requires
        s.len() + frame_size(d) <= u32::MAX,
    ensures
        s.with_frame(d, args).len() == s.len() + frame_size(d),
        s.with_frame(d, args).frame_ptr == s.len(),
        s.with_frame(d, args).local_pos() == align_up(8 + d.len() as int, 4),
        align_up(8 + d.len() as int, 4) % 4 == 0,
        s.with_frame(d, args).frame_len() == frame_size(d),
        frame_size(d) >= 8,
{
    let little = s.little;
    let head = frame_head(d);
    let body = pad_to(with_groups(little, head, d, d.len() / 2, args), 4);
    let f = frame_image(little, d, args);
    lemma_frame_image_len(little, d, args);
    lemma_with_groups_len(little, head, d, d.len() / 2, args);
    lemma_locals_end_grows(d, 0, d.len() / 2, head.len() as int);
    lemma_dec_enc_u32(little, body.len() as u32);
    lemma_dec_enc_u32(little, head.len() as u32);
    let w = s.with_frame(d, args);
    let fp = s.len();
    assert(w.bytes.subrange(fp, fp + 4) =~= enc_u32(little, body.len() as u32));
    assert(w.bytes.subrange(fp + 4, fp + 8) =~= enc_u32(little, head.len() as u32));
}

/// The stack of a Glulx machine.
pub struct GlulxStack {
    frame_ptr: u32,
    capacity: u32,
    little: bool,
    stack: Vec<u8>,
}

impl View for GlulxStack {
    type V = StackView;

    closed spec fn view(&self) -> StackView {
        StackView {
            bytes: self.stack@,
            frame_ptr: self.frame_ptr,
            capacity: self.capacity,
            little: self.little,
        }
    }
}

impl GlulxStack {
    /// An empty stack that may hold `size` bytes.
    pub fn new(size: u32) -> (s: GlulxStack)
        ensures
            s@.bytes == Seq::<u8>::empty(),
            s@.frame_ptr == 0,
            s@.capacity == size,
            s@.wf(),
    {
        let mut probe: Vec<u8> = Vec::new();
        probe.push(0);
        probe.push(0);
        probe.push(0);
        probe.push(0);
        native_write_u32(&mut probe, 0, 1);
        let little = probe[0] == 1;
        GlulxStack { frame_ptr: 0x0, capacity: size, little, stack: Vec::new() }
    }

    /// The number of bytes on the stack.
    pub fn len(&self) -> (r: u32)
        requires
            self@.wf(),
        ensures
            r == self@.len(),
    {
        self.stack.len() as u32
    }

    /// The number of bytes that the stack may hold.
    pub fn capacity(&self) -> (r: u32)
        ensures
            r == self@.capacity,
    {
        self.capacity
    }

    /// The start of the current frame.
    pub fn frame_ptr(&self) -> (r: u32)
        ensures
            r == self@.frame_ptr,
    {
        self.frame_ptr
    }

    fn get_u16(&self, pos: usize) -> (r: u16)
        requires
            pos + 2 <= self@.len(),
        ensures
            r == self@.half(pos as int),
    {
        if self.little {
            le_read_u16(&self.stack, pos)
        } else {
            be_read_u16(&self.stack, pos)
        }
    }

    fn get_u32(&self, pos: usize) -> (r: u32)
        requires
            pos + 4 <= self@.len(),
        ensures
            r == self@.word(pos as int),
    {
        if self.little {
            le_read_u32(&self.stack, pos)
        } else {
            be_read_u32(&self.stack, pos)
        }
    }

    fn put_u16(&mut self, pos: usize, v: u16)
        requires
            pos + 2 <= old(self)@.len(),
        ensures
            final(self)@ == old(self)@.store(pos as int, enc_u16(old(self)@.little, v)),
    {
        if self.little {
            le_write_u16(&mut self.stack, pos, v)
        } else {
            be_write_u16(&mut self.stack, pos, v)
        }
    }

    fn put_u32(&mut self, pos: usize, v: u32)
        requires
            pos + 4 <= old(self)@.len(),
        ensures
            final(self)@ == old(self)@.store(pos as int, enc_u32(old(self)@.little, v)),
    {
        if self.little {
            le_write_u32(&mut self.stack, pos, v)
        } else {
            be_write_u32(&mut self.stack, pos, v)
        }
    }

    /// Puts a new 32-bit slot that holds `v` on top of the stack.
    fn push_slot(&mut self, v: u32)
        ensures
            final(self)@ == old(self)@.pushed(v),
    {
        let pos = self.stack.len();
        self.stack.push(0);
        self.stack.push(0);
        self.stack.push(0);
        self.stack.push(0);
        self.put_u32(pos, v);
        assert(self.stack@ =~= old(self)@.pushed(v).bytes);
    }

    /// Takes the topmost 32-bit slot off the stack.
    fn pop_slot(&mut self) -> (r: u32)
        requires
            old(self)@.len() >= 4,
        ensures
            r == old(self)@.top(),
            final(self)@ == old(self)@.popped(),
    {
        let pos = self.stack.len() - 0x4;
        let ret = self.get_u32(pos);
        self.stack.truncate(pos);
        ret
    }

    /// Pushes a call stub: `dest_type`, `dest_addr`, `program_counter` and
    /// the frame pointer, in that order.
    pub fn push_call_stub(&mut self, dest_type: u32, dest_addr: u32, program_counter: u32)
        requires
            old(self)@.len() + 16 <= old(self)@.capacity,
        ensures
            final(self)@ == old(self)@.with_call_stub(dest_type, dest_addr, program_counter),
            final(self)@.wf(),
    {
        self.push_slot(dest_type);
        self.push_slot(dest_addr);
        self.push_slot(program_counter);
        let frame_ptr = self.frame_ptr;
        self.push_slot(frame_ptr);
    }

    /// Pops a call stub: sets the frame pointer to the stub's last word and
    /// returns the other three, `(dest_type, dest_addr, program_counter)`.
    pub fn pop_call_stub(&mut self) -> (r: (u32, u32, u32))
        requires
            old(self)@.len() >= 16,
        ensures
            final(self)@ == old(self)@.without_call_stub(),
            r == (old(self)@.slot(3), old(self)@.slot(2), old(self)@.slot(1)),
            old(self)@.wf() ==> final(self)@.wf(),
    {
        let ghost before = self@;
        let frame_ptr = self.pop_slot();
        let program_counter = self.pop_slot();
        let dest_addr = self.pop_slot();
        let dest_type = self.pop_slot();
        self.frame_ptr = frame_ptr;
        proof {
            let l = before.len();
            assert(before.popped().bytes.subrange(l - 8, l - 4) =~= before.bytes.subrange(l - 8, l - 4));
            assert(before.popped().popped().bytes.subrange(l - 12, l - 8)
                =~= before.bytes.subrange(l - 12, l - 8));
            assert(before.popped().popped().popped().bytes.subrange(l - 16, l - 12)
                =~= before.bytes.subrange(l - 16, l - 12));
            assert(self.stack@ =~= before.popped_n(4).bytes);
        }
        (dest_type, dest_addr, program_counter)
    }

    /// Removes the current frame: cuts the stack back to the frame pointer.
    pub fn pop_call_frame(&mut self)
        requires
            old(self)@.frame_ptr <= old(self)@.len(),
        ensures
            final(self)@ == old(self)@.without_frame(),
            old(self)@.wf() ==> final(self)@.wf(),
    {
        let frame_ptr = self.frame_ptr;
        self.stack.truncate(frame_ptr as usize);
    }

    /// Pops `nargs` 32-bit values and returns them in the order in which
    /// they left the stack.
    pub fn pop_args(&mut self, nargs: u32) -> (args: Vec<u32>)
        requires
            4 * nargs <= old(self)@.len(),
        ensures
            args@ == old(self)@.top_slots(nargs as int),
            final(self)@ == old(self)@.popped_n(nargs as int),
            old(self)@.wf() ==> final(self)@.wf(),
    {
        let ghost before = self@;
        let mut vec: Vec<u32> = Vec::new();
        let mut x: u32 = 0;
        assert(before.popped_n(0).bytes =~= before.bytes);
        while x < nargs
            invariant
                x <= nargs,
                4 * nargs <= before.len(),
                vec@ == before.top_slots(x as int),
                self@ == before.popped_n(x as int),
            decreases nargs - x,
        {
            let ghost cur = self@;
            let v = self.pop_slot();
            proof {
                let l = before.len();
                assert(cur.bytes.subrange(cur.len() - 4, cur.len()) =~= before.bytes.subrange(
                    l - 4 * (x + 1),
                    l - 4 * x,
                ));
                assert(self@.bytes =~= before.popped_n(x + 1).bytes);
            }
            vec.push(v);
            assert(vec@ =~= before.top_slots(x + 1));
            x += 1;
        }
        vec
    }

    /// Whether a local of `width` bytes at `offset` lies on the stack.
    pub fn holds_local(&self, offset: u32, width: u32) -> (r: bool)
        requires
            self@.wf(),
        ensures
            r == self@.local_in_range(offset, width as int),
    {
        let len = self.stack.len() as u64;
        if self.frame_ptr as u64 + 8 > len {
            return false;
        }
        let local_pos = self.local_pos();
        self.frame_ptr as u64 + local_pos as u64 + offset as u64 + width as u64 <= len
    }

    /// The number of 32-bit values on the operand stack of the current frame.
    pub fn operand_count(&self) -> (r: u32)
        requires
            self@.wf(),
        ensures
            r == self@.operand_count(),
    {
        let len = self.stack.len() as u64;
        if self.frame_ptr as u64 + 8 > len {
            return 0;
        }
        let base = self.frame_ptr as u64 + self.frame_len() as u64;
        if base > len {
            0
        } else {
            ((len - base) / 4) as u32
        }
    }

    /// The value of the `k`-th slot from the top, the topmost being slot 0.
    pub fn peek_slot(&self, k: u32) -> (r: u32)
        requires
            4 * (k + 1) <= self@.len(),
        ensures
            r == self@.slot(k as int),
    {
        let len = self.stack.len();
        self.get_u32(len - 4 * (k as usize + 1))
    }

    /// Stores `v` in the `k`-th slot from the top.
    pub fn set_slot(&mut self, k: u32, v: u32)
        requires
            4 * (k + 1) <= old(self)@.len(),
        ensures
            final(self)@ == old(self)@.with_slot(k as int, v),
    {
        let len = self.stack.len();
        self.put_u32(len - 4 * (k as usize + 1), v)
    }

    /// The position of the locals in the current frame.
    pub fn local_pos(&self) -> (r: u32)
        requires
            self@.has_frame(),
        ensures
            r == self@.local_pos(),
    {
        let len = self.stack.len();
        self.get_u32(self.frame_ptr as usize + 0x4)
    }

    /// The length of the current frame up to the end of its locals.
    pub fn frame_len(&self) -> (r: u32)
        requires
            self@.has_frame(),
        ensures
            r == self@.frame_len(),
    {
        let len = self.stack.len();
        self.get_u32(self.frame_ptr as usize)
    }

    /// Appends zero bytes until the part of the stack from `base` on has a
    /// length that is a multiple of `align`.
    fn pad(&mut self, base: usize, align: usize)
        requires
            base <= old(self)@.len(),
            align == 1 || align == 2 || align == 4,
        ensures
            final(self)@ == old(self)@.with_bytes(
                old(self)@.bytes.subrange(0, base as int) + pad_to(
                    old(self)@.bytes.subrange(base as int, old(self)@.len()),
                    align as int,
                ),
            ),
    {
        let over = self.stack.len() - base;
        let rest = if align == 1 {
            0
        } else if align == 2 {
            over % 2
        } else {
            over % 4
        };
        let n: usize = if rest == 0 {
            0
        } else {
            align - rest
        };
        proof {
            let x: int = old(self)@.len() - base;
            if align == 1 {
                assert((1 - x % 1) % 1 == 0);
            } else if align == 2 {
                assert((2 - x % 2) % 2 == n);
            } else {
                assert(x % 4 == rest);
                assert(rest == 0 || rest == 1 || rest == 2 || rest == 3);
                assert((4 - x % 4) % 4 == n);
            }
            assert(n == align_up(x, align as int) - x);
        }
        let mut k: usize = 0;
        while k < n
            invariant
                k <= n,
                self.stack@ == old(self).stack@ + zeros(k as int),
                self.frame_ptr == old(self).frame_ptr,
                self.capacity == old(self).capacity,
                self.little == old(self).little,
            decreases n - k,
        {
            self.stack.push(0);
            assert(self.stack@ =~= old(self).stack@ + zeros(k + 1));
            k += 1;
        }
        assert(self.stack@ =~= old(self)@.bytes.subrange(0, base as int) + pad_to(
            old(self)@.bytes.subrange(base as int, old(self)@.len()),
            align as int,
        ));
    }

    /// Appends a local of `width` bytes that holds the low bits of `v`.
    fn append_local(&mut self, width: u8, v: u32)
        requires
            is_local_width(width),
        ensures
            final(self)@ == old(self)@.with_bytes(
                old(self)@.bytes + local_bytes(old(self)@.little, width, v),
            ),
    {
        let pos = self.stack.len();
        if width == 1 {
            let b = #[verifier::truncate]
            (v as u8);
            self.stack.push(b);
        } else if width == 2 {
            let h = #[verifier::truncate]
            (v as u16);
            self.stack.push(0);
            self.stack.push(0);
            self.put_u16(pos, h);
        } else {
            self.push_slot(v);
        }
        assert(self.stack@ =~= old(self)@.bytes + local_bytes(old(self)@.little, width, v));
    }

    /// Starts a frame on top of the stack: two empty header words, the
    /// descriptor `locals`, and zeros up to a multiple of four.
    fn begin_frame(&mut self, locals: &Vec<u8>)
        requires
            old(self)@.wf(),
        ensures
            final(self)@ == (StackView {
                bytes: old(self)@.bytes + frame_head(locals@),
                frame_ptr: old(self)@.len() as u32,
                ..old(self)@
            }),
    {
        let ghost pre = self@;
        let ghost d = locals@;
        let base = self.stack.len();
        self.frame_ptr = base as u32;
        self.push_slot(0);
        self.push_slot(0);
        assert(self.stack@ =~= pre.bytes + (zeros(8) + d.subrange(0, 0)));
        let mut i: usize = 0;
        while i < locals.len()
            invariant
                i <= locals.len(),
                d == locals@,
                self.stack@ == pre.bytes + (zeros(8) + d.subrange(0, i as int)),
                self.frame_ptr == base as u32,
                self.capacity == pre.capacity,
                self.little == pre.little,
            decreases locals.len() - i,
        {
            self.stack.push(locals[i]);
            assert(self.stack@ =~= pre.bytes + (zeros(8) + d.subrange(0, i + 1)));
            i += 1;
        }
        assert(d.subrange(0, d.len() as int) =~= d);
        let ghost mid = self.stack@;
        self.pad(base, 4);
        assert(mid.subrange(0, base as int) =~= pre.bytes);
        assert(mid.subrange(base as int, mid.len() as int) =~= zeros(8) + d);
    }

    /// Appends one group of locals to the frame that starts at `base`:
    /// zeros up to a multiple of `width`, then `count` locals of that width,
    /// which take their values from `args[first]` on.
    fn push_group(&mut self, base: usize, width: u8, count: u8, args: &Vec<u32>, first: usize)
        requires
            base <= old(self)@.len(),
            is_local_width(width),
            first <= old(self)@.len() - base,
        ensures
            final(self)@ == old(self)@.with_bytes(
                old(self)@.bytes.subrange(0, base as int) + with_locals(
                    old(self)@.little,
                    old(self)@.bytes.subrange(base as int, old(self)@.len()),
                    width,
                    count as nat,
                    args@,
                    first as int,
                ),
            ),
            first + count <= final(self)@.len() - base,
    {
        let ghost pre = self@;
        let ghost low = pre.bytes.subrange(0, base as int);
        let ghost frame = pre.bytes.subrange(base as int, pre.len());
        self.pad(base, width as usize);
        let mut j: u8 = 0;
        while j < count
            invariant
                j <= count,
                is_local_width(width),
                low.len() == base,
                self.stack@ == low + with_locals(pre.little, frame, width, j as nat, args@, first as int),
                first + j <= self.stack@.len() - base,
                self.frame_ptr == pre.frame_ptr,
                self.capacity == pre.capacity,
                self.little == pre.little,
            decreases count - j,
        {
            let len = self.stack.len();
            let k = first + j as usize;
            let v: u32 = if k < args.len() {
                args[k]
            } else {
                0
            };
            self.append_local(width, v);
            assert(self.stack@ =~= low + with_locals(
                pre.little,
                frame,
                width,
                (j + 1) as nat,
                args@,
                first as int,
            ));
            j += 1;
        }
    }

    /// Ends the frame that starts at `base`: appends zeros up to a multiple
    /// of four, and fills in the two header words, the frame's length and
    /// `head_len`.
    fn end_frame(&mut self, base: usize, head_len: usize)
        requires
            base + 8 <= old(self)@.len(),
        ensures
            final(self)@ == old(self)@.with_bytes(
                old(self)@.bytes.subrange(0, base as int) + splice(
                    splice(
                        pad_to(old(self)@.bytes.subrange(base as int, old(self)@.len()), 4),
                        0,
                        enc_u32(
                            old(self)@.little,
                            pad_to(
                                old(self)@.bytes.subrange(base as int, old(self)@.len()),
                                4,
                            ).len() as u32,
                        ),
                    ),
                    4,
                    enc_u32(old(self)@.little, head_len as u32),
                ),
            ),
    {
        let ghost pre = self@;
        let ghost low = pre.bytes.subrange(0, base as int);
        let ghost body = pad_to(pre.bytes.subrange(base as int, pre.len()), 4);
        self.pad(base, 4);
        assert(self.stack@ == low + body);
        let frame_len = self.stack.len() - base;
        let frame_word = #[verifier::truncate]
        (frame_len as u32);
        let head_word = #[verifier::truncate]
        (head_len as u32);
        self.put_u32(base, frame_word);
        self.put_u32(base + 4, head_word);
        assert(self.stack@ =~= low + splice(
            splice(body, 0, enc_u32(pre.little, frame_word)),
            4,
            enc_u32(pre.little, head_word),
        ));
    }

    /// Builds a frame for the descriptor `locals` on top of the stack and
    /// fills its locals from `args`.
    fn push_frame(&mut self, locals: &Vec<u8>, args: &Vec<u32>)
        requires
            old(self)@.len() + frame_size(locals@) <= old(self)@.capacity,
        ensures
            final(self)@ == old(self)@.with_frame(locals@, args@),
            final(self)@.len() == old(self)@.len() + frame_size(locals@),
    {
        let ghost pre = self@;
        let ghost d = locals@;
        let ghost a = args@;
        let ghost head = frame_head(d);
        let base = self.stack.len();
        proof {
            lemma_frame_image_len(pre.little, d, a);
        }
        self.begin_frame(locals);
        let head_len = self.stack.len() - base;
        let pairs = locals.len() / 2;
        let mut g: usize = 0;
        let mut used: usize = 0;
        assert(head.len() >= 8);
        while g < pairs
            invariant
                g <= pairs,
                pairs == locals.len() / 2,
                d == locals@,
                a == args@,
                head == frame_head(d),
                head.len() >= 8,
                base == pre.bytes.len(),
                base <= u32::MAX,
                self.stack@ == pre.bytes + with_groups(pre.little, head, d, g as nat, a),
                with_groups(pre.little, head, d, g as nat, a).len() >= head.len(),
                used == locals_declared(d, g as nat),
                used <= self.stack@.len() - base,
                self.frame_ptr == base as u32,
                self.capacity == pre.capacity,
                self.little == pre.little,
            decreases pairs - g,
        {
            let width = locals[2 * g];
            let count = locals[2 * g + 1];
            proof {
                lemma_with_groups_len(pre.little, head, d, g as nat, a);
                lemma_with_groups_len(pre.little, head, d, (g + 1) as nat, a);
                lemma_locals_end_grows(d, g as nat, (g + 1) as nat, head.len() as int);
            }
            if width == 1 || width == 2 || width == 4 {
                let ghost group = with_groups(pre.little, head, d, g as nat, a);
                assert((pre.bytes + group).subrange(0, base as int) =~= pre.bytes);
                assert((pre.bytes + group).subrange(base as int, (pre.bytes + group).len() as int)
                    =~= group);
                self.push_group(base, width, count, args, used);
                let len = self.stack.len();
                used = used + count as usize;
            }
            g += 1;
        }
        let ghost groups = with_groups(pre.little, head, d, d.len() / 2, a);
        assert((pre.bytes + groups).subrange(0, base as int) =~= pre.bytes);
        assert((pre.bytes + groups).subrange(base as int, (pre.bytes + groups).len() as int)
            =~= groups);
        self.end_frame(base, head_len);
    }

    /// Starts a frame for a function that takes its arguments from the
    /// stack: builds the frame for the locals' descriptor `locals`, with
    /// every local zero, and pushes `args`, the last first, so that the
    /// first argument is on top.
    pub fn push_call_frame_c0(&mut self, locals: Vec<u8>, args: Vec<u32>)
        requires
            old(self)@.len() + frame_size(locals@) + 4 * args@.len() <= old(self)@.capacity,
        ensures
            final(self)@ == old(self)@.with_frame_c0(locals@, args@),
            final(self)@.len() == old(self)@.len() + frame_size(locals@) + 4 * args@.len(),
            final(self)@.wf(),
    {
        let none: Vec<u32> = Vec::new();
        self.push_frame(&locals, &none);
        let ghost framed = self@;
        assert(none@ =~= Seq::<u32>::empty());
        let mut k: usize = args.len();
        assert(args@.subrange(0, k as int) =~= args@);
        while k > 0
            invariant
                k <= args.len(),
                self@.with_args(args@.subrange(0, k as int)) == framed.with_args(args@),
                self@.len() + 4 * k == framed.len() + 4 * args@.len(),
                self@.capacity == framed.capacity,
            decreases k,
        {
            let ghost cur = self@;
            let ghost rest = args@.subrange(0, k as int);
            k -= 1;
            self.push_slot(args[k]);
            assert(rest.drop_last() =~= args@.subrange(0, k as int));
            assert(rest.last() == args@[k as int]);
        }
    }

    /// Starts a frame for a function that takes its arguments in its
    /// locals: builds the frame for the locals' descriptor `locals` and
    /// stores `args` in the locals from the first on, each cut to the width
    /// of its local. Arguments for which there is no local are dropped;
    /// locals for which there is no argument are zero.
    pub fn push_call_frame_c1(&mut self, locals: Vec<u8>, args: Vec<u32>)
        requires
            old(self)@.len() + frame_size(locals@) <= old(self)@.capacity,
        ensures
            final(self)@ == old(self)@.with_frame_c1(locals@, args@),
            final(self)@.len() == old(self)@.len() + frame_size(locals@),
            final(self)@.wf(),
    {
        self.push_frame(&locals, &args);
    }

    /// The length of a frame for the locals' descriptor `locals`, up to the
    /// end of its locals; `None` where that is more than `limit`.
    pub fn checked_frame_size(locals: &Vec<u8>, limit: u32) -> (r: Option<u32>)
        ensures
            match r {
                Some(n) => n == frame_size(locals@) && n <= limit,
                None => frame_size(locals@) > limit,
            },
    {
        let ghost d = locals@;
        let pairs = locals.len() / 2;
        proof {
            lemma_locals_end_grows(d, 0, pairs as nat, align_up(8 + d.len() as int, 4));
        }
        if locals.len() > limit as usize {
            return None;
        }
        let start: u64 = 8 + locals.len() as u64;
        let mut cursor: u64 = start + (4 - start % 4) % 4;
        if cursor > limit as u64 {
            return None;
        }
        let mut g: usize = 0;
        while g < pairs
            invariant
                g <= pairs,
                pairs == locals.len() / 2,
                d == locals@,
                cursor == locals_end(d, g as nat, align_up(8 + d.len() as int, 4)),
                cursor <= limit,
            decreases pairs - g,
        {
            let width = locals[2 * g];
            let count = locals[2 * g + 1];
            if width == 1 || width == 2 || width == 4 {
                let w = width as u64;
                assert(w * (count as u64) <= 1020) by (nonlinear_arith)
                    requires
                        w <= 4,
                        count <= 255,
                ;
                cursor = cursor + (w - cursor % w) % w + w * (count as u64);
            }
            g += 1;
            if cursor > limit as u64 {
                proof {
                    lemma_locals_end_grows(d, g as nat, pairs as nat, align_up(8 + d.len() as int, 4));
                }
                return None;
            }
        }
        let total = cursor + (4 - cursor % 4) % 4;
        if total > limit as u64 {
            None
        } else {
            Some(total as u32)
        }
    }
}

/// Pushing, popping and reading values of one type on the stack. Whatever
/// the type, a value on the operand stack fills one 32-bit slot; a local has
/// the width of its type.
pub trait Stack<T> {
    /// What the stack is.
    spec fn image(&self) -> StackView;

    /// The 32-bit slot that holds `val`.
    spec fn slot_of(val: T) -> u32;

    /// The value that a 32-bit slot holds.
    spec fn from_slot(slot: u32) -> T;

    /// The number of bytes of a local of this type.
    spec fn width() -> int;

    /// The local at `offset` in the current frame.
    spec fn local_at(&self, offset: u32) -> T;

    /// The stack with `val` stored in the local at `offset`.
    spec fn with_local(&self, offset: u32, val: T) -> StackView;

    /// Pushes `val` as one 32-bit slot.
    fn push(&mut self, val: T)
        requires
            old(self).image().len() + 4 <= old(self).image().capacity,
        ensures
            final(self).image() == old(self).image().pushed(Self::slot_of(val)),
    ;

    /// Pops the topmost 32-bit slot and returns its value.
    fn pop(&mut self) -> (r: T)
        requires
            old(self).image().len() >= 4,
        ensures
            r == Self::from_slot(old(self).image().top()),
            final(self).image() == old(self).image().popped(),
    ;

    /// The value of the topmost 32-bit slot, which stays.
    fn peek(&self) -> (r: T)
        requires
            self.image().len() >= 4,
        ensures
            r == Self::from_slot(self.image().top()),
    ;

    /// Reads the local at `offset` in the current frame.
    fn read(&self, offset: u32) -> (r: T)
        requires
            self.image().local_in_range(offset, Self::width()),
        ensures
            r == self.local_at(offset),
    ;

    /// Stores `val` in the local at `offset` in the current frame.
    fn write(&mut self, offset: u32, val: T)
        requires
            old(self).image().local_in_range(offset, Self::width()),
        ensures
            final(self).image() == old(self).with_local(offset, val),
    ;
}

impl Stack<u8> for GlulxStack {
    open spec fn image(&self) -> StackView {
        self@
    }

    open spec fn slot_of(val: u8) -> u32 {
        val as u32
    }

    open spec fn from_slot(slot: u32) -> u8 {
        slot as u8
    }

    open spec fn width() -> int {
        1
    }

    open spec fn local_at(&self, offset: u32) -> u8 {
        self@.bytes[self@.local_addr(offset)]
    }

    open spec fn with_local(&self, offset: u32, val: u8) -> StackView {
        self@.store(self@.local_addr(offset), seq![val])
    }

    fn push(&mut self, val: u8) {
        let slot = val as u32;
        self.push_slot(slot)
    }

    fn pop(&mut self) -> (r: u8) {
        let slot = self.pop_slot();
        #[verifier::truncate]
        (slot as u8)
    }

    fn peek(&self) -> (r: u8) {
        let pos = self.stack.len() - 0x4;
        let slot = self.get_u32(pos);
        #[verifier::truncate]
        (slot as u8)
    }

    fn read(&self, offset: u32) -> (r: u8) {
        let len = self.stack.len();
        let local_pos = self.local_pos();
        let pos = self.frame_ptr as usize + local_pos as usize + offset as usize;
        self.stack[pos]
    }

    fn write(&mut self, offset: u32, val: u8) {
        let len = self.stack.len();
        let local_pos = self.local_pos();
        let pos = self.frame_ptr as usize + local_pos as usize + offset as usize;
        let ghost before = self.stack@;
        self.stack[pos] = val;
        assert(self.stack@ =~= splice(before, pos as int, seq![val]));
    }
}

impl Stack<u16> for GlulxStack {
    open spec fn image(&self) -> StackView {
        self@
    }

    open spec fn slot_of(val: u16) -> u32 {
        val as u32
    }

    open spec fn from_slot(slot: u32) -> u16 {
        slot as u16
    }

    open spec fn width() -> int {
        2
    }

    open spec fn local_at(&self, offset: u32) -> u16 {
        self@.half(self@.local_addr(offset))
    }

    open spec fn with_local(&self, offset: u32, val: u16) -> StackView {
        self@.store(self@.local_addr(offset), enc_u16(self@.little, val))
    }

    fn push(&mut self, val: u16) {
        let slot = val as u32;
        self.push_slot(slot)
    }

    fn pop(&mut self) -> (r: u16) {
        let slot = self.pop_slot();
        #[verifier::truncate]
        (slot as u16)
    }

    fn peek(&self) -> (r: u16) {
        let pos = self.stack.len() - 0x4;
        let slot = self.get_u32(pos);
        #[verifier::truncate]
        (slot as u16)
    }

    fn read(&self, offset: u32) -> (r: u16) {
        let len = self.stack.len();
        let local_pos = self.local_pos();
        let pos = self.frame_ptr as usize + local_pos as usize + offset as usize;
        self.get_u16(pos)
    }

    fn write(&mut self, offset: u32, val: u16) {
        let len = self.stack.len();
        let local_pos = self.local_pos();
        let pos = self.frame_ptr as usize + local_pos as usize + offset as usize;
        self.put_u16(pos, val);
    }
}

impl Stack<i32> for GlulxStack {
    open spec fn image(&self) -> StackView {
        self@
    }

    open spec fn slot_of(val: i32) -> u32 {
        val as u32
    }

    open spec fn from_slot(slot: u32) -> i32 {
        slot as i32
    }

    open spec fn width() -> int {
        4
    }

    open spec fn local_at(&self, offset: u32) -> i32 {
        self@.word(self@.local_addr(offset)) as i32
    }

    open spec fn with_local(&self, offset: u32, val: i32) -> StackView {
        self@.store(self@.local_addr(offset), enc_u32(self@.little, val as u32))
    }

    fn push(&mut self, val: i32) {
        let slot = #[verifier::truncate]
        (val as u32);
        self.push_slot(slot)
    }

    fn pop(&mut self) -> (r: i32) {
        let slot = self.pop_slot();
        #[verifier::truncate]
        (slot as i32)
    }

    fn peek(&self) -> (r: i32) {
        let pos = self.stack.len() - 0x4;
        let slot = self.get_u32(pos);
        #[verifier::truncate]
        (slot as i32)
    }

    fn read(&self, offset: u32) -> (r: i32) {
        let len = self.stack.len();
        let local_pos = self.local_pos();
        let pos = self.frame_ptr as usize + local_pos as usize + offset as usize;
        let word = self.get_u32(pos);
        #[verifier::truncate]
        (word as i32)
    }

    fn write(&mut self, offset: u32, val: i32) {
        let len = self.stack.len();
        let local_pos = self.local_pos();
        let pos = self.frame_ptr as usize + local_pos as usize + offset as usize;
        let word = #[verifier::truncate]
        (val as u32);
        self.put_u32(pos, word);
    }
}

impl Stack<u32> for GlulxStack {
    open spec fn image(&self) -> StackView {
        self@
    }

    open spec fn slot_of(val: u32) -> u32 {
        val
    }

    open spec fn from_slot(slot: u32) -> u32 {
        slot
    }

    open spec fn width() -> int {
        4
    }

    open spec fn local_at(&self, offset: u32) -> u32 {
        self@.word(self@.local_addr(offset))
    }

    open spec fn with_local(&self, offset: u32, val: u32) -> StackView {
        self@.store(self@.local_addr(offset), enc_u32(self@.little, val))
    }

    fn push(&mut self, val: u32) {
        let slot = val;
        self.push_slot(slot)
    }

    fn pop(&mut self) -> (r: u32) {
        self.pop_slot()
    }

    fn peek(&self) -> (r: u32) {
        let pos = self.stack.len() - 0x4;
        self.get_u32(pos)
    }

    fn read(&self, offset: u32) -> (r: u32) {
        let len = self.stack.len();
        let local_pos = self.local_pos();
        let pos = self.frame_ptr as usize + local_pos as usize + offset as usize;
        self.get_u32(pos)
    }

    fn write(&mut self, offset: u32, val: u32) {
        let len = self.stack.len();
        let local_pos = self.local_pos();
        let pos = self.frame_ptr as usize + local_pos as usize + offset as usize;
        self.put_u32(pos, val);
    }
}

} // verus!
