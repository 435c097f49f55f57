use glulx::stack::{GlulxStack, Stack};

fn words(stack: &mut GlulxStack, n: u32) -> Vec<u32> {
    stack.pop_args(n)
}

#[test]
fn new_stack_is_empty() {
    let stack = GlulxStack::new(0x100);
    assert_eq!(stack.len(), 0);
    assert_eq!(stack.capacity(), 0x100);
    assert_eq!(stack.frame_ptr(), 0);
    assert_eq!(stack.operand_count(), 0);
}

#[test]
fn push_then_pop_gives_the_value_back() {
    let mut stack = GlulxStack::new(0x100);
    stack.push(0x0102_0304u32);
    let before = stack.len();
    for v in [0u32, 1, 0x8000_0000, 0xFFFF_FFFF, 0x0102_0304] {
        stack.push(v);
        assert_eq!(stack.len(), before + 4);
        let top: u32 = stack.peek();
        assert_eq!(top, v);
        let got: u32 = stack.pop();
        assert_eq!(got, v);
        assert_eq!(stack.len(), before);
    }
    for v in [0i32, -1, i32::MIN, i32::MAX] {
        stack.push(v);
        let top: i32 = stack.peek();
        assert_eq!(top, v);
        let got: i32 = stack.pop();
        assert_eq!(got, v);
        assert_eq!(stack.len(), before);
    }
    for v in [0u16, 1, 0x8000, 0xFFFF] {
        stack.push(v);
        assert_eq!(stack.len(), before + 4);
        let top: u16 = stack.peek();
        assert_eq!(top, v);
        let got: u16 = stack.pop();
        assert_eq!(got, v);
        assert_eq!(stack.len(), before);
    }
    for v in [0u8, 1, 0x80, 0xFF] {
        stack.push(v);
        assert_eq!(stack.len(), before + 4);
        let top: u8 = stack.peek();
        assert_eq!(top, v);
        let got: u8 = stack.pop();
        assert_eq!(got, v);
        assert_eq!(stack.len(), before);
    }
    let below: u32 = stack.pop();
    assert_eq!(below, 0x0102_0304);
}

#[test]
fn narrow_values_fill_a_whole_slot() {
    let mut stack = GlulxStack::new(0x100);
    stack.push(0xABu8);
    let slot: u32 = stack.pop();
    assert_eq!(slot, 0xAB);
    stack.push(0xABCDu16);
    let slot: u32 = stack.pop();
    assert_eq!(slot, 0xABCD);
    stack.push(0x1234_5678u32);
    let low: u8 = stack.peek();
    assert_eq!(low, 0x78);
    let low: u16 = stack.pop();
    assert_eq!(low, 0x5678);
}

#[test]
fn call_stub_comes_back_as_pushed() {
    let mut stack = GlulxStack::new(0x100);
    stack.push_call_frame_c0(vec![0, 0], vec![7]);
    let frame_ptr = stack.frame_ptr();
    let len = stack.len();
    stack.push_call_stub(3, 0x1234, 0xABCD_EF01);
    assert_eq!(stack.len(), len + 16);
    stack.push_call_frame_c0(vec![4, 1, 0, 0], vec![]);
    assert_eq!(stack.frame_ptr(), len + 16);
    stack.pop_call_frame();
    assert_eq!(stack.len(), len + 16);
    assert_eq!(stack.pop_call_stub(), (3, 0x1234, 0xABCD_EF01));
    assert_eq!(stack.frame_ptr(), frame_ptr);
    assert_eq!(stack.len(), len);
    let top: u32 = stack.pop();
    assert_eq!(top, 7);
}

#[test]
fn call_stub_words_are_in_order() {
    let mut stack = GlulxStack::new(0x100);
    stack.push_call_stub(1, 2, 3);
    assert_eq!(words(&mut stack, 4), vec![0, 3, 2, 1]);
}

#[test]
fn frame_with_stack_arguments() {
    let mut stack = GlulxStack::new(0x100);
    stack.push(0x55u32);
    let before = stack.len();
    stack.push_call_frame_c0(vec![4, 2, 1, 3, 0, 0], vec![10, 20, 30]);
    assert_eq!(stack.frame_ptr(), before);
    // header 8, descriptor 6, padding 2: the locals start at 16;
    // two words, three bytes, padding 1: the frame has 28 bytes.
    assert_eq!(stack.local_pos(), 16);
    assert_eq!(stack.frame_len(), 28);
    assert_eq!(stack.len(), before + 28 + 12);
    assert_eq!(stack.operand_count(), 3);
    for off in [0u32, 4] {
        let v: u32 = stack.read(off);
        assert_eq!(v, 0);
    }
    for off in [8u32, 9, 10] {
        let v: u8 = stack.read(off);
        assert_eq!(v, 0);
    }
    assert_eq!(words(&mut stack, 3), vec![10, 20, 30]);
    assert_eq!(stack.operand_count(), 0);
    stack.pop_call_frame();
    assert_eq!(stack.len(), before);
    let v: u32 = stack.pop();
    assert_eq!(v, 0x55);
}

#[test]
fn frame_with_arguments_in_locals() {
    let mut stack = GlulxStack::new(0x100);
    let before = stack.len();
    stack.push_call_frame_c1(
        vec![1, 1, 2, 2, 4, 2, 0, 0],
        vec![0x1122_3344, 0x5566_7788, 0x99AA_BBCC, 0xDDEE_FF00],
    );
    // header 8, descriptor 8: the locals start at 16;
    // one byte at 0, padding, two halves at 2 and 4, padding, two words at 8 and 12.
    assert_eq!(stack.local_pos(), 16);
    assert_eq!(stack.frame_len(), 32);
    assert_eq!(stack.len(), before + 32);
    assert_eq!(stack.operand_count(), 0);
    let b: u8 = stack.read(0);
    assert_eq!(b, 0x44);
    let h: u16 = stack.read(2);
    assert_eq!(h, 0x7788);
    let h: u16 = stack.read(4);
    assert_eq!(h, 0xBBCC);
    let w: u32 = stack.read(8);
    assert_eq!(w, 0xDDEE_FF00);
    let w: u32 = stack.read(12);
    assert_eq!(w, 0);
    let pad: u8 = stack.read(1);
    assert_eq!(pad, 0);
    stack.pop_call_frame();
    assert_eq!(stack.len(), before);
}

#[test]
fn surplus_arguments_are_dropped() {
    let mut stack = GlulxStack::new(0x100);
    stack.push_call_frame_c1(vec![4, 1, 0, 0], vec![1, 2, 3]);
    assert_eq!(stack.frame_len(), 16);
    assert_eq!(stack.len(), 16);
    let w: u32 = stack.read(0);
    assert_eq!(w, 1);
}

#[test]
fn unknown_widths_declare_no_locals() {
    let mut stack = GlulxStack::new(0x100);
    stack.push_call_frame_c1(vec![3, 5, 4, 1, 0, 0], vec![9]);
    assert_eq!(stack.local_pos(), 16);
    assert_eq!(stack.frame_len(), 20);
    let w: u32 = stack.read(0);
    assert_eq!(w, 9);
}

#[test]
fn frame_size_is_known_before_the_push() {
    assert_eq!(GlulxStack::checked_frame_size(&vec![0, 0], 0x100), Some(12));
    assert_eq!(GlulxStack::checked_frame_size(&vec![4, 2, 1, 3, 0, 0], 0x100), Some(28));
    assert_eq!(GlulxStack::checked_frame_size(&vec![4, 2, 1, 3, 0, 0], 28), Some(28));
    assert_eq!(GlulxStack::checked_frame_size(&vec![4, 2, 1, 3, 0, 0], 27), None);
    assert_eq!(GlulxStack::checked_frame_size(&vec![4, 255, 0, 0], 0x100), None);
    assert_eq!(GlulxStack::checked_frame_size(&vec![4, 255, 0, 0], 0x1000), Some(12 + 1020));
}

#[test]
fn locals_are_read_as_written() {
    let mut stack = GlulxStack::new(0x100);
    stack.push_call_frame_c0(vec![4, 2, 0, 0], vec![]);
    stack.write(0, 0x0102_0304u32);
    stack.write(4, -2i32);
    let w: u32 = stack.read(0);
    assert_eq!(w, 0x0102_0304);
    let s: i32 = stack.read(4);
    assert_eq!(s, -2);
    let w: u32 = stack.read(4);
    assert_eq!(w, 0xFFFF_FFFE);
    let bytes: Vec<u8> = (0..4u32).map(|o| stack.read(o)).collect();
    assert_eq!(bytes, 0x0102_0304u32.to_ne_bytes().to_vec());
    stack.write(4, 0xA1B2u16);
    let h: u16 = stack.read(4);
    assert_eq!(h, 0xA1B2);
    let bytes: Vec<u8> = (4..6u32).map(|o| stack.read(o)).collect();
    assert_eq!(bytes, 0xA1B2u16.to_ne_bytes().to_vec());
    stack.write(7, 0x5Au8);
    let b: u8 = stack.read(7);
    assert_eq!(b, 0x5A);
    assert!(stack.holds_local(4, 4));
    assert!(!stack.holds_local(5, 4));
}

#[test]
fn slots_are_counted_from_the_top() {
    let mut stack = GlulxStack::new(0x100);
    stack.push_call_frame_c0(vec![0, 0], vec![]);
    stack.push(1u32);
    stack.push(2u32);
    stack.push(3u32);
    assert_eq!(stack.operand_count(), 3);
    assert_eq!(stack.peek_slot(0), 3);
    assert_eq!(stack.peek_slot(2), 1);
    stack.set_slot(1, 9);
    assert_eq!(words(&mut stack, 3), vec![3, 9, 1]);
}
