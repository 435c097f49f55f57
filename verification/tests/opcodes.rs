use glulx::opcodes::{
    op_add, op_bitand, op_bitnot, op_bitor, op_bitxor, op_copy, op_copyb, op_copys, op_div,
    op_jeq, op_jge, op_jgeu, op_jgt, op_jgtu, op_jle, op_jleu, op_jlt, op_jltu, op_jne, op_jnz,
    op_jz, op_mod, op_mul, op_neg, op_sexb, op_sexs, op_shiftl, op_sshiftr, op_sub, op_ushiftr,
};

#[test]
fn sums_wrap() {
    assert_eq!(op_add(3, 4), 7);
    assert_eq!(op_add(i32::MAX, 1), i32::MIN);
    assert_eq!(op_add(i32::MIN, -1), i32::MAX);
    assert_eq!(op_sub(3, 4), -1);
    assert_eq!(op_sub(i32::MIN, 1), i32::MAX);
    assert_eq!(op_mul(6, -7), -42);
    assert_eq!(op_mul(0x10000, 0x10000), 0);
    assert_eq!(op_mul(i32::MAX, 2), -2);
    assert_eq!(op_neg(5), -5);
    assert_eq!(op_neg(i32::MIN), i32::MIN);
}

#[test]
fn division_rounds_towards_zero() {
    assert_eq!(op_div(7, 2), 3);
    assert_eq!(op_div(-7, 2), -3);
    assert_eq!(op_div(7, -2), -3);
    assert_eq!(op_div(-7, -2), 3);
    assert_eq!(op_div(i32::MIN, -1), i32::MIN);
    assert_eq!(op_div(i32::MIN, 1), i32::MIN);
    assert_eq!(op_mod(7, 2), 1);
    assert_eq!(op_mod(-7, 2), -1);
    assert_eq!(op_mod(7, -2), 1);
    assert_eq!(op_mod(-7, -2), -1);
    assert_eq!(op_mod(i32::MIN, -1), 0);
}

#[test]
fn bits() {
    assert_eq!(op_bitand(0b1100, 0b1010), 0b1000);
    assert_eq!(op_bitor(0b1100, 0b1010), 0b1110);
    assert_eq!(op_bitxor(0b1100, 0b1010), 0b0110);
    assert_eq!(op_bitnot(0), -1);
    assert_eq!(op_bitnot(0x0F0F_0F0F), 0xF0F0_F0F0u32 as i32);
}

#[test]
fn shifts_clamp_at_32() {
    assert_eq!(op_shiftl(1, 4), 16);
    assert_eq!(op_shiftl(1, 31), i32::MIN);
    assert_eq!(op_shiftl(1, 32), 0);
    assert_eq!(op_shiftl(-1, -1), 0);
    assert_eq!(op_ushiftr(0x8000_0000, 31), 1);
    assert_eq!(op_ushiftr(0x8000_0000, 32), 0);
    assert_eq!(op_ushiftr(0xFFFF_FFFF, 0xFFFF_FFFF), 0);
    assert_eq!(op_sshiftr(-16, 2), -4);
    assert_eq!(op_sshiftr(16, 2), 4);
    assert_eq!(op_sshiftr(-16, 32), -1);
    assert_eq!(op_sshiftr(16, 32), 0);
    assert_eq!(op_sshiftr(-16, -1), -1);
}

#[test]
fn comparisons() {
    assert!(op_jz(0) && !op_jz(1));
    assert!(op_jnz(1) && !op_jnz(0));
    assert!(op_jeq(2, 2) && !op_jeq(2, 3));
    assert!(op_jne(2, 3) && !op_jne(2, 2));
    assert!(op_jlt(-1, 0) && !op_jlt(0, 0));
    assert!(op_jge(0, 0) && !op_jge(-1, 0));
    assert!(op_jgt(1, 0) && !op_jgt(0, 0));
    assert!(op_jle(0, 0) && !op_jle(1, 0));
    assert!(op_jltu(0, 0xFFFF_FFFF) && !op_jltu(0xFFFF_FFFF, 0));
    assert!(op_jgeu(0xFFFF_FFFF, 0) && !op_jgeu(0, 1));
    assert!(op_jgtu(0xFFFF_FFFF, 0) && !op_jgtu(1, 1));
    assert!(op_jleu(1, 1) && !op_jleu(0xFFFF_FFFF, 0));
}

#[test]
fn copies_and_sign_extension() {
    assert_eq!(op_copy(0xDEAD_BEEF), 0xDEAD_BEEF);
    assert_eq!(op_copys(0xBEEF), 0xBEEF);
    assert_eq!(op_copyb(0xEF), 0xEF);
    assert_eq!(op_sexs(0x1234_8000), -0x8000);
    assert_eq!(op_sexs(0x1234_7FFF), 0x7FFF);
    assert_eq!(op_sexs(0xFFFF), -1);
    assert_eq!(op_sexb(0x1234_5680), -0x80);
    assert_eq!(op_sexb(0x7F), 0x7F);
    assert_eq!(op_sexb(0xFF), -1);
}
