use xocolatl::riscv::slices::{
    get_B_imm, get_I_imm, get_J_imm, get_J_imm_bits, get_S_imm, get_U_imm, get_U_imm_bits,
    get_imm, set_B_imm_bits, set_I_imm_bits, set_J_imm_bits, set_S_imm_bits, set_U_imm_bits,
    set_slice_bits, sign_extend, slice_mask, OPCODE_JAL,
};

#[test]
fn test_slice_mask() {
    assert_eq!(0xffff, slice_mask(0, 15));
    assert_eq!(0xffff_ffff, slice_mask(0, 31));
    assert_eq!(0x1f0, slice_mask(4, 8));
    assert_eq!(0b1101110010, (0x6e50206f & slice_mask(21, 31)) >> 21);
    assert_eq!(1, (12004 & slice_mask(11, 11)) >> 11);
}

#[test]
fn test_set_slice_bits() {
    let x = 0xffacff;
    let mut y = 0xff00ff;
    let mask = 0xff00;
    let offset = 8;
    let value = 0xac;
    let slice = (mask, offset);
    y = set_slice_bits(y, value, slice);
    assert_eq!(x, y, "{x:#010x} != {y:#010x}");
}

#[test]
fn test_get_J_imm() {
    assert_eq!(12004, get_J_imm(0x6e50206f)); // jal x0 12004
    assert_eq!(184, get_J_imm(0x0b8008ef)); // jal x17 184
    assert_eq!(-69112, get_J_imm(0xa08efc6f) as i32); // jal x24 -69112
}

#[test]
fn test_set_J_imm_bits() {
    assert_eq!(format!("{0:#034b}", 0x6e50206f), format!("{0:#034b}", set_J_imm_bits(OPCODE_JAL, 12004))); // jal x0 12004
    assert_eq!(format!("{0:#034b}", 0x0b8008ef), format!("{0:#034b}", set_J_imm_bits(OPCODE_JAL | 17 << 7, 184))); // jal x17 184
    assert_eq!(format!("{0:#034b}", 0xa08efc6f_u32), format!("{0:#034b}", set_J_imm_bits(OPCODE_JAL | 24 << 7, (-69112_i32) as u32))); // jal x24 -69112
}

#[test]
fn sign_extend_with_clear_sign_bit_keeps_value() {
    let mut x: u32 = 0b0111_1111;
    sign_extend(&mut x, 7);
    assert_eq!(x, 0x7f);
}

#[test]
fn sign_extend_with_set_sign_bit_fills_upper_bits() {
    let mut x: u32 = 0b1000_0000;
    sign_extend(&mut x, 7);
    assert_eq!(x, 0xffff_ff80);
}

#[test]
fn sign_extend_at_bit_six_reads_bit_six() {
    // bit 6 of 0b0111_1111 is set, bit 6 of 0b1000_0000 is clear
    let mut x: u32 = 0b0111_1111;
    sign_extend(&mut x, 6);
    assert_eq!(x, 0xffff_ffff);
    let mut y: u32 = 0b1000_0000;
    sign_extend(&mut y, 6);
    assert_eq!(y, 0);
}

#[test]
fn sign_extend_at_bit_31_is_identity() {
    let mut x: u32 = 0x8000_0001;
    sign_extend(&mut x, 31);
    assert_eq!(x, 0x8000_0001);
}

#[test]
fn split_immediates_round_trip() {
    for imm in [0i32, 1, -1, 2047, -2048, 100, -100] {
        let v = imm as u32;
        assert_eq!(get_I_imm(set_I_imm_bits(0xffff_ffff, v)), v);
        assert_eq!(get_S_imm(set_S_imm_bits(0x1234_5678, v)), v);
    }
    for imm in [0i32, 2, -2, 4094, -4096, 164, -8] {
        let v = imm as u32;
        assert_eq!(get_B_imm(set_B_imm_bits(0xdead_beef, v)), v);
    }
    for imm in [0i32, 2, -2, 1_048_574, -1_048_576, 12004, -69112] {
        let v = imm as u32;
        assert_eq!(get_J_imm(set_J_imm_bits(0x0000_006f, v)), v);
    }
    for imm in [0u32, 1, 123, 0xf_ffff] {
        assert_eq!(get_U_imm(set_U_imm_bits(0x0000_0037, imm)) >> 12, imm);
        assert_eq!(get_U_imm_bits(set_U_imm_bits(0xffff_ffff, imm)), imm << 12);
    }
}

#[test]
fn branch_and_jump_offsets_drop_bit_zero() {
    assert_eq!(get_B_imm(set_B_imm_bits(0, 5)), 4);
    assert_eq!(get_J_imm_bits(set_J_imm_bits(0, 7)), 6);
}

#[test]
fn get_imm_reads_the_format_of_the_opcode() {
    assert_eq!(get_imm(0x0007b4b7), 123 << 12); // lui x9 123
    assert_eq!(get_imm(0x0a400f6f), 164); // jal x30 164
    assert_eq!(get_imm(0x00c40267), 12); // jalr x4 x8 12
    assert_eq!(get_imm(0x00b604a3), 9); // sb x11 x12 9
    assert_eq!(get_imm(0xfff00513) as i32, -1); // addi x10 x0 -1
}
