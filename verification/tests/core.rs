use snes_emu::cart::SnesCart;
use snes_emu::cpu::PReg;
use snes_emu::err::EmuError;
use snes_emu::scrn::get_color;
use snes_emu::snes::SNES;

/// A 32KB ROM image whose reset vector points at 0x8000 and whose other
/// bytes are given as (offset, value) pairs.
fn make_rom(bytes: &[(usize, u8)]) -> Vec<u8> {
    let mut rom = vec![0u8; 0x8000];
    rom[0x7FFC] = 0x00;
    rom[0x7FFD] = 0x80;
    for &(off, b) in bytes {
        rom[off] = b;
    }
    rom
}

fn booted(bytes: &[(usize, u8)]) -> SNES {
    let mut snes = SNES::new(make_rom(bytes));
    snes.reset();
    snes
}

#[test]
fn rom_size_byte_five_is_32k() {
    let rom = make_rom(&[(0x7FD7, 0x05)]);
    let cart = SnesCart::new(rom);
    assert_eq!(cart.header().rom_size, 0x8000);
}

#[test]
fn sram_size_follows_same_encoding() {
    let rom = make_rom(&[(0x7FD8, 0x03)]);
    let cart = SnesCart::new(rom);
    assert_eq!(cart.header().sram_size, 0x2000);
}

#[test]
fn header_fields_read_from_fixed_offsets() {
    let rom = make_rom(&[
        (0x7FC0, b'S'),
        (0x7FC1, b'N'),
        (0x7FD5, 0x20),
        (0x7FD6, 0x02),
        (0x7FD9, 0x33),
        (0x7FDA, 0x44),
        (0x7FDB, 0x01),
        (0x7FDC, 0xAB),
        (0x7FDE, 0xCD),
        (0x7FDF, 0xEF),
    ]);
    let cart = SnesCart::new(rom);
    let hdr = cart.header();
    assert_eq!(hdr.game_title[0], b'S');
    assert_eq!(hdr.game_title[1], b'N');
    assert_eq!(hdr.game_title.len(), 21);
    assert_eq!(hdr.makeup_byte, 0x20);
    assert_eq!(hdr.rom_type, 0x02);
    assert_eq!(hdr.license_id_low, 0x33);
    assert_eq!(hdr.license_id_high, 0x44);
    assert_eq!(hdr.version, 0x01);
    assert_eq!(hdr.check_compl, 0xAB);
    assert_eq!(hdr.checksum_low, 0xCD);
    assert_eq!(hdr.checksum_high, 0xEF);
}

#[test]
fn reset_loads_pc_from_reset_vector() {
    let snes = booted(&[]);
    assert_eq!(snes.cpu.pc, 0x8000);
    assert!(snes.cpu.emulation);
    assert!(snes.cpu.p_reg.m);
    assert_eq!(snes.cpu.stack_ptr(), 0x01FF);
}

#[test]
fn lda_imm8_sets_negative_keeps_high_byte() {
    // LDA #$80 with the 8-bit accumulator width forced by reset.
    let mut snes = booted(&[(0x0000, 0xA9), (0x0001, 0x80)]);
    snes.cpu.a_reg = 0x1234;
    let cycles = snes.step().expect("step");
    assert_eq!(cycles, 2);
    assert_eq!(snes.cpu.a_reg, 0x1280);
    assert!(snes.cpu.p_reg.n);
    assert!(!snes.cpu.p_reg.z);
}

#[test]
fn lda_imm8_zero_sets_zero_flag() {
    let mut snes = booted(&[(0x0000, 0xA9), (0x0001, 0x00)]);
    snes.cpu.a_reg = 0xFF01;
    snes.step().expect("step");
    assert_eq!(snes.cpu.a_reg, 0xFF00);
    assert!(snes.cpu.p_reg.z);
    assert!(!snes.cpu.p_reg.n);
}

#[test]
fn cmp_equal_sets_zero_and_carry() {
    // CMP $9000 with accumulator 0x10 against memory operand 0x10.
    let mut snes = booted(&[(0x0000, 0xCD), (0x0001, 0x00), (0x0002, 0x90), (0x1000, 0x10)]);
    snes.cpu.a_reg = 0x0010;
    let cycles = snes.step().expect("step");
    assert_eq!(cycles, 4);
    assert!(snes.cpu.p_reg.z);
    assert!(snes.cpu.p_reg.c);
    assert!(!snes.cpu.p_reg.n);
}

#[test]
fn cmp_smaller_clears_carry_sets_negative() {
    let mut snes = booted(&[(0x0000, 0xCD), (0x0001, 0x00), (0x0002, 0x90), (0x1000, 0x20)]);
    snes.cpu.a_reg = 0x0010;
    snes.step().expect("step");
    assert!(!snes.cpu.p_reg.z);
    assert!(!snes.cpu.p_reg.c);
    assert!(snes.cpu.p_reg.n);
}

#[test]
fn push_pull_u16_round_trip() {
    let mut snes = booted(&[]);
    let sp0 = snes.cpu.stack_ptr();
    snes.cpu.push_u16(&mut snes.mem, 0xBEEF).expect("push");
    assert_eq!(snes.cpu.stack_ptr(), sp0 - 2);
    let v = snes.cpu.pull_u16(&snes.mem).expect("pull");
    assert_eq!(v, 0xBEEF);
    assert_eq!(snes.cpu.stack_ptr(), sp0);
}

#[test]
fn push_writes_high_byte_first_descending() {
    let mut snes = booted(&[]);
    snes.cpu.push_u16(&mut snes.mem, 0xBEEF).expect("push");
    assert_eq!(snes.mem.peek_u8(0x01FF, 0).expect("peek"), 0xBE);
    assert_eq!(snes.mem.peek_u8(0x01FE, 0).expect("peek"), 0xEF);
}

#[test]
fn xce_swaps_carry_with_emulation() {
    // Starting with emulation = true and carry = 0, one XCE leaves the
    // machine in native mode with carry holding the old emulation bit.
    let mut snes = booted(&[(0x0000, 0xFB)]);
    snes.cpu.p_reg.c = false;
    assert!(snes.cpu.emulation);
    let cycles = snes.step().expect("step");
    assert_eq!(cycles, 2);
    assert!(!snes.cpu.emulation);
    assert!(snes.cpu.p_reg.c);
}

#[test]
fn two_xce_restore_both_bits() {
    let mut snes = booted(&[(0x0000, 0xFB), (0x0001, 0xFB)]);
    snes.cpu.p_reg.c = false;
    snes.step().expect("first");
    snes.step().expect("second");
    assert!(snes.cpu.emulation);
    assert!(!snes.cpu.p_reg.c);
}

#[test]
fn unknown_opcode_is_reported() {
    let mut snes = booted(&[(0x0000, 0x02)]);
    assert_eq!(snes.step(), Err(EmuError::UnknownOpcode(0x02)));
}

#[test]
fn stop_instruction_halts() {
    let mut snes = booted(&[(0x0000, 0xDB)]);
    assert_eq!(snes.step(), Err(EmuError::Halted));
}

#[test]
fn store_to_unmapped_address_fails() {
    // STA $2000: below the controller window, above work RAM.
    let mut snes = booted(&[(0x0000, 0x8D), (0x0001, 0x00), (0x0002, 0x20)]);
    assert_eq!(snes.step(), Err(EmuError::UnmappedAccess(0x2000)));
}

#[test]
fn load_from_unmapped_address_fails() {
    // LDA $4000: no register and no RAM there.
    let mut snes = booted(&[(0x0000, 0xAD), (0x0001, 0x00), (0x0002, 0x40)]);
    assert_eq!(snes.step(), Err(EmuError::UnmappedAccess(0x4000)));
}

#[test]
fn sta_absolute_writes_wram_and_flags() {
    let mut snes = booted(&[(0x0000, 0x8D), (0x0001, 0x00), (0x0002, 0x10)]);
    snes.cpu.a_reg = 0x0055;
    let cycles = snes.step().expect("step");
    assert_eq!(cycles, 4);
    assert_eq!(snes.mem.peek_u8(0x1000, 0).expect("peek"), 0x55);
    assert!(!snes.cpu.p_reg.z);
    assert!(!snes.cpu.p_reg.n);
}

#[test]
fn rep_clears_width_flags() {
    // REP #$30 clears the accumulator- and index-width flags.
    let mut snes = booted(&[(0x0000, 0xC2), (0x0001, 0x30)]);
    assert!(snes.cpu.p_reg.m);
    let cycles = snes.step().expect("step");
    assert_eq!(cycles, 3);
    assert!(!snes.cpu.p_reg.m);
    assert!(!snes.cpu.p_reg.x);
}

#[test]
fn sep_sets_selected_flags() {
    let mut snes = booted(&[(0x0000, 0xE2), (0x0001, 0x11)]);
    snes.step().expect("step");
    assert!(snes.cpu.p_reg.c);
    assert!(snes.cpu.p_reg.x);
}

#[test]
fn bne_taken_branches_backwards() {
    // BNE -2 lands back on the branch itself; taken and in emulation
    // mode it costs 2 + 1 + 1 cycles.
    let mut snes = booted(&[(0x0000, 0xD0), (0x0001, 0xFE)]);
    snes.cpu.p_reg.z = false;
    let cycles = snes.step().expect("step");
    assert_eq!(cycles, 4);
    assert_eq!(snes.cpu.pc, 0x8000);
}

#[test]
fn bne_not_taken_falls_through() {
    let mut snes = booted(&[(0x0000, 0xD0), (0x0001, 0xFE)]);
    snes.cpu.p_reg.z = true;
    let cycles = snes.step().expect("step");
    assert_eq!(cycles, 3);
    assert_eq!(snes.cpu.pc, 0x8002);
}

#[test]
fn jsr_then_rts_round_trip() {
    // JSR $8010; at $8010 an RTS returns to the byte after the call.
    let mut snes = booted(&[(0x0000, 0x20), (0x0001, 0x10), (0x0002, 0x80), (0x0010, 0x60)]);
    let c1 = snes.step().expect("jsr");
    assert_eq!(c1, 6);
    assert_eq!(snes.cpu.pc, 0x8010);
    let c2 = snes.step().expect("rts");
    assert_eq!(c2, 6);
    assert_eq!(snes.cpu.pc, 0x8003);
}

#[test]
fn tcs_folds_into_page_one_when_accumulator_8bit() {
    let mut snes = booted(&[(0x0000, 0x1B)]);
    snes.cpu.a_reg = 0x1234;
    snes.step().expect("step");
    assert_eq!(snes.cpu.stack_ptr(), 0x0134);
}

#[test]
fn inx_wraps_within_8bit_width() {
    let mut snes = booted(&[(0x0000, 0xE2), (0x0001, 0x10), (0x0002, 0xE8)]);
    snes.step().expect("sep");
    snes.cpu.x_reg = 0x00FF;
    snes.step().expect("inx");
    assert_eq!(snes.cpu.x_reg, 0x0000);
    assert!(snes.cpu.p_reg.z);
}

#[test]
fn xba_swaps_accumulator_bytes() {
    let mut snes = booted(&[(0x0000, 0xEB)]);
    snes.cpu.a_reg = 0x1234;
    let cycles = snes.step().expect("step");
    assert_eq!(cycles, 3);
    assert_eq!(snes.cpu.a_reg, 0x3412);
}

#[test]
fn ldy_imm8_keeps_high_byte() {
    let mut snes = booted(&[(0x0000, 0xE2), (0x0001, 0x10), (0x0002, 0xA0), (0x0003, 0x7F)]);
    snes.step().expect("sep");
    snes.cpu.y_reg = 0xAB00;
    snes.step().expect("ldy");
    assert_eq!(snes.cpu.y_reg, 0xAB7F);
    assert!(!snes.cpu.p_reg.n);
}

#[test]
fn flag_byte_round_trips_through_packed_form() {
    let p = PReg::from_bits(0xA5);
    assert!(p.c && p.i && p.m && p.n);
    assert!(!p.z && !p.d && !p.x && !p.v);
    assert_eq!(p.bits(), 0xA5);
}

#[test]
fn php_pushes_literal_flag_byte_and_plp_restores() {
    let mut snes = booted(&[(0x0000, 0x08), (0x0001, 0x28)]);
    let bits = snes.cpu.p_reg.bits();
    snes.step().expect("php");
    assert_eq!(snes.mem.peek_u8(0x01FF, 0).expect("peek"), bits);
    snes.cpu.p_reg = PReg::from_bits(0x00);
    snes.step().expect("plp");
    assert_eq!(snes.cpu.p_reg.bits(), bits);
}

#[test]
fn get_color_expands_five_bit_channels() {
    assert_eq!(get_color(0x0000), 0x000000);
    assert_eq!(get_color(0x7FFF), 0xFFFFFF);
    assert_eq!(get_color(0x001F), 0xFF0000);
    assert_eq!(get_color(0x03E0), 0x00FF00);
    assert_eq!(get_color(0x7C00), 0x0000FF);
}
