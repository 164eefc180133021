use snes_emu::err::EmuError;
use snes_emu::regs::DMADirection;
use snes_emu::regs::DMATransfer;
use snes_emu::regs::DMATransferMode;
use snes_emu::regs::DMAControl;
use snes_emu::regs::VINC;
use snes_emu::regs::VINCAM;
use snes_emu::regs::VMAIN;
use snes_emu::regs::VREMAP;
use snes_emu::snes::SNES;

fn booted() -> SNES {
    let mut rom = vec![0u8; 0x8000];
    rom[0x7FFC] = 0x00;
    rom[0x7FFD] = 0x80;
    let mut snes = SNES::new(rom);
    snes.reset();
    snes
}

/// Configure DMA channel 0 through its register block.
fn configure_channel(snes: &mut SNES, control: u8, dest: u8, src: u16, bank: u8, size: u16) {
    snes.cpu.write_u8(&mut snes.mem, 0x4300, control).expect("control");
    snes.cpu.write_u8(&mut snes.mem, 0x4301, dest).expect("dest");
    snes.cpu.write_u8(&mut snes.mem, 0x4302, (src & 0xFF) as u8).expect("src low");
    snes.cpu.write_u8(&mut snes.mem, 0x4303, ((src >> 8) & 0xFF) as u8).expect("src high");
    snes.cpu.write_u8(&mut snes.mem, 0x4304, bank).expect("bank");
    snes.cpu.write_u8(&mut snes.mem, 0x4305, (size & 0xFF) as u8).expect("size low");
    snes.cpu.write_u8(&mut snes.mem, 0x4306, ((size >> 8) & 0xFF) as u8).expect("size high");
}

#[test]
fn control_byte_decodes_into_fields() {
    let ctl = DMAControl::from(0b1000_1001);
    assert_eq!(ctl.direction, DMADirection::From);
    assert_eq!(ctl.transfer, DMATransfer::Fixed);
    assert_eq!(ctl.mode, DMATransferMode::RRW);
    let ctl2 = DMAControl::from(0x00);
    assert_eq!(ctl2.direction, DMADirection::To);
    assert_eq!(ctl2.transfer, DMATransfer::Adjusted);
    assert_eq!(ctl2.mode, DMATransferMode::RW);
}

#[test]
fn vmain_byte_decodes_into_fields() {
    let v = VMAIN::from(0x80);
    assert_eq!(v.increment, VINC::Word);
    assert_eq!(v.amount, VINCAM::One);
    assert_eq!(v.remap, VREMAP::NoRemap);
    let w = VMAIN::from(0x01);
    assert_eq!(w.increment, VINC::Byte);
    assert_eq!(w.amount, VINCAM::ThirtyTwo);
}

#[test]
fn dma_one_register_once_copies_bytes_into_vram() {
    // direction To, one-register-once, advancing source; four bytes from
    // work RAM into the VRAM data low port, increment-on-byte-write.
    let mut snes = booted();
    snes.mem.write_u8(0x0000, 0xAA).expect("w");
    snes.mem.write_u8(0x0001, 0xBB).expect("w");
    snes.mem.write_u8(0x0002, 0xCC).expect("w");
    snes.mem.write_u8(0x0003, 0xDD).expect("w");
    snes.cpu.write_u8(&mut snes.mem, 0x2115, 0x00).expect("vmain");
    snes.cpu.write_u8(&mut snes.mem, 0x2116, 0x10).expect("vaddr low");
    snes.cpu.write_u8(&mut snes.mem, 0x2117, 0x00).expect("vaddr high");
    configure_channel(&mut snes, 0x00, 0x18, 0x0000, 0x00, 4);
    snes.cpu.write_u8(&mut snes.mem, 0x420B, 0x01).expect("trigger");
    assert_eq!(snes.cpu.ppu.vram[0x10] & 0xFF, 0xAA);
    assert_eq!(snes.cpu.ppu.vram[0x11] & 0xFF, 0xBB);
    assert_eq!(snes.cpu.ppu.vram[0x12] & 0xFF, 0xCC);
    assert_eq!(snes.cpu.ppu.vram[0x13] & 0xFF, 0xDD);
    assert_eq!(snes.cpu.ppu.vram_addr, 0x14);
}

#[test]
fn dma_two_register_once_fills_whole_vram_words() {
    // two-registers-once into the VRAM data pair with the increment on
    // the high (word) write: each byte pair lands as one VRAM word.
    let mut snes = booted();
    snes.mem.write_u8(0x0000, 0xAA).expect("w");
    snes.mem.write_u8(0x0001, 0xBB).expect("w");
    snes.mem.write_u8(0x0002, 0xCC).expect("w");
    snes.mem.write_u8(0x0003, 0xDD).expect("w");
    snes.cpu.write_u8(&mut snes.mem, 0x2115, 0x80).expect("vmain");
    snes.cpu.write_u8(&mut snes.mem, 0x2116, 0x20).expect("vaddr low");
    snes.cpu.write_u8(&mut snes.mem, 0x2117, 0x00).expect("vaddr high");
    configure_channel(&mut snes, 0x01, 0x18, 0x0000, 0x00, 4);
    snes.cpu.write_u8(&mut snes.mem, 0x420B, 0x01).expect("trigger");
    assert_eq!(snes.cpu.ppu.vram[0x20], 0xBBAA);
    assert_eq!(snes.cpu.ppu.vram[0x21], 0xDDCC);
    assert_eq!(snes.cpu.ppu.vram_addr, 0x22);
}

#[test]
fn dma_fixed_source_repeats_one_byte() {
    let mut snes = booted();
    snes.mem.write_u8(0x0000, 0x5A).expect("w");
    snes.cpu.write_u8(&mut snes.mem, 0x2115, 0x00).expect("vmain");
    snes.cpu.write_u8(&mut snes.mem, 0x2116, 0x00).expect("vaddr low");
    snes.cpu.write_u8(&mut snes.mem, 0x2117, 0x00).expect("vaddr high");
    configure_channel(&mut snes, 0x08, 0x18, 0x0000, 0x00, 3);
    snes.cpu.write_u8(&mut snes.mem, 0x420B, 0x01).expect("trigger");
    assert_eq!(snes.cpu.ppu.vram[0] & 0xFF, 0x5A);
    assert_eq!(snes.cpu.ppu.vram[1] & 0xFF, 0x5A);
    assert_eq!(snes.cpu.ppu.vram[2] & 0xFF, 0x5A);
}

#[test]
fn dma_unsupported_direction_fails_without_writes() {
    // direction = From is deliberately out of scope: the trigger fails
    // with UnsupportedDmaMode and performs no partial writes.
    let mut snes = booted();
    snes.mem.write_u8(0x0000, 0xAA).expect("w");
    snes.cpu.write_u8(&mut snes.mem, 0x2116, 0x10).expect("vaddr low");
    snes.cpu.write_u8(&mut snes.mem, 0x2117, 0x00).expect("vaddr high");
    configure_channel(&mut snes, 0x80, 0x18, 0x0000, 0x00, 4);
    let vram_before = snes.cpu.ppu.vram.clone();
    let r = snes.cpu.write_u8(&mut snes.mem, 0x420B, 0x01);
    assert_eq!(r, Err(EmuError::UnsupportedDmaMode));
    assert_eq!(snes.cpu.ppu.vram, vram_before);
    assert_eq!(snes.cpu.ppu.vram_addr, 0x10);
}

#[test]
fn dma_unsupported_pattern_fails_without_writes() {
    // one-register-write-twice (pattern 2) is deliberately out of scope.
    let mut snes = booted();
    configure_channel(&mut snes, 0x02, 0x18, 0x0000, 0x00, 4);
    let vram_before = snes.cpu.ppu.vram.clone();
    let r = snes.cpu.write_u8(&mut snes.mem, 0x420B, 0x01);
    assert_eq!(r, Err(EmuError::UnsupportedDmaMode));
    assert_eq!(snes.cpu.ppu.vram, vram_before);
}

#[test]
fn dma_trigger_with_no_bits_does_nothing() {
    let mut snes = booted();
    configure_channel(&mut snes, 0x80, 0x18, 0x0000, 0x00, 4);
    assert_eq!(snes.cpu.write_u8(&mut snes.mem, 0x420B, 0x00), Ok(()));
}

#[test]
fn hdma_enable_nonzero_is_fatal() {
    let mut snes = booted();
    assert_eq!(
        snes.cpu.write_u8(&mut snes.mem, 0x420C, 0x01),
        Err(EmuError::UnsupportedDmaMode)
    );
    assert_eq!(snes.cpu.write_u8(&mut snes.mem, 0x420C, 0x00), Ok(()));
}

#[test]
fn vram_remap_modes_are_rejected() {
    let mut snes = booted();
    snes.cpu.write_u8(&mut snes.mem, 0x2115, 0x04).expect("vmain");
    assert_eq!(
        snes.cpu.write_u8(&mut snes.mem, 0x2118, 0x12),
        Err(EmuError::UnsupportedRemap)
    );
}

#[test]
fn vram_low_write_keeps_high_half_and_increments_on_byte() {
    let mut snes = booted();
    snes.cpu.write_u8(&mut snes.mem, 0x2115, 0x00).expect("vmain");
    snes.cpu.write_u8(&mut snes.mem, 0x2116, 0x05).expect("vaddr low");
    snes.cpu.write_u8(&mut snes.mem, 0x2117, 0x00).expect("vaddr high");
    snes.cpu.write_u8(&mut snes.mem, 0x2119, 0x7E).expect("high half");
    // word trigger not configured, so the pointer stayed at 5
    assert_eq!(snes.cpu.ppu.vram[5], 0x7E00);
    snes.cpu.write_u8(&mut snes.mem, 0x2118, 0x34).expect("low half");
    assert_eq!(snes.cpu.ppu.vram[5], 0x7E34);
    assert_eq!(snes.cpu.ppu.vram_addr, 6);
}

#[test]
fn vram_increment_amount_thirty_two() {
    let mut snes = booted();
    snes.cpu.write_u8(&mut snes.mem, 0x2115, 0x01).expect("vmain");
    snes.cpu.write_u8(&mut snes.mem, 0x2116, 0x00).expect("vaddr low");
    snes.cpu.write_u8(&mut snes.mem, 0x2117, 0x00).expect("vaddr high");
    snes.cpu.write_u8(&mut snes.mem, 0x2118, 0x11).expect("data");
    assert_eq!(snes.cpu.ppu.vram_addr, 32);
}

#[test]
fn palette_writes_double_index_and_autoincrement() {
    let mut snes = booted();
    snes.cpu.write_u8(&mut snes.mem, 0x2121, 0x02).expect("cgadd");
    snes.cpu.write_u8(&mut snes.mem, 0x2122, 0x9A).expect("cgdata");
    snes.cpu.write_u8(&mut snes.mem, 0x2122, 0xBC).expect("cgdata");
    assert_eq!(snes.cpu.ppu.palette[4], 0x9A);
    assert_eq!(snes.cpu.ppu.palette[5], 0xBC);
    assert_eq!(snes.cpu.ppu.palette_index, 6);
}

#[test]
fn write_only_registers_read_as_placeholders() {
    let snes = booted();
    assert_eq!(snes.cpu.read_u8(&snes.mem, 0x4210, 0), Ok(0x42));
    assert_eq!(snes.cpu.read_u8(&snes.mem, 0x420B, 0), Ok(0x00));
    assert_eq!(snes.cpu.read_u8(&snes.mem, 0x4300, 0), Ok(0x00));
    assert_eq!(snes.cpu.read_u8(&snes.mem, 0x2000, 0), Ok(0x00));
}

#[test]
fn fresh_wram_reads_back_its_fill_pattern() {
    let snes = booted();
    assert_eq!(snes.mem.peek_u8(0x0000, 0), Ok(0x55));
    assert_eq!(snes.mem.peek_u8(0x1FFF, 0), Ok(0x55));
    assert_eq!(snes.mem.peek_u8(0x3000, 0), Err(EmuError::UnmappedAccess(0x3000)));
}

#[test]
fn rom_window_is_bank_selected() {
    let mut rom = vec![0u8; 0x8000];
    rom[0x7FFC] = 0x00;
    rom[0x7FFD] = 0x80;
    rom[0x0123] = 0x77;
    let snes = SNES::new(rom);
    assert_eq!(snes.mem.peek_u8(0x8123, 0), Ok(0x77));
    // bank 1 would index past this single-bank image
    assert_eq!(snes.mem.peek_u8(0x8123, 1), Err(EmuError::UnmappedAccess(0x8123)));
}

#[test]
fn step_counts_instructions_even_on_errors() {
    let mut rom = vec![0u8; 0x8000];
    rom[0x7FFC] = 0x00;
    rom[0x7FFD] = 0x80;
    rom[0x0000] = 0x02;
    let mut snes = SNES::new(rom);
    snes.reset();
    assert_eq!(snes.step, 0);
    let _ = snes.step();
    assert_eq!(snes.step, 1);
}

#[test]
fn straddling_16bit_store_writes_nothing() {
    // STA $1FFF with the 16-bit accumulator: the low byte would land in
    // work RAM, the high byte on unmapped $2000 — so nothing is written.
    let mut rom = vec![0u8; 0x8000];
    rom[0x7FFC] = 0x00;
    rom[0x7FFD] = 0x80;
    rom[0x0000] = 0xC2; // REP #$20: 16-bit accumulator
    rom[0x0001] = 0x20;
    rom[0x0002] = 0x8D; // STA $1FFF
    rom[0x0003] = 0xFF;
    rom[0x0004] = 0x1F;
    let mut snes = SNES::new(rom);
    snes.reset();
    snes.step().expect("rep");
    snes.cpu.a_reg = 0xBEEF;
    let flags = snes.cpu.p_reg;
    assert_eq!(snes.step(), Err(EmuError::UnmappedAccess(0x2000)));
    assert_eq!(snes.mem.peek_u8(0x1FFF, 0), Ok(0x55));
    assert_eq!(snes.cpu.p_reg, flags);
    assert_eq!(snes.cpu.a_reg, 0xBEEF);
}

#[test]
fn straddling_16bit_push_writes_nothing() {
    // With the stack pointer at the bottom of work RAM, the second push
    // byte would land on unmapped $FFFF — so not even the first moves.
    let mut snes = booted();
    snes.cpu.stack_ptr = 0x0000;
    let r = snes.cpu.push_u16(&mut snes.mem, 0xBEEF);
    assert_eq!(r, Err(EmuError::UnmappedAccess(0xFFFF)));
    assert_eq!(snes.cpu.stack_ptr(), 0x0000);
    assert_eq!(snes.mem.peek_u8(0x0000, 0), Ok(0x55));
}

#[test]
fn failing_pull_leaves_stack_pointer() {
    let mut snes = booted();
    snes.cpu.stack_ptr = 0x2500;
    assert_eq!(snes.cpu.pull_u8(&snes.mem), Err(EmuError::UnmappedAccess(0x2501)));
    assert_eq!(snes.cpu.pull_u16(&snes.mem), Err(EmuError::UnmappedAccess(0x2501)));
    assert_eq!(snes.cpu.stack_ptr(), 0x2500);
}

#[test]
fn multi_channel_dma_failure_rolls_everything_back() {
    // channel 0 is valid, channel 1 has an unsupported direction: the
    // trigger fails and even channel 0's completed transfer is undone.
    let mut snes = booted();
    snes.mem.write_u8(0x0000, 0xAA).expect("w");
    snes.mem.write_u8(0x0001, 0xBB).expect("w");
    snes.cpu.write_u8(&mut snes.mem, 0x2115, 0x00).expect("vmain");
    snes.cpu.write_u8(&mut snes.mem, 0x2116, 0x40).expect("vaddr low");
    snes.cpu.write_u8(&mut snes.mem, 0x2117, 0x00).expect("vaddr high");
    configure_channel(&mut snes, 0x00, 0x18, 0x0000, 0x00, 2);
    snes.cpu.write_u8(&mut snes.mem, 0x4310, 0x80).expect("ch1 control");
    snes.cpu.write_u8(&mut snes.mem, 0x4315, 0x01).expect("ch1 size");
    let vram_before = snes.cpu.ppu.vram.clone();
    let dma_before = snes.cpu.dma.clone();
    let r = snes.cpu.write_u8(&mut snes.mem, 0x420B, 0x03);
    assert_eq!(r, Err(EmuError::UnsupportedDmaMode));
    assert_eq!(snes.cpu.ppu.vram, vram_before);
    assert_eq!(snes.cpu.ppu.vram_addr, 0x40);
    assert_eq!(snes.cpu.dma, dma_before);
}
