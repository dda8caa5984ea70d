use nes_emulator::rom::{Mirroring, CHR_ROM_PAGE_SIZE, NES_TAG, PRG_ROM_PAGE_SIZE, ROM, TRAINER_SIZE};

#[test]
fn test_rom_with_wrong_tag() {
    let rom = ROM::new(vec![0x00, 0x01, 0x02, 0x03]);
    assert!(rom.is_err());
    let e = rom.unwrap_err();
    assert_eq!(e, "Invalid NES file");
}

#[test]
fn test_rom_with_wrong_version() {
    // Bits 2 and 3 of byte 7 mark a header newer than iNES 1.0.
    let rom = ROM::new(vec![0x4E, 0x45, 0x53, 0x1A, 0x00, 0x00, 0x00, 0x08]);
    assert!(rom.is_err());
    let e = rom.unwrap_err();
    assert_eq!(e, "Only iNES version 1 supported");
}

#[test]
fn test_rom_with_unsupported_mapper() {
    let rom = ROM::new(vec![0x4E, 0x45, 0x53, 0x1A, 0x00, 0x00, 0x00, 0xF0]);
    assert!(rom.is_err());
    let e = rom.unwrap_err();
    assert_eq!(e, "Rom's mapper not supported yet");
}

#[test]
fn test_rom_with_four_screen_mirroring() {
    let mut rom_raw: Vec<u8> = vec![0x00; 1024];
    rom_raw[0..4].copy_from_slice(&NES_TAG);
    rom_raw[6] = 0b0000_1001;
    let rom = ROM::new(rom_raw);
    assert_eq!(rom.unwrap().screen_mirroring, Mirroring::FourScreen);
}

#[test]
fn test_rom_with_horizontal_mirroring() {
    let mut rom_raw: Vec<u8> = vec![0x00; 1024];
    rom_raw[0..4].copy_from_slice(&NES_TAG);
    let rom = ROM::new(rom_raw);
    assert_eq!(rom.unwrap().screen_mirroring, Mirroring::Horizontal);
}

#[test]
fn test_rom_with_vertical_mirroring() {
    let mut rom_raw: Vec<u8> = vec![0x00; 1024];
    rom_raw[0..4].copy_from_slice(&NES_TAG);
    rom_raw[6] = 0b0000_0001;
    let rom = ROM::new(rom_raw);
    assert_eq!(rom.unwrap().screen_mirroring, Mirroring::Vertical);
}

#[test]
fn test_rom_with_trainer() {
    let mut rom_raw: Vec<u8> = vec![0x00; 1024];
    rom_raw[0..4].copy_from_slice(&NES_TAG);
    rom_raw[6] = 0b0000_0100;
    let rom = ROM::new(rom_raw);
    assert!(rom.unwrap().trainer);
}

#[test]
fn test_rom_without_trainer() {
    let mut rom_raw: Vec<u8> = vec![0x00; 1024];
    rom_raw[0..4].copy_from_slice(&NES_TAG);
    let rom = ROM::new(rom_raw);
    assert!(!rom.unwrap().trainer);
}

#[test]
fn test_rom_with_prg_rom() {
    let mut rom_raw: Vec<u8> = vec![0x00; 16 + PRG_ROM_PAGE_SIZE];
    rom_raw[0..4].copy_from_slice(&NES_TAG);
    rom_raw[4] = 0x01;
    rom_raw[16..16 + PRG_ROM_PAGE_SIZE].copy_from_slice(&[0x01; PRG_ROM_PAGE_SIZE]);
    let rom = ROM::new(rom_raw);
    assert_eq!(rom.unwrap().prg_rom, vec![0x01; PRG_ROM_PAGE_SIZE]);
}

#[test]
fn test_rom_with_chr_rom() {
    let mut rom_raw: Vec<u8> = vec![0x00; 16 + PRG_ROM_PAGE_SIZE + CHR_ROM_PAGE_SIZE];
    rom_raw[0..4].copy_from_slice(&NES_TAG);
    rom_raw[4] = 0x01;
    rom_raw[5] = 0x01;
    rom_raw[16 + PRG_ROM_PAGE_SIZE..16 + PRG_ROM_PAGE_SIZE + CHR_ROM_PAGE_SIZE]
        .copy_from_slice(&[0x01; CHR_ROM_PAGE_SIZE]);
    let rom = ROM::new(rom_raw);
    assert_eq!(rom.unwrap().chr_rom, vec![0x01; CHR_ROM_PAGE_SIZE]);
}

#[test]
fn test_rom_with_prg_rom_and_chr_rom_and_trainer() {
    let mut rom_raw: Vec<u8> =
        vec![0x00; 16 + TRAINER_SIZE + PRG_ROM_PAGE_SIZE + CHR_ROM_PAGE_SIZE];
    rom_raw[0..4].copy_from_slice(&NES_TAG);
    rom_raw[4] = 0x01;
    rom_raw[5] = 0x01;
    rom_raw[6] = 0b0000_0100;
    rom_raw[16 + TRAINER_SIZE..16 + TRAINER_SIZE + PRG_ROM_PAGE_SIZE]
        .copy_from_slice(&[0x01; PRG_ROM_PAGE_SIZE]);
    rom_raw[16 + TRAINER_SIZE + PRG_ROM_PAGE_SIZE
        ..16 + TRAINER_SIZE + PRG_ROM_PAGE_SIZE + CHR_ROM_PAGE_SIZE]
        .copy_from_slice(&[0x02; CHR_ROM_PAGE_SIZE]);
    let rom = ROM::new(rom_raw).unwrap();
    assert_eq!(rom.prg_rom, vec![0x01; PRG_ROM_PAGE_SIZE]);
    assert_eq!(rom.chr_rom, vec![0x02; CHR_ROM_PAGE_SIZE]);
}

#[test]
fn rom_truncated_image_is_invalid() {
    let mut rom_raw: Vec<u8> = vec![0x00; 16 + PRG_ROM_PAGE_SIZE - 1];
    rom_raw[0..4].copy_from_slice(&NES_TAG);
    rom_raw[4] = 0x01;
    assert_eq!(ROM::new(rom_raw).unwrap_err(), "Invalid NES file");
}

#[test]
fn rom_short_header_is_invalid() {
    assert_eq!(ROM::new(vec![0x4E, 0x45, 0x53, 0x1A, 0x00]).unwrap_err(), "Invalid NES file");
    assert_eq!(ROM::new(vec![]).unwrap_err(), "Invalid NES file");
}

#[test]
fn rom_mapper_takes_nibbles_from_bytes_six_and_seven() {
    let mut rom_raw: Vec<u8> = vec![0x00; 1024];
    rom_raw[0..4].copy_from_slice(&NES_TAG);
    rom_raw[6] = 0x10;
    assert_eq!(ROM::new(rom_raw).unwrap_err(), "Rom's mapper not supported yet");
}
