use nes_core::rom::{INESHeader, INESRom, Mirroring};

fn header_with_flag6(flag6: u8) -> [u8; 10] {
    [0x4E, 0x45, 0x53, 0x1A, 0x0, 0x0, flag6, 0x0, 0x0, 0x0]
}

fn header_with_flag7(flag7: u8) -> [u8; 10] {
    [0x4E, 0x45, 0x53, 0x1A, 0x0, 0x0, 0x0, flag7, 0x0, 0x0]
}

#[test]
fn read() {
    let header_bytes = [0x4E, 0x45, 0x53, 0x1A, 0x1, 0x1, 0x0, 0x0, 0x1, 0x0];
    let header = INESHeader::from_bytes(&header_bytes).unwrap();

    assert_eq!(header.format, [0x4E, 0x45, 0x53, 0x1A]);
    assert_eq!(header.prg_rom_banks, 1);
    assert_eq!(header.chr_rom_banks, 1);
    assert_eq!(header.flag6, 0);
    assert_eq!(header.flag7, 0);
    assert_eq!(header.prg_ram_banks, 1);
    assert_eq!(header.flag9, 0);
}

#[test]
fn has_trainer() {
    let header_bytes = [
        0x4E, 0x45, 0x53, 0x1A, // format
        0x0,        // prg_rom_banks
        0x0,        // chr_rom_banks
        0b00000100, // flag 6
        0x0,        // flag 7
        0x0,        // prg_ram_banks
        0x0,        // flag 9
    ];

    let header = INESHeader::from_bytes(&header_bytes).unwrap();

    assert!(header.has_trainer())
}

#[test]
fn doesnt_have_trainer() {
    let header_bytes = header_with_flag6(0);
    let header = INESHeader::from_bytes(&header_bytes).unwrap();

    assert!(!header.has_trainer())
}

#[test]
fn has_play_choice_10() {
    let header_bytes = header_with_flag7(0b00000010);
    let header = INESHeader::from_bytes(&header_bytes).unwrap();

    assert!(header.has_play_choice_10())
}

#[test]
fn doesnt_have_play_choice_10() {
    let header_bytes = header_with_flag7(0);
    let header = INESHeader::from_bytes(&header_bytes).unwrap();

    assert!(!header.has_play_choice_10())
}

#[test]
fn read_mirroring_horizontal() {
    let header_bytes = header_with_flag6(0);
    let header = INESHeader::from_bytes(&header_bytes).unwrap();

    assert!(matches!(header.get_mirroring(), Mirroring::Horizontal))
}

#[test]
fn read_mirroring_vertiacal() {
    let header_bytes = header_with_flag6(0b00000001);
    let header = INESHeader::from_bytes(&header_bytes).unwrap();

    assert!(matches!(header.get_mirroring(), Mirroring::Vertical))
}

#[test]
fn has_persistent_memory() {
    let header_bytes = header_with_flag6(0b00000010);
    let header = INESHeader::from_bytes(&header_bytes).unwrap();

    assert!(header.has_persistent_memory())
}

#[test]
fn doesnt_have_persistent_memory() {
    let header_bytes = header_with_flag6(0);
    let header = INESHeader::from_bytes(&header_bytes).unwrap();

    assert!(!header.has_persistent_memory());
}

#[test]
fn has_vs_unisystem() {
    let header_bytes = header_with_flag7(0b00000001);
    let header = INESHeader::from_bytes(&header_bytes).unwrap();

    assert!(header.has_vs_unisystem());
}

#[test]
fn doesnt_have_vs_unisystem() {
    let header_bytes = header_with_flag7(0);
    let header = INESHeader::from_bytes(&header_bytes).unwrap();

    assert!(!header.has_vs_unisystem());
}

#[test]
fn is_nes2_foramt() {
    let header_bytes = header_with_flag7(0b00001000);
    let header = INESHeader::from_bytes(&header_bytes).unwrap();

    assert!(header.is_nes2_format());
}

#[test]
fn is_not_nes2_foramt() {
    let header_bytes = header_with_flag7(0b00001100);
    let header = INESHeader::from_bytes(&header_bytes).unwrap();

    assert!(!header.is_nes2_format());
}

#[test]
fn get_mapper() {
    let header_bytes = [
        0x4E, 0x45, 0x53, 0x1A, // format
        0x0,        // prg_rom_banks
        0x0,        // chr_rom_banks
        0b01100000, // flag 6
        0b10010000, // flag 7
        0x0,        // prg_ram_banks
        0x0,        // flag 9
    ];
    let header = INESHeader::from_bytes(&header_bytes).unwrap();

    assert_eq!(header.get_mapper(), 0b10010110);
}

#[test]
fn rom_bad_magic_fails() {
    // A wrong signature must fail to load and populate nothing.
    let mut image = vec![0x4E, 0x45, 0x53, 0x00, 0x1, 0x0, 0x0, 0x0, 0x0, 0x0];
    image.resize(10 + 0x4000, 0);

    assert!(INESRom::from_reader(&image).is_err());
}

#[test]
fn rom_truncated_header_fails() {
    let image = [0x4E, 0x45, 0x53];

    assert!(INESRom::from_reader(&image).is_err());
}

#[test]
fn rom_truncated_bank_fails() {
    // One program bank announced, but no bank data follows the header.
    let image = [0x4E, 0x45, 0x53, 0x1A, 0x1, 0x0, 0x0, 0x0, 0x0, 0x0];

    assert!(INESRom::from_reader(&image).is_err());
}

#[test]
fn rom_reads_banks_in_order() {
    let mut image = vec![0x4E, 0x45, 0x53, 0x1A, 0x1, 0x1, 0b00000100, 0b00000010, 0x0, 0x0];
    image.extend(vec![0xAA; 0x200]); // trainer
    image.extend(vec![0xBB; 0x4000]); // program bank
    image.extend(vec![0xCC; 0x2000]); // graphics bank
    image.extend(vec![0xDD; 0x2000]); // auxiliary block

    let rom = INESRom::from_reader(&image).unwrap();

    assert_eq!(rom.get_trainer().unwrap(), &vec![0xAA; 0x200]);
    assert_eq!(rom.get_prg_bank(0).unwrap(), &vec![0xBB; 0x4000]);
    assert!(rom.get_prg_bank(1).is_none());
    assert_eq!(rom.get_chr_bank(0).unwrap(), &vec![0xCC; 0x2000]);
    assert!(rom.get_chr_bank(1).is_none());
    assert_eq!(rom.get_play_choise_10().unwrap(), &vec![0xDD; 0x2000]);
}

#[test]
fn rom_without_optional_blocks() {
    let mut image = vec![0x4E, 0x45, 0x53, 0x1A, 0x1, 0x0, 0x0, 0x0, 0x0, 0x0];
    image.extend(vec![0x11; 0x4000]);

    let rom = INESRom::from_reader(&image).unwrap();

    assert!(rom.get_trainer().is_none());
    assert!(rom.get_play_choise_10().is_none());
    assert!(rom.get_prg_bank(0).is_some());
    assert!(rom.get_chr_bank(0).is_none());
}

#[test]
fn rom_getters_follow_header() {
    let mut image = vec![0x4E, 0x45, 0x53, 0x1A, 0x0, 0x0, 0b01101011, 0b10010001, 0x0, 0x0];
    image.extend(vec![0x00; 0x200]); // trainer announced by flag 6

    let rom = INESRom::from_reader(&image).unwrap();

    assert!(matches!(rom.get_mirroring(), Mirroring::Vertical));
    assert!(rom.get_ignore_mirroring());
    assert!(rom.has_persistent_memory());
    assert!(rom.has_vs_unisystem());
    assert!(!rom.is_nes2_foramt());
    assert_eq!(rom.get_mapper(), 0b10010110);
}
