use coral::cartridge::loader::{get_console_type, new_cartridge, process_header};
use coral::cartridge::mapper::types::Mapper;
use coral::cartridge::{
    choose_mapper, generic_mapper, load, ConsoleType, LoadError, Mirroring, TVSystem,
};

/// A file with the given header fields, a program that counts its bytes per bank and
/// pattern data that holds the low byte of each offset.
fn rom(prg_banks: u8, chr_banks: u8, flags6: u8, flags7: u8) -> Vec<u8> {
    let mut bytes = vec![0x4E, 0x45, 0x53, 0x1A, prg_banks, chr_banks, flags6, flags7];
    bytes.extend_from_slice(&[0; 8]);
    if flags6 & 0x04 != 0 {
        for i in 0..512 {
            bytes.push((i % 251) as u8);
        }
    }
    for bank in 0..prg_banks as usize {
        for i in 0..0x4000 {
            bytes.push(((i % 200) + bank) as u8);
        }
    }
    for i in 0..(chr_banks as usize * 0x2000) {
        bytes.push((i % 256) as u8);
    }
    bytes
}

#[test]
fn a_file_without_the_magic_number_is_refused() {
    let mut bytes = rom(1, 1, 0, 0);
    bytes[3] = 0x1B;
    assert!(matches!(load(&bytes), Err(LoadError::MissingMagic)));
    assert!(matches!(load(b"NOPE and more"), Err(LoadError::MissingMagic)));
}

#[test]
fn a_file_that_ends_early_is_refused() {
    assert!(matches!(load(&[]), Err(LoadError::Truncated)));
    assert!(matches!(load(&[0x4E, 0x45, 0x53]), Err(LoadError::Truncated)));
    assert!(matches!(load(&[0x4E, 0x45, 0x53, 0x1A, 1, 1]), Err(LoadError::Truncated)));
    let bytes = rom(2, 1, 0, 0);
    assert!(matches!(load(&bytes[..bytes.len() - 1]), Err(LoadError::Truncated)));
    assert!(matches!(load(&bytes[..16 + 0x8000]), Err(LoadError::Truncated)));
    assert!(matches!(load(&bytes[..16 + 0x7FFF]), Err(LoadError::Truncated)));
    assert!(load(&bytes).is_ok());
}

#[test]
fn a_short_file_is_reported_before_its_mapper() {
    let bytes = rom(1, 1, 0x10, 0);
    assert!(matches!(load(&bytes[..100]), Err(LoadError::Truncated)));
    assert!(matches!(load(&bytes), Err(LoadError::UnsupportedMapper(1))));
}

#[test]
fn a_mapper_that_is_not_there_is_refused_by_its_number() {
    assert!(matches!(load(&rom(1, 1, 0x10, 0x00)), Err(LoadError::UnsupportedMapper(1))));
    assert!(matches!(load(&rom(1, 1, 0x40, 0x00)), Err(LoadError::UnsupportedMapper(4))));
    assert!(matches!(load(&rom(1, 1, 0x50, 0xA0)), Err(LoadError::UnsupportedMapper(0xA5))));
    assert!(matches!(load(&rom(1, 1, 0x00, 0x10)), Err(LoadError::UnsupportedMapper(0x10))));
}

#[test]
fn a_file_without_a_program_is_refused() {
    assert!(matches!(load(&rom(0, 1, 0x00, 0x00)), Err(LoadError::EmptyProgram)));
    assert!(matches!(load(&rom(0, 0, 0x20, 0x00)), Err(LoadError::EmptyProgram)));
}

#[test]
fn trailing_bytes_are_ignored() {
    let mut bytes = rom(1, 1, 0, 0);
    bytes.extend_from_slice(&[1, 2, 3]);
    let cart = load(&bytes).unwrap();
    assert_eq!(cart.prg_data.len(), 0x4000);
    assert_eq!(cart.chr_data.len(), 0x2000);
}

#[test]
fn the_header_fields_are_taken_apart() {
    let mut bytes = rom(2, 1, 0b0000_1011, 0b0000_1010);
    bytes[8] = 7;
    bytes[9] = 1;
    let cart = load(&bytes).unwrap();
    let h = cart.header;
    assert_eq!(h.h_prg_size, 2);
    assert_eq!(h.h_chr_size, 1);
    assert!(!h.h_chr_ram);
    assert_eq!(h.h_mirroring, Mirroring::Vertical);
    assert!(h.h_battery);
    assert!(!h.h_trainer);
    assert!(h.h_alt_layout);
    assert_eq!(h.h_mapper, 0);
    assert_eq!(h.h_console, ConsoleType::Playchoice10);
    assert!(h.h_nes2);
    assert_eq!(h.h_prg_ram_size, 7);
    assert_eq!(h.h_tv_system, TVSystem::PAL);
}

#[test]
fn a_clear_header_means_horizontal_mirroring_and_ntsc() {
    let cart = load(&rom(1, 1, 0, 0)).unwrap();
    assert_eq!(cart.header.h_mirroring, Mirroring::Horizontal);
    assert_eq!(cart.header.h_tv_system, TVSystem::NTSC);
    assert_eq!(cart.header.h_console, ConsoleType::NES);
    assert!(!cart.header.h_battery);
    assert!(!cart.header.h_nes2);
}

#[test]
fn process_header_reads_twelve_bytes() {
    let mut cart = new_cartridge();
    process_header(&[3, 0, 0x21, 0x01, 9, 0, 0, 0, 0, 0, 0, 0], &mut cart);
    assert_eq!(cart.header.h_prg_size, 3);
    assert_eq!(cart.header.h_chr_size, 0);
    assert!(cart.header.h_chr_ram);
    assert_eq!(cart.header.h_mirroring, Mirroring::Vertical);
    assert_eq!(cart.header.h_mapper, 2);
    assert_eq!(cart.header.h_console, ConsoleType::NVS);
    assert_eq!(cart.header.h_prg_ram_size, 9);
    assert_eq!(cart.header.h_tv_system, TVSystem::NTSC);
}

#[test]
fn the_console_type_comes_from_two_bits() {
    assert_eq!(get_console_type(0), ConsoleType::NES);
    assert_eq!(get_console_type(1), ConsoleType::NVS);
    assert_eq!(get_console_type(2), ConsoleType::Playchoice10);
    assert_eq!(get_console_type(3), ConsoleType::Extended);
    assert_eq!(get_console_type(4), ConsoleType::Undefined);
}

#[test]
fn a_new_cartridge_is_empty() {
    let mut cart = new_cartridge();
    assert_eq!(cart.header.h_console, ConsoleType::Undefined);
    assert!(cart.prg_data.is_empty());
    assert!(cart.chr_data.is_empty());
    assert!(cart.trainer.iter().all(|b| *b == 0));
    assert!(matches!(cart.mapper, Mapper::Absent(_)));
    assert_eq!(cart.cpu_read(0x8000), 0);
    assert_eq!(cart.ppu_read(0x0000), 0);
    cart.cpu_write(0x8000, 0x55);
    cart.ppu_write(0x0000, 0x55);
    assert_eq!(cart.cpu_read(0x8000), 0);
    assert_eq!(cart.ppu_read(0x0000), 0);
    assert!(matches!(generic_mapper(), Mapper::Absent(_)));
}

#[test]
fn the_trainer_comes_before_the_program() {
    let cart = load(&rom(1, 1, 0x04, 0)).unwrap();
    assert!(cart.header.h_trainer);
    assert_eq!(cart.trainer[0], 0);
    assert_eq!(cart.trainer[250], 250);
    assert_eq!(cart.trainer[251], 0);
    assert_eq!(cart.trainer[511], 9);
    assert_eq!(cart.prg_data[0], 0);
    assert_eq!(cart.prg_data[199], 199);
    assert_eq!(cart.prg_data[200], 0);
}

#[test]
fn pattern_ram_is_eight_kilobytes_of_zeros() {
    let mut cart = load(&rom(1, 0, 0, 0)).unwrap();
    assert!(cart.header.h_chr_ram);
    assert_eq!(cart.chr_data.len(), 0x2000);
    assert_eq!(cart.ppu_read(0x0000), 0);
    assert_eq!(cart.ppu_read(0x1FFF), 0);
    cart.ppu_write(0x1234, 0xAB);
    assert_eq!(cart.ppu_read(0x1234), 0xAB);
    assert_eq!(cart.ppu_peek(0x1234), 0xAB);
    assert_eq!(cart.ppu_read(0x1233), 0);
}

#[test]
fn nrom_with_one_bank_shows_it_twice() {
    let mut cart = load(&rom(1, 1, 0, 0)).unwrap();
    assert!(matches!(cart.mapper, Mapper::Nrom(_)));
    assert_eq!(cart.cpu_read(0x8000), 0);
    assert_eq!(cart.cpu_read(0x8001), 1);
    assert_eq!(cart.cpu_read(0xC001), 1);
    assert_eq!(cart.cpu_read(0xBFFF), (0x3FFF % 200) as u8);
    assert_eq!(cart.cpu_read(0xFFFF), (0x3FFF % 200) as u8);
    assert_eq!(cart.cpu_peek(0xC001), 1);
    assert_eq!(cart.ppu_read(0x0123), 0x23);
}

#[test]
fn nrom_with_two_banks_shows_them_side_by_side() {
    let mut cart = load(&rom(2, 1, 0, 0)).unwrap();
    assert_eq!(cart.cpu_read(0x8001), 1);
    assert_eq!(cart.cpu_read(0xC001), 2);
    assert_eq!(cart.cpu_read(0xFFFF), (0x3FFF % 200) as u8 + 1);
}

#[test]
fn nrom_takes_writes_into_its_program_memory() {
    let mut cart = load(&rom(1, 1, 0, 0)).unwrap();
    cart.cpu_write(0x8010, 0xEE);
    assert_eq!(cart.cpu_read(0x8010), 0xEE);
    assert_eq!(cart.cpu_read(0xC010), 0xEE);
    assert_eq!(cart.cpu_read(0x8011), 17);
    // The data that was loaded is kept apart from what the mapper works on.
    assert_eq!(cart.prg_data[0x10], 16);
}

#[test]
fn uxrom_switches_the_low_bank_and_keeps_the_last_one_high() {
    let mut cart = load(&rom(4, 0, 0x20, 0)).unwrap();
    assert!(matches!(cart.mapper, Mapper::Uxrom(_)));
    assert_eq!(cart.cpu_read(0x8005), 5);
    assert_eq!(cart.cpu_read(0xC005), 5 + 3);
    cart.cpu_write(0x8000, 2);
    assert_eq!(cart.cpu_read(0x8005), 5 + 2);
    assert_eq!(cart.cpu_read(0xBFFF), (0x3FFF % 200) as u8 + 2);
    assert_eq!(cart.cpu_read(0xC005), 5 + 3);
    cart.cpu_write(0xFFFF, 0xF9);
    assert_eq!(cart.cpu_read(0x8005), 5 + 1);
    assert_eq!(cart.cpu_read(0xC005), 5 + 3);
}

#[test]
fn uxrom_wraps_a_bank_number_that_is_too_large() {
    let mut cart = load(&rom(4, 0, 0x20, 0)).unwrap();
    cart.cpu_write(0x8000, 6);
    assert_eq!(cart.cpu_read(0x8005), 5 + 2);
    cart.cpu_write(0x8000, 7);
    assert_eq!(cart.cpu_read(0x8005), 5 + 3);
}

#[test]
fn uxrom_shows_the_last_bank_below_the_switched_one() {
    let mut cart = load(&rom(4, 0, 0x20, 0)).unwrap();
    assert_eq!(cart.cpu_read(0x4025), ((0x25 % 200) + 3) as u8);
    assert_eq!(cart.cpu_read(0x7FFF), (0x3FFF % 200) as u8 + 3);
}

#[test]
fn uxrom_writes_from_0x8000_up_do_not_reach_memory() {
    let mut cart = load(&rom(2, 0, 0x20, 0)).unwrap();
    cart.cpu_write(0x8005, 0);
    assert_eq!(cart.cpu_read(0x8005), 5);
    cart.cpu_write(0x4025, 0x77);
    assert_eq!(cart.cpu_read(0xC025), 0x77);
    let mut small = load(&rom(1, 0, 0x20, 0)).unwrap();
    small.cpu_write(0x4025, 0x77);
    assert_eq!(small.cpu_read(0xC025), 0x25);
}

#[test]
fn reset_selects_the_first_bank_again() {
    let mut cart = load(&rom(4, 0, 0x20, 0)).unwrap();
    cart.cpu_write(0x8000, 3);
    assert_eq!(cart.cpu_read(0x8005), 5 + 3);
    cart.reset();
    assert_eq!(cart.cpu_read(0x8005), 5);
    let mut nrom = load(&rom(1, 1, 0, 0)).unwrap();
    nrom.reset();
    assert_eq!(nrom.cpu_read(0x8005), 5);
}

#[test]
fn choosing_a_mapper_needs_a_known_number() {
    let mut cart = new_cartridge();
    cart.header.h_mapper = 3;
    assert!(matches!(choose_mapper(&mut cart), Err(LoadError::UnsupportedMapper(3))));
    assert!(matches!(cart.mapper, Mapper::Absent(_)));
    cart.header.h_mapper = 0;
    assert!(matches!(choose_mapper(&mut cart), Err(LoadError::EmptyProgram)));
}
