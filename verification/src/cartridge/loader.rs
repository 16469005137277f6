use vstd::prelude::*;
use vstd::slice::{slice_subrange, slice_to_vec};

use crate::cartridge::mapper::{choose_mapper, chosen, generic_mapper};
use crate::cartridge::types::{Cartridge, ConsoleType, Header, Mirroring, TVSystem};
use crate::utils;
use crate::utils::has_bit;

verus! {

/// Why a file is no cartridge that the library can run.
#[derive(Copy, Clone, Debug, PartialEq, Eq, Structural)]
pub enum LoadError {
    /// The file does not begin with the four bytes of the format.
    MissingMagic,
    /// The file ends before the data that its header announces.
    Truncated,
    /// The header asks for a mapper that the library does not have.
    UnsupportedMapper(u8),
    /// The header announces no program bank.
    EmptyProgram,
}

pub fn new_cartridge() -> (cart: Cartridge)
    ensures
        cart.header == blank_header(),
        cart.prg_data@ == Seq::<u8>::empty(),
        cart.chr_data@ == Seq::<u8>::empty(),
        cart.trainer@ == Seq::new(512, |i: int| 0u8),
        cart.mapper == generic_mapper_spec(),
{
    Cartridge {
        header: Header {
            h_prg_size: 0,
            h_chr_size: 0,
            h_chr_ram: false,
            h_mirroring: Mirroring::Horizontal,
            h_battery: false,
            h_trainer: false,
            h_alt_layout: false,
            h_mapper: 0,
            h_console: ConsoleType::Undefined,
            h_nes2: false,
            h_prg_ram_size: 0,
            h_tv_system: TVSystem::NTSC,
        },
        trainer: [0;512],
        prg_data: Vec::new(),
        chr_data: Vec::new(),
        mapper: generic_mapper(),
    }
}

/// The mapper of an empty cartridge.
pub open spec fn generic_mapper_spec() -> crate::cartridge::mapper::types::Mapper {
    crate::cartridge::mapper::types::Mapper::Absent(crate::cartridge::mapper::nomapper::NoMapper {  })
}

/// The header of a cartridge that nothing was loaded into.
pub open spec fn blank_header() -> Header {
    Header {
        h_prg_size: 0,
        h_chr_size: 0,
        h_chr_ram: false,
        h_mirroring: Mirroring::Horizontal,
        h_battery: false,
        h_trainer: false,
        h_alt_layout: false,
        h_mapper: 0,
        h_console: ConsoleType::Undefined,
        h_nes2: false,
        h_prg_ram_size: 0,
        h_tv_system: TVSystem::NTSC,
    }
}

/// The console that the low two bits of the second flag byte name.
pub open spec fn console_type(byte: u8) -> ConsoleType {
    if byte == 0 {
        ConsoleType::NES
    } else if byte == 1 {
        ConsoleType::NVS
    } else if byte == 2 {
        ConsoleType::Playchoice10
    } else if byte == 3 {
        ConsoleType::Extended
    } else {
        ConsoleType::Undefined
    }
}

pub fn get_console_type(byte: u8) -> (console: ConsoleType)
    ensures
        console == console_type(byte),
{
    match byte {
        0 => ConsoleType::NES,
        1 => ConsoleType::NVS,
        2 => ConsoleType::Playchoice10,
        3 => ConsoleType::Extended,
        _ => ConsoleType::Undefined,
    }
}

/// What the twelve bytes behind the magic number say. Bit 0 of the first flag byte
/// chooses vertical mirroring, bit 0 of the fourth the PAL system; the mapper number has
/// its low half in the high half of the first flag byte and its high half in that of
/// the second.
pub open spec fn header_of(buffer: Seq<u8>) -> Header {
    Header {
        h_prg_size: buffer[0],
        h_chr_size: buffer[1],
        h_chr_ram: buffer[1] == 0,
        h_mirroring: if has_bit(buffer[2] as int, 0x01) {
            Mirroring::Vertical
        } else {
            Mirroring::Horizontal
        },
        h_battery: has_bit(buffer[2] as int, 0x02),
        h_trainer: has_bit(buffer[2] as int, 0x04),
        h_alt_layout: has_bit(buffer[2] as int, 0x08),
        h_mapper: (buffer[2] / 16 + (buffer[3] / 16) * 16) as u8,
        h_console: console_type(buffer[3] % 4),
        h_nes2: has_bit(buffer[3] as int, 0x08),
        h_prg_ram_size: buffer[4],
        h_tv_system: if has_bit(buffer[5] as int, 0x01) {
            TVSystem::PAL
        } else {
            TVSystem::NTSC
        },
    }
}

proof fn lemma_nibbles(byte: u8)
    by (bit_vector)
    ensures
        byte >> 4 == byte / 16,
        byte & 0xF0 == (byte / 16) * 16,
        byte & 0x3 == byte % 4,
{
}

pub fn process_header(buffer: &[u8; 12], cart: &mut Cartridge)
    ensures
        final(cart).header == header_of(buffer@),
        final(cart).trainer == old(cart).trainer,
        final(cart).prg_data == old(cart).prg_data,
        final(cart).chr_data == old(cart).chr_data,
        final(cart).mapper == old(cart).mapper,
{
    let prg_size = buffer[0];
    let chr_size = buffer[1];

    cart.header.h_prg_size = prg_size;
    cart.header.h_chr_size = chr_size;
    cart.header.h_chr_ram = chr_size == 0;

    // Flag 6
    let flag6 = buffer[2];
    let mirroring = if utils::b0(flag6) {
        Mirroring::Vertical
    } else {
        Mirroring::Horizontal
    };
    let battery = utils::b1(flag6);
    let trainer = utils::b2(flag6);
    let alt_layout = utils::b3(flag6);
    let mapper_lsn = flag6 >> 4;

    cart.header.h_mirroring = mirroring;
    cart.header.h_battery = battery;
    cart.header.h_trainer = trainer;
    cart.header.h_alt_layout = alt_layout;

    // Flag 7
    let flag7 = buffer[3];
    proof {
        lemma_nibbles(flag6);
        lemma_nibbles(flag7);
    }
    let console_type = get_console_type(flag7 & 0x3);
    let nes2 = utils::b3(flag7);
    let mapper_msn = flag7 & 0xF0;

    cart.header.h_console = console_type;
    cart.header.h_nes2 = nes2;
    cart.header.h_mapper = mapper_lsn + mapper_msn;

    // Flag 8
    let prg_ram_size = buffer[4];
    cart.header.h_prg_ram_size = prg_ram_size;

    // Flag 9
    let flag9 = buffer[5];
    let tv_system = if utils::b0(flag9) {
        TVSystem::PAL
    } else {
        TVSystem::NTSC
    };

    cart.header.h_tv_system = tv_system;
    // The remaining bytes are padding.
}

/// The four bytes that every file of the format begins with.
pub open spec fn has_magic(rom: Seq<u8>) -> bool {
    rom[0] == 0x4E && rom[1] == 0x45 && rom[2] == 0x53 && rom[3] == 0x1A
}

/// Where the trainer ends in a file with this header: it follows the sixteen bytes of
/// the header and has 512 bytes where the header announces one.
pub open spec fn trainer_end(header: Header) -> int {
    if header.h_trainer {
        528
    } else {
        16
    }
}

/// Where the program data ends in a file with this header.
pub open spec fn prg_end(header: Header) -> int {
    trainer_end(header) + 0x4000 * header.h_prg_size
}

/// Where the pattern data ends in a file with this header. A cartridge with pattern
/// RAM has no pattern data in its file.
pub open spec fn chr_end(header: Header) -> int {
    prg_end(header) + 0x2000 * header.h_chr_size
}

/// Why the file `rom` cannot be loaded, if it cannot. What is checked first is reported
/// first: the length up to the magic number, the magic number, the length of the header,
/// of the trainer, of the program and of the pattern data, and last the mapper.
pub open spec fn refusal(rom: Seq<u8>) -> Option<LoadError> {
    if rom.len() < 4 {
        Some(LoadError::Truncated)
    } else if !has_magic(rom) {
        Some(LoadError::MissingMagic)
    } else if rom.len() < 16 {
        Some(LoadError::Truncated)
    } else if rom.len() < chr_end(header_of(rom.subrange(4, 16))) {
        Some(LoadError::Truncated)
    } else {
        match chosen(header_of(rom.subrange(4, 16)).h_mapper, header_of(rom.subrange(4, 16)).h_prg_size) {
            Err(e) => Some(e),
            Ok(_) => None,
        }
    }
}

/// The pattern memory of the cartridge in the file `rom`: what the file holds, or 8 KB
/// of zeros where the cartridge has pattern RAM.
pub open spec fn chr_of(rom: Seq<u8>, header: Header) -> Seq<u8> {
    if header.h_chr_size == 0 {
        Seq::new(0x2000, |i: int| 0u8)
    } else {
        rom.subrange(prg_end(header), chr_end(header))
    }
}

/// The trainer of the cartridge in the file `rom`, zeros where it has none.
pub open spec fn trainer_of(rom: Seq<u8>, header: Header) -> Seq<u8> {
    if header.h_trainer {
        rom.subrange(16, 528)
    } else {
        Seq::new(512, |i: int| 0u8)
    }
}

/// Reads the header at the start of the file.
fn load_header(rom: &[u8], cart: &mut Cartridge) -> (result: Result<usize, LoadError>)
    ensures
        result == (if rom@.len() < 4 {
            Err::<usize, LoadError>(LoadError::Truncated)
        } else if !has_magic(rom@) {
            Err(LoadError::MissingMagic)
        } else if rom@.len() < 16 {
            Err(LoadError::Truncated)
        } else {
            Ok(16usize)
        }),
        result is Ok ==> final(cart).header == header_of(rom@.subrange(4, 16)),
        result is Err ==> final(cart).header == old(cart).header,
        final(cart).trainer == old(cart).trainer,
        final(cart).prg_data == old(cart).prg_data,
        final(cart).chr_data == old(cart).chr_data,
        final(cart).mapper == old(cart).mapper,
{
    if rom.len() < 4 {
        return Err(LoadError::Truncated);
    }
    if rom[0] != 0x4E || rom[1] != 0x45 || rom[2] != 0x53 || rom[3] != 0x1A {
        return Err(LoadError::MissingMagic);
    }
    if rom.len() < 16 {
        return Err(LoadError::Truncated);
    }
    let mut header_buffer: [u8; 12] = [0;12];
    let mut i: usize = 0;
    while i < 12
        invariant
            i <= 12,
            rom@.len() >= 16,
            forall|k: int| 0 <= k < i ==> header_buffer[k] == rom@[4 + k],
        decreases 12 - i,
    {
        header_buffer[i] = rom[4 + i];
        i = i + 1;
    }
    assert(header_buffer@ =~= rom@.subrange(4, 16));
    process_header(&header_buffer, cart);
    Ok(16)
}

/// Reads the trainer, where the header announces one.
fn load_trainer(rom: &[u8], at: usize, cart: &mut Cartridge) -> (result: Result<usize, LoadError>)
    requires
        at == 16,
    ensures
        result == (if rom@.len() < trainer_end(old(cart).header) {
            Err::<usize, LoadError>(LoadError::Truncated)
        } else {
            Ok(trainer_end(old(cart).header) as usize)
        }),
        result is Ok ==> final(cart).trainer@ == (if old(cart).header.h_trainer {
            rom@.subrange(16, 528)
        } else {
            old(cart).trainer@
        }),
        final(cart).header == old(cart).header,
        final(cart).prg_data == old(cart).prg_data,
        final(cart).chr_data == old(cart).chr_data,
        final(cart).mapper == old(cart).mapper,
{
    let has_trainer = cart.header.h_trainer;
    if has_trainer {
        if rom.len() < at + 512 {
            return Err(LoadError::Truncated);
        }
        let mut i: usize = 0;
        while i < 512
            invariant
                i <= 512,
                at == 16,
                rom@.len() >= 528,
                forall|k: int| 0 <= k < i ==> cart.trainer[k] == rom@[16 + k],
                cart.header == old(cart).header,
                cart.prg_data == old(cart).prg_data,
                cart.chr_data == old(cart).chr_data,
                cart.mapper == old(cart).mapper,
            decreases 512 - i,
        {
            cart.trainer[i] = rom[at + i];
            i = i + 1;
        }
        assert(cart.trainer@ =~= rom@.subrange(16, 528));
        Ok(at + 512)
    } else {
        if rom.len() < at {
            return Err(LoadError::Truncated);
        }
        Ok(at)
    }
}

/// Reads the program banks.
fn load_prg(rom: &[u8], at: usize, cart: &mut Cartridge) -> (result: Result<usize, LoadError>)
    requires
        at == trainer_end(old(cart).header),
        at <= rom@.len(),
    ensures
        result == (if rom@.len() < prg_end(old(cart).header) {
            Err::<usize, LoadError>(LoadError::Truncated)
        } else {
            Ok(prg_end(old(cart).header) as usize)
        }),
        result is Ok ==> final(cart).prg_data@ == rom@.subrange(at as int, prg_end(old(cart).header)),
        final(cart).header == old(cart).header,
        final(cart).trainer == old(cart).trainer,
        final(cart).chr_data == old(cart).chr_data,
        final(cart).mapper == old(cart).mapper,
{
    let buffer_size = 0x4000 * (cart.header.h_prg_size as usize);
    if rom.len() - at < buffer_size {
        return Err(LoadError::Truncated);
    }
    cart.prg_data = slice_to_vec(slice_subrange(rom, at, at + buffer_size));
    Ok(at + buffer_size)
}

/// Reads the pattern banks, or makes 8 KB of pattern RAM.
fn load_chr(rom: &[u8], at: usize, cart: &mut Cartridge) -> (result: Result<usize, LoadError>)
    requires
        at == prg_end(old(cart).header),
        at <= rom@.len(),
    ensures
        result == (if rom@.len() < chr_end(old(cart).header) {
            Err::<usize, LoadError>(LoadError::Truncated)
        } else {
            Ok(chr_end(old(cart).header) as usize)
        }),
        result is Ok ==> final(cart).chr_data@ == chr_of(rom@, old(cart).header),
        final(cart).header == old(cart).header,
        final(cart).trainer == old(cart).trainer,
        final(cart).prg_data == old(cart).prg_data,
        final(cart).mapper == old(cart).mapper,
{
    let buffer_size = 0x2000 * (cart.header.h_chr_size as usize);
    if rom.len() - at < buffer_size {
        return Err(LoadError::Truncated);
    }
    if cart.header.h_chr_size == 0 {
        cart.chr_data = vec![0u8; 0x2000];
        assert(cart.chr_data@ =~= chr_of(rom@, old(cart).header));
    } else {
        cart.chr_data = slice_to_vec(slice_subrange(rom, at, at + buffer_size));
    }
    Ok(at + buffer_size)
}

fn setup_mapper(cart: &mut Cartridge) -> (result: Result<(), LoadError>)
    requires
        old(cart).filled(),
    ensures
        result == chosen(old(cart).header.h_mapper, old(cart).header.h_prg_size),
        result is Ok ==> final(cart).fitted(*old(cart)),
        result is Err ==> *final(cart) == *old(cart),
{
    choose_mapper(cart)
}

/// Makes a cartridge of the bytes of a file. The file is refused for the first reason
/// that `refusal` finds and for no other; a cartridge that is handed out holds what the
/// file holds and has the mapper that its header asks for, ready to serve every address.
pub fn load(rom: &[u8]) -> (result: Result<Cartridge, LoadError>)
    ensures
        match result {
            Ok(cart) => {
                &&& refusal(rom@) is None
                &&& cart.header == header_of(rom@.subrange(4, 16))
                &&& cart.trainer@ == trainer_of(rom@, cart.header)
                &&& cart.prg_data@ == rom@.subrange(trainer_end(cart.header), prg_end(cart.header))
                &&& cart.chr_data@ == chr_of(rom@, cart.header)
                &&& cart.wf()
                &&& cart.mapper.contents() == (crate::cartridge::mapper::types::Contents {
                    prg: cart.prg_data@,
                    chr: cart.chr_data@,
                    selected_bank: 0,
                })
            },
            Err(e) => refusal(rom@) == Some(e),
        },
{
    let mut cart = new_cartridge();
    let at = load_header(rom, &mut cart)?;
    let at = load_trainer(rom, at, &mut cart)?;
    let at = load_prg(rom, at, &mut cart)?;
    let _ = load_chr(rom, at, &mut cart)?;
    setup_mapper(&mut cart)?;
    Ok(cart)
}

} // verus!
