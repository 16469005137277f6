use vstd::prelude::*;

use crate::cartridge::mapper::types::{Contents, Mapper, MapperT};
use crate::cartridge::types::Cartridge;

verus! {

/// NROM: one or two program banks at fixed places, and no bank register.
#[derive(Clone, Debug)]
pub struct Mapper0 {
    pub prg_banks: usize,
    pub chr_banks: usize,
    pub prg_data: Vec<u8>,
    pub chr_data: Vec<u8>,
}

/// Where NROM with `prg_banks` program banks finds a processor address in its program
/// data: a single bank shows at every 16 KB, two banks fill 32 KB.
pub open spec fn nrom_offset(prg_banks: int, address: u16) -> int {
    if prg_banks > 1 {
        (address % 0x8000) as int
    } else {
        (address % 0x4000) as int
    }
}

proof fn lemma_masks(address: u16)
    by (bit_vector)
    ensures
        address & 0x7FFF == address % 0x8000,
        address & 0x3FFF == address % 0x4000,
{
}

impl Mapper0 {
    fn cpu_r_map(&self, address: u16) -> (offset: usize)
        ensures
            offset == nrom_offset(self.prg_banks as int, address),
    {
        proof {
            lemma_masks(address);
        }
        if self.prg_banks > 1 {
            (address & 0x7FFF) as usize
        } else {
            (address & 0x3FFF) as usize
        }
    }

    fn cpu_w_map(&self, address: u16, _byte: u8) -> (offset: Option<usize>)
        ensures
            offset == Some(nrom_offset(self.prg_banks as int, address) as usize),
    {
        proof {
            lemma_masks(address);
        }
        if self.prg_banks > 1 {
            Some((address & 0x7FFF) as usize)
        } else {
            Some((address & 0x3FFF) as usize)
        }
    }

    fn ppu_r_map(&self, address: u16) -> (offset: usize)
        ensures
            offset == address,
    {
        address as usize
    }

    fn ppu_w_map(&self, address: u16, _byte: u8) -> (offset: Option<usize>)
        ensures
            offset == Some(address as usize),
    {
        Some(address as usize)
    }
}

impl MapperT for Mapper0 {
    /// The buffers hold what the bank counts announce, and a program is there.
    open spec fn wf(&self) -> bool {
        &&& 1 <= self.prg_banks <= 255
        &&& self.prg_data.len() == 0x4000 * self.prg_banks
        &&& self.chr_data.len() >= 0x2000
    }

    open spec fn contents(&self) -> Contents {
        Contents { prg: self.prg_data@, chr: self.chr_data@, selected_bank: 0 }
    }

    open spec fn cpu_seen(&self, address: u16) -> u8 {
        self.prg_data[nrom_offset(self.prg_banks as int, address)]
    }

    open spec fn ppu_seen(&self, address: u16) -> u8 {
        self.chr_data[address as int]
    }

    open spec fn cpu_written(&self, address: u16, byte: u8) -> Contents {
        Contents {
            prg: self.prg_data@.update(nrom_offset(self.prg_banks as int, address), byte),
            ..self.contents()
        }
    }

    open spec fn ppu_written(&self, address: u16, byte: u8) -> Contents {
        Contents { chr: self.chr_data@.update(address as int, byte), ..self.contents() }
    }

    fn cpu_read(&mut self, address: u16) -> (byte: u8) {
        let mapped_address = self.cpu_r_map(address);
        self.prg_data[mapped_address]
    }

    fn cpu_write(&mut self, address: u16, byte: u8)
        ensures
            final(self).prg_banks == old(self).prg_banks,
            final(self).chr_banks == old(self).chr_banks,
    {
        let optional_map = self.cpu_w_map(address, byte);
        match optional_map {
            Some(mapped_address) => {
                self.prg_data[mapped_address] = byte;
            },
            None => {},
        }
    }

    fn ppu_read(&mut self, address: u16) -> (byte: u8) {
        let mapped_address = self.ppu_r_map(address);
        self.chr_data[mapped_address]
    }

    fn intact(&self) -> (ok: bool) {
        self.prg_banks >= 1 && self.prg_banks <= 255 && self.prg_data.len() == 0x4000
            * self.prg_banks && self.chr_data.len() >= 0x2000
    }

    fn cpu_peek(&self, address: u16) -> (byte: u8) {
        let mapped_address = self.cpu_r_map(address);
        self.prg_data[mapped_address]
    }

    fn ppu_peek(&self, address: u16) -> (byte: u8) {
        let mapped_address = self.ppu_r_map(address);
        self.chr_data[mapped_address]
    }

    fn ppu_write(&mut self, address: u16, byte: u8)
        ensures
            final(self).prg_banks == old(self).prg_banks,
            final(self).chr_banks == old(self).chr_banks,
    {
        let optional_map = self.ppu_w_map(address, byte);
        match optional_map {
            Some(mapped_address) => {
                self.chr_data[mapped_address] = byte;
            },
            None => {},
        }
    }

    fn reset(&mut self) {
    }
}

/// Makes NROM the mapper of the cartridge, with a copy of its program and pattern data.
pub fn install(cartridge: &mut Cartridge)
    requires
        old(cartridge).filled(),
        old(cartridge).header.h_prg_size > 0,
    ensures
        final(cartridge).fitted(*old(cartridge)),
        final(cartridge).mapper is Nrom,
        final(cartridge).mapper->Nrom_0.prg_banks == old(cartridge).header.h_prg_size,
        final(cartridge).mapper->Nrom_0.chr_banks == old(cartridge).header.h_chr_size,
{
    let prg_banks = cartridge.header.h_prg_size as usize;
    let chr_banks = cartridge.header.h_chr_size as usize;
    let prg_data = cartridge.prg_data.clone();
    let chr_data = cartridge.chr_data.clone();
    let mapper0 = Mapper0 { prg_banks, chr_banks, prg_data, chr_data };
    cartridge.mapper = Mapper::Nrom(mapper0);
}

} // verus!
