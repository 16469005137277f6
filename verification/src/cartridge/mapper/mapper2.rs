use vstd::prelude::*;

use crate::cartridge::mapper::types::{Contents, Mapper, MapperT};
use crate::cartridge::types::Cartridge;

verus! {

/// UXROM: the processor sees a bank that it can choose at 0x8000 and the last bank at
/// 0xC000.
#[derive(Clone, Debug)]
pub struct Mapper2 {
    pub selected_bank: usize,
    pub switchable_banks: u8,
    pub prg_data: Vec<u8>,
    pub chr_data: Vec<u8>,
}

/// Where UXROM with `banks` program banks finds a processor address in its program
/// data. From 0x8000 to 0xBFFF the bank register decides; a register that names a bank
/// which is not there wraps round the banks that are. Every other address shows the
/// last bank.
pub open spec fn uxrom_offset(selected_bank: int, banks: int, address: u16) -> int {
    if 0x8000 <= address <= 0xBFFF {
        (selected_bank % banks) * 0x4000 + address % 0x4000
    } else {
        (banks - 1) * 0x4000 + address % 0x4000
    }
}

proof fn lemma_bank_offset(address: u16)
    by (bit_vector)
    ensures
        address & 0x3FFF == address % 0x4000,
{
}

proof fn lemma_bank_bits(byte: u8)
    by (bit_vector)
    ensures
        byte & 0x07 == byte % 8,
{
}

impl Mapper2 {
    fn cpu_r_map(&self, address: u16) -> (offset: usize)
        requires
            self.wf(),
        ensures
            offset == uxrom_offset(self.selected_bank as int, self.switchable_banks as int, address),
            offset < self.prg_data.len(),
    {
        proof {
            lemma_bank_offset(address);
        }
        let bank_offset = (address & 0x3FFF) as usize;
        if address >= 0x8000 && address <= 0xBFFF {
            let bank = self.selected_bank % (self.switchable_banks as usize);
            let bank_address = bank * 0x4000;
            bank_address + bank_offset
        } else {
            let bank_address = (self.switchable_banks as usize - 1) * 0x4000;
            bank_address + bank_offset
        }
    }

    fn cpu_w_map(&mut self, address: u16, byte: u8) -> (offset: Option<usize>)
        requires
            old(self).wf(),
        ensures
            final(self).wf(),
            final(self).switchable_banks == old(self).switchable_banks,
            final(self).prg_data == old(self).prg_data,
            final(self).chr_data == old(self).chr_data,
            address >= 0x8000 ==> offset is None && final(self).selected_bank == byte % 8,
            address < 0x8000 ==> offset == Some(address as usize) && final(self).selected_bank == old(
                self,
            ).selected_bank,
    {
        proof {
            lemma_bank_bits(byte);
        }
        if address >= 0x8000 {
            self.selected_bank = (byte & 0x7) as usize;
            None
        } else {
            Some(address as usize)
        }
    }

    fn ppu_r_map(&self, address: u16) -> (offset: usize)
        ensures
            offset == address,
    {
        address as usize
    }

    fn ppu_w_map(&self, address: u16, _byte: u8) -> (offset: Option<usize>)
        ensures
            offset == Some(address as usize),
    {
        Some(address as usize)
    }
}

impl MapperT for Mapper2 {
    /// The buffers hold what the bank count announces, a program is there, and the
    /// bank register holds three bits.
    open spec fn wf(&self) -> bool {
        &&& 1 <= self.switchable_banks
        &&& self.prg_data.len() == 0x4000 * self.switchable_banks
        &&& self.chr_data.len() >= 0x2000
        &&& self.selected_bank < 8
    }

    open spec fn contents(&self) -> Contents {
        Contents { prg: self.prg_data@, chr: self.chr_data@, selected_bank: self.selected_bank as int }
    }

    open spec fn cpu_seen(&self, address: u16) -> u8 {
        self.prg_data[uxrom_offset(self.selected_bank as int, self.switchable_banks as int, address)]
    }

    open spec fn ppu_seen(&self, address: u16) -> u8 {
        self.chr_data[address as int]
    }

    /// A write from 0x8000 up goes to the bank register, which keeps the low three
    /// bits. A write below goes into the program data at the address itself, and is
    /// lost where the data ends before it.
    open spec fn cpu_written(&self, address: u16, byte: u8) -> Contents {
        if address >= 0x8000 {
            Contents { selected_bank: (byte % 8) as int, ..self.contents() }
        } else if address < self.prg_data.len() {
            Contents { prg: self.prg_data@.update(address as int, byte), ..self.contents() }
        } else {
            self.contents()
        }
    }

    open spec fn ppu_written(&self, address: u16, byte: u8) -> Contents {
        Contents { chr: self.chr_data@.update(address as int, byte), ..self.contents() }
    }

    fn cpu_read(&mut self, address: u16) -> (byte: u8) {
        let mapped_address = self.cpu_r_map(address);
        self.prg_data[mapped_address]
    }

    fn cpu_write(&mut self, address: u16, byte: u8)
        ensures
            final(self).switchable_banks == old(self).switchable_banks,
    {
        let optional_map = self.cpu_w_map(address, byte);
        match optional_map {
            Some(mapped_address) => {
                if mapped_address < self.prg_data.len() {
                    self.prg_data[mapped_address] = byte;
                }
            },
            None => {},
        }
    }

    fn ppu_read(&mut self, address: u16) -> (byte: u8) {
        let mapped_address = self.ppu_r_map(address);
        self.chr_data[mapped_address]
    }

    fn intact(&self) -> (ok: bool) {
        self.switchable_banks >= 1 && self.prg_data.len() == 0x4000 * (self.switchable_banks as usize)
            && self.chr_data.len() >= 0x2000 && self.selected_bank < 8
    }

    fn cpu_peek(&self, address: u16) -> (byte: u8) {
        let mapped_address = self.cpu_r_map(address);
        self.prg_data[mapped_address]
    }

    fn ppu_peek(&self, address: u16) -> (byte: u8) {
        let mapped_address = self.ppu_r_map(address);
        self.chr_data[mapped_address]
    }

    fn ppu_write(&mut self, address: u16, byte: u8)
        ensures
            final(self).switchable_banks == old(self).switchable_banks,
    {
        let optional_map = self.ppu_w_map(address, byte);
        match optional_map {
            Some(mapped_address) => {
                self.chr_data[mapped_address] = byte;
            },
            None => {},
        }
    }

    fn reset(&mut self)
        ensures
            final(self).switchable_banks == old(self).switchable_banks,
    {
        self.selected_bank = 0;
    }
}

/// Makes UXROM the mapper of the cartridge, with a copy of its program and pattern
/// data and with the first bank selected.
pub fn install(cartridge: &mut Cartridge)
    requires
        old(cartridge).filled(),
        old(cartridge).header.h_prg_size > 0,
    ensures
        final(cartridge).fitted(*old(cartridge)),
        final(cartridge).mapper is Uxrom,
        final(cartridge).mapper->Uxrom_0.switchable_banks == old(cartridge).header.h_prg_size,
{
    let selected_bank: usize = 0;
    let switchable_banks = cartridge.header.h_prg_size;
    let prg_data = cartridge.prg_data.clone();
    let chr_data = cartridge.chr_data.clone();
    let mapper2 = Mapper2 { selected_bank, switchable_banks, prg_data, chr_data };
    cartridge.mapper = Mapper::Uxrom(mapper2);
}

} // verus!
