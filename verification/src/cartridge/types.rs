use vstd::prelude::*;

use crate::cartridge::mapper::types::{Contents, Mapper};

verus! {

/// How the four logical nametables lie in the console's two physical ones.
#[derive(Copy, Clone, Debug, PartialEq, Eq, Structural)]
pub enum Mirroring {
    /// The tables beside each other are one: the upper pair and the lower pair differ.
    Horizontal,
    /// The tables above each other are one: the left pair and the right pair differ.
    Vertical,
}

#[derive(Copy, Clone, Debug, PartialEq, Eq, Structural)]
pub enum ConsoleType {
    NES,
    NVS,
    Playchoice10,
    Extended,
    Undefined,
}

#[derive(Copy, Clone, Debug, PartialEq, Eq, Structural)]
pub enum TVSystem {
    NTSC,
    PAL,
}

#[derive(Copy, Clone, Debug, PartialEq, Eq, Structural)]
pub struct Header {
    /// Program banks of 16 KB.
    pub h_prg_size: u8,
    /// Pattern banks of 8 KB; none means that the cartridge has 8 KB of pattern RAM.
    pub h_chr_size: u8,
    pub h_chr_ram: bool,
    pub h_mirroring: Mirroring,
    pub h_battery: bool,
    pub h_trainer: bool,
    pub h_alt_layout: bool,
    pub h_mapper: u8,
    pub h_console: ConsoleType,
    pub h_nes2: bool,
    pub h_prg_ram_size: u8,
    pub h_tv_system: TVSystem,
}

#[derive(Clone)]
pub struct Cartridge {
    pub header: Header,
    pub trainer: [u8; 512],
    pub prg_data: Vec<u8>,
    pub chr_data: Vec<u8>,
    pub mapper: Mapper,
}

/// The bytes of pattern memory that a header with `chr_banks` pattern banks stands for.
pub open spec fn chr_len(chr_banks: u8) -> int {
    if chr_banks == 0 {
        0x2000
    } else {
        0x2000 * chr_banks
    }
}

impl Cartridge {
    /// The buffers hold what the header announces.
    pub open spec fn filled(&self) -> bool {
        &&& self.prg_data.len() == 0x4000 * self.header.h_prg_size
        &&& self.chr_data.len() == chr_len(self.header.h_chr_size)
    }

    /// The cartridge is `before` with a mapper that holds its data and has the first
    /// bank selected.
    pub open spec fn fitted(&self, before: Cartridge) -> bool {
        &&& self.header == before.header
        &&& self.trainer == before.trainer
        &&& self.prg_data == before.prg_data
        &&& self.chr_data == before.chr_data
        &&& self.mapper.wf()
        &&& self.mapper.contents() == (Contents {
            prg: before.prg_data@,
            chr: before.chr_data@,
            selected_bank: 0,
        })
    }

    /// The mapper can serve every address.
    pub open spec fn wf(&self) -> bool {
        self.mapper.wf()
    }

    /// The cartridge but for what its mapper holds.
    pub open spec fn same_shell(&self, before: Cartridge) -> bool {
        &&& self.header == before.header
        &&& self.trainer == before.trainer
        &&& self.prg_data == before.prg_data
        &&& self.chr_data == before.chr_data
        &&& self.mapper.same_scheme(&before.mapper)
    }

    /// Whether the cartridge is well-formed.
    pub fn intact(&self) -> (ok: bool)
        ensures
            ok == self.wf(),
    {
        self.mapper.intact()
    }

    pub fn cpu_read(&mut self, address: u16) -> (byte: u8)
        requires
            old(self).wf(),
        ensures
            byte == old(self).mapper.cpu_seen(address),
            *final(self) == *old(self),
    {
        self.mapper.cpu_read(address)
    }

    pub fn cpu_write(&mut self, address: u16, byte: u8)
        requires
            old(self).wf(),
        ensures
            final(self).wf(),
            final(self).same_shell(*old(self)),
            final(self).mapper.contents() == old(self).mapper.cpu_written(address, byte),
    {
        self.mapper.cpu_write(address, byte)
    }

    /// What a read by the processor would give.
    pub fn cpu_peek(&self, address: u16) -> (byte: u8)
        requires
            self.wf(),
        ensures
            byte == self.mapper.cpu_seen(address),
    {
        self.mapper.cpu_peek(address)
    }

    pub fn ppu_read(&mut self, address: u16) -> (byte: u8)
        requires
            old(self).wf(),
            address < 0x2000,
        ensures
            byte == old(self).mapper.ppu_seen(address),
            *final(self) == *old(self),
    {
        self.mapper.ppu_read(address)
    }

    pub fn ppu_write(&mut self, address: u16, byte: u8)
        requires
            old(self).wf(),
            address < 0x2000,
        ensures
            final(self).wf(),
            final(self).same_shell(*old(self)),
            final(self).mapper.contents() == old(self).mapper.ppu_written(address, byte),
    {
        self.mapper.ppu_write(address, byte)
    }

    /// What a read by the picture unit would give.
    pub fn ppu_peek(&self, address: u16) -> (byte: u8)
        requires
            self.wf(),
            address < 0x2000,
        ensures
            byte == self.mapper.ppu_seen(address),
    {
        self.mapper.ppu_peek(address)
    }

    pub fn reset(&mut self)
        requires
            old(self).wf(),
        ensures
            final(self).wf(),
            final(self).same_shell(*old(self)),
            final(self).mapper.contents() == (Contents {
                selected_bank: 0,
                ..old(self).mapper.contents()
            }),
    {
        self.mapper.reset()
    }
}

} // verus!
