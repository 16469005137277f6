use vstd::prelude::*;

use crate::cartridge::mapper::mapper0::Mapper0;
use crate::cartridge::mapper::mapper2::Mapper2;
use crate::cartridge::mapper::nomapper::NoMapper;

verus! {

/// What a mapper holds, as the contracts see it.
pub struct Contents {
    /// The program data, bank after bank.
    pub prg: Seq<u8>,
    /// The pattern data.
    pub chr: Seq<u8>,
    /// What the bank register holds.
    pub selected_bank: int,
}

/// What a cartridge's addressing scheme offers to the two buses. Pattern data lies at
/// the addresses below 0x2000, and no other address of the picture unit is for the
/// cartridge.
pub trait MapperT: Sized {
    spec fn wf(&self) -> bool;

    spec fn contents(&self) -> Contents;

    /// The byte that the processor finds at `address`.
    spec fn cpu_seen(&self, address: u16) -> u8;

    /// The byte that the picture unit finds at `address`.
    spec fn ppu_seen(&self, address: u16) -> u8;

    /// What the mapper holds once the processor has written `byte` to `address`.
    spec fn cpu_written(&self, address: u16, byte: u8) -> Contents;

    /// What the mapper holds once the picture unit has written `byte` to `address`.
    spec fn ppu_written(&self, address: u16, byte: u8) -> Contents;

    fn cpu_read(&mut self, address: u16) -> (byte: u8)
        requires
            old(self).wf(),
        ensures
            byte == old(self).cpu_seen(address),
            *final(self) == *old(self),
    ;

    fn cpu_write(&mut self, address: u16, byte: u8)
        requires
            old(self).wf(),
        ensures
            final(self).wf(),
            final(self).contents() == old(self).cpu_written(address, byte),
    ;

    fn ppu_read(&mut self, address: u16) -> (byte: u8)
        requires
            old(self).wf(),
            address < 0x2000,
        ensures
            byte == old(self).ppu_seen(address),
            *final(self) == *old(self),
    ;

    fn ppu_write(&mut self, address: u16, byte: u8)
        requires
            old(self).wf(),
            address < 0x2000,
        ensures
            final(self).wf(),
            final(self).contents() == old(self).ppu_written(address, byte),
    ;

    /// Whether the mapper is well-formed.
    fn intact(&self) -> (ok: bool)
        ensures
            ok == self.wf(),
    ;

    /// What a read by the processor would give.
    fn cpu_peek(&self, address: u16) -> (byte: u8)
        requires
            self.wf(),
        ensures
            byte == self.cpu_seen(address),
    ;

    /// What a read by the picture unit would give.
    fn ppu_peek(&self, address: u16) -> (byte: u8)
        requires
            self.wf(),
            address < 0x2000,
        ensures
            byte == self.ppu_seen(address),
    ;

    /// Puts the bank register back to what it holds at power-on.
    fn reset(&mut self)
        requires
            old(self).wf(),
        ensures
            final(self).wf(),
            final(self).contents() == (Contents { selected_bank: 0, ..old(self).contents() }),
    ;
}

/// The mapper of a cartridge: one of the schemes that the library knows.
#[derive(Clone, Debug)]
pub enum Mapper {
    Absent(NoMapper),
    Nrom(Mapper0),
    Uxrom(Mapper2),
}

impl Mapper {
    pub open spec fn wf(&self) -> bool {
        match self {
            Mapper::Absent(m) => m.wf(),
            Mapper::Nrom(m) => m.wf(),
            Mapper::Uxrom(m) => m.wf(),
        }
    }

    pub open spec fn contents(&self) -> Contents {
        match self {
            Mapper::Absent(m) => m.contents(),
            Mapper::Nrom(m) => m.contents(),
            Mapper::Uxrom(m) => m.contents(),
        }
    }

    pub open spec fn cpu_seen(&self, address: u16) -> u8 {
        match self {
            Mapper::Absent(m) => m.cpu_seen(address),
            Mapper::Nrom(m) => m.cpu_seen(address),
            Mapper::Uxrom(m) => m.cpu_seen(address),
        }
    }

    pub open spec fn ppu_seen(&self, address: u16) -> u8 {
        match self {
            Mapper::Absent(m) => m.ppu_seen(address),
            Mapper::Nrom(m) => m.ppu_seen(address),
            Mapper::Uxrom(m) => m.ppu_seen(address),
        }
    }

    pub open spec fn cpu_written(&self, address: u16, byte: u8) -> Contents {
        match self {
            Mapper::Absent(m) => m.cpu_written(address, byte),
            Mapper::Nrom(m) => m.cpu_written(address, byte),
            Mapper::Uxrom(m) => m.cpu_written(address, byte),
        }
    }

    pub open spec fn ppu_written(&self, address: u16, byte: u8) -> Contents {
        match self {
            Mapper::Absent(m) => m.ppu_written(address, byte),
            Mapper::Nrom(m) => m.ppu_written(address, byte),
            Mapper::Uxrom(m) => m.ppu_written(address, byte),
        }
    }

    /// The two mappers are of one scheme.
    pub open spec fn same_scheme(&self, other: &Mapper) -> bool {
        match (self, other) {
            (Mapper::Absent(_), Mapper::Absent(_)) => true,
            (Mapper::Nrom(_), Mapper::Nrom(_)) => true,
            (Mapper::Uxrom(_), Mapper::Uxrom(_)) => true,
            _ => false,
        }
    }

    pub fn cpu_read(&mut self, address: u16) -> (byte: u8)
        requires
            old(self).wf(),
        ensures
            byte == old(self).cpu_seen(address),
            *final(self) == *old(self),
    {
        match self {
            Mapper::Absent(m) => m.cpu_read(address),
            Mapper::Nrom(m) => m.cpu_read(address),
            Mapper::Uxrom(m) => m.cpu_read(address),
        }
    }

    pub fn cpu_write(&mut self, address: u16, byte: u8)
        requires
            old(self).wf(),
        ensures
            final(self).wf(),
            final(self).same_scheme(old(self)),
            final(self).contents() == old(self).cpu_written(address, byte),
    {
        match self {
            Mapper::Absent(m) => m.cpu_write(address, byte),
            Mapper::Nrom(m) => m.cpu_write(address, byte),
            Mapper::Uxrom(m) => m.cpu_write(address, byte),
        }
    }

    pub fn ppu_read(&mut self, address: u16) -> (byte: u8)
        requires
            old(self).wf(),
            address < 0x2000,
        ensures
            byte == old(self).ppu_seen(address),
            *final(self) == *old(self),
    {
        match self {
            Mapper::Absent(m) => m.ppu_read(address),
            Mapper::Nrom(m) => m.ppu_read(address),
            Mapper::Uxrom(m) => m.ppu_read(address),
        }
    }

    pub fn ppu_write(&mut self, address: u16, byte: u8)
        requires
            old(self).wf(),
            address < 0x2000,
        ensures
            final(self).wf(),
            final(self).same_scheme(old(self)),
            final(self).contents() == old(self).ppu_written(address, byte),
    {
        match self {
            Mapper::Absent(m) => m.ppu_write(address, byte),
            Mapper::Nrom(m) => m.ppu_write(address, byte),
            Mapper::Uxrom(m) => m.ppu_write(address, byte),
        }
    }

    pub fn intact(&self) -> (ok: bool)
        ensures
            ok == self.wf(),
    {
        match self {
            Mapper::Absent(m) => m.intact(),
            Mapper::Nrom(m) => m.intact(),
            Mapper::Uxrom(m) => m.intact(),
        }
    }

    pub fn cpu_peek(&self, address: u16) -> (byte: u8)
        requires
            self.wf(),
        ensures
            byte == self.cpu_seen(address),
    {
        match self {
            Mapper::Absent(m) => m.cpu_peek(address),
            Mapper::Nrom(m) => m.cpu_peek(address),
            Mapper::Uxrom(m) => m.cpu_peek(address),
        }
    }

    pub fn ppu_peek(&self, address: u16) -> (byte: u8)
        requires
            self.wf(),
            address < 0x2000,
        ensures
            byte == self.ppu_seen(address),
    {
        match self {
            Mapper::Absent(m) => m.ppu_peek(address),
            Mapper::Nrom(m) => m.ppu_peek(address),
            Mapper::Uxrom(m) => m.ppu_peek(address),
        }
    }

    pub fn reset(&mut self)
        requires
            old(self).wf(),
        ensures
            final(self).wf(),
            final(self).same_scheme(old(self)),
            final(self).contents() == (Contents { selected_bank: 0, ..old(self).contents() }),
    {
        match self {
            Mapper::Absent(m) => m.reset(),
            Mapper::Nrom(m) => m.reset(),
            Mapper::Uxrom(m) => m.reset(),
        }
    }
}

} // verus!
