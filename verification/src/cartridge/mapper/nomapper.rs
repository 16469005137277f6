use vstd::prelude::*;

use crate::cartridge::mapper::types::{Contents, MapperT};

verus! {

/// The mapper of an empty cartridge slot: every read gives 0 and every write is lost.
#[derive(Clone, Debug)]
pub struct NoMapper {}

impl MapperT for NoMapper {
    open spec fn wf(&self) -> bool {
        true
    }

    open spec fn contents(&self) -> Contents {
        Contents { prg: Seq::empty(), chr: Seq::empty(), selected_bank: 0 }
    }

    open spec fn cpu_seen(&self, address: u16) -> u8 {
        0
    }

    open spec fn ppu_seen(&self, address: u16) -> u8 {
        0
    }

    open spec fn cpu_written(&self, address: u16, byte: u8) -> Contents {
        self.contents()
    }

    open spec fn ppu_written(&self, address: u16, byte: u8) -> Contents {
        self.contents()
    }

    fn reset(&mut self) {
    }

    fn cpu_read(&mut self, _address: u16) -> (byte: u8) {
        0
    }

    fn cpu_write(&mut self, _address: u16, _byte: u8) {
    }

    fn ppu_read(&mut self, _address: u16) -> (byte: u8) {
        0
    }

    fn ppu_write(&mut self, _address: u16, _byte: u8) {
    }

    fn intact(&self) -> (ok: bool) {
        true
    }

    fn cpu_peek(&self, _address: u16) -> (byte: u8) {
        0
    }

    fn ppu_peek(&self, _address: u16) -> (byte: u8) {
        0
    }
}

pub fn new() -> (mapper: NoMapper)
    ensures
        mapper == (NoMapper {  }),
{
    NoMapper {  }
}

} // verus!
