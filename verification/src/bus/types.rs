use vstd::prelude::*;

use crate::cartridge::mapper::types::Mapper;
use crate::cartridge::types::{Cartridge, Header, Mirroring};
use crate::controller::Controller;
use crate::mos::types::{Access, Mos};
use crate::ppu::types::PPU;

verus! {

/// The memories of the console itself.
#[derive(Copy, Clone, Debug)]
pub struct Data {
    /// The processor's 2 KB of memory.
    pub cpu_ram: [u8; 0x800],
    /// The two physical nametables.
    pub nt_ram: [u8; 0x800],
    pub pal_ram: [u8; 0x20],
    /// The picture, line after line, each pixel an index into the console's palette.
    pub display: [u8; 61440],
}

#[derive(Copy, Clone, Debug, PartialEq, Eq, Structural)]
pub struct Context {
    /// The page that a transfer to the sprite memory reads from.
    pub dma_page: u8,
    /// The byte of the transfer that is read and not yet written.
    pub dma_byte: u8,
    /// The half steps of the transfer done so far, or -1 while the transfer waits
    /// for an even cycle of the processor.
    pub dma_cycle: i32,
    /// A transfer is under way and the processor waits.
    pub dma_hold: bool,
    /// The ticks of the master clock, modulo 2^64.
    pub clock: u64,
}

/// The console: the processor, the picture unit, the cartridge, the memories and the
/// two controllers, with the master clock that drives them. It is the bus of the
/// processor and the bus of the picture unit.
///
/// As the processor's bus it keeps two ghosts, a trace and an origin, and is sound
/// where it is well-formed and anchored: what the processor can reach is then what the
/// accesses of the trace have made of the origin. Whatever changes the console by another
/// way than an access of the processor anchors it anew before the processor has its next
/// turn.
#[derive(Clone)]
pub struct Bus {
    pub context: Context,
    pub cpu: Mos,
    pub ppu: PPU,
    pub cart: Cartridge,
    pub data: Data,
    pub controller_a: Controller,
    pub controller_b: Controller,
    /// The picture unit has asked for an interrupt that the processor has not entered.
    pub nmi_line: bool,
    /// The accesses that the processor has made since the bus was last anchored.
    pub trace: Ghost<Seq<Access>>,
    /// What the processor could reach when the bus was last anchored.
    pub origin: Ghost<Reach>,
}

/// The addressing scheme of a cartridge.
pub enum Scheme {
    Absent,
    Nrom,
    Uxrom,
}

/// All that an access of the processor can depend on and all that it can change, as
/// plain values.
pub struct Reach {
    /// The processor's 2 KB of memory.
    pub ram: Seq<u8>,
    pub ppu: PPU,
    /// The video memory as the picture unit reads it.
    pub video: Seq<u8>,
    pub controller_a: Controller,
    pub controller_b: Controller,
    pub context: Context,
    pub scheme: Scheme,
    pub mirroring: Mirroring,
    /// The program data that the cartridge's mapper holds.
    pub prg: Seq<u8>,
    pub selected_bank: int,
}

/// The scheme of a mapper.
pub open spec fn scheme_of(mapper: Mapper) -> Scheme {
    match mapper {
        Mapper::Absent(_) => Scheme::Absent,
        Mapper::Nrom(_) => Scheme::Nrom,
        Mapper::Uxrom(_) => Scheme::Uxrom,
    }
}

/// What no access of the processor changes: where the beam is, the picture, the
/// interrupt line, the cartridge's header, and what the bus was anchored to.
pub struct CpuFrozen {
    pub scanline: i32,
    pub cycle: i32,
    pub complete: bool,
    pub display: Seq<u8>,
    pub clock: u64,
    pub nmi_line: bool,
    pub header: Header,
    pub origin: Reach,
}

/// What the picture unit cannot change: the processor and what it alone reaches.
pub struct PpuFrozen {
    pub cpu: Mos,
    pub cpu_ram: Seq<u8>,
    pub controller_a: Controller,
    pub controller_b: Controller,
    pub context: Context,
    pub trace: Seq<Access>,
    pub prg: Seq<u8>,
    pub selected_bank: int,
    pub scheme: Scheme,
    pub header: Header,
    pub origin: Reach,
}

impl Bus {
    /// The cartridge can serve every address, and a transfer that holds the processor
    /// has steps left.
    pub open spec fn wired(&self) -> bool {
        &&& self.cart.wf()
        &&& -1 <= self.context.dma_cycle <= 512
        &&& self.context.dma_hold ==> self.context.dma_cycle < 512
    }

    /// The bus is wired and the picture unit is well-formed.
    pub open spec fn wf(&self) -> bool {
        self.wired() && self.ppu.wf()
    }

    pub open spec fn cpu_frozen(&self) -> CpuFrozen {
        CpuFrozen {
            scanline: self.ppu.context.scanline,
            cycle: self.ppu.context.cycle,
            complete: self.ppu.context.complete,
            display: self.data.display@,
            clock: self.context.clock,
            nmi_line: self.nmi_line,
            header: self.cart.header,
            origin: self.origin@,
        }
    }

    pub open spec fn ppu_frozen(&self) -> PpuFrozen {
        PpuFrozen {
            cpu: self.cpu,
            cpu_ram: self.data.cpu_ram@,
            controller_a: self.controller_a,
            controller_b: self.controller_b,
            context: self.context,
            trace: self.trace@,
            prg: self.cart.mapper.contents().prg,
            selected_bank: self.cart.mapper.contents().selected_bank,
            scheme: scheme_of(self.cart.mapper),
            header: self.cart.header,
            origin: self.origin@,
        }
    }
}

} // verus!
