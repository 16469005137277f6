use vstd::array::spec_array_update;
use vstd::prelude::*;

use crate::bus::types::{scheme_of, Bus, Context, CpuFrozen, PpuFrozen, Scheme, Reach};
use crate::cartridge::mapper::mapper0::nrom_offset;
use crate::cartridge::mapper::mapper2::uxrom_offset;
use crate::cartridge::mapper::types::Mapper;
use crate::cartridge::types::Mirroring;
use crate::controller::Controller;
use crate::mos;
use crate::mos::types::{Access, Mos};
use crate::ppu;
use crate::ppu::interface::{after_read, after_write, read_value};
use crate::ppu::types::PPU;

verus! {

//  The picture unit's side

/// Where a nametable address lies in the console's 2 KB. The address space has room
/// for four tables of 1 KB. With horizontal mirroring the two upper tables share the low
/// half of the memory and the two lower tables the high half; with vertical mirroring
/// the two left tables share the low half and the two right tables the high half. What
/// lies behind the fourth table shows the high half.
pub open spec fn nt_index(mirroring: Mirroring, address: u16) -> int {
    let quadrant = (address % 0x2000) / 0x400;
    let high = match mirroring {
        Mirroring::Horizontal => quadrant >= 2,
        Mirroring::Vertical => quadrant == 1 || quadrant >= 3,
    };
    (if high {
        0x400int
    } else {
        0int
    }) + address % 0x400
}

/// Where a palette address lies in the 32 bytes of palette memory: the first entry
/// of each sprite palette is the first entry of the background palette of its number.
pub open spec fn pal_index(address: u16) -> int {
    let entry = address % 0x20;
    if entry == 0x10 || entry == 0x14 || entry == 0x18 || entry == 0x1C {
        entry - 0x10
    } else {
        entry as int
    }
}

/// The byte of pattern memory at `a` once `byte` is written to `address`.
pub open spec fn pattern_written(mapper: Mapper, address: u16, byte: u8, a: int) -> u8 {
    match mapper {
        Mapper::Absent(_) => 0,
        Mapper::Nrom(m) => m.chr_data@.update(address as int, byte)[a],
        Mapper::Uxrom(m) => m.chr_data@.update(address as int, byte)[a],
    }
}

/// The byte that the picture unit finds at `a`, below 0x4000: pattern data of the
/// cartridge, then the nametables, then from 0x3F00 the palette.
pub open spec fn video_at(
    mapper: Mapper,
    nt: [u8; 0x800],
    pal: [u8; 0x20],
    mirroring: Mirroring,
    a: int,
) -> u8 {
    if a < 0x2000 {
        mapper.ppu_seen(a as u16)
    } else if a < 0x3F00 {
        nt[nt_index(mirroring, a as u16)]
    } else {
        pal[pal_index(a as u16)]
    }
}

/// The byte that the picture unit finds at `a` once it has written `byte` to
/// `address`: the write shows at every address that lies where `address` lies.
pub open spec fn video_written_at(
    mapper: Mapper,
    nt: [u8; 0x800],
    pal: [u8; 0x20],
    mirroring: Mirroring,
    address: u16,
    byte: u8,
    a: int,
) -> u8 {
    if address < 0x2000 && a < 0x2000 {
        pattern_written(mapper, address, byte, a)
    } else if 0x2000 <= address < 0x3F00 && 0x2000 <= a < 0x3F00 && nt_index(mirroring, a as u16)
        == nt_index(mirroring, address) {
        byte
    } else if 0x3F00 <= address < 0x4000 && 0x3F00 <= a && pal_index(a as u16) == pal_index(address) {
        byte
    } else {
        video_at(mapper, nt, pal, mirroring, a)
    }
}

/// The video memory as the picture unit reads it.
pub open spec fn video_of(
    mapper: Mapper,
    nt: [u8; 0x800],
    pal: [u8; 0x20],
    mirroring: Mirroring,
) -> Seq<u8> {
    Seq::new(0x4000, |a: int| video_at(mapper, nt, pal, mirroring, a))
}

/// The video memory once `byte` is written to `address`.
pub open spec fn video_written(
    mapper: Mapper,
    nt: [u8; 0x800],
    pal: [u8; 0x20],
    mirroring: Mirroring,
    address: u16,
    byte: u8,
) -> Seq<u8> {
    Seq::new(0x4000, |a: int| video_written_at(mapper, nt, pal, mirroring, address, byte, a))
}

/// A byte written to a nametable address is read back at every address that lies in
/// the same place of the console's memory, and at no other nametable address.
pub proof fn lemma_nametable_round_trip(bus: Bus, a: u16, b: u16, byte: u8)
    requires
        0x2000 <= a < 0x3F00,
        0x2000 <= b < 0x3F00,
    ensures
        nt_index(bus.cart.header.h_mirroring, a) == nt_index(bus.cart.header.h_mirroring, b)
            ==> bus.written_video(a, byte)[b as int] == byte,
        nt_index(bus.cart.header.h_mirroring, a) != nt_index(bus.cart.header.h_mirroring, b)
            ==> bus.written_video(a, byte)[b as int] == bus.video_view()[b as int],
{
}

/// Which half of the console's memory holds table `q` of the four: with horizontal
/// mirroring the upper two tables have the low half, with vertical mirroring the left
/// two.
pub open spec fn physical_table(mirroring: Mirroring, q: int) -> int {
    match mirroring {
        Mirroring::Horizontal => q / 2,
        Mirroring::Vertical => q % 2,
    }
}

/// A byte written at an offset of one table is read back at that offset of every
/// table that lies in the same half of the memory, and the tables in the other half keep
/// what they hold.
pub proof fn lemma_table_round_trip(bus: Bus, q1: int, q2: int, offset: int, byte: u8)
    requires
        0 <= q1 < 4,
        0 <= q2 < 4,
        0 <= offset < 0x400,
    ensures
        ({
            let a = (0x2000 + 0x400 * q1 + offset) as u16;
            let b = 0x2000 + 0x400 * q2 + offset;
            let m = bus.cart.header.h_mirroring;
            &&& physical_table(m, q1) == physical_table(m, q2) ==> bus.written_video(a, byte)[b] == byte
            &&& physical_table(m, q1) != physical_table(m, q2) ==> bus.written_video(a, byte)[b]
                == bus.video_view()[b]
        }),
{
}

/// With horizontal mirroring a table and the table beside it are one, with vertical
/// mirroring a table and the table below it; the tables of the other pair are apart.
pub proof fn lemma_mirrored_tables(offset: u16)
    requires
        offset < 0x400,
    ensures
        nt_index(Mirroring::Horizontal, (0x2000 + offset) as u16) == nt_index(
            Mirroring::Horizontal,
            (0x2400 + offset) as u16,
        ),
        nt_index(Mirroring::Horizontal, (0x2800 + offset) as u16) == nt_index(
            Mirroring::Horizontal,
            (0x2C00 + offset) as u16,
        ),
        nt_index(Mirroring::Horizontal, (0x2000 + offset) as u16) != nt_index(
            Mirroring::Horizontal,
            (0x2800 + offset) as u16,
        ),
        nt_index(Mirroring::Vertical, (0x2000 + offset) as u16) == nt_index(
            Mirroring::Vertical,
            (0x2800 + offset) as u16,
        ),
        nt_index(Mirroring::Vertical, (0x2400 + offset) as u16) == nt_index(
            Mirroring::Vertical,
            (0x2C00 + offset) as u16,
        ),
        nt_index(Mirroring::Vertical, (0x2000 + offset) as u16) != nt_index(
            Mirroring::Vertical,
            (0x2400 + offset) as u16,
        ),
{
}

/// A byte written to the first entry of a background palette is read back at the
/// first entry of the sprite palette of the same number, and the other way round.
pub proof fn lemma_palette_mirrors(bus: Bus, k: u16, byte: u8)
    requires
        k < 4,
    ensures
        bus.written_video((0x3F00 + 4 * k) as u16, byte)[0x3F10 + 4 * k] == byte,
        bus.written_video((0x3F10 + 4 * k) as u16, byte)[0x3F00 + 4 * k] == byte,
{
}

impl Bus {
    /// The video memory as the picture unit reads it.
    pub open spec fn video_view(&self) -> Seq<u8> {
        video_of(self.cart.mapper, self.data.nt_ram, self.data.pal_ram, self.cart.header.h_mirroring)
    }

    /// The video memory once the picture unit has written `byte` to `address`.
    pub open spec fn written_video(&self, address: u16, byte: u8) -> Seq<u8> {
        video_written(
            self.cart.mapper,
            self.data.nt_ram,
            self.data.pal_ram,
            self.cart.header.h_mirroring,
            address,
            byte,
        )
    }

    // PPU Read
    fn ppu_read_pt(&mut self, address: u16) -> (byte: u8)
        requires
            old(self).wired(),
            address < 0x2000,
        ensures
            byte == old(self).cart.mapper.ppu_seen(address),
            *final(self) == *old(self),
    {
        self.cart.ppu_read(address)
    }

    fn nt_address(&self, address: u16) -> (mapped_address: usize)
        ensures
            mapped_address == nt_index(self.cart.header.h_mirroring, address),
            mapped_address < 0x800,
    {
        let mirroring = self.cart.header.h_mirroring;
        let nametable_choice = (address % 0x2000) / 0x400;
        let base_address: u16 = if mirroring == Mirroring::Horizontal {
            match nametable_choice {
                0 => 0x000,
                1 => 0x000,
                2 => 0x400,
                _ => 0x400,
            }
        } else {
            match nametable_choice {
                0 => 0x000,
                1 => 0x400,
                2 => 0x000,
                _ => 0x400,
            }
        };
        (base_address + (address % 0x400)) as usize
    }

    fn ppu_read_nt(&self, address: u16) -> (byte: u8)
        ensures
            byte == self.data.nt_ram[nt_index(self.cart.header.h_mirroring, address)],
    {
        let mapped_address = self.nt_address(address);
        self.data.nt_ram[mapped_address]
    }

    fn pal_address(address: u16) -> (mapped_address: usize)
        ensures
            mapped_address == pal_index(address),
            mapped_address < 0x20,
    {
        let entry = address % 0x20;
        let mapped_address = match entry {
            0x10 => 0x00,
            0x14 => 0x04,
            0x18 => 0x08,
            0x1C => 0x0C,
            _ => entry,
        };
        mapped_address as usize
    }

    fn ppu_read_pal(&self, address: u16) -> (byte: u8)
        ensures
            byte == self.data.pal_ram[pal_index(address)],
    {
        let mapped_address = Self::pal_address(address);
        self.data.pal_ram[mapped_address]
    }

    // PPU Write
    fn ppu_write_pt(&mut self, address: u16, byte: u8)
        requires
            old(self).wired(),
            address < 0x2000,
        ensures
            final(self).wired(),
            final(self).cart.same_shell(old(self).cart),
            final(self).cart.mapper.contents() == old(self).cart.mapper.ppu_written(address, byte),
            final(self).context == old(self).context,
            final(self).cpu == old(self).cpu,
            final(self).ppu == old(self).ppu,
            final(self).data == old(self).data,
            final(self).controller_a == old(self).controller_a,
            final(self).controller_b == old(self).controller_b,
            final(self).nmi_line == old(self).nmi_line,
            final(self).trace == old(self).trace,
            final(self).origin == old(self).origin,
    {
        self.cart.ppu_write(address, byte);
    }

    fn ppu_write_nt(&mut self, address: u16, byte: u8)
        ensures
            final(self).data.nt_ram == spec_array_update(
                old(self).data.nt_ram,
                nt_index(old(self).cart.header.h_mirroring, address),
                byte,
            ),
            final(self).data.cpu_ram == old(self).data.cpu_ram,
            final(self).data.pal_ram == old(self).data.pal_ram,
            final(self).data.display == old(self).data.display,
            final(self).cart == old(self).cart,
            final(self).context == old(self).context,
            final(self).cpu == old(self).cpu,
            final(self).ppu == old(self).ppu,
            final(self).controller_a == old(self).controller_a,
            final(self).controller_b == old(self).controller_b,
            final(self).nmi_line == old(self).nmi_line,
            final(self).trace == old(self).trace,
            final(self).origin == old(self).origin,
    {
        let mapped_address = self.nt_address(address);
        self.data.nt_ram[mapped_address] = byte;
    }

    fn ppu_write_pal(&mut self, address: u16, byte: u8)
        ensures
            final(self).data.pal_ram == spec_array_update(old(self).data.pal_ram, pal_index(address), byte),
            final(self).data.cpu_ram == old(self).data.cpu_ram,
            final(self).data.nt_ram == old(self).data.nt_ram,
            final(self).data.display == old(self).data.display,
            final(self).cart == old(self).cart,
            final(self).context == old(self).context,
            final(self).cpu == old(self).cpu,
            final(self).ppu == old(self).ppu,
            final(self).controller_a == old(self).controller_a,
            final(self).controller_b == old(self).controller_b,
            final(self).nmi_line == old(self).nmi_line,
            final(self).trace == old(self).trace,
            final(self).origin == old(self).origin,
    {
        let mapped_address = Self::pal_address(address);
        self.data.pal_ram[mapped_address] = byte;
    }
}

impl ppu::types::Bus for Bus {
    type Frozen = PpuFrozen;

    open spec fn inv(&self) -> bool {
        self.wired()
    }

    open spec fn ppu(&self) -> PPU {
        self.ppu
    }

    open spec fn video(&self) -> Seq<u8> {
        self.video_view()
    }

    open spec fn written(&self, address: u16, byte: u8) -> Seq<u8> {
        self.written_video(address, byte)
    }

    open spec fn screen(&self) -> Seq<u8> {
        self.data.display@
    }

    open spec fn nmi_line(&self) -> bool {
        self.nmi_line
    }

    open spec fn frozen(&self) -> PpuFrozen {
        self.ppu_frozen()
    }

    fn read_byte(&mut self, address: u16) -> (byte: u8)
        ensures
            *final(self) == *old(self),
    {
        if address <= 0x1FFF {
            self.ppu_read_pt(address)
        } else if address <= 0x3EFF {
            self.ppu_read_nt(address)
        } else if address <= 0x3FFF {
            self.ppu_read_pal(address)
        } else {
            0
        }
    }

    fn peek_byte(&self, address: u16) -> (byte: u8) {
        if address <= 0x1FFF {
            self.cart.ppu_peek(address)
        } else if address <= 0x3EFF {
            self.ppu_read_nt(address)
        } else if address <= 0x3FFF {
            self.ppu_read_pal(address)
        } else {
            0
        }
    }

    fn write_byte(&mut self, address: u16, byte: u8)
        ensures
            final(self).cpu == old(self).cpu,
            final(self).context == old(self).context,
            final(self).data.cpu_ram == old(self).data.cpu_ram,
            final(self).nmi_line == old(self).nmi_line,
    {
        if address <= 0x1FFF {
            self.ppu_write_pt(address, byte)
        } else if address <= 0x3EFF {
            self.ppu_write_nt(address, byte)
        } else if address <= 0x3FFF {
            self.ppu_write_pal(address, byte)
        }
        assert(self.video_view() =~= old(self).written_video(address, byte));
    }

    fn set_pixel(&mut self, position: (usize, usize), color: u8)
        ensures
            final(self).cpu == old(self).cpu,
            final(self).context == old(self).context,
            final(self).cart == old(self).cart,
            final(self).nmi_line == old(self).nmi_line,
    {
        let (x, y) = position;
        let address = y * 256 + x;
        self.data.display[address] = color;
    }

    fn trigger_nmi(&mut self) {
        self.nmi_line = true;
    }

    fn fetch_ppu(&mut self) -> (ppu: &mut PPU) {
        &mut self.ppu
    }

    fn peek_ppu(&self) -> (ppu: &PPU) {
        &self.ppu
    }
}

//  The processor's side

/// Where a processor address below 0x2000 lies in the processor's 2 KB.
pub open spec fn ram_index(address: u16) -> int {
    address as int % 0x800
}

/// The state of a transfer to the sprite memory that a write of `page` to 0x4014
/// sets up: the transfer begins with the next cycle of the processor, or with the one
/// behind it where the cycle of the write is an odd one. The processor has a cycle with
/// every third tick of the master clock.
pub open spec fn dma_triggered(context: Context, page: u8) -> Context {
    Context {
        dma_page: page,
        dma_byte: 0,
        dma_cycle: if (context.clock / 3) % 2 == 1 {
            -1i32
        } else {
            0i32
        },
        dma_hold: true,
        ..context
    }
}

/// The video memory `video` once `byte` is written to `address`: the write shows at
/// every address that lies where `address` lies. An empty cartridge slot takes no
/// pattern data.
pub open spec fn written_seq(
    video: Seq<u8>,
    mirroring: Mirroring,
    scheme: Scheme,
    address: u16,
    byte: u8,
) -> Seq<u8> {
    Seq::new(
        0x4000,
        |a: int|
            if address < 0x2000 && a < 0x2000 {
                if a == address && !(scheme is Absent) {
                    byte
                } else {
                    video[a]
                }
            } else if 0x2000 <= address < 0x3F00 && 0x2000 <= a < 0x3F00 && nt_index(
                mirroring,
                a as u16,
            ) == nt_index(mirroring, address) {
                byte
            } else if 0x3F00 <= address < 0x4000 && 0x3F00 <= a && pal_index(a as u16) == pal_index(
                address,
            ) {
                byte
            } else {
                video[a]
            },
    )
}

/// The byte that the processor finds in the cartridge at `address`.
pub open spec fn cart_seen(scheme: Scheme, prg: Seq<u8>, selected_bank: int, address: u16) -> u8 {
    match scheme {
        Scheme::Absent => 0,
        Scheme::Nrom => prg[nrom_offset((prg.len() / 0x4000) as int, address)],
        Scheme::Uxrom => prg[uxrom_offset(selected_bank, (prg.len() / 0x4000) as int, address)],
    }
}

/// The program data of the cartridge once the processor has written `byte` to
/// `address`.
pub open spec fn cart_written(scheme: Scheme, prg: Seq<u8>, address: u16, byte: u8) -> Seq<u8> {
    match scheme {
        Scheme::Absent => prg,
        Scheme::Nrom => prg.update(nrom_offset((prg.len() / 0x4000) as int, address), byte),
        Scheme::Uxrom => if address < 0x8000 && address < prg.len() {
            prg.update(address as int, byte)
        } else {
            prg
        },
    }
}

/// The bank register of the cartridge once the processor has written `byte` to
/// `address`.
pub open spec fn bank_written(scheme: Scheme, selected_bank: int, address: u16, byte: u8) -> int {
    if scheme is Uxrom && address >= 0x8000 {
        (byte % 8) as int
    } else {
        selected_bank
    }
}

/// The byte that the processor reads at `address`: its memory below 0x2000, showing
/// every 2 KB; the registers of the picture unit below 0x4000, showing every 8 bytes;
/// at 0x4016 and 0x4017 the top bit of a controller's shift register; from 0x4020 the
/// cartridge; and 0 everywhere else.
pub open spec fn answer(v: Reach, address: u16) -> u8 {
    if address <= 0x1FFF {
        v.ram[ram_index(address)]
    } else if address <= 0x3FFF {
        read_value(v.ppu, v.video, address % 8)
    } else if address <= 0x4015 {
        0
    } else if address == 0x4016 {
        v.controller_a.state_data / 128
    } else if address == 0x4017 {
        v.controller_b.state_data / 128
    } else if address >= 0x4020 {
        cart_seen(v.scheme, v.prg, v.selected_bank, address)
    } else {
        0
    }
}

/// What a read by the processor at `address` leaves: a read of a register of the
/// picture unit has the effect that the unit gives it, a read of a controller moves its
/// shift register on, and no other read changes anything.
pub open spec fn after_read_at(v: Reach, address: u16) -> Reach {
    if 0x2000 <= address <= 0x3FFF {
        Reach { ppu: after_read(v.ppu, v.video, address % 8), ..v }
    } else if address == 0x4016 {
        Reach {
            controller_a: Controller {
                state_data: crate::controller::drained(v.controller_a.state_data, 1),
                ..v.controller_a
            },
            ..v
        }
    } else if address == 0x4017 {
        Reach {
            controller_b: Controller {
                state_data: crate::controller::drained(v.controller_b.state_data, 1),
                ..v.controller_b
            },
            ..v
        }
    } else {
        v
    }
}

/// What a write by the processor of `byte` to `address` leaves. Below 0x2000 the
/// byte goes to the processor's memory, below 0x4000 to a register of the picture unit;
/// a write to 0x4014 sets up a transfer to the sprite memory; a write to 0x4016 or 0x4017
/// makes a controller latch its buttons; from 0x4020 the byte goes to the cartridge; and
/// every other write is lost.
pub open spec fn after_write_at(v: Reach, address: u16, byte: u8) -> Reach {
    if address <= 0x1FFF {
        Reach { ram: v.ram.update(ram_index(address), byte), ..v }
    } else if address <= 0x3FFF {
        Reach {
            ppu: after_write(v.ppu, address % 8, byte),
            video: if address % 8 == 7 {
                written_seq(v.video, v.mirroring, v.scheme, v.ppu.registers.vram, byte)
            } else {
                v.video
            },
            ..v
        }
    } else if address == 0x4014 {
        Reach { context: dma_triggered(v.context, byte), ..v }
    } else if address <= 0x4015 {
        v
    } else if address == 0x4016 {
        Reach {
            controller_a: Controller { state_data: v.controller_a.live_data, ..v.controller_a },
            ..v
        }
    } else if address == 0x4017 {
        Reach {
            controller_b: Controller { state_data: v.controller_b.live_data, ..v.controller_b },
            ..v
        }
    } else if address >= 0x4020 {
        Reach {
            prg: cart_written(v.scheme, v.prg, address, byte),
            selected_bank: bank_written(v.scheme, v.selected_bank, address, byte),
            ..v
        }
    } else {
        v
    }
}

/// What one access of the processor leaves.
pub open spec fn after_access(v: Reach, access: Access) -> Reach {
    match access {
        Access::Read { address, .. } => after_read_at(v, address),
        Access::Write { address, byte } => after_write_at(v, address, byte),
    }
}

/// What the accesses of `t` leave, one after the other.
pub open spec fn replay(v: Reach, t: Seq<Access>) -> Reach
    decreases t.len(),
{
    if t.len() == 0 {
        v
    } else {
        after_access(replay(v, t.drop_last()), t.last())
    }
}

/// Whether every read of `t` has got the byte that the bus holds for it when its
/// turn comes.
pub open spec fn answered(v: Reach, t: Seq<Access>) -> bool
    decreases t.len(),
{
    t.len() == 0 || (answered(v, t.drop_last()) && match t.last() {
        Access::Read { address, byte } => byte == answer(replay(v, t.drop_last()), address),
        Access::Write { .. } => true,
    })
}

/// The processor's memory shows every 2 KB up to 0x2000, and the registers of the
/// picture unit show every 8 bytes up to 0x4000: an access at one address is an access
/// at every other address that shows the same.
pub proof fn lemma_mirrored_addresses(v: Reach, a: u16, b: u16, byte: u8)
    requires
        (a < 0x2000 && b < 0x2000 && a % 0x800 == b % 0x800) || (0x2000 <= a < 0x4000 && 0x2000 <= b
            < 0x4000 && a % 8 == b % 8),
    ensures
        answer(v, a) == answer(v, b),
        after_read_at(v, a) == after_read_at(v, b),
        after_write_at(v, a, byte) == after_write_at(v, b, byte),
{
}

/// One more access is replayed behind the others.
pub proof fn lemma_replay_push(v: Reach, t: Seq<Access>, access: Access)
    ensures
        replay(v, t.push(access)) == after_access(replay(v, t), access),
        answered(v, t.push(access)) == (answered(v, t) && match access {
            Access::Read { address, byte } => byte == answer(replay(v, t), address),
            Access::Write { .. } => true,
        }),
{
    assert(t.push(access).drop_last() =~= t);
}

/// Accesses are replayed behind accesses.
pub proof fn lemma_replay_add(v: Reach, t: Seq<Access>, u: Seq<Access>)
    ensures
        replay(v, t + u) == replay(replay(v, t), u),
        answered(v, t + u) == (answered(v, t) && answered(replay(v, t), u)),
    decreases u.len(),
{
    if u.len() == 0 {
        assert(t + u =~= t);
    } else {
        lemma_replay_add(v, t, u.drop_last());
        assert((t + u).drop_last() =~= t + u.drop_last());
    }
}

impl Bus {
    /// All that an access of the processor can depend on and change.
    pub open spec fn reach(&self) -> Reach {
        Reach {
            ram: self.data.cpu_ram@,
            ppu: self.ppu,
            video: self.video_view(),
            controller_a: self.controller_a,
            controller_b: self.controller_b,
            context: self.context,
            scheme: scheme_of(self.cart.mapper),
            mirroring: self.cart.header.h_mirroring,
            prg: self.cart.mapper.contents().prg,
            selected_bank: self.cart.mapper.contents().selected_bank,
        }
    }

    /// The bus is what the accesses of its trace have made of its origin, and every
    /// read of the trace has got what the bus held for it.
    pub open spec fn anchored(&self) -> bool {
        self.reach() == replay(self.origin@, self.trace@) && answered(self.origin@, self.trace@)
    }

    /// The byte that the processor reads at `address`.
    pub open spec fn cpu_seen(&self, address: u16) -> u8 {
        answer(self.reach(), address)
    }

    /// `after` is what a read by the processor at `address` makes of the bus.
    pub open spec fn cpu_read_done(&self, after: &Bus, address: u16) -> bool {
        &&& after.reach() == after_read_at(self.reach(), address)
        &&& after.cart.header == self.cart.header
        &&& after.data.display@ == self.data.display@
        &&& after.cpu == self.cpu
        &&& after.nmi_line == self.nmi_line
        &&& after.origin == self.origin
    }

    /// `after` is what a write by the processor of `byte` to `address` makes of the
    /// bus.
    pub open spec fn cpu_write_done(&self, after: &Bus, address: u16, byte: u8) -> bool {
        &&& after.reach() == after_write_at(self.reach(), address, byte)
        &&& after.cart.header == self.cart.header
        &&& after.data.display@ == self.data.display@
        &&& after.cpu == self.cpu
        &&& after.nmi_line == self.nmi_line
        &&& after.origin == self.origin
    }

    // CPU Read
    fn cpu_read_ram(&self, address: u16) -> (byte: u8)
        ensures
            byte == self.data.cpu_ram[ram_index(address)],
    {
        let mapped_address = address % 0x0800;
        self.data.cpu_ram[mapped_address as usize]
    }

    fn cpu_read_ppu(&mut self, address: u16) -> (byte: u8)
        requires
            old(self).wf(),
        ensures
            byte == read_value(old(self).ppu, old(self).video_view(), address % 8),
            final(self).ppu == after_read(old(self).ppu, old(self).video_view(), address % 8),
            final(self).wf(),
            final(self).ppu_frozen() == old(self).ppu_frozen(),
            final(self).video_view() == old(self).video_view(),
            final(self).data.display@ == old(self).data.display@,
            final(self).nmi_line == old(self).nmi_line,
            final(self).cart.header == old(self).cart.header,
    {
        let mapped_address = address % 8;
        let ghost before = *self;
        let byte = ppu::interface::cpu_read(self, mapped_address);
        proof {
            lemma_only_ppu(before, *self);
        }
        byte
    }

    fn cpu_read_apu(&self, _address: u16) -> (byte: u8)
        ensures
            byte == 0,
    {
        0
    }

    fn cpu_read_control(&mut self, address: u16) -> (byte: u8)
        requires
            address == 0x4016 || address == 0x4017,
        ensures
            byte == old(self).cpu_seen(address),
            old(self).cpu_read_done(final(self), address),
            final(self).trace == old(self).trace,
            final(self).origin == old(self).origin,
            final(self).cart == old(self).cart,
            final(self).data == old(self).data,
    {
        let mapped_address = address % 2;
        if mapped_address == 0 {
            self.controller_a.read()
        } else {
            self.controller_b.read()
        }
    }

    fn cpu_read_cart(&mut self, address: u16) -> (byte: u8)
        requires
            old(self).wired(),
        ensures
            byte == old(self).cart.mapper.cpu_seen(address),
            *final(self) == *old(self),
    {
        self.cart.cpu_read(address)
    }

    // CPU Write
    fn cpu_write_ram(&mut self, address: u16, byte: u8)
        ensures
            final(self).data.cpu_ram == spec_array_update(old(self).data.cpu_ram, ram_index(address), byte),
            final(self).data.nt_ram == old(self).data.nt_ram,
            final(self).data.pal_ram == old(self).data.pal_ram,
            final(self).data.display == old(self).data.display,
            final(self).cart == old(self).cart,
            final(self).context == old(self).context,
            final(self).cpu == old(self).cpu,
            final(self).ppu == old(self).ppu,
            final(self).controller_a == old(self).controller_a,
            final(self).controller_b == old(self).controller_b,
            final(self).nmi_line == old(self).nmi_line,
            final(self).trace == old(self).trace,
            final(self).origin == old(self).origin,
    {
        let mapped_address = address % 0x0800;
        self.data.cpu_ram[mapped_address as usize] = byte;
    }

    fn cpu_write_ppu(&mut self, address: u16, byte: u8)
        requires
            old(self).wf(),
        ensures
            final(self).ppu == after_write(old(self).ppu, address % 8, byte),
            final(self).video_view() == (if address % 8 == 7 {
                old(self).written_video(old(self).ppu.registers.vram, byte)
            } else {
                old(self).video_view()
            }),
            final(self).wf(),
            final(self).ppu_frozen() == old(self).ppu_frozen(),
            final(self).data.display@ == old(self).data.display@,
            final(self).nmi_line == old(self).nmi_line,
            final(self).cart.header == old(self).cart.header,
    {
        let mapped_address = address % 8;
        ppu::interface::cpu_write(self, mapped_address, byte)
    }

    fn cpu_write_apu(&mut self, _address: u16, _byte: u8)
        ensures
            *final(self) == *old(self),
    {
    }

    fn cpu_write_control(&mut self, address: u16, _byte: u8)
        requires
            address == 0x4016 || address == 0x4017,
        ensures
            old(self).cpu_write_done(final(self), address, _byte),
            final(self).trace == old(self).trace,
            final(self).origin == old(self).origin,
            final(self).cart == old(self).cart,
            final(self).data == old(self).data,
    {
        let mapped_address = address % 2;
        if mapped_address == 0 {
            self.controller_a.write();
        } else {
            self.controller_b.write();
        }
    }

    fn cpu_write_cart(&mut self, address: u16, byte: u8)
        requires
            old(self).wired(),
        ensures
            final(self).wired(),
            final(self).cart.same_shell(old(self).cart),
            final(self).cart.mapper.contents() == old(self).cart.mapper.cpu_written(address, byte),
            final(self).context == old(self).context,
            final(self).cpu == old(self).cpu,
            final(self).ppu == old(self).ppu,
            final(self).data == old(self).data,
            final(self).controller_a == old(self).controller_a,
            final(self).controller_b == old(self).controller_b,
            final(self).nmi_line == old(self).nmi_line,
            final(self).trace == old(self).trace,
            final(self).origin == old(self).origin,
    {
        self.cart.cpu_write(address, byte);
    }

    fn cpu_trigger_dma(&mut self, _address: u16, byte: u8)
        ensures
            final(self).context == dma_triggered(old(self).context, byte),
            final(self).data == old(self).data,
            final(self).cart == old(self).cart,
            final(self).cpu == old(self).cpu,
            final(self).ppu == old(self).ppu,
            final(self).controller_a == old(self).controller_a,
            final(self).controller_b == old(self).controller_b,
            final(self).nmi_line == old(self).nmi_line,
            final(self).trace == old(self).trace,
            final(self).origin == old(self).origin,
    {
        self.context.dma_page = byte;
        self.context.dma_byte = 0;
        self.context.dma_cycle = if (self.context.clock / 3) % 2 == 1 {
            -1
        } else {
            0
        };
        self.context.dma_hold = true;
    }
}

/// What the picture unit's side leaves alone when it changes the unit alone.
proof fn lemma_only_ppu(before: Bus, after: Bus)
    requires
        ppu::types::only_ppu(&before, &after, after.ppu),
    ensures
        after.ppu_frozen() == before.ppu_frozen(),
        after.video_view() == before.video_view(),
        after.data.display@ == before.data.display@,
{
}

/// A cartridge that takes a write of the processor keeps its pattern data.
proof fn lemma_cpu_write_keeps_video(before: Bus, after: Bus, address: u16, byte: u8)
    requires
        before.cart.wf(),
        after.cart.same_shell(before.cart),
        after.cart.mapper.contents() == before.cart.mapper.cpu_written(address, byte),
        after.data.nt_ram == before.data.nt_ram,
        after.data.pal_ram == before.data.pal_ram,
    ensures
        after.video_view() == before.video_view(),
{
    assert(after.video_view() =~= before.video_view());
}

/// What a write of the picture unit shows is told by what the unit saw before.
proof fn lemma_written_seq(bus: Bus, address: u16, byte: u8)
    requires
        bus.cart.wf(),
    ensures
        bus.written_video(address, byte) == written_seq(
            bus.video_view(),
            bus.cart.header.h_mirroring,
            scheme_of(bus.cart.mapper),
            address,
            byte,
        ),
{
    assert(bus.written_video(address, byte) =~= written_seq(
        bus.video_view(),
        bus.cart.header.h_mirroring,
        scheme_of(bus.cart.mapper),
        address,
        byte,
    ));
}

/// What the cartridge shows the processor and what a write makes of it are told by
/// what its mapper holds.
proof fn lemma_cart_view(mapper: Mapper, address: u16, byte: u8)
    requires
        mapper.wf(),
    ensures
        mapper.cpu_seen(address) == cart_seen(
            scheme_of(mapper),
            mapper.contents().prg,
            mapper.contents().selected_bank,
            address,
        ),
        mapper.cpu_written(address, byte).prg == cart_written(
            scheme_of(mapper),
            mapper.contents().prg,
            address,
            byte,
        ),
        mapper.cpu_written(address, byte).selected_bank == bank_written(
            scheme_of(mapper),
            mapper.contents().selected_bank,
            address,
            byte,
        ),
{
}

impl mos::types::Bus for Bus {
    type Frozen = CpuFrozen;

    open spec fn inv(&self) -> bool {
        self.wf() && self.anchored()
    }

    open spec fn mos(&self) -> Mos {
        self.cpu
    }

    open spec fn trace(&self) -> Seq<Access> {
        self.trace@
    }

    open spec fn frozen(&self) -> CpuFrozen {
        self.cpu_frozen()
    }

    fn read_byte(&mut self, address: u16) -> (byte: u8)
        ensures
            byte == old(self).cpu_seen(address),
            old(self).cpu_read_done(final(self), address),
    {
        proof {
            lemma_cart_view(self.cart.mapper, address, 0);
        }
        let byte = if address <= 0x1FFF {
            self.cpu_read_ram(address)
        } else if address <= 0x3FFF {
            self.cpu_read_ppu(address)
        } else if address <= 0x4015 {
            self.cpu_read_apu(address)
        } else if address <= 0x4017 {
            self.cpu_read_control(address)
        } else if address >= 0x4020 {
            self.cpu_read_cart(address)
        } else {
            0
        };
        proof {
            lemma_replay_push(self.origin@, self.trace@, Access::Read { address, byte });
            self.trace@ = self.trace@.push(Access::Read { address, byte });
        }
        byte
    }

    fn write_byte(&mut self, address: u16, byte: u8)
        ensures
            old(self).cpu_write_done(final(self), address, byte),
    {
        proof {
            lemma_cart_view(self.cart.mapper, address, byte);
            lemma_written_seq(*self, self.ppu.registers.vram, byte);
        }
        if address <= 0x1FFF {
            self.cpu_write_ram(address, byte)
        } else if address <= 0x3FFF {
            self.cpu_write_ppu(address, byte)
        } else if address == 0x4014 {
            self.cpu_trigger_dma(address, byte)
        } else if address <= 0x4015 {
            self.cpu_write_apu(address, byte)
        } else if address <= 0x4017 {
            self.cpu_write_control(address, byte)
        } else if address >= 0x4020 {
            self.cpu_write_cart(address, byte);
            proof {
                lemma_cpu_write_keeps_video(*old(self), *self, address, byte);
            }
        }
        proof {
            lemma_replay_push(self.origin@, self.trace@, Access::Write { address, byte });
            self.trace@ = self.trace@.push(Access::Write { address, byte });
        }
    }

    fn peek_byte(&self, address: u16) -> (byte: u8)
        ensures
            byte == self.cpu_seen(address),
    {
        proof {
            lemma_cart_view(self.cart.mapper, address, 0);
        }
        if address <= 0x1FFF {
            self.cpu_read_ram(address)
        } else if address <= 0x3FFF {
            ppu::interface::cpu_peek(self, address % 8)
        } else if address <= 0x4015 {
            0
        } else if address == 0x4016 {
            self.controller_a.state_data / 128
        } else if address == 0x4017 {
            self.controller_b.state_data / 128
        } else if address >= 0x4020 {
            self.cart.cpu_peek(address)
        } else {
            0
        }
    }

    fn fetch_mos(&mut self) -> (mos: &mut Mos) {
        &mut self.cpu
    }
}

} // verus!
