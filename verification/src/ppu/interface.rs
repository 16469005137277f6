use vstd::array::spec_array_update;
use vstd::prelude::*;

use crate::ppu::primitive::{
    get_control_flag, get_data_buffer, get_oam_address, get_status, get_tram, get_vram,
    get_write_toggle, set_control, set_data_buffer, set_fine_x, set_mask, set_oam_address,
    set_status_flag, set_t_coarse_x, set_t_coarse_y, set_t_fine_y, set_t_nametable_x,
    set_t_nametable_y, set_tram, set_vram, set_write_toggle, with_coarse_x, with_coarse_y,
    with_fine_y, with_nametable_x, with_nametable_y, with_registers,
};
use crate::ppu::types::{only_ppu, Bus, ControlFlag, Registers, StatusFlag, PPU};
use crate::utils;
use crate::utils::{has_bit, put_bit};

verus! {

//  The eight registers that the processor sees. The unit must be well-formed when the
//  processor comes, and is so when it leaves.

/// What a read of the status register gives: the three flags above five stale bits
/// of the data buffer.
pub open spec fn status_byte(ppu: PPU) -> u8 {
    ((ppu.registers.status / 32) * 32 + ppu.registers.data_buffer % 32) as u8
}

/// The unit after a read of the status register: the vertical blank flag and the
/// write toggle are clear.
pub open spec fn status_read(ppu: PPU) -> PPU {
    with_registers(
        ppu,
        Registers {
            status: put_bit(ppu.registers.status as int, 0x80, false) as u8,
            write_toggle: false,
            ..ppu.registers
        },
    )
}

/// The video address one step on: by 32 where the control register asks for steps
/// down the screen, else by 1, within fifteen bits.
pub open spec fn stepped(ppu: PPU) -> u16 {
    if has_bit(ppu.registers.control as int, 0x04) {
        ((ppu.registers.vram + 32) % 0x8000) as u16
    } else {
        ((ppu.registers.vram + 1) % 0x8000) as u16
    }
}

/// What a read of the video memory at `address` finds.
pub open spec fn found(video: Seq<u8>, address: u16) -> u8 {
    if address < 0x4000 {
        video[address as int]
    } else {
        0
    }
}

/// What a read of the data port gives: below the palette the byte that the read
/// before it found, from the palette on the byte at the address itself.
pub open spec fn data_byte(ppu: PPU, video: Seq<u8>) -> u8 {
    if ppu.registers.vram >= 0x3F00 {
        found(video, ppu.registers.vram)
    } else {
        ppu.registers.data_buffer
    }
}

/// The unit after a read of the data port: the buffer holds what the read found, and
/// the address has stepped on.
pub open spec fn data_read(ppu: PPU, video: Seq<u8>) -> PPU {
    with_registers(
        ppu,
        Registers { data_buffer: found(video, ppu.registers.vram), vram: stepped(ppu), ..ppu.registers },
    )
}

/// What the processor reads from register `address`, from 0 to 7. The registers that
/// cannot be read give 0.
pub open spec fn read_value(ppu: PPU, video: Seq<u8>, address: u16) -> u8 {
    if address == 2 {
        status_byte(ppu)
    } else if address == 4 {
        ppu.oam_data[ppu.context.oam_address as int]
    } else if address == 7 {
        data_byte(ppu, video)
    } else {
        0
    }
}

/// The unit after the processor has read register `address`.
pub open spec fn after_read(ppu: PPU, video: Seq<u8>, address: u16) -> PPU {
    if address == 2 {
        status_read(ppu)
    } else if address == 7 {
        data_read(ppu, video)
    } else {
        ppu
    }
}

proof fn lemma_status(status: u8, buffer: u8)
    by (bit_vector)
    ensures
        (status & 0xE0) | (buffer & 0x1F) == (status / 32) * 32 + buffer % 32,
{
}

// CPU Read API
fn read_status<T: Bus>(bus: &mut T) -> (byte: u8)
    ensures
        byte == status_byte(old(bus).ppu()),
        only_ppu(old(bus), final(bus), status_read(old(bus).ppu())),
{
    let data_buffer = get_data_buffer(bus);
    let status = get_status(bus);
    proof {
        lemma_status(status, data_buffer);
    }
    let byte = (status & 0xE0) | (data_buffer & 0x1F);
    set_write_toggle(bus, false);
    set_status_flag(bus, StatusFlag::VerticalBlank, false);
    byte
}

/// Moves the video address one step on.
fn step_vram<T: Bus>(bus: &mut T)
    requires
        old(bus).ppu().registers.vram <= 0x7FFF,
    ensures
        only_ppu(
            old(bus),
            final(bus),
            with_registers(
                old(bus).ppu(),
                Registers { vram: stepped(old(bus).ppu()), ..old(bus).ppu().registers },
            ),
        ),
{
    let vram = get_vram(bus);
    let increment_mode = get_control_flag(bus, ControlFlag::IncrementMode);
    if increment_mode {
        set_vram(bus, (vram + 32) % 0x8000);
    } else {
        set_vram(bus, (vram + 1) % 0x8000);
    }
}

fn read_data<T: Bus>(bus: &mut T) -> (byte: u8)
    requires
        old(bus).inv(),
        old(bus).ppu().registers.vram <= 0x7FFF,
    ensures
        byte == data_byte(old(bus).ppu(), old(bus).video()),
        only_ppu(old(bus), final(bus), data_read(old(bus).ppu(), old(bus).video())),
{
    let vram = get_vram(bus);
    let old_data_buffer = get_data_buffer(bus);
    let new_data_buffer = bus.read_byte(vram);
    set_data_buffer(bus, new_data_buffer);
    let output = if vram >= 0x3F00 {
        new_data_buffer
    } else {
        old_data_buffer
    };
    step_vram(bus);
    output
}

fn read_oam_data<T: Bus>(bus: &mut T) -> (byte: u8)
    ensures
        byte == old(bus).ppu().oam_data[old(bus).ppu().context.oam_address as int],
        only_ppu(old(bus), final(bus), old(bus).ppu()),
{
    let address = get_oam_address(bus);
    bus.fetch_ppu().oam_data[address as usize]
}

/// A read by the processor of register `address`, from 0 to 7.
pub fn cpu_read<T: Bus>(bus: &mut T, address: u16) -> (byte: u8)
    requires
        old(bus).inv(),
        old(bus).ppu().wf(),
    ensures
        byte == read_value(old(bus).ppu(), old(bus).video(), address),
        only_ppu(old(bus), final(bus), after_read(old(bus).ppu(), old(bus).video(), address)),
        final(bus).ppu().wf(),
        final(bus).inv(),
{
    match address {
        0x0002 => read_status(bus),
        0x0004 => read_oam_data(bus),
        0x0007 => read_data(bus),
        _ => 0,
    }
}

// CPU Peek API
fn peek_status<T: Bus>(bus: &T) -> (byte: u8)
    ensures
        byte == status_byte(bus.ppu()),
{
    let ppu = bus.peek_ppu();
    proof {
        lemma_status(ppu.registers.status, ppu.registers.data_buffer);
    }
    (ppu.registers.status & 0xE0) | (ppu.registers.data_buffer & 0x1F)
}

fn peek_data<T: Bus>(bus: &T) -> (byte: u8)
    requires
        bus.inv(),
    ensures
        byte == data_byte(bus.ppu(), bus.video()),
{
    let vram = bus.peek_ppu().registers.vram;
    let old_data_buffer = bus.peek_ppu().registers.data_buffer;
    let new_data_buffer = bus.peek_byte(vram);
    if vram >= 0x3F00 {
        new_data_buffer
    } else {
        old_data_buffer
    }
}

fn peek_oam_data<T: Bus>(bus: &T) -> (byte: u8)
    ensures
        byte == bus.ppu().oam_data[bus.ppu().context.oam_address as int],
{
    let ppu = bus.peek_ppu();
    ppu.oam_data[ppu.context.oam_address as usize]
}

/// What a read by the processor of register `address` would give, without its effects.
pub fn cpu_peek<T: Bus>(bus: &T, address: u16) -> (byte: u8)
    requires
        bus.inv(),
    ensures
        byte == read_value(bus.ppu(), bus.video(), address),
{
    match address {
        0x0002 => peek_status(bus),
        0x0004 => peek_oam_data(bus),
        0x0007 => peek_data(bus),
        _ => 0,
    }
}

// CPU Write API

/// The unit after a write to the control register: the two low bits also choose
/// the nametable of the latched scroll register.
pub open spec fn control_written(ppu: PPU, byte: u8) -> PPU {
    with_registers(
        ppu,
        Registers {
            control: byte,
            tram: with_nametable_y(
                with_nametable_x(ppu.registers.tram, has_bit(byte as int, 0x01)),
                has_bit(byte as int, 0x02),
            ),
            ..ppu.registers
        },
    )
}

/// The unit after a write to the scroll register. The first write of a pair gives the
/// vertical scroll, the second the horizontal: each time the high five bits are the
/// coarse scroll and the low three the fine one.
pub open spec fn scroll_written(ppu: PPU, byte: u8) -> PPU {
    if ppu.registers.write_toggle {
        with_registers(
            ppu,
            Registers {
                write_toggle: false,
                tram: with_coarse_x(ppu.registers.tram, byte / 8),
                fine_x: byte % 8,
                ..ppu.registers
            },
        )
    } else {
        with_registers(
            ppu,
            Registers {
                write_toggle: true,
                tram: with_fine_y(with_coarse_y(ppu.registers.tram, byte / 8), byte % 8),
                ..ppu.registers
            },
        )
    }
}

/// The unit after a write to the address register. The first write of a pair gives
/// the high six bits of the latched address, the second the low eight, and with the
/// second the latched address becomes the current one.
pub open spec fn address_written(ppu: PPU, byte: u8) -> PPU {
    if ppu.registers.write_toggle {
        with_registers(
            ppu,
            Registers {
                write_toggle: false,
                tram: ((ppu.registers.tram / 256) * 256 + byte) as u16,
                vram: ((ppu.registers.tram / 256) * 256 + byte) as u16,
                ..ppu.registers
            },
        )
    } else {
        with_registers(
            ppu,
            Registers {
                write_toggle: true,
                tram: ((byte % 64) * 256 + ppu.registers.tram % 256) as u16,
                ..ppu.registers
            },
        )
    }
}

/// The unit after the processor has written `byte` to register `address`. A write to
/// the data port changes the video memory; in the unit it moves the address on.
pub open spec fn after_write(ppu: PPU, address: u16, byte: u8) -> PPU {
    if address == 0 {
        control_written(ppu, byte)
    } else if address == 1 {
        with_registers(ppu, Registers { mask: byte, ..ppu.registers })
    } else if address == 3 {
        PPU { context: crate::ppu::types::Context { oam_address: byte, ..ppu.context }, ..ppu }
    } else if address == 4 {
        PPU { oam_data: spec_array_update(ppu.oam_data, ppu.context.oam_address as int, byte), ..ppu }
    } else if address == 5 {
        scroll_written(ppu, byte)
    } else if address == 6 {
        address_written(ppu, byte)
    } else if address == 7 {
        with_registers(ppu, Registers { vram: stepped(ppu), ..ppu.registers })
    } else {
        ppu
    }
}

fn write_control<T: Bus>(bus: &mut T, byte: u8)
    requires
        old(bus).ppu().registers.tram <= 0x7FFF,
    ensures
        only_ppu(old(bus), final(bus), control_written(old(bus).ppu(), byte)),
        final(bus).ppu().registers.tram <= 0x7FFF,
{
    set_control(bus, byte);
    let nametable_x = utils::b0(byte);
    let nametable_y = utils::b1(byte);
    set_t_nametable_x(bus, nametable_x);
    set_t_nametable_y(bus, nametable_y);
}

fn write_mask<T: Bus>(bus: &mut T, byte: u8)
    ensures
        only_ppu(
            old(bus),
            final(bus),
            with_registers(old(bus).ppu(), Registers { mask: byte, ..old(bus).ppu().registers }),
        ),
{
    set_mask(bus, byte);
}

fn write_oam_address<T: Bus>(bus: &mut T, byte: u8)
    ensures
        only_ppu(old(bus), final(bus), after_write(old(bus).ppu(), 3, byte)),
{
    set_oam_address(bus, byte);
}

fn write_oam_data<T: Bus>(bus: &mut T, byte: u8)
    ensures
        only_ppu(old(bus), final(bus), after_write(old(bus).ppu(), 4, byte)),
{
    let oam_address = get_oam_address(bus) as usize;
    bus.fetch_ppu().oam_data[oam_address] = byte;
}

proof fn lemma_scroll(byte: u8)
    by (bit_vector)
    ensures
        byte >> 3 == byte / 8,
{
}

fn write_scroll<T: Bus>(bus: &mut T, byte: u8)
    requires
        old(bus).ppu().registers.tram <= 0x7FFF,
    ensures
        only_ppu(old(bus), final(bus), scroll_written(old(bus).ppu(), byte)),
        final(bus).ppu().registers.tram <= 0x7FFF,
        final(bus).ppu().registers.fine_x < 8 || final(bus).ppu().registers.fine_x == old(
            bus,
        ).ppu().registers.fine_x,
{
    proof {
        lemma_scroll(byte);
    }
    let write_toggle = get_write_toggle(bus);
    if write_toggle {
        set_write_toggle(bus, false);
        set_t_coarse_x(bus, utils::t5(byte >> 3));
        set_fine_x(bus, utils::t3(byte));
    } else {
        set_write_toggle(bus, true);
        set_t_coarse_y(bus, utils::t5(byte >> 3));
        set_t_fine_y(bus, utils::t3(byte));
    }
}

proof fn lemma_address(byte: u16, tram: u16)
    by (bit_vector)
    requires
        byte <= 0xFF,
        tram <= 0x7FFF,
    ensures
        byte | (tram & 0xFF00) == (tram / 256) * 256 + byte,
        ((byte & 0x003F) << 8) | (tram & 0x00FF) == (byte % 64) * 256 + tram % 256,
        byte | (tram & 0xFF00) <= 0x7FFF,
        ((byte & 0x003F) << 8) | (tram & 0x00FF) <= 0x7FFF,
{
}

fn write_address<T: Bus>(bus: &mut T, byte: u8)
    requires
        old(bus).ppu().registers.tram <= 0x7FFF,
        old(bus).ppu().registers.vram <= 0x7FFF,
    ensures
        only_ppu(old(bus), final(bus), address_written(old(bus).ppu(), byte)),
        final(bus).ppu().registers.tram <= 0x7FFF,
        final(bus).ppu().registers.vram <= 0x7FFF,
{
    let write_toggle = get_write_toggle(bus);
    let tram = get_tram(bus);
    proof {
        lemma_address(byte as u16, tram);
    }
    if write_toggle {
        set_write_toggle(bus, false);
        let new_tram = (byte as u16) | (tram & 0xFF00);
        set_tram(bus, new_tram);
        set_vram(bus, new_tram);
    } else {
        set_write_toggle(bus, true);
        let new_tram = ((byte as u16 & 0x003F) << 8) | (tram & 0x00FF);
        set_tram(bus, new_tram);
    }
}

fn write_data<T: Bus>(bus: &mut T, byte: u8)
    requires
        old(bus).inv(),
        old(bus).ppu().registers.vram <= 0x7FFF,
    ensures
        final(bus).video() == old(bus).written(old(bus).ppu().registers.vram, byte),
        final(bus).ppu() == after_write(old(bus).ppu(), 7, byte),
        final(bus).screen() == old(bus).screen(),
        final(bus).nmi_line() == old(bus).nmi_line(),
        final(bus).frozen() == old(bus).frozen(),
        final(bus).inv(),
{
    let vram = get_vram(bus);
    bus.write_byte(vram, byte);
    step_vram(bus);
}

/// A write by the processor of `byte` to register `address`, from 0 to 7.
pub fn cpu_write<T: Bus>(bus: &mut T, address: u16, byte: u8)
    requires
        old(bus).inv(),
        old(bus).ppu().wf(),
    ensures
        final(bus).ppu() == after_write(old(bus).ppu(), address, byte),
        final(bus).video() == (if address == 7 {
            old(bus).written(old(bus).ppu().registers.vram, byte)
        } else {
            old(bus).video()
        }),
        final(bus).screen() == old(bus).screen(),
        final(bus).nmi_line() == old(bus).nmi_line(),
        final(bus).frozen() == old(bus).frozen(),
        final(bus).ppu().wf(),
        final(bus).inv(),
{
    match address {
        0x0000 => write_control(bus, byte),
        0x0001 => write_mask(bus, byte),
        0x0003 => write_oam_address(bus, byte),
        0x0004 => write_oam_data(bus, byte),
        0x0005 => write_scroll(bus, byte),
        0x0006 => write_address(bus, byte),
        0x0007 => write_data(bus, byte),
        _ => {},
    }
}

/// Stores one byte of a block transfer in the attribute memory of the sprites.
pub fn dma_port<T: Bus>(bus: &mut T, offset: u16, byte: u8)
    requires
        offset < 256,
    ensures
        only_ppu(
            old(bus),
            final(bus),
            PPU { oam_data: spec_array_update(old(bus).ppu().oam_data, offset as int, byte), ..old(bus).ppu() },
        ),
{
    bus.fetch_ppu().oam_data[offset as usize] = byte;
}

} // verus!
