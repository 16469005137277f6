use vstd::prelude::*;

use crate::ppu::types::{
    only_ppu, Bus, Context, ControlFlag, MaskFlag, Registers, Sprite, SpriteFlag, StatusFlag, PPU,
};
use crate::utils;
use crate::utils::{has_bit, put_bit};

verus! {

/// `ppu` with other registers.
pub open spec fn with_registers(ppu: PPU, registers: Registers) -> PPU {
    PPU { registers, ..ppu }
}

/// `ppu` with another context.
pub open spec fn with_context(ppu: PPU, context: Context) -> PPU {
    PPU { context, ..ppu }
}

/// The sprite that four bytes of the attribute memory describe.
pub open spec fn sprite_at(ppu: PPU, id: int) -> Sprite {
    Sprite {
        id: id as usize,
        y_pos: ppu.oam_data[4 * id],
        tile: ppu.oam_data[4 * id + 1],
        attribute: ppu.oam_data[4 * id + 2],
        x_pos: ppu.oam_data[4 * id + 3],
    }
}

pub fn get_sprite<T: Bus>(bus: &mut T, id: usize) -> (sprite: Sprite)
    requires
        id < 64,
    ensures
        sprite == sprite_at(old(bus).ppu(), id as int),
        only_ppu(old(bus), final(bus), old(bus).ppu()),
{
    let ppu = bus.fetch_ppu();
    let y_pos = ppu.oam_data[0x04 * id];
    let tile = ppu.oam_data[0x04 * id + 1];
    let attribute = ppu.oam_data[0x04 * id + 2];
    let x_pos = ppu.oam_data[0x04 * id + 3];

    Sprite { id, y_pos, tile, attribute, x_pos }
}

// Registers: Setters
pub fn set_control<T: Bus>(bus: &mut T, v: u8) -> (output: u8)
    ensures
        output == old(bus).ppu().registers.control,
        only_ppu(
            old(bus),
            final(bus),
            with_registers(old(bus).ppu(), Registers { control: v, ..old(bus).ppu().registers }),
        ),
{
    let ppu = bus.fetch_ppu();
    let output = ppu.registers.control;
    ppu.registers.control = v;
    output
}

pub fn set_mask<T: Bus>(bus: &mut T, v: u8) -> (output: u8)
    ensures
        output == old(bus).ppu().registers.mask,
        only_ppu(
            old(bus),
            final(bus),
            with_registers(old(bus).ppu(), Registers { mask: v, ..old(bus).ppu().registers }),
        ),
{
    let ppu = bus.fetch_ppu();
    let output = ppu.registers.mask;
    ppu.registers.mask = v;
    output
}

pub fn set_status<T: Bus>(bus: &mut T, v: u8) -> (output: u8)
    ensures
        output == old(bus).ppu().registers.status,
        only_ppu(
            old(bus),
            final(bus),
            with_registers(old(bus).ppu(), Registers { status: v, ..old(bus).ppu().registers }),
        ),
{
    let ppu = bus.fetch_ppu();
    let output = ppu.registers.status;
    ppu.registers.status = v;
    output
}

pub fn set_fine_x<T: Bus>(bus: &mut T, v: u8) -> (output: u8)
    ensures
        output == old(bus).ppu().registers.fine_x,
        only_ppu(
            old(bus),
            final(bus),
            with_registers(old(bus).ppu(), Registers { fine_x: v, ..old(bus).ppu().registers }),
        ),
{
    let ppu = bus.fetch_ppu();
    let output = ppu.registers.fine_x;
    ppu.registers.fine_x = v;
    output
}

pub fn set_data_buffer<T: Bus>(bus: &mut T, v: u8) -> (output: u8)
    ensures
        output == old(bus).ppu().registers.data_buffer,
        only_ppu(
            old(bus),
            final(bus),
            with_registers(old(bus).ppu(), Registers { data_buffer: v, ..old(bus).ppu().registers }),
        ),
{
    let ppu = bus.fetch_ppu();
    let output = ppu.registers.data_buffer;
    ppu.registers.data_buffer = v;
    output
}

pub fn set_vram<T: Bus>(bus: &mut T, v: u16) -> (output: u16)
    ensures
        output == old(bus).ppu().registers.vram,
        only_ppu(
            old(bus),
            final(bus),
            with_registers(old(bus).ppu(), Registers { vram: v, ..old(bus).ppu().registers }),
        ),
{
    let ppu = bus.fetch_ppu();
    let output = ppu.registers.vram;
    ppu.registers.vram = v;
    output
}

pub fn set_tram<T: Bus>(bus: &mut T, v: u16) -> (output: u16)
    ensures
        output == old(bus).ppu().registers.tram,
        only_ppu(
            old(bus),
            final(bus),
            with_registers(old(bus).ppu(), Registers { tram: v, ..old(bus).ppu().registers }),
        ),
{
    let ppu = bus.fetch_ppu();
    let output = ppu.registers.tram;
    ppu.registers.tram = v;
    output
}

pub fn set_write_toggle<T: Bus>(bus: &mut T, v: bool) -> (output: bool)
    ensures
        output == old(bus).ppu().registers.write_toggle,
        only_ppu(
            old(bus),
            final(bus),
            with_registers(old(bus).ppu(), Registers { write_toggle: v, ..old(bus).ppu().registers }),
        ),
{
    let ppu = bus.fetch_ppu();
    let output = ppu.registers.write_toggle;
    ppu.registers.write_toggle = v;
    output
}

// Registers: Getters
pub fn get_control<T: Bus>(bus: &mut T) -> (v: u8)
    ensures
        v == old(bus).ppu().registers.control,
        only_ppu(old(bus), final(bus), old(bus).ppu()),
{
    bus.fetch_ppu().registers.control
}

pub fn get_mask<T: Bus>(bus: &mut T) -> (v: u8)
    ensures
        v == old(bus).ppu().registers.mask,
        only_ppu(old(bus), final(bus), old(bus).ppu()),
{
    bus.fetch_ppu().registers.mask
}

pub fn get_status<T: Bus>(bus: &mut T) -> (v: u8)
    ensures
        v == old(bus).ppu().registers.status,
        only_ppu(old(bus), final(bus), old(bus).ppu()),
{
    bus.fetch_ppu().registers.status
}

pub fn get_fine_x<T: Bus>(bus: &mut T) -> (v: u8)
    ensures
        v == old(bus).ppu().registers.fine_x,
        only_ppu(old(bus), final(bus), old(bus).ppu()),
{
    bus.fetch_ppu().registers.fine_x
}

pub fn get_data_buffer<T: Bus>(bus: &mut T) -> (v: u8)
    ensures
        v == old(bus).ppu().registers.data_buffer,
        only_ppu(old(bus), final(bus), old(bus).ppu()),
{
    bus.fetch_ppu().registers.data_buffer
}

pub fn get_vram<T: Bus>(bus: &mut T) -> (v: u16)
    ensures
        v == old(bus).ppu().registers.vram,
        only_ppu(old(bus), final(bus), old(bus).ppu()),
{
    bus.fetch_ppu().registers.vram
}

pub fn get_tram<T: Bus>(bus: &mut T) -> (v: u16)
    ensures
        v == old(bus).ppu().registers.tram,
        only_ppu(old(bus), final(bus), old(bus).ppu()),
{
    bus.fetch_ppu().registers.tram
}

pub fn get_write_toggle<T: Bus>(bus: &mut T) -> (v: bool)
    ensures
        v == old(bus).ppu().registers.write_toggle,
        only_ppu(old(bus), final(bus), old(bus).ppu()),
{
    bus.fetch_ppu().registers.write_toggle
}

// Registers: Lenders
pub fn fetch_control<T: Bus>(bus: &mut T) -> (v: &mut u8)
    ensures
        *v == old(bus).ppu().registers.control,
        only_ppu(
            old(bus),
            final(bus),
            with_registers(old(bus).ppu(), Registers { control: *final(v), ..old(bus).ppu().registers }),
        ),
{
    &mut bus.fetch_ppu().registers.control
}

pub fn fetch_mask<T: Bus>(bus: &mut T) -> (v: &mut u8)
    ensures
        *v == old(bus).ppu().registers.mask,
        only_ppu(
            old(bus),
            final(bus),
            with_registers(old(bus).ppu(), Registers { mask: *final(v), ..old(bus).ppu().registers }),
        ),
{
    &mut bus.fetch_ppu().registers.mask
}

pub fn fetch_status<T: Bus>(bus: &mut T) -> (v: &mut u8)
    ensures
        *v == old(bus).ppu().registers.status,
        only_ppu(
            old(bus),
            final(bus),
            with_registers(old(bus).ppu(), Registers { status: *final(v), ..old(bus).ppu().registers }),
        ),
{
    &mut bus.fetch_ppu().registers.status
}

pub fn fetch_fine_x<T: Bus>(bus: &mut T) -> (v: &mut u8)
    ensures
        *v == old(bus).ppu().registers.fine_x,
        only_ppu(
            old(bus),
            final(bus),
            with_registers(old(bus).ppu(), Registers { fine_x: *final(v), ..old(bus).ppu().registers }),
        ),
{
    &mut bus.fetch_ppu().registers.fine_x
}

pub fn fetch_data_buffer<T: Bus>(bus: &mut T) -> (v: &mut u8)
    ensures
        *v == old(bus).ppu().registers.data_buffer,
        only_ppu(
            old(bus),
            final(bus),
            with_registers(old(bus).ppu(), Registers { data_buffer: *final(v), ..old(bus).ppu().registers }),
        ),
{
    &mut bus.fetch_ppu().registers.data_buffer
}

pub fn fetch_vram<T: Bus>(bus: &mut T) -> (v: &mut u16)
    ensures
        *v == old(bus).ppu().registers.vram,
        only_ppu(
            old(bus),
            final(bus),
            with_registers(old(bus).ppu(), Registers { vram: *final(v), ..old(bus).ppu().registers }),
        ),
{
    &mut bus.fetch_ppu().registers.vram
}

pub fn fetch_tram<T: Bus>(bus: &mut T) -> (v: &mut u16)
    ensures
        *v == old(bus).ppu().registers.tram,
        only_ppu(
            old(bus),
            final(bus),
            with_registers(old(bus).ppu(), Registers { tram: *final(v), ..old(bus).ppu().registers }),
        ),
{
    &mut bus.fetch_ppu().registers.tram
}

pub fn fetch_write_toggle<T: Bus>(bus: &mut T) -> (v: &mut bool)
    ensures
        *v == old(bus).ppu().registers.write_toggle,
        only_ppu(
            old(bus),
            final(bus),
            with_registers(old(bus).ppu(), Registers { write_toggle: *final(v), ..old(bus).ppu().registers }),
        ),
{
    &mut bus.fetch_ppu().registers.write_toggle
}

// Registers: Mappers
pub fn map_control<T: Bus, F: Fn(u8) -> u8>(bus: &mut T, f: F) -> (output: u8)
    requires
        f.requires((old(bus).ppu().registers.control,)),
    ensures
        output == old(bus).ppu().registers.control,
        f.ensures((output,), final(bus).ppu().registers.control),
        only_ppu(
            old(bus),
            final(bus),
            with_registers(
                old(bus).ppu(),
                Registers { control: final(bus).ppu().registers.control, ..old(bus).ppu().registers },
            ),
        ),
{
    let x = get_control(bus);
    set_control(bus, f(x))
}

pub fn map_mask<T: Bus, F: Fn(u8) -> u8>(bus: &mut T, f: F) -> (output: u8)
    requires
        f.requires((old(bus).ppu().registers.mask,)),
    ensures
        output == old(bus).ppu().registers.mask,
        f.ensures((output,), final(bus).ppu().registers.mask),
        only_ppu(
            old(bus),
            final(bus),
            with_registers(
                old(bus).ppu(),
                Registers { mask: final(bus).ppu().registers.mask, ..old(bus).ppu().registers },
            ),
        ),
{
    let x = get_mask(bus);
    set_mask(bus, f(x))
}

pub fn map_status<T: Bus, F: Fn(u8) -> u8>(bus: &mut T, f: F) -> (output: u8)
    requires
        f.requires((old(bus).ppu().registers.status,)),
    ensures
        output == old(bus).ppu().registers.status,
        f.ensures((output,), final(bus).ppu().registers.status),
        only_ppu(
            old(bus),
            final(bus),
            with_registers(
                old(bus).ppu(),
                Registers { status: final(bus).ppu().registers.status, ..old(bus).ppu().registers },
            ),
        ),
{
    let x = get_status(bus);
    set_status(bus, f(x))
}

pub fn map_fine_x<T: Bus, F: Fn(u8) -> u8>(bus: &mut T, f: F) -> (output: u8)
    requires
        f.requires((old(bus).ppu().registers.fine_x,)),
    ensures
        output == old(bus).ppu().registers.fine_x,
        f.ensures((output,), final(bus).ppu().registers.fine_x),
        only_ppu(
            old(bus),
            final(bus),
            with_registers(
                old(bus).ppu(),
                Registers { fine_x: final(bus).ppu().registers.fine_x, ..old(bus).ppu().registers },
            ),
        ),
{
    let x = get_fine_x(bus);
    set_fine_x(bus, f(x))
}

pub fn map_data_buffer<T: Bus, F: Fn(u8) -> u8>(bus: &mut T, f: F) -> (output: u8)
    requires
        f.requires((old(bus).ppu().registers.data_buffer,)),
    ensures
        output == old(bus).ppu().registers.data_buffer,
        f.ensures((output,), final(bus).ppu().registers.data_buffer),
        only_ppu(
            old(bus),
            final(bus),
            with_registers(
                old(bus).ppu(),
                Registers { data_buffer: final(bus).ppu().registers.data_buffer, ..old(bus).ppu().registers },
            ),
        ),
{
    let x = get_data_buffer(bus);
    set_data_buffer(bus, f(x))
}

pub fn map_vram<T: Bus, F: Fn(u16) -> u16>(bus: &mut T, f: F) -> (output: u16)
    requires
        f.requires((old(bus).ppu().registers.vram,)),
    ensures
        output == old(bus).ppu().registers.vram,
        f.ensures((output,), final(bus).ppu().registers.vram),
        only_ppu(
            old(bus),
            final(bus),
            with_registers(
                old(bus).ppu(),
                Registers { vram: final(bus).ppu().registers.vram, ..old(bus).ppu().registers },
            ),
        ),
{
    let x = get_vram(bus);
    set_vram(bus, f(x))
}

pub fn map_tram<T: Bus, F: Fn(u16) -> u16>(bus: &mut T, f: F) -> (output: u16)
    requires
        f.requires((old(bus).ppu().registers.tram,)),
    ensures
        output == old(bus).ppu().registers.tram,
        f.ensures((output,), final(bus).ppu().registers.tram),
        only_ppu(
            old(bus),
            final(bus),
            with_registers(
                old(bus).ppu(),
                Registers { tram: final(bus).ppu().registers.tram, ..old(bus).ppu().registers },
            ),
        ),
{
    let x = get_tram(bus);
    set_tram(bus, f(x))
}

pub fn map_write_toggle<T: Bus, F: Fn(bool) -> bool>(bus: &mut T, f: F) -> (output: bool)
    requires
        f.requires((old(bus).ppu().registers.write_toggle,)),
    ensures
        output == old(bus).ppu().registers.write_toggle,
        f.ensures((output,), final(bus).ppu().registers.write_toggle),
        only_ppu(
            old(bus),
            final(bus),
            with_registers(
                old(bus).ppu(),
                Registers { write_toggle: final(bus).ppu().registers.write_toggle, ..old(bus).ppu().registers },
            ),
        ),
{
    let x = get_write_toggle(bus);
    set_write_toggle(bus, f(x))
}

// Control Flags

/// The weight of the bit that holds a flag in the control register.
pub open spec fn control_weight(f: ControlFlag) -> int {
    match f {
        ControlFlag::NametableX => 0x01,
        ControlFlag::NametableY => 0x02,
        ControlFlag::IncrementMode => 0x04,
        ControlFlag::PatternSprite => 0x08,
        ControlFlag::PatternBackground => 0x10,
        ControlFlag::SpriteSize => 0x20,
        ControlFlag::SlaveMode => 0x40,
        ControlFlag::EnableNMI => 0x80,
    }
}

pub fn get_control_flag<T: Bus>(bus: &mut T, f: ControlFlag) -> (v: bool)
    ensures
        v == has_bit(old(bus).ppu().registers.control as int, control_weight(f)),
        only_ppu(old(bus), final(bus), old(bus).ppu()),
{
    let control = get_control(bus);
    match f {
        ControlFlag::NametableX => utils::b0(control),
        ControlFlag::NametableY => utils::b1(control),
        ControlFlag::IncrementMode => utils::b2(control),
        ControlFlag::PatternSprite => utils::b3(control),
        ControlFlag::PatternBackground => utils::b4(control),
        ControlFlag::SpriteSize => utils::b5(control),
        ControlFlag::SlaveMode => utils::b6(control),
        ControlFlag::EnableNMI => utils::b7(control),
    }
}

pub fn set_control_flag<T: Bus>(bus: &mut T, f: ControlFlag, v: bool)
    ensures
        only_ppu(
            old(bus),
            final(bus),
            with_registers(
                old(bus).ppu(),
                Registers {
                    control: put_bit(old(bus).ppu().registers.control as int, control_weight(f), v) as u8,
                    ..old(bus).ppu().registers
                },
            ),
        ),
{
    let control = get_control(bus);
    let changed = match f {
        ControlFlag::NametableX => utils::p0(control, v),
        ControlFlag::NametableY => utils::p1(control, v),
        ControlFlag::IncrementMode => utils::p2(control, v),
        ControlFlag::PatternSprite => utils::p3(control, v),
        ControlFlag::PatternBackground => utils::p4(control, v),
        ControlFlag::SpriteSize => utils::p5(control, v),
        ControlFlag::SlaveMode => utils::p6(control, v),
        ControlFlag::EnableNMI => utils::p7(control, v),
    };
    set_control(bus, changed);
}

// Mask Flags

/// The weight of the bit that holds a flag in the mask register.
pub open spec fn mask_weight(f: MaskFlag) -> int {
    match f {
        MaskFlag::Grayscale => 0x01,
        MaskFlag::RenderBackgroundLeft => 0x02,
        MaskFlag::RenderSpritesLeft => 0x04,
        MaskFlag::RenderBackground => 0x08,
        MaskFlag::RenderSprites => 0x10,
        MaskFlag::EnhancedRed => 0x20,
        MaskFlag::EnhanceGreen => 0x40,
        MaskFlag::EnhanceBlue => 0x80,
    }
}

pub fn get_mask_flag<T: Bus>(bus: &mut T, f: MaskFlag) -> (v: bool)
    ensures
        v == has_bit(old(bus).ppu().registers.mask as int, mask_weight(f)),
        only_ppu(old(bus), final(bus), old(bus).ppu()),
{
    let mask = get_mask(bus);
    match f {
        MaskFlag::Grayscale => utils::b0(mask),
        MaskFlag::RenderBackgroundLeft => utils::b1(mask),
        MaskFlag::RenderSpritesLeft => utils::b2(mask),
        MaskFlag::RenderBackground => utils::b3(mask),
        MaskFlag::RenderSprites => utils::b4(mask),
        MaskFlag::EnhancedRed => utils::b5(mask),
        MaskFlag::EnhanceGreen => utils::b6(mask),
        MaskFlag::EnhanceBlue => utils::b7(mask),
    }
}

pub fn set_mask_flag<T: Bus>(bus: &mut T, f: MaskFlag, v: bool)
    ensures
        only_ppu(
            old(bus),
            final(bus),
            with_registers(
                old(bus).ppu(),
                Registers {
                    mask: put_bit(old(bus).ppu().registers.mask as int, mask_weight(f), v) as u8,
                    ..old(bus).ppu().registers
                },
            ),
        ),
{
    let mask = get_mask(bus);
    let changed = match f {
        MaskFlag::Grayscale => utils::p0(mask, v),
        MaskFlag::RenderBackgroundLeft => utils::p1(mask, v),
        MaskFlag::RenderSpritesLeft => utils::p2(mask, v),
        MaskFlag::RenderBackground => utils::p3(mask, v),
        MaskFlag::RenderSprites => utils::p4(mask, v),
        MaskFlag::EnhancedRed => utils::p5(mask, v),
        MaskFlag::EnhanceGreen => utils::p6(mask, v),
        MaskFlag::EnhanceBlue => utils::p7(mask, v),
    };
    set_mask(bus, changed);
}

// Status Flags

/// The weight of the bit that holds a flag in the status register.
pub open spec fn status_weight(f: StatusFlag) -> int {
    match f {
        StatusFlag::SpriteOverflow => 0x20,
        StatusFlag::SpriteZeroHit => 0x40,
        StatusFlag::VerticalBlank => 0x80,
    }
}

pub fn get_status_flag<T: Bus>(bus: &mut T, f: StatusFlag) -> (v: bool)
    ensures
        v == has_bit(old(bus).ppu().registers.status as int, status_weight(f)),
        only_ppu(old(bus), final(bus), old(bus).ppu()),
{
    let status = get_status(bus);
    match f {
        StatusFlag::SpriteOverflow => utils::b5(status),
        StatusFlag::SpriteZeroHit => utils::b6(status),
        StatusFlag::VerticalBlank => utils::b7(status),
    }
}

pub fn set_status_flag<T: Bus>(bus: &mut T, f: StatusFlag, v: bool)
    ensures
        only_ppu(
            old(bus),
            final(bus),
            with_registers(
                old(bus).ppu(),
                Registers {
                    status: put_bit(old(bus).ppu().registers.status as int, status_weight(f), v) as u8,
                    ..old(bus).ppu().registers
                },
            ),
        ),
{
    let status = get_status(bus);
    let changed = match f {
        StatusFlag::SpriteOverflow => utils::p5(status, v),
        StatusFlag::SpriteZeroHit => utils::p6(status, v),
        StatusFlag::VerticalBlank => utils::p7(status, v),
    };
    set_status(bus, changed);
}

// The scroll registers
//
// A scroll register packs five fields into fifteen bits: from the lowest bit up the
// coarse x scroll (5 bits), the coarse y scroll (5 bits), the two bits that choose the
// nametable, and the fine y scroll (3 bits).

pub open spec fn coarse_x(word: u16) -> u8 {
    (word % 32) as u8
}

pub open spec fn coarse_y(word: u16) -> u8 {
    ((word / 32) % 32) as u8
}

pub open spec fn nametable_x(word: u16) -> bool {
    has_bit(word as int, 0x0400)
}

pub open spec fn nametable_y(word: u16) -> bool {
    has_bit(word as int, 0x0800)
}

pub open spec fn fine_y(word: u16) -> u8 {
    ((word / 0x1000) % 8) as u8
}

/// The word with the low five bits of `v` as its coarse x scroll.
pub open spec fn with_coarse_x(word: u16, v: u8) -> u16 {
    (word - word % 32 + v % 32) as u16
}

/// The word with the low five bits of `v` as its coarse y scroll.
pub open spec fn with_coarse_y(word: u16, v: u8) -> u16 {
    (word - ((word / 32) % 32) * 32 + (v % 32) * 32) as u16
}

pub open spec fn with_nametable_x(word: u16, v: bool) -> u16 {
    put_bit(word as int, 0x0400, v) as u16
}

pub open spec fn with_nametable_y(word: u16, v: bool) -> u16 {
    put_bit(word as int, 0x0800, v) as u16
}

/// The word with the low three bits of `v` as its fine y scroll. Of a word of
/// fifteen bits no other bit changes.
pub open spec fn with_fine_y(word: u16, v: u8) -> u16 {
    (word - ((word / 0x1000) % 8) * 0x1000 + (v % 8) * 0x1000) as u16
}

proof fn lemma_fields(word: u16, v: u16)
    by (bit_vector)
    requires
        word <= 0x7FFF,
    ensures
        (word & 0xFFE0) | (v & 0x001F) == word - word % 32 + v % 32,
        (word & 0xFC1F) | ((v & 0x001F) << 5) == word - ((word / 32) % 32) * 32 + (v % 32) * 32,
        (word & 0x8FFF) | ((v & 0x0007) << 12) == word - ((word / 0x1000) % 8) * 0x1000 + (v % 8) * 0x1000,
        (word & 0xFFE0) | (v & 0x001F) <= 0x7FFF,
        (word & 0xFC1F) | ((v & 0x001F) << 5) <= 0x7FFF,
        (word & 0x8FFF) | ((v & 0x0007) << 12) <= 0x7FFF,
        word >> 5 == word / 32,
        word >> 12 == word / 0x1000,
        (word / 0x0400) % 2 == 1 || word + 0x0400 <= 0x7FFF,
        (word / 0x0800) % 2 == 1 || word + 0x0800 <= 0x7FFF,
{
}

pub fn pack_coarse_x(word: u16, v: u8) -> (r: u16)
    requires
        word <= 0x7FFF,
    ensures
        r == with_coarse_x(word, v),
        r <= 0x7FFF,
{
    proof {
        lemma_fields(word, v as u16);
    }
    (word & 0xFFE0) | (v as u16 & 0x001F)
}

pub fn pack_coarse_y(word: u16, v: u8) -> (r: u16)
    requires
        word <= 0x7FFF,
    ensures
        r == with_coarse_y(word, v),
        r <= 0x7FFF,
{
    proof {
        lemma_fields(word, v as u16);
    }
    (word & 0xFC1F) | ((v as u16 & 0x001F) << 5)
}

pub fn pack_fine_y(word: u16, v: u8) -> (r: u16)
    requires
        word <= 0x7FFF,
    ensures
        r == with_fine_y(word, v),
        r <= 0x7FFF,
{
    proof {
        lemma_fields(word, v as u16);
    }
    (word & 0x8FFF) | ((v as u16 & 0x0007) << 12)
}

pub fn pack_nametable_x(word: u16, v: bool) -> (r: u16)
    requires
        word <= 0x7FFF,
    ensures
        r == with_nametable_x(word, v),
        r <= 0x7FFF,
{
    proof {
        reveal(has_bit);
        reveal(put_bit);
        lemma_fields(word, 0);
    }
    utils::P10(word, v)
}

pub fn pack_nametable_y(word: u16, v: bool) -> (r: u16)
    requires
        word <= 0x7FFF,
    ensures
        r == with_nametable_y(word, v),
        r <= 0x7FFF,
{
    proof {
        reveal(has_bit);
        reveal(put_bit);
        lemma_fields(word, 0);
    }
    utils::P11(word, v)
}

pub fn unpack_coarse_x(word: u16) -> (r: u8)
    ensures
        r == coarse_x(word),
{
    utils::T5(word) as u8
}

pub fn unpack_coarse_y(word: u16) -> (r: u8)
    ensures
        r == coarse_y(word),
{
    utils::T5(word / 32) as u8
}

pub fn unpack_fine_y(word: u16) -> (r: u8)
    ensures
        r == fine_y(word),
{
    utils::T3(word / 0x1000) as u8
}

// Loopy: VRAM

pub fn get_v_coarse_x<T: Bus>(bus: &mut T) -> (v: u8)
    ensures
        v == coarse_x(old(bus).ppu().registers.vram),
        only_ppu(old(bus), final(bus), old(bus).ppu()),
{
    let word = get_vram(bus);
    unpack_coarse_x(word)
}

pub fn get_v_coarse_y<T: Bus>(bus: &mut T) -> (v: u8)
    ensures
        v == coarse_y(old(bus).ppu().registers.vram),
        only_ppu(old(bus), final(bus), old(bus).ppu()),
{
    let word = get_vram(bus);
    unpack_coarse_y(word)
}

pub fn get_v_nametable_x<T: Bus>(bus: &mut T) -> (v: bool)
    ensures
        v == nametable_x(old(bus).ppu().registers.vram),
        only_ppu(old(bus), final(bus), old(bus).ppu()),
{
    let word = get_vram(bus);
    utils::B10(word)
}

pub fn get_v_nametable_y<T: Bus>(bus: &mut T) -> (v: bool)
    ensures
        v == nametable_y(old(bus).ppu().registers.vram),
        only_ppu(old(bus), final(bus), old(bus).ppu()),
{
    let word = get_vram(bus);
    utils::B11(word)
}

pub fn get_v_fine_y<T: Bus>(bus: &mut T) -> (v: u8)
    ensures
        v == fine_y(old(bus).ppu().registers.vram),
        only_ppu(old(bus), final(bus), old(bus).ppu()),
{
    let word = get_vram(bus);
    unpack_fine_y(word)
}

pub fn set_v_coarse_x<T: Bus>(bus: &mut T, v: u8)
    requires
        old(bus).ppu().registers.vram <= 0x7FFF,
    ensures
        only_ppu(
            old(bus),
            final(bus),
            with_registers(
                old(bus).ppu(),
                Registers {
                    vram: with_coarse_x(old(bus).ppu().registers.vram, v),
                    ..old(bus).ppu().registers
                },
            ),
        ),
        final(bus).ppu().registers.vram <= 0x7FFF,
{
    let word = get_vram(bus);
    set_vram(bus, pack_coarse_x(word, v));
}

pub fn set_v_coarse_y<T: Bus>(bus: &mut T, v: u8)
    requires
        old(bus).ppu().registers.vram <= 0x7FFF,
    ensures
        only_ppu(
            old(bus),
            final(bus),
            with_registers(
                old(bus).ppu(),
                Registers {
                    vram: with_coarse_y(old(bus).ppu().registers.vram, v),
                    ..old(bus).ppu().registers
                },
            ),
        ),
        final(bus).ppu().registers.vram <= 0x7FFF,
{
    let word = get_vram(bus);
    set_vram(bus, pack_coarse_y(word, v));
}

pub fn set_v_nametable_x<T: Bus>(bus: &mut T, v: bool)
    requires
        old(bus).ppu().registers.vram <= 0x7FFF,
    ensures
        only_ppu(
            old(bus),
            final(bus),
            with_registers(
                old(bus).ppu(),
                Registers {
                    vram: with_nametable_x(old(bus).ppu().registers.vram, v),
                    ..old(bus).ppu().registers
                },
            ),
        ),
        final(bus).ppu().registers.vram <= 0x7FFF,
{
    let word = get_vram(bus);
    set_vram(bus, pack_nametable_x(word, v));
}

pub fn set_v_nametable_y<T: Bus>(bus: &mut T, v: bool)
    requires
        old(bus).ppu().registers.vram <= 0x7FFF,
    ensures
        only_ppu(
            old(bus),
            final(bus),
            with_registers(
                old(bus).ppu(),
                Registers {
                    vram: with_nametable_y(old(bus).ppu().registers.vram, v),
                    ..old(bus).ppu().registers
                },
            ),
        ),
        final(bus).ppu().registers.vram <= 0x7FFF,
{
    let word = get_vram(bus);
    set_vram(bus, pack_nametable_y(word, v));
}

pub fn set_v_fine_y<T: Bus>(bus: &mut T, v: u8)
    requires
        old(bus).ppu().registers.vram <= 0x7FFF,
    ensures
        only_ppu(
            old(bus),
            final(bus),
            with_registers(
                old(bus).ppu(),
                Registers {
                    vram: with_fine_y(old(bus).ppu().registers.vram, v),
                    ..old(bus).ppu().registers
                },
            ),
        ),
        final(bus).ppu().registers.vram <= 0x7FFF,
{
    let word = get_vram(bus);
    set_vram(bus, pack_fine_y(word, v));
}

// Loopy: TRAM

pub fn get_t_coarse_x<T: Bus>(bus: &mut T) -> (v: u8)
    ensures
        v == coarse_x(old(bus).ppu().registers.tram),
        only_ppu(old(bus), final(bus), old(bus).ppu()),
{
    let word = get_tram(bus);
    unpack_coarse_x(word)
}

pub fn get_t_coarse_y<T: Bus>(bus: &mut T) -> (v: u8)
    ensures
        v == coarse_y(old(bus).ppu().registers.tram),
        only_ppu(old(bus), final(bus), old(bus).ppu()),
{
    let word = get_tram(bus);
    unpack_coarse_y(word)
}

pub fn get_t_nametable_x<T: Bus>(bus: &mut T) -> (v: bool)
    ensures
        v == nametable_x(old(bus).ppu().registers.tram),
        only_ppu(old(bus), final(bus), old(bus).ppu()),
{
    let word = get_tram(bus);
    utils::B10(word)
}

pub fn get_t_nametable_y<T: Bus>(bus: &mut T) -> (v: bool)
    ensures
        v == nametable_y(old(bus).ppu().registers.tram),
        only_ppu(old(bus), final(bus), old(bus).ppu()),
{
    let word = get_tram(bus);
    utils::B11(word)
}

pub fn get_t_fine_y<T: Bus>(bus: &mut T) -> (v: u8)
    ensures
        v == fine_y(old(bus).ppu().registers.tram),
        only_ppu(old(bus), final(bus), old(bus).ppu()),
{
    let word = get_tram(bus);
    unpack_fine_y(word)
}

pub fn set_t_coarse_x<T: Bus>(bus: &mut T, v: u8)
    requires
        old(bus).ppu().registers.tram <= 0x7FFF,
    ensures
        only_ppu(
            old(bus),
            final(bus),
            with_registers(
                old(bus).ppu(),
                Registers {
                    tram: with_coarse_x(old(bus).ppu().registers.tram, v),
                    ..old(bus).ppu().registers
                },
            ),
        ),
        final(bus).ppu().registers.tram <= 0x7FFF,
{
    let word = get_tram(bus);
    set_tram(bus, pack_coarse_x(word, v));
}

pub fn set_t_coarse_y<T: Bus>(bus: &mut T, v: u8)
    requires
        old(bus).ppu().registers.tram <= 0x7FFF,
    ensures
        only_ppu(
            old(bus),
            final(bus),
            with_registers(
                old(bus).ppu(),
                Registers {
                    tram: with_coarse_y(old(bus).ppu().registers.tram, v),
                    ..old(bus).ppu().registers
                },
            ),
        ),
        final(bus).ppu().registers.tram <= 0x7FFF,
{
    let word = get_tram(bus);
    set_tram(bus, pack_coarse_y(word, v));
}

pub fn set_t_nametable_x<T: Bus>(bus: &mut T, v: bool)
    requires
        old(bus).ppu().registers.tram <= 0x7FFF,
    ensures
        only_ppu(
            old(bus),
            final(bus),
            with_registers(
                old(bus).ppu(),
                Registers {
                    tram: with_nametable_x(old(bus).ppu().registers.tram, v),
                    ..old(bus).ppu().registers
                },
            ),
        ),
        final(bus).ppu().registers.tram <= 0x7FFF,
{
    let word = get_tram(bus);
    set_tram(bus, pack_nametable_x(word, v));
}

pub fn set_t_nametable_y<T: Bus>(bus: &mut T, v: bool)
    requires
        old(bus).ppu().registers.tram <= 0x7FFF,
    ensures
        only_ppu(
            old(bus),
            final(bus),
            with_registers(
                old(bus).ppu(),
                Registers {
                    tram: with_nametable_y(old(bus).ppu().registers.tram, v),
                    ..old(bus).ppu().registers
                },
            ),
        ),
        final(bus).ppu().registers.tram <= 0x7FFF,
{
    let word = get_tram(bus);
    set_tram(bus, pack_nametable_y(word, v));
}

pub fn set_t_fine_y<T: Bus>(bus: &mut T, v: u8)
    requires
        old(bus).ppu().registers.tram <= 0x7FFF,
    ensures
        only_ppu(
            old(bus),
            final(bus),
            with_registers(
                old(bus).ppu(),
                Registers {
                    tram: with_fine_y(old(bus).ppu().registers.tram, v),
                    ..old(bus).ppu().registers
                },
            ),
        ),
        final(bus).ppu().registers.tram <= 0x7FFF,
{
    let word = get_tram(bus);
    set_tram(bus, pack_fine_y(word, v));
}

pub fn invert_v_nametable_x<T: Bus>(bus: &mut T)
    requires
        old(bus).ppu().registers.vram <= 0x7FFF,
    ensures
        only_ppu(
            old(bus),
            final(bus),
            with_registers(
                old(bus).ppu(),
                Registers {
                    vram: with_nametable_x(
                        old(bus).ppu().registers.vram,
                        !nametable_x(old(bus).ppu().registers.vram),
                    ),
                    ..old(bus).ppu().registers
                },
            ),
        ),
        final(bus).ppu().registers.vram <= 0x7FFF,
{
    let nametable_x = get_v_nametable_x(bus);
    set_v_nametable_x(bus, !nametable_x);
}

pub fn invert_v_nametable_y<T: Bus>(bus: &mut T)
    requires
        old(bus).ppu().registers.vram <= 0x7FFF,
    ensures
        only_ppu(
            old(bus),
            final(bus),
            with_registers(
                old(bus).ppu(),
                Registers {
                    vram: with_nametable_y(
                        old(bus).ppu().registers.vram,
                        !nametable_y(old(bus).ppu().registers.vram),
                    ),
                    ..old(bus).ppu().registers
                },
            ),
        ),
        final(bus).ppu().registers.vram <= 0x7FFF,
{
    let nametable_y = get_v_nametable_y(bus);
    set_v_nametable_y(bus, !nametable_y);
}

// Sprite Flag

/// The weight of the bit that holds a flag in a sprite's attribute byte.
pub open spec fn sprite_weight(f: SpriteFlag) -> int {
    match f {
        SpriteFlag::SpritePriority => 0x20,
        SpriteFlag::SpriteHorizontalFlip => 0x40,
        SpriteFlag::SpriteVerticalFlip => 0x80,
    }
}

pub fn get_sprite_flag(sprite: Sprite, f: SpriteFlag) -> (v: bool)
    ensures
        v == has_bit(sprite.attribute as int, sprite_weight(f)),
{
    match f {
        SpriteFlag::SpritePriority => utils::b5(sprite.attribute),
        SpriteFlag::SpriteHorizontalFlip => utils::b6(sprite.attribute),
        SpriteFlag::SpriteVerticalFlip => utils::b7(sprite.attribute),
    }
}

/// The palette of a sprite: one of the four behind the background's.
pub fn get_sprite_palette(sprite: Sprite) -> (palette: u8)
    ensures
        palette == 4 + sprite.attribute % 4,
{
    4 + utils::t2(sprite.attribute)
}

// Context

pub fn set_complete<T: Bus>(bus: &mut T, v: bool) -> (output: bool)
    ensures
        output == old(bus).ppu().context.complete,
        only_ppu(
            old(bus),
            final(bus),
            with_context(old(bus).ppu(), Context { complete: v, ..old(bus).ppu().context }),
        ),
{
    let ppu = bus.fetch_ppu();
    let output = ppu.context.complete;
    ppu.context.complete = v;
    output
}

pub fn set_scanline<T: Bus>(bus: &mut T, v: i32) -> (output: i32)
    ensures
        output == old(bus).ppu().context.scanline,
        only_ppu(
            old(bus),
            final(bus),
            with_context(old(bus).ppu(), Context { scanline: v, ..old(bus).ppu().context }),
        ),
{
    let ppu = bus.fetch_ppu();
    let output = ppu.context.scanline;
    ppu.context.scanline = v;
    output
}

pub fn set_cycle<T: Bus>(bus: &mut T, v: i32) -> (output: i32)
    ensures
        output == old(bus).ppu().context.cycle,
        only_ppu(
            old(bus),
            final(bus),
            with_context(old(bus).ppu(), Context { cycle: v, ..old(bus).ppu().context }),
        ),
{
    let ppu = bus.fetch_ppu();
    let output = ppu.context.cycle;
    ppu.context.cycle = v;
    output
}

pub fn set_sprite_0_alpha<T: Bus>(bus: &mut T, v: u8) -> (output: u8)
    ensures
        output == old(bus).ppu().context.sprite_0_alpha,
        only_ppu(
            old(bus),
            final(bus),
            with_context(old(bus).ppu(), Context { sprite_0_alpha: v, ..old(bus).ppu().context }),
        ),
{
    let ppu = bus.fetch_ppu();
    let output = ppu.context.sprite_0_alpha;
    ppu.context.sprite_0_alpha = v;
    output
}

pub fn set_sprite_0_x<T: Bus>(bus: &mut T, v: i32) -> (output: i32)
    ensures
        output == old(bus).ppu().context.sprite_0_x,
        only_ppu(
            old(bus),
            final(bus),
            with_context(old(bus).ppu(), Context { sprite_0_x: v, ..old(bus).ppu().context }),
        ),
{
    let ppu = bus.fetch_ppu();
    let output = ppu.context.sprite_0_x;
    ppu.context.sprite_0_x = v;
    output
}

pub fn set_sprite_0_hit_position<T: Bus>(bus: &mut T, v: i32) -> (output: i32)
    ensures
        output == old(bus).ppu().context.sprite_0_hit_position,
        only_ppu(
            old(bus),
            final(bus),
            with_context(old(bus).ppu(), Context { sprite_0_hit_position: v, ..old(bus).ppu().context }),
        ),
{
    let ppu = bus.fetch_ppu();
    let output = ppu.context.sprite_0_hit_position;
    ppu.context.sprite_0_hit_position = v;
    output
}

pub fn set_oam_address<T: Bus>(bus: &mut T, v: u8) -> (output: u8)
    ensures
        output == old(bus).ppu().context.oam_address,
        only_ppu(
            old(bus),
            final(bus),
            with_context(old(bus).ppu(), Context { oam_address: v, ..old(bus).ppu().context }),
        ),
{
    let ppu = bus.fetch_ppu();
    let output = ppu.context.oam_address;
    ppu.context.oam_address = v;
    output
}

pub fn get_complete<T: Bus>(bus: &mut T) -> (v: bool)
    ensures
        v == old(bus).ppu().context.complete,
        only_ppu(old(bus), final(bus), old(bus).ppu()),
{
    bus.fetch_ppu().context.complete
}

pub fn get_scanline<T: Bus>(bus: &mut T) -> (v: i32)
    ensures
        v == old(bus).ppu().context.scanline,
        only_ppu(old(bus), final(bus), old(bus).ppu()),
{
    bus.fetch_ppu().context.scanline
}

pub fn get_cycle<T: Bus>(bus: &mut T) -> (v: i32)
    ensures
        v == old(bus).ppu().context.cycle,
        only_ppu(old(bus), final(bus), old(bus).ppu()),
{
    bus.fetch_ppu().context.cycle
}

pub fn get_sprite_0_alpha<T: Bus>(bus: &mut T) -> (v: u8)
    ensures
        v == old(bus).ppu().context.sprite_0_alpha,
        only_ppu(old(bus), final(bus), old(bus).ppu()),
{
    bus.fetch_ppu().context.sprite_0_alpha
}

pub fn get_sprite_0_x<T: Bus>(bus: &mut T) -> (v: i32)
    ensures
        v == old(bus).ppu().context.sprite_0_x,
        only_ppu(old(bus), final(bus), old(bus).ppu()),
{
    bus.fetch_ppu().context.sprite_0_x
}

pub fn get_sprite_0_hit_position<T: Bus>(bus: &mut T) -> (v: i32)
    ensures
        v == old(bus).ppu().context.sprite_0_hit_position,
        only_ppu(old(bus), final(bus), old(bus).ppu()),
{
    bus.fetch_ppu().context.sprite_0_hit_position
}

pub fn get_oam_address<T: Bus>(bus: &mut T) -> (v: u8)
    ensures
        v == old(bus).ppu().context.oam_address,
        only_ppu(old(bus), final(bus), old(bus).ppu()),
{
    bus.fetch_ppu().context.oam_address
}

// The beam and the scroll

/// Whether the mask register switches the background or the sprites on.
pub open spec fn rendering(ppu: PPU) -> bool {
    has_bit(ppu.registers.mask as int, 0x08) || has_bit(ppu.registers.mask as int, 0x10)
}

/// The scroll register one tile to the right: behind the last tile of a nametable the
/// scroll goes on in the table beside it.
pub open spec fn right_of(word: u16) -> u16 {
    if coarse_x(word) < 31 {
        with_coarse_x(word, (coarse_x(word) + 1) as u8)
    } else {
        with_nametable_x(with_coarse_x(word, 0), !nametable_x(with_coarse_x(word, 0)))
    }
}

/// The scroll register one row of tiles down: behind row 29, the last that a
/// nametable shows, the scroll goes on in the table below; row 31 wraps without
/// changing tables.
pub open spec fn row_below(word: u16) -> u16 {
    if coarse_y(word) == 29 {
        with_nametable_y(with_coarse_y(word, 0), !nametable_y(with_coarse_y(word, 0)))
    } else if coarse_y(word) == 31 {
        with_coarse_y(word, 0)
    } else {
        with_coarse_y(word, (coarse_y(word) + 1) as u8)
    }
}

/// The scroll register one line down.
pub open spec fn line_below(word: u16) -> u16 {
    if fine_y(word) < 7 {
        with_fine_y(word, (fine_y(word) + 1) as u8)
    } else {
        row_below(with_fine_y(word, 0))
    }
}

/// Where the beam is one dot later: behind dot 340 the next line begins, and behind
/// line 260 the frame is complete and the line before the first begins.
pub open spec fn next_dot(c: Context) -> Context {
    if c.cycle >= 340 {
        if c.scanline >= 260 {
            Context { cycle: 0, scanline: -1i32, complete: true, ..c }
        } else {
            Context { cycle: 0, scanline: (c.scanline + 1) as i32, ..c }
        }
    } else {
        Context { cycle: (c.cycle + 1) as i32, ..c }
    }
}

/// The current scroll register with the horizontal fields of the latched one.
pub open spec fn x_transferred(vram: u16, tram: u16) -> u16 {
    with_coarse_x(with_nametable_x(vram, nametable_x(tram)), coarse_x(tram))
}

/// The current scroll register with the vertical fields of the latched one.
pub open spec fn y_transferred(vram: u16, tram: u16) -> u16 {
    with_fine_y(with_coarse_y(with_nametable_y(vram, nametable_y(tram)), coarse_y(tram)), fine_y(tram))
}

/// `ppu` with `word` for its current scroll register where rendering is on.
pub open spec fn scrolled(ppu: PPU, word: u16) -> PPU {
    if rendering(ppu) {
        with_registers(ppu, Registers { vram: word, ..ppu.registers })
    } else {
        ppu
    }
}

fn is_rendering<T: Bus>(bus: &mut T) -> (v: bool)
    ensures
        v == rendering(old(bus).ppu()),
        only_ppu(old(bus), final(bus), old(bus).ppu()),
{
    let render_background = get_mask_flag(bus, MaskFlag::RenderBackground);
    let render_sprites = get_mask_flag(bus, MaskFlag::RenderSprites);
    render_background || render_sprites
}

pub fn increase_coarse_x<T: Bus>(bus: &mut T)
    requires
        old(bus).ppu().registers.vram <= 0x7FFF,
    ensures
        only_ppu(old(bus), final(bus), scrolled(old(bus).ppu(), right_of(old(bus).ppu().registers.vram))),
        final(bus).ppu().registers.vram <= 0x7FFF,
{
    if is_rendering(bus) {
        let coarse_x = get_v_coarse_x(bus);
        if coarse_x < 31 {
            set_v_coarse_x(bus, coarse_x + 1)
        } else {
            set_v_coarse_x(bus, 0);
            invert_v_nametable_x(bus);
        }
    }
}

pub fn increase_coarse_y<T: Bus>(bus: &mut T)
    requires
        old(bus).ppu().registers.vram <= 0x7FFF,
    ensures
        only_ppu(
            old(bus),
            final(bus),
            with_registers(
                old(bus).ppu(),
                Registers { vram: row_below(old(bus).ppu().registers.vram), ..old(bus).ppu().registers },
            ),
        ),
        final(bus).ppu().registers.vram <= 0x7FFF,
{
    let coarse_y = get_v_coarse_y(bus);

    if coarse_y == 29 {
        set_v_coarse_y(bus, 0);
        invert_v_nametable_y(bus);
    } else if coarse_y == 31 {
        set_v_coarse_y(bus, 0);
    } else {
        set_v_coarse_y(bus, coarse_y + 1);
    }
}

pub fn increase_fine_y<T: Bus>(bus: &mut T)
    requires
        old(bus).ppu().registers.vram <= 0x7FFF,
    ensures
        only_ppu(old(bus), final(bus), scrolled(old(bus).ppu(), line_below(old(bus).ppu().registers.vram))),
        final(bus).ppu().registers.vram <= 0x7FFF,
{
    if is_rendering(bus) {
        let fine_y = get_v_fine_y(bus);
        if fine_y < 7 {
            set_v_fine_y(bus, fine_y + 1)
        } else {
            set_v_fine_y(bus, 0);
            increase_coarse_y(bus);
        }
    }
}

pub fn increase_scanline<T: Bus>(bus: &mut T)
    ensures
        only_ppu(
            old(bus),
            final(bus),
            with_context(
                old(bus).ppu(),
                if old(bus).ppu().context.scanline >= 260 {
                    Context { scanline: -1i32, complete: true, ..old(bus).ppu().context }
                } else {
                    Context {
                        scanline: (old(bus).ppu().context.scanline + 1) as i32,
                        ..old(bus).ppu().context
                    }
                },
            ),
        ),
{
    let scanline = get_scanline(bus);
    if scanline >= 260 {
        set_scanline(bus, -1);
        set_complete(bus, true);
    } else {
        set_scanline(bus, scanline + 1);
    }
}

pub fn increase_cycle<T: Bus>(bus: &mut T)
    ensures
        only_ppu(old(bus), final(bus), with_context(old(bus).ppu(), next_dot(old(bus).ppu().context))),
{
    let cycle = get_cycle(bus);
    if cycle >= 340 {
        set_cycle(bus, 0);
        increase_scanline(bus);
    } else {
        set_cycle(bus, cycle + 1);
    }
}

pub fn transfer_x<T: Bus>(bus: &mut T)
    requires
        old(bus).ppu().registers.vram <= 0x7FFF,
    ensures
        only_ppu(
            old(bus),
            final(bus),
            scrolled(
                old(bus).ppu(),
                x_transferred(old(bus).ppu().registers.vram, old(bus).ppu().registers.tram),
            ),
        ),
        final(bus).ppu().registers.vram <= 0x7FFF,
{
    if is_rendering(bus) {
        let nametable_x = get_t_nametable_x(bus);
        let coarse_x = get_t_coarse_x(bus);

        set_v_nametable_x(bus, nametable_x);
        set_v_coarse_x(bus, coarse_x);
    }
}

pub fn transfer_y<T: Bus>(bus: &mut T)
    requires
        old(bus).ppu().registers.vram <= 0x7FFF,
    ensures
        only_ppu(
            old(bus),
            final(bus),
            scrolled(
                old(bus).ppu(),
                y_transferred(old(bus).ppu().registers.vram, old(bus).ppu().registers.tram),
            ),
        ),
        final(bus).ppu().registers.vram <= 0x7FFF,
{
    if is_rendering(bus) {
        let nametable_y = get_t_nametable_y(bus);
        let coarse_y = get_t_coarse_y(bus);
        let fine_y = get_t_fine_y(bus);

        set_v_nametable_y(bus, nametable_y);
        set_v_coarse_y(bus, coarse_y);
        set_v_fine_y(bus, fine_y);
    }
}

} // verus!
