use vstd::prelude::*;

verus! {

#[derive(Copy, Clone, Debug, PartialEq, Eq, Structural)]
pub struct Registers {
    pub control: u8,
    pub mask: u8,
    pub status: u8,
    pub fine_x: u8,
    pub data_buffer: u8,
    pub vram: u16,
    pub tram: u16,
    pub write_toggle: bool,
}

#[derive(Copy, Clone, Debug, PartialEq, Eq, Structural)]
pub struct Context {
    pub complete: bool,
    pub scanline: i32,
    pub cycle: i32,
    pub sprite_0_alpha: u8,
    pub sprite_0_x: i32,
    pub sprite_0_hit_position: i32,
    pub oam_address: u8,
}

#[derive(Copy, Clone, Debug, PartialEq, Eq, Structural)]
pub enum Priority {
    Front,
    Middle,
    Back,
    Unset,
}

#[derive(Copy, Clone, Debug, PartialEq, Eq, Structural)]
pub struct PixelInfo {
    pub color_index: u8,
    pub palette_index: u8,
    pub priority: Priority,
}

#[derive(Copy, Clone, Debug)]
pub struct PPU {
    pub registers: Registers,
    pub context: Context,
    pub oam_data: [u8; 0x100],
    /// One line of sprite pixels.
    pub fg_buffer: [PixelInfo; 256],
    /// One line of background pixels, and one tile more for the scroll to look ahead.
    pub bg_buffer: [PixelInfo; 264],
}

#[derive(Copy, Clone, Debug, PartialEq, Eq, Structural)]
pub struct Sprite {
    pub id: usize,
    pub y_pos: u8,
    pub tile: u8,
    pub attribute: u8,
    pub x_pos: u8,
}

#[derive(Copy, Clone, Debug, PartialEq, Eq, Structural)]
pub enum ControlFlag {
    NametableX,
    NametableY,
    IncrementMode,
    PatternSprite,
    PatternBackground,
    SpriteSize,
    SlaveMode,
    EnableNMI,
}

#[derive(Copy, Clone, Debug, PartialEq, Eq, Structural)]
pub enum MaskFlag {
    Grayscale,
    RenderBackgroundLeft,
    RenderSpritesLeft,
    RenderBackground,
    RenderSprites,
    EnhancedRed,
    EnhanceGreen,
    EnhanceBlue,
}

#[derive(Copy, Clone, Debug, PartialEq, Eq, Structural)]
pub enum StatusFlag {
    SpriteOverflow,
    SpriteZeroHit,
    VerticalBlank,
}

#[derive(Copy, Clone, Debug, PartialEq, Eq, Structural)]
pub enum LoopyFlag {
    CoarseX,
    CoarseY,
    NametableX,
    NametableY,
    FineY,
}

#[derive(Copy, Clone, Debug, PartialEq, Eq, Structural)]
pub enum SpriteFlag {
    SpritePriority,
    SpriteHorizontalFlip,
    SpriteVerticalFlip,
}

/// The state of a picture unit with its memories as sequences.
pub struct State {
    pub registers: Registers,
    pub context: Context,
    pub oam: Seq<u8>,
    pub fg: Seq<PixelInfo>,
    pub bg: Seq<PixelInfo>,
}

impl View for PPU {
    type V = State;

    open spec fn view(&self) -> State {
        State {
            registers: self.registers,
            context: self.context,
            oam: self.oam_data@,
            fg: self.fg_buffer@,
            bg: self.bg_buffer@,
        }
    }
}

impl PPU {
    /// The two scroll registers hold fifteen bits, the fine scroll three, and the beam
    /// and the tracking of sprite 0 are inside the frame.
    pub open spec fn wf(&self) -> bool {
        &&& self.registers.vram <= 0x7FFF
        &&& self.registers.tram <= 0x7FFF
        &&& self.registers.fine_x < 8
        &&& -1 <= self.context.scanline <= 260
        &&& 0 <= self.context.cycle <= 340
        &&& -1 <= self.context.sprite_0_x <= 255
        &&& -1 <= self.context.sprite_0_hit_position <= 255
    }

    /// Whether the unit is well-formed.
    pub fn intact(&self) -> (ok: bool)
        ensures
            ok == self.wf(),
    {
        self.registers.vram <= 0x7FFF && self.registers.tram <= 0x7FFF && self.registers.fine_x < 8
            && -1 <= self.context.scanline && self.context.scanline <= 260 && 0
            <= self.context.cycle && self.context.cycle <= 340 && -1 <= self.context.sprite_0_x
            && self.context.sprite_0_x <= 255 && -1 <= self.context.sprite_0_hit_position
            && self.context.sprite_0_hit_position <= 255
    }
}

/// The memory and the lines that a picture unit is wired to, together with the unit's
/// own state, which the host keeps for it.
///
/// The contracts speak of the unit's state `ppu`; of `video`, the byte that a read
/// finds at each of the 0x4000 addresses; of `screen`, the 256 by 240 colours put out
/// so far, line after line; of `nmi_line`, whether the interrupt line is pulled; and of
/// `frozen`, which stands for what the unit cannot change.
///
/// The specification functions have bodies so that a bus written outside the verifier
/// need only supply the executable methods.
pub trait Bus {
    type Frozen;

    open spec fn inv(&self) -> bool {
        true
    }

    open spec fn ppu(&self) -> PPU {
        arbitrary()
    }

    open spec fn video(&self) -> Seq<u8> {
        Seq::empty()
    }

    /// The video memory once `byte` is written to `address`.
    open spec fn written(&self, address: u16, byte: u8) -> Seq<u8> {
        Seq::empty()
    }

    open spec fn screen(&self) -> Seq<u8> {
        Seq::empty()
    }

    open spec fn nmi_line(&self) -> bool {
        false
    }

    open spec fn frozen(&self) -> Self::Frozen {
        arbitrary()
    }

    fn read_byte(&mut self, address: u16) -> (byte: u8)
        requires
            old(self).inv(),
        ensures
            address < 0x4000 ==> byte == old(self).video()[address as int],
            address >= 0x4000 ==> byte == 0,
            final(self).ppu() == old(self).ppu(),
            final(self).video() == old(self).video(),
            forall|a: u16, b: u8| #[trigger] final(self).written(a, b) == old(self).written(a, b),
            final(self).screen() == old(self).screen(),
            final(self).nmi_line() == old(self).nmi_line(),
            final(self).frozen() == old(self).frozen(),
            final(self).inv(),
    ;

    /// Looks at a byte without the side effects of a read.
    fn peek_byte(&self, address: u16) -> (byte: u8)
        requires
            self.inv(),
        ensures
            address < 0x4000 ==> byte == self.video()[address as int],
            address >= 0x4000 ==> byte == 0,
    ;

    fn write_byte(&mut self, address: u16, byte: u8)
        requires
            old(self).inv(),
        ensures
            final(self).video() == old(self).written(address, byte),
            final(self).ppu() == old(self).ppu(),
            final(self).screen() == old(self).screen(),
            final(self).nmi_line() == old(self).nmi_line(),
            final(self).frozen() == old(self).frozen(),
            final(self).inv(),
    ;

    fn set_pixel(&mut self, position: (usize, usize), color: u8)
        requires
            old(self).inv(),
            position.0 < 256,
            position.1 < 240,
        ensures
            final(self).screen() == old(self).screen().update(position.1 * 256 + position.0, color),
            final(self).ppu() == old(self).ppu(),
            final(self).video() == old(self).video(),
            forall|a: u16, b: u8| #[trigger] final(self).written(a, b) == old(self).written(a, b),
            final(self).nmi_line() == old(self).nmi_line(),
            final(self).frozen() == old(self).frozen(),
            final(self).inv(),
    ;

    /// Pulls the interrupt line of the processor.
    fn trigger_nmi(&mut self)
        requires
            old(self).inv(),
        ensures
            final(self).nmi_line(),
            final(self).frozen() == old(self).frozen(),
            final(self).ppu() == old(self).ppu(),
            final(self).video() == old(self).video(),
            forall|a: u16, b: u8| #[trigger] final(self).written(a, b) == old(self).written(a, b),
            final(self).screen() == old(self).screen(),
            final(self).inv(),
    ;

    fn fetch_ppu(&mut self) -> (ppu: &mut PPU)
        ensures
            *ppu == old(self).ppu(),
            final(self).ppu() == *final(ppu),
            final(self).video() == old(self).video(),
            forall|a: u16, b: u8| #[trigger] final(self).written(a, b) == old(self).written(a, b),
            final(self).screen() == old(self).screen(),
            final(self).nmi_line() == old(self).nmi_line(),
            final(self).frozen() == old(self).frozen(),
            final(self).inv() == old(self).inv(),
    ;

    /// Lends the unit's state out to be looked at.
    fn peek_ppu(&self) -> (ppu: &PPU)
        ensures
            *ppu == self.ppu(),
    ;

    fn get_ppu(&mut self) -> (ppu: PPU)
        ensures
            ppu == old(self).ppu(),
            final(self).ppu() == old(self).ppu(),
            final(self).video() == old(self).video(),
            forall|a: u16, b: u8| #[trigger] final(self).written(a, b) == old(self).written(a, b),
            final(self).screen() == old(self).screen(),
            final(self).nmi_line() == old(self).nmi_line(),
            final(self).frozen() == old(self).frozen(),
            final(self).inv() == old(self).inv(),
    {
        *self.fetch_ppu()
    }
}

/// Between the two only the picture unit's state changed, and it is now `state`.
pub open spec fn only_state<T: Bus + ?Sized>(before: &T, after: &T, state: State) -> bool {
    &&& after.ppu()@ == state
    &&& after.video() == before.video()
    &&& forall|a: u16, b: u8| #[trigger] after.written(a, b) == before.written(a, b)
    &&& after.screen() == before.screen()
    &&& after.nmi_line() == before.nmi_line()
    &&& after.frozen() == before.frozen()
    &&& after.inv() == before.inv()
}

/// Between the two only the picture unit's state changed, and it is now `ppu`.
pub open spec fn only_ppu<T: Bus + ?Sized>(before: &T, after: &T, ppu: PPU) -> bool {
    &&& after.ppu() == ppu
    &&& after.video() == before.video()
    &&& forall|a: u16, b: u8| #[trigger] after.written(a, b) == before.written(a, b)
    &&& after.screen() == before.screen()
    &&& after.nmi_line() == before.nmi_line()
    &&& after.frozen() == before.frozen()
    &&& after.inv() == before.inv()
}

/// A pixel of no sprite.
pub open spec fn no_sprite() -> PixelInfo {
    PixelInfo { color_index: 0, palette_index: 0, priority: Priority::Unset }
}

/// A background pixel that shows the backdrop.
pub open spec fn backdrop() -> PixelInfo {
    PixelInfo { color_index: 0, palette_index: 0, priority: Priority::Middle }
}

/// A picture unit at power-on: every register clear, the beam at the start of the
/// line before the first, no sprite on the line and sprite 0 not seen.
pub open spec fn power_on(ppu: PPU) -> bool {
    &&& ppu.registers == (Registers {
        control: 0,
        mask: 0,
        status: 0,
        fine_x: 0,
        data_buffer: 0,
        vram: 0,
        tram: 0,
        write_toggle: false,
    })
    &&& ppu.context == (Context {
        complete: false,
        scanline: -1i32,
        cycle: 0,
        sprite_0_alpha: 0,
        sprite_0_x: -1i32,
        sprite_0_hit_position: -1i32,
        oam_address: 0,
    })
    &&& forall|i: int| 0 <= i < 0x100 ==> ppu.oam_data[i] == 0
    &&& forall|i: int| 0 <= i < 256 ==> ppu.fg_buffer[i] == no_sprite()
    &&& forall|i: int| 0 <= i < 264 ==> ppu.bg_buffer[i] == no_sprite()
}

pub fn new() -> (ppu: PPU)
    ensures
        power_on(ppu),
        ppu.wf(),
{
    let registers = Registers {
        control: 0,
        mask: 0,
        status: 0,
        fine_x: 0,
        data_buffer: 0,
        vram: 0,
        tram: 0,
        write_toggle: false,
    };
    let context = Context {
        complete: false,
        scanline: -1,
        cycle: 0,
        sprite_0_alpha: 0,
        sprite_0_x: -1,
        sprite_0_hit_position: -1,
        oam_address: 0,
    };
    let oam_data = [0;0x100];
    let fg_buffer = [PixelInfo { color_index: 0, palette_index: 0, priority: Priority::Unset };256];
    let bg_buffer = [PixelInfo { color_index: 0, palette_index: 0, priority: Priority::Unset };264];

    PPU { registers, context, oam_data, fg_buffer, bg_buffer }
}

} // verus!
