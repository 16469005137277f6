use vstd::prelude::*;

use crate::ppu::interface::found;
use crate::ppu::primitive::{
    coarse_x, coarse_y, fine_y, get_control_flag, get_cycle, get_fine_x, get_mask_flag,
    get_scanline, get_sprite, get_sprite_0_alpha, get_sprite_0_hit_position, get_sprite_0_x,
    get_sprite_flag, get_status_flag, get_v_coarse_x, get_v_coarse_y, get_v_fine_y,
    get_v_nametable_x, get_v_nametable_y, get_vram, increase_coarse_x, increase_cycle,
    increase_fine_y, line_below, nametable_x, nametable_y, next_dot, rendering, right_of,
    set_sprite_0_alpha, set_sprite_0_hit_position, set_sprite_0_x, set_status_flag, transfer_x,
    transfer_y, x_transferred, y_transferred,
};
use crate::ppu::types::{
    backdrop, no_sprite, only_ppu, only_state, Bus, Context, ControlFlag, MaskFlag, PixelInfo,
    Priority, Registers, Sprite, SpriteFlag, State, StatusFlag,
};
use crate::utils;
use crate::utils::{has_bit, pow2_small, put_bit};

verus! {

// Helper functions

/// Bit 7 - x of a byte of pattern data: the bit of the pixel `x` dots from the left.
pub open spec fn pixel_bit(b: u8, x: int) -> int {
    if has_bit(b as int, pow2_small(7 - x)) {
        1
    } else {
        0
    }
}

/// The colour index that the two planes of a pattern give to pixel `x`.
pub open spec fn pixel_color(lsb: u8, msb: u8, x: int) -> u8 {
    (2 * pixel_bit(msb, x) + pixel_bit(lsb, x)) as u8
}

/// The colour indices of one row of a tile, from the left.
pub open spec fn row_colors(lsb: u8, msb: u8) -> Seq<u8> {
    Seq::new(8, |x: int| pixel_color(lsb, msb, x))
}

/// Joins one bit of each plane into a colour index.
fn merge_bits(l: bool, m: bool) -> (color: u8)
    ensures
        color == (if m { 2int } else { 0int }) + (if l { 1int } else { 0int }),
{
    let msd: u8 = if m {
        0x2
    } else {
        0x0
    };
    let lsd: u8 = if l {
        0x1
    } else {
        0x0
    };
    msd + lsd
}

/// The colour index of the pixel `x` dots from the left in a row of pattern data.
fn merge_at(lsb: u8, msb: u8, x: usize) -> (color: u8)
    requires
        x < 8,
    ensures
        color == pixel_color(lsb, msb, x as int),
{
    if x == 0 {
        merge_bits(utils::b7(lsb), utils::b7(msb))
    } else if x == 1 {
        merge_bits(utils::b6(lsb), utils::b6(msb))
    } else if x == 2 {
        merge_bits(utils::b5(lsb), utils::b5(msb))
    } else if x == 3 {
        merge_bits(utils::b4(lsb), utils::b4(msb))
    } else if x == 4 {
        merge_bits(utils::b3(lsb), utils::b3(msb))
    } else if x == 5 {
        merge_bits(utils::b2(lsb), utils::b2(msb))
    } else if x == 6 {
        merge_bits(utils::b1(lsb), utils::b1(msb))
    } else {
        merge_bits(utils::b0(lsb), utils::b0(msb))
    }
}

pub fn merge_pixel_bits(lsb: u8, msb: u8) -> (output: [u8; 8])
    ensures
        output@ == row_colors(lsb, msb),
{
    let mut output: [u8; 8] = [0;8];
    let mut x: usize = 0;
    while x < 8
        invariant
            x <= 8,
            forall|k: int| 0 <= k < x ==> output[k] == pixel_color(lsb, msb, k),
        decreases 8 - x,
    {
        output[x] = merge_at(lsb, msb, x);
        x = x + 1;
    }
    assert(output@ =~= row_colors(lsb, msb));
    output
}

// Sprite rendering

/// The height of the sprites in lines, as the control register sets it.
pub open spec fn sprite_height(s: State) -> int {
    if has_bit(s.registers.control as int, 0x20) {
        16
    } else {
        8
    }
}

/// Whether the sprite has a row on the line of the beam.
pub open spec fn covers(s: State, sprite: Sprite) -> bool {
    0 <= s.context.scanline - sprite.y_pos < sprite_height(s)
}

/// The sprite that four bytes of the attribute memory describe.
pub open spec fn sprite_of(s: State, id: int) -> Sprite {
    Sprite {
        id: id as usize,
        y_pos: s.oam[4 * id],
        tile: s.oam[4 * id + 1],
        attribute: s.oam[4 * id + 2],
        x_pos: s.oam[4 * id + 3],
    }
}

/// The sprites among the first `n` that have a row on the line, in their order.
pub open spec fn covering(s: State, n: int) -> Seq<Sprite>
    decreases n,
{
    if n <= 0 {
        Seq::empty()
    } else if covers(s, sprite_of(s, n - 1)) {
        covering(s, n - 1).push(sprite_of(s, n - 1))
    } else {
        covering(s, n - 1)
    }
}

/// The sprites that the line shows: the first eight that have a row on it.
pub open spec fn shown_sprites(s: State) -> Seq<Sprite> {
    if covering(s, 64).len() > 8 {
        covering(s, 64).take(8)
    } else {
        covering(s, 64)
    }
}

/// The state with the status flag of weight `w` forced to `v`.
pub open spec fn with_status(s: State, w: int, v: bool) -> State {
    State {
        registers: Registers { status: put_bit(s.registers.status as int, w, v) as u8, ..s.registers },
        ..s
    }
}

/// The sprites among the first `n` keep their order when more are looked at.
pub proof fn lemma_covering_grows(s: State, n: int, m: int)
    requires
        0 <= n <= m,
    ensures
        covering(s, n).len() <= covering(s, m).len(),
        covering(s, m).take(covering(s, n).len() as int) == covering(s, n),
        covering(s, n).len() <= n,
    decreases m,
{
    if n < m {
        lemma_covering_grows(s, n, m - 1);
        assert(covering(s, m).take(covering(s, n).len() as int) =~= covering(s, n));
    } else {
        assert(covering(s, m).take(covering(s, n).len() as int) =~= covering(s, n));
        if n > 0 {
            lemma_covering_grows(s, n - 1, n - 1);
        }
    }
}

fn sprite_is_visible<T: Bus>(bus: &mut T, sprite: Sprite) -> (visible: bool)
    requires
        old(bus).ppu().wf(),
    ensures
        visible == covers(old(bus).ppu()@, sprite),
        only_ppu(old(bus), final(bus), old(bus).ppu()),
{
    let screen_y = get_scanline(bus);
    let sprite_height: i32 = if get_control_flag(bus, ControlFlag::SpriteSize) {
        16
    } else {
        8
    };
    let sprite_y = sprite.y_pos as i32;
    let difference = screen_y - sprite_y;
    difference >= 0 && difference < sprite_height
}

/// Finds the sprites that the line shows. Where more than eight have a row on it,
/// the ninth raises the overflow flag and ends the search.
fn get_visible_sprites<T: Bus>(bus: &mut T) -> (visible_sprites: Vec<Sprite>)
    requires
        old(bus).ppu().wf(),
    ensures
        visible_sprites@ == shown_sprites(old(bus).ppu()@),
        only_state(
            old(bus),
            final(bus),
            if covering(old(bus).ppu()@, 64).len() > 8 {
                with_status(old(bus).ppu()@, 0x20, true)
            } else {
                old(bus).ppu()@
            },
        ),
        final(bus).ppu().wf(),
{
    let mut visible_sprites: Vec<Sprite> = Vec::new();
    let ghost s = bus.ppu()@;
    let mut id: usize = 0;
    let mut overflow = false;
    while id < 64 && !overflow
        invariant
            id <= 64,
            s == old(bus).ppu()@,
            !overflow ==> only_ppu(old(bus), bus, old(bus).ppu()),
            !overflow ==> visible_sprites@ == covering(s, id as int),
            overflow ==> visible_sprites@ == covering(s, 64).take(8) && covering(s, 64).len() > 8,
            overflow ==> only_state(old(bus), bus, with_status(s, 0x20, true)),
            visible_sprites.len() <= 8,
            bus.ppu().wf(),
        decreases 64 - id + (if overflow { 0int } else { 1int }),
    {
        let sprite = get_sprite(bus, id);
        if sprite_is_visible(bus, sprite) {
            if visible_sprites.len() < 8 {
                visible_sprites.push(sprite);
            } else {
                set_status_flag(bus, StatusFlag::SpriteOverflow, true);
                overflow = true;
                proof {
                    lemma_covering_grows(s, id as int, id as int + 1);
                    lemma_covering_grows(s, id as int + 1, 64);
                    lemma_covering_grows(s, id as int, 64);
                }
            }
        }
        if !overflow {
            id = id + 1;
        }
    }
    proof {
        lemma_covering_grows(s, 64, 64);
    }
    visible_sprites
}

/// The row of the sprite that the line of the beam shows, counted from its top in
/// pattern memory: a sprite that is flipped shows its rows from the bottom.
pub open spec fn sprite_row(s: State, sprite: Sprite) -> int {
    let down = s.context.scanline - sprite.y_pos;
    if has_bit(sprite.attribute as int, 0x80) {
        sprite_height(s) - 1 - down
    } else {
        down
    }
}

/// Where the pattern of the sprite's tile begins. A sprite of sixteen lines takes the
/// table from the lowest bit of its tile number and has two tiles; one of eight lines
/// takes the table that the control register names.
pub open spec fn sprite_tile_address(s: State, sprite: Sprite) -> int {
    if has_bit(s.registers.control as int, 0x20) {
        (sprite.tile % 2) * 0x1000 + (sprite.tile / 2) * 0x20
    } else {
        (if has_bit(s.registers.control as int, 0x08) {
            0x1000int
        } else {
            0int
        }) + sprite.tile * 16
    }
}

/// Where the low plane of the sprite's row on the line lies in pattern memory; the
/// high plane lies eight bytes behind it.
pub open spec fn sprite_pattern(s: State, sprite: Sprite) -> int {
    sprite_tile_address(s, sprite) + (sprite_row(s, sprite) / 8) * 16 + sprite_row(s, sprite) % 8
}

/// A row of colours from the right.
pub open spec fn mirrored(colors: Seq<u8>) -> Seq<u8> {
    Seq::new(8, |x: int| colors[7 - x])
}

/// The colour indices of the sprite's row on the line, as the screen shows them
/// from the left.
pub open spec fn sprite_colors(s: State, video: Seq<u8>, sprite: Sprite) -> Seq<u8> {
    let row = row_colors(video[sprite_pattern(s, sprite)], video[sprite_pattern(s, sprite) + 8]);
    if has_bit(sprite.attribute as int, 0x40) {
        mirrored(row)
    } else {
        row
    }
}

/// A line of sprite pixels with eight more from `x0` on, where no sprite has a pixel
/// yet and the screen has a column.
pub open spec fn sprite_drawn(
    fg: Seq<PixelInfo>,
    x0: int,
    colors: Seq<u8>,
    palette: u8,
    priority: Priority,
) -> Seq<PixelInfo> {
    Seq::new(
        256,
        |i: int|
            if x0 <= i < x0 + 8 && fg[i].priority == Priority::Unset {
                PixelInfo { color_index: colors[i - x0], palette_index: palette, priority }
            } else {
                fg[i]
            },
    )
}

/// The priority that a sprite's attribute byte asks for.
pub open spec fn sprite_priority(sprite: Sprite) -> Priority {
    if has_bit(sprite.attribute as int, 0x20) {
        Priority::Back
    } else {
        Priority::Front
    }
}

/// The state once the sprite's row is in the line of sprite pixels. Of sprite 0 the
/// state also notes the column and which of the eight pixels are opaque.
pub open spec fn sprite_rendered(s: State, video: Seq<u8>, sprite: Sprite) -> State {
    let colors = sprite_colors(s, video, sprite);
    let drawn = State {
        fg: sprite_drawn(
            s.fg,
            sprite.x_pos as int,
            colors,
            (4 + sprite.attribute % 4) as u8,
            sprite_priority(sprite),
        ),
        ..s
    };
    if sprite.id == 0 {
        State {
            context: Context {
                sprite_0_x: sprite.x_pos as i32,
                sprite_0_alpha: utils::opaque_bits(colors, 8) as u8,
                ..drawn.context
            },
            ..drawn
        }
    } else {
        drawn
    }
}

/// The state once the first `n` of the sprites are in the line of sprite pixels.
pub open spec fn sprites_rendered(s: State, video: Seq<u8>, sprites: Seq<Sprite>, n: int) -> State
    decreases n,
{
    if n <= 0 {
        s
    } else {
        sprite_rendered(sprites_rendered(s, video, sprites, n - 1), video, sprites[n - 1])
    }
}

/// The state with an empty line of sprite pixels.
pub open spec fn fg_cleared(s: State) -> State {
    State { fg: Seq::new(256, |i: int| no_sprite()), ..s }
}

/// The state once the sprites of the line are evaluated and drawn, which happens
/// where the mask register switches sprites on: the line of sprite pixels holds the
/// first eight sprites that have a row on the line, and the overflow flag is raised
/// where more have one.
pub open spec fn sprites_evaluated(s: State, video: Seq<u8>) -> State {
    let cleared = fg_cleared(s);
    if has_bit(s.registers.mask as int, 0x10) {
        sprites_rendered(
            if covering(cleared, 64).len() > 8 {
                with_status(cleared, 0x20, true)
            } else {
                cleared
            },
            video,
            shown_sprites(cleared),
            shown_sprites(cleared).len() as int,
        )
    } else {
        cleared
    }
}

fn reset_fg_buffer<T: Bus>(bus: &mut T)
    ensures
        only_state(old(bus), final(bus), fg_cleared(old(bus).ppu()@)),
        final(bus).ppu().wf() == old(bus).ppu().wf(),
{
    bus.fetch_ppu().fg_buffer =
    [PixelInfo { color_index: 0, palette_index: 0, priority: Priority::Unset };256];
    assert(bus.ppu()@.fg =~= fg_cleared(old(bus).ppu()@).fg);
}

fn get_sprite_tile_address<T: Bus>(bus: &mut T, sprite: Sprite) -> (address: u16)
    ensures
        address == sprite_tile_address(old(bus).ppu()@, sprite),
        address <= 0x1FF0,
        only_ppu(old(bus), final(bus), old(bus).ppu()),
{
    let long_sprites = get_control_flag(bus, ControlFlag::SpriteSize);
    if long_sprites {
        let sprite_tile = sprite.tile as u16;
        (sprite_tile % 2) * 0x1000 + (sprite_tile / 2) * 0x20
    } else {
        let base_address: u16 = if get_control_flag(bus, ControlFlag::PatternSprite) {
            0x1000
        } else {
            0x0000
        };
        let sprite_tile = sprite.tile as u16;
        base_address + sprite_tile * 16
    }
}

fn get_sprite_colors<T: Bus>(bus: &mut T, sprite: Sprite) -> (colors: [u8; 8])
    requires
        old(bus).inv(),
        old(bus).ppu().wf(),
        covers(old(bus).ppu()@, sprite),
    ensures
        colors@ == row_colors(
            old(bus).video()[sprite_pattern(old(bus).ppu()@, sprite)],
            old(bus).video()[sprite_pattern(old(bus).ppu()@, sprite) + 8],
        ),
        only_ppu(old(bus), final(bus), old(bus).ppu()),
        final(bus).inv(),
{
    let screen_y = get_scanline(bus);
    let sprite_y = sprite.y_pos as i32;
    let vertical_flip = get_sprite_flag(sprite, SpriteFlag::SpriteVerticalFlip);
    let long_sprites = get_control_flag(bus, ControlFlag::SpriteSize);
    let base_address = get_sprite_tile_address(bus, sprite);
    let height: i32 = if long_sprites {
        16
    } else {
        8
    };
    let row = if vertical_flip {
        height - 1 - (screen_y - sprite_y)
    } else {
        screen_y - sprite_y
    } as u16;
    let offset = (row / 8) * 16 + row % 8;
    let lsb = bus.read_byte(base_address + offset);
    let msb = bus.read_byte(base_address + offset + 0x08);
    merge_pixel_bits(lsb, msb)
}

pub fn get_sprite_attribute(sprite: Sprite) -> (palette: u8)
    ensures
        palette == 4 + sprite.attribute % 4,
{
    4 + utils::t2(sprite.attribute)
}

pub fn get_sprite_priority(sprite: Sprite) -> (priority: Priority)
    ensures
        priority == sprite_priority(sprite),
{
    if get_sprite_flag(sprite, SpriteFlag::SpritePriority) {
        Priority::Back
    } else {
        Priority::Front
    }
}

fn write_to_fg_buffer<T: Bus>(
    bus: &mut T,
    screen_x: usize,
    colors: [u8; 8],
    palette_index: u8,
    priority: Priority,
)
    requires
        screen_x < 256,
    ensures
        only_state(
            old(bus),
            final(bus),
            State {
                fg: sprite_drawn(old(bus).ppu()@.fg, screen_x as int, colors@, palette_index, priority),
                ..old(bus).ppu()@
            },
        ),
        final(bus).ppu().wf() == old(bus).ppu().wf(),
{
    let mut x: usize = 0;
    while x < 8
        invariant
            x <= 8,
            screen_x < 256,
            only_state(old(bus), bus, State { fg: bus.ppu()@.fg, ..old(bus).ppu()@ }),
            forall|i: int|
                0 <= i < 256 ==> bus.ppu()@.fg[i] == (if screen_x <= i < screen_x + x && old(
                    bus,
                ).ppu()@.fg[i].priority == Priority::Unset {
                    PixelInfo { color_index: colors[i - screen_x], palette_index, priority }
                } else {
                    old(bus).ppu()@.fg[i]
                }),
            bus.ppu().wf() == old(bus).ppu().wf(),
        decreases 8 - x,
    {
        let address = screen_x + x;
        let color_index = colors[x];
        let pixel_info = PixelInfo { color_index, palette_index, priority };

        if address < 256 {
            let ppu = bus.fetch_ppu();
            let current_priority = ppu.fg_buffer[address].priority;
            if current_priority == Priority::Unset {
                ppu.fg_buffer[address] = pixel_info;
            }
        }
        x = x + 1;
    }
    assert(bus.ppu()@.fg =~= sprite_drawn(
        old(bus).ppu()@.fg,
        screen_x as int,
        colors@,
        palette_index,
        priority,
    ));
}

fn read_from_fg_buffer<T: Bus>(bus: &mut T, screen_x: usize) -> (info: PixelInfo)
    requires
        screen_x < 256,
    ensures
        info == old(bus).ppu()@.fg[screen_x as int],
        only_ppu(old(bus), final(bus), old(bus).ppu()),
{
    bus.fetch_ppu().fg_buffer[screen_x]
}

/// Turns a row of colours round.
fn reverse(colors: [u8; 8]) -> (turned: [u8; 8])
    ensures
        turned@ == mirrored(colors@),
{
    let mut turned: [u8; 8] = [0;8];
    let mut x: usize = 0;
    while x < 8
        invariant
            x <= 8,
            forall|k: int| 0 <= k < x ==> turned[k] == colors[7 - k],
        decreases 8 - x,
    {
        turned[x] = colors[7 - x];
        x = x + 1;
    }
    assert(turned@ =~= mirrored(colors@));
    turned
}

fn pre_render_sprite<T: Bus>(bus: &mut T, sprite: Sprite)
    requires
        old(bus).inv(),
        old(bus).ppu().wf(),
        covers(old(bus).ppu()@, sprite),
    ensures
        only_state(old(bus), final(bus), sprite_rendered(old(bus).ppu()@, old(bus).video(), sprite)),
        final(bus).ppu().wf(),
        final(bus).inv(),
{
    let mut colors = get_sprite_colors(bus, sprite);

    if get_sprite_flag(sprite, SpriteFlag::SpriteHorizontalFlip) {
        colors = reverse(colors);
    }
    let palette_index = get_sprite_attribute(sprite);
    let priority = get_sprite_priority(sprite);
    let screen_x = sprite.x_pos as usize;

    write_to_fg_buffer(bus, screen_x, colors, palette_index, priority);

    if sprite.id == 0 {
        let alpha = utils::flatten_u8(colors);
        set_sprite_0_x(bus, screen_x as i32);
        set_sprite_0_alpha(bus, alpha);
    }
}

/// Every sprite that the line shows has a row on it.
pub proof fn lemma_shown_cover(s: State, n: int, k: int)
    requires
        0 <= k < covering(s, n).len(),
    ensures
        covers(s, covering(s, n)[k]),
    decreases n,
{
    if n > 0 {
        if k < covering(s, n - 1).len() {
            lemma_shown_cover(s, n - 1, k);
        }
    }
}

/// What decides whether a sprite has a row on the line.
pub open spec fn same_line(a: State, b: State) -> bool {
    a.context.scanline == b.context.scanline && a.registers.control == b.registers.control
}

fn pre_render_sprites<T: Bus>(bus: &mut T)
    requires
        old(bus).inv(),
        old(bus).ppu().wf(),
    ensures
        only_state(old(bus), final(bus), sprites_evaluated(old(bus).ppu()@, old(bus).video())),
        final(bus).ppu().wf(),
        final(bus).inv(),
{
    let ghost video = bus.video();
    reset_fg_buffer(bus);
    let ghost cleared = bus.ppu()@;
    let render_sprites = get_mask_flag(bus, MaskFlag::RenderSprites);
    if render_sprites {
        let visible_sprites = get_visible_sprites(bus);
        let ghost start = bus.ppu()@;
        let mut k: usize = 0;
        while k < visible_sprites.len()
            invariant
                k <= visible_sprites.len(),
                visible_sprites@ == shown_sprites(cleared),
                video == old(bus).video(),
                only_state(old(bus), bus, sprites_rendered(start, video, visible_sprites@, k as int)),
                same_line(bus.ppu()@, cleared),
                bus.ppu().wf(),
                bus.inv(),
            decreases visible_sprites.len() - k,
        {
            let sprite = visible_sprites[k];
            proof {
                lemma_covering_grows(cleared, 64, 64);
                lemma_shown_cover(cleared, 64, k as int);
            }
            pre_render_sprite(bus, sprite);
            k = k + 1;
        }
    }
}

// Background rendering

/// Where the number of the tile under the scroll position lies in the nametables.
pub open spec fn tile_id_address(word: u16) -> int {
    0x2000 + word % 0x1000
}

/// The base of the nametable that the two bits choose, from the first.
pub open spec fn nametable_base(x: bool, y: bool) -> int {
    (if x {
        0x400int
    } else {
        0int
    }) + (if y {
        0x800int
    } else {
        0int
    })
}

/// Where the attribute byte of the tile under the scroll position lies: each byte of
/// the attribute table, which follows the 960 tiles of its nametable, serves four by four
/// tiles.
pub open spec fn attribute_address(word: u16) -> int {
    0x23C0 + nametable_base(nametable_x(word), nametable_y(word)) + 8 * (coarse_y(word) / 4)
        + coarse_x(word) / 4
}

/// The palette that an attribute byte gives to a tile: two bits for each quarter of
/// the four by four tiles, the left upper quarter lowest.
pub open spec fn local_attribute(tile_x: int, tile_y: int, global_attribute: u8) -> u8 {
    let right = (tile_x / 2) % 2 == 1;
    let lower = (tile_y / 2) % 2 == 1;
    if lower {
        if right {
            ((global_attribute / 64) % 4) as u8
        } else {
            ((global_attribute / 16) % 4) as u8
        }
    } else {
        if right {
            ((global_attribute / 4) % 4) as u8
        } else {
            (global_attribute % 4) as u8
        }
    }
}

/// The palette of the tile under the scroll position.
pub open spec fn tile_palette(s: State, video: Seq<u8>) -> u8 {
    local_attribute(
        coarse_x(s.registers.vram) as int,
        coarse_y(s.registers.vram) as int,
        video[attribute_address(s.registers.vram)],
    )
}

/// Where the low plane of the row of the tile under the scroll position lies in
/// pattern memory.
pub open spec fn tile_pattern(s: State, video: Seq<u8>) -> int {
    (if has_bit(s.registers.control as int, 0x10) {
        0x1000int
    } else {
        0int
    }) + video[tile_id_address(s.registers.vram)] * 16 + fine_y(s.registers.vram)
}

/// The colour indices of the row of the tile under the scroll position.
pub open spec fn tile_colors(s: State, video: Seq<u8>) -> Seq<u8> {
    row_colors(video[tile_pattern(s, video)], video[tile_pattern(s, video) + 8])
}

/// A line of background pixels with the eight of tile `tile` replaced.
pub open spec fn tile_drawn(
    bg: Seq<PixelInfo>,
    tile: int,
    colors: Seq<u8>,
    palette: u8,
) -> Seq<PixelInfo> {
    Seq::new(
        264,
        |i: int|
            if 8 * tile <= i < 8 * tile + 8 {
                PixelInfo { color_index: colors[i - 8 * tile], palette_index: palette, priority: Priority::Middle }
            } else {
                bg[i]
            },
    )
}

/// The state once the tile under the scroll position is drawn as tile `tile` of the
/// line.
pub open spec fn tile_rendered(s: State, video: Seq<u8>, tile: int) -> State {
    State { bg: tile_drawn(s.bg, tile, tile_colors(s, video), tile_palette(s, video)), ..s }
}

/// The state with the scroll position one tile to the right.
pub open spec fn moved_right(s: State) -> State {
    State { registers: Registers { vram: right_of(s.registers.vram), ..s.registers }, ..s }
}

/// The state once the first `n` tiles of the line are drawn, the scroll position
/// moving right behind each.
pub open spec fn tiles_rendered(s: State, video: Seq<u8>, n: int) -> State
    decreases n,
{
    if n <= 0 {
        s
    } else {
        moved_right(tile_rendered(tiles_rendered(s, video, n - 1), video, n - 1))
    }
}

/// The state with a line of background pixels that shows the backdrop.
pub open spec fn bg_cleared(s: State) -> State {
    State { bg: Seq::new(264, |i: int| backdrop()), ..s }
}

/// The state once the background of the line is drawn, which happens where the mask
/// register switches the background on: thirty-two tiles from the scroll position to the
/// right, and one more for the fine scroll to look ahead, behind which the scroll position
/// stays.
pub open spec fn background_rendered(s: State, video: Seq<u8>) -> State {
    if has_bit(s.registers.mask as int, 0x08) {
        tile_rendered(tiles_rendered(bg_cleared(s), video, 32), video, 32)
    } else {
        bg_cleared(s)
    }
}

fn reset_bg_buffer<T: Bus>(bus: &mut T)
    ensures
        only_state(old(bus), final(bus), bg_cleared(old(bus).ppu()@)),
        final(bus).ppu().wf() == old(bus).ppu().wf(),
{
    bus.fetch_ppu().bg_buffer =
    [PixelInfo { color_index: 0, palette_index: 0, priority: Priority::Middle };264];
    assert(bus.ppu()@.bg =~= bg_cleared(old(bus).ppu()@).bg);
}

proof fn lemma_tile_address(word: u16)
    by (bit_vector)
    requires
        word <= 0x7FFF,
    ensures
        0x2000 | (word & 0x0FFF) == 0x2000 + word % 0x1000,
{
}

fn get_tile_id<T: Bus>(bus: &mut T) -> (tile_id: u8)
    requires
        old(bus).inv(),
        old(bus).ppu().wf(),
    ensures
        tile_id == old(bus).video()[tile_id_address(old(bus).ppu().registers.vram)],
        only_ppu(old(bus), final(bus), old(bus).ppu()),
        final(bus).inv(),
{
    let vram = get_vram(bus);
    proof {
        lemma_tile_address(vram);
    }
    let address = 0x2000 | (vram & 0x0FFF);
    bus.read_byte(address)
}

pub fn get_local_attribute(tile_x: u16, tile_y: u16, global_attribute: u8) -> (attribute: u8)
    ensures
        attribute == local_attribute(tile_x as int, tile_y as int, global_attribute),
{
    proof {
        reveal(has_bit);
    }
    let weight: u8 = if utils::B1(tile_y) {
        if utils::B1(tile_x) {
            64
        } else {
            16
        }
    } else {
        if utils::B1(tile_x) {
            4
        } else {
            1
        }
    };
    (global_attribute / weight) % 4
}

pub fn nametable_base_address(nametable_x: bool, nametable_y: bool) -> (address: u16)
    ensures
        address == nametable_base(nametable_x, nametable_y),
{
    let offset_x: u16 = if nametable_x {
        0x400
    } else {
        0x00
    };
    let offset_y: u16 = if nametable_y {
        0x800
    } else {
        0x00
    };
    offset_x + offset_y
}

fn get_tile_attribute<T: Bus>(bus: &mut T) -> (attribute: u8)
    requires
        old(bus).inv(),
        old(bus).ppu().wf(),
    ensures
        attribute == tile_palette(old(bus).ppu()@, old(bus).video()),
        only_ppu(old(bus), final(bus), old(bus).ppu()),
        final(bus).inv(),
{
    let nametable_x = get_v_nametable_x(bus);
    let nametable_y = get_v_nametable_y(bus);
    let tile_x = get_v_coarse_x(bus) as u16;
    let tile_y = get_v_coarse_y(bus) as u16;
    let base_address = 0x23C0 + nametable_base_address(nametable_x, nametable_y);
    let offset = 8 * (tile_y / 4) + (tile_x / 4);

    let address = base_address + offset;
    let global_attribute = bus.read_byte(address);

    get_local_attribute(tile_x, tile_y, global_attribute)
}

fn get_tile_data<T: Bus>(bus: &mut T, tile_id: u16) -> (colors: [u8; 8])
    requires
        old(bus).inv(),
        old(bus).ppu().wf(),
        tile_id < 256,
    ensures
        colors@ == row_colors(
            old(bus).video()[tile_row_address(old(bus).ppu()@, tile_id as int)],
            old(bus).video()[tile_row_address(old(bus).ppu()@, tile_id as int) + 8],
        ),
        only_ppu(old(bus), final(bus), old(bus).ppu()),
        final(bus).inv(),
{
    let bg_pattern = get_control_flag(bus, ControlFlag::PatternBackground);
    let base_address: u16 = if bg_pattern {
        0x1000
    } else {
        0x00
    };
    let fine_y = get_v_fine_y(bus) as u16;
    let address = base_address + tile_id * 16 + fine_y;
    let lsb = bus.read_byte(address);
    let msb = bus.read_byte(address + 0x08);
    merge_pixel_bits(lsb, msb)
}

/// Where the low plane of the current row of tile `tile_id` lies in pattern memory.
pub open spec fn tile_row_address(s: State, tile_id: int) -> int {
    (if has_bit(s.registers.control as int, 0x10) {
        0x1000int
    } else {
        0int
    }) + tile_id * 16 + fine_y(s.registers.vram)
}

fn write_to_bg_buffer<T: Bus>(bus: &mut T, tile: usize, colors: [u8; 8], palette_index: u8)
    requires
        tile < 33,
    ensures
        only_state(
            old(bus),
            final(bus),
            State {
                bg: tile_drawn(old(bus).ppu()@.bg, tile as int, colors@, palette_index),
                ..old(bus).ppu()@
            },
        ),
        final(bus).ppu().wf() == old(bus).ppu().wf(),
{
    let mut x: usize = 0;
    while x < 8
        invariant
            x <= 8,
            tile < 33,
            only_state(old(bus), bus, State { bg: bus.ppu()@.bg, ..old(bus).ppu()@ }),
            forall|i: int|
                0 <= i < 264 ==> bus.ppu()@.bg[i] == (if 8 * tile <= i < 8 * tile + x {
                    PixelInfo {
                        color_index: colors[i - 8 * tile],
                        palette_index,
                        priority: Priority::Middle,
                    }
                } else {
                    old(bus).ppu()@.bg[i]
                }),
            bus.ppu().wf() == old(bus).ppu().wf(),
        decreases 8 - x,
    {
        let address = tile * 8 + x;
        let color_index = colors[x];
        let priority = Priority::Middle;
        let pixel_info = PixelInfo { color_index, palette_index, priority };
        bus.fetch_ppu().bg_buffer[address] = pixel_info;
        x = x + 1;
    }
    assert(bus.ppu()@.bg =~= tile_drawn(old(bus).ppu()@.bg, tile as int, colors@, palette_index));
}

/// The background pixel under column `x` of the screen, which the fine scroll moves.
pub open spec fn bg_at(s: State, x: int) -> PixelInfo {
    s.bg[x + s.registers.fine_x]
}

fn read_from_bg_buffer<T: Bus>(bus: &mut T, screen_x: usize) -> (info: PixelInfo)
    requires
        screen_x < 256,
        old(bus).ppu().wf(),
    ensures
        info == bg_at(old(bus).ppu()@, screen_x as int),
        only_ppu(old(bus), final(bus), old(bus).ppu()),
{
    let fine_x = get_fine_x(bus) as usize;
    let address = screen_x + fine_x;
    bus.fetch_ppu().bg_buffer[address]
}

fn pre_render_tile<T: Bus>(bus: &mut T, tile: usize)
    requires
        old(bus).inv(),
        old(bus).ppu().wf(),
        tile < 33,
    ensures
        only_state(old(bus), final(bus), tile_rendered(old(bus).ppu()@, old(bus).video(), tile as int)),
        final(bus).ppu().wf(),
        final(bus).inv(),
{
    let tile_id = get_tile_id(bus);
    let palette_index = get_tile_attribute(bus);
    let colors = get_tile_data(bus, tile_id as u16);

    write_to_bg_buffer(bus, tile, colors, palette_index);
}

fn pre_render_background<T: Bus>(bus: &mut T)
    requires
        old(bus).inv(),
        old(bus).ppu().wf(),
    ensures
        only_state(old(bus), final(bus), background_rendered(old(bus).ppu()@, old(bus).video())),
        final(bus).ppu().wf(),
        final(bus).inv(),
{
    let ghost video = bus.video();
    reset_bg_buffer(bus);
    let ghost cleared = bus.ppu()@;
    let render_background = get_mask_flag(bus, MaskFlag::RenderBackground);
    if render_background {
        let mut tile: usize = 0;
        while tile < 32
            invariant
                tile <= 32,
                video == old(bus).video(),
                only_state(old(bus), bus, tiles_rendered(cleared, video, tile as int)),
                bus.ppu()@.registers.mask == cleared.registers.mask,
                has_bit(cleared.registers.mask as int, 0x08),
                bus.ppu().wf(),
                bus.inv(),
            decreases 32 - tile,
        {
            pre_render_tile(bus, tile);
            increase_coarse_x(bus);
            tile = tile + 1;
        }
        pre_render_tile(bus, 32);
    }
}

// Sprite 0 Hit Logic

/// Whether sprite 0 has a pixel in column `x` of the line.
pub open spec fn s0_in_reach(s: State, x: int) -> bool {
    s.context.sprite_0_x >= 0 && 0 <= x - s.context.sprite_0_x < 8
}

/// Whether the pixel of sprite 0 in column `x` is opaque.
pub open spec fn s0_opaque_at(s: State, x: int) -> bool {
    has_bit(s.context.sprite_0_alpha as int, pow2_small(7 - (x - s.context.sprite_0_x)))
}

/// Whether the mask register shows both the background and the sprites in the eight
/// columns at the left edge.
pub open spec fn left_shown(s: State) -> bool {
    has_bit(s.registers.mask as int, 0x02) && has_bit(s.registers.mask as int, 0x04)
}

/// Whether column `x` is where sprite 0 first meets the background: no hit is
/// flagged or waiting, sprite 0 and the background are both opaque there, both are
/// switched on, and the column is not hidden at the left edge.
pub open spec fn s0_hits(s: State, x: int) -> bool {
    &&& s0_in_reach(s, x)
    &&& !has_bit(s.registers.status as int, 0x40)
    &&& s.context.sprite_0_hit_position < 0
    &&& s0_opaque_at(s, x)
    &&& bg_at(s, x).color_index > 0
    &&& has_bit(s.registers.mask as int, 0x08)
    &&& has_bit(s.registers.mask as int, 0x10)
    &&& (left_shown(s) || x >= 8)
}

/// The state once column `x` is looked at for a hit of sprite 0.
pub open spec fn prechecked(s: State, x: int) -> State {
    if s0_hits(s, x) {
        State { context: Context { sprite_0_hit_position: x as i32, ..s.context }, ..s }
    } else {
        s
    }
}

/// The state once the first `n` columns of the line are looked at.
pub open spec fn line_checked(s: State, n: int) -> State
    decreases n,
{
    if n <= 0 {
        s
    } else {
        prechecked(line_checked(s, n - 1), n - 1)
    }
}

/// The state once the beam has passed a dot of the line: the hit of sprite 0 is
/// flagged at the column where it was found.
pub open spec fn hit_flagged(s: State) -> State {
    if s.context.cycle - 1 == s.context.sprite_0_hit_position {
        with_status(s, 0x40, true)
    } else {
        s
    }
}

fn rendering_s0<T: Bus>(bus: &mut T, screen_x: i32) -> (reach: bool)
    requires
        0 <= screen_x < 256,
        old(bus).ppu().wf(),
    ensures
        reach == s0_in_reach(old(bus).ppu()@, screen_x as int),
        only_ppu(old(bus), final(bus), old(bus).ppu()),
{
    let sprite0_x = get_sprite_0_x(bus);
    if sprite0_x >= 0 {
        let distance = screen_x - sprite0_x;
        distance >= 0 && distance < 8
    } else {
        false
    }
}

/// Whether a byte has the bit `distance` places from the left set.
fn bit_from_left(byte: u8, distance: usize) -> (set: bool)
    requires
        distance < 8,
    ensures
        set == has_bit(byte as int, pow2_small(7 - distance)),
{
    if distance == 0 {
        utils::b7(byte)
    } else if distance == 1 {
        utils::b6(byte)
    } else if distance == 2 {
        utils::b5(byte)
    } else if distance == 3 {
        utils::b4(byte)
    } else if distance == 4 {
        utils::b3(byte)
    } else if distance == 5 {
        utils::b2(byte)
    } else if distance == 6 {
        utils::b1(byte)
    } else {
        utils::b0(byte)
    }
}

fn s0_opaque<T: Bus>(bus: &mut T, screen_x: usize) -> (opaque: bool)
    requires
        screen_x < 256,
        old(bus).ppu().wf(),
        s0_in_reach(old(bus).ppu()@, screen_x as int),
    ensures
        opaque == s0_opaque_at(old(bus).ppu()@, screen_x as int),
        only_ppu(old(bus), final(bus), old(bus).ppu()),
{
    let sprite0_x = get_sprite_0_x(bus) as usize;
    let distance = screen_x - sprite0_x;
    let alpha = get_sprite_0_alpha(bus);
    bit_from_left(alpha, distance)
}

fn bg_opaque<T: Bus>(bus: &mut T, screen_x: usize) -> (opaque: bool)
    requires
        screen_x < 256,
        old(bus).ppu().wf(),
    ensures
        opaque == (bg_at(old(bus).ppu()@, screen_x as int).color_index > 0),
        only_ppu(old(bus), final(bus), old(bus).ppu()),
{
    let pixel_info = read_from_bg_buffer(bus, screen_x);
    pixel_info.color_index > 0
}

fn precheck_s0<T: Bus>(bus: &mut T, screen_x: usize)
    requires
        screen_x < 256,
        old(bus).ppu().wf(),
    ensures
        only_state(old(bus), final(bus), prechecked(old(bus).ppu()@, screen_x as int)),
        final(bus).ppu().wf(),
{
    if rendering_s0(bus, screen_x as i32) {
        if !get_status_flag(bus, StatusFlag::SpriteZeroHit) {
            if get_sprite_0_hit_position(bus) < 0 {
                if s0_opaque(bus, screen_x) {
                    if bg_opaque(bus, screen_x) {
                        if get_mask_flag(bus, MaskFlag::RenderBackground) {
                            if get_mask_flag(bus, MaskFlag::RenderSprites) {
                                let render_sprites_left = get_mask_flag(bus, MaskFlag::RenderSpritesLeft);
                                let render_background_left = get_mask_flag(
                                    bus,
                                    MaskFlag::RenderBackgroundLeft,
                                );
                                let last_check = if render_sprites_left && render_background_left {
                                    true
                                } else {
                                    screen_x >= 8
                                };
                                if last_check {
                                    set_sprite_0_hit_position(bus, screen_x as i32);
                                }
                            }
                        }
                    }
                }
            }
        }
    }
}

fn check_s0<T: Bus>(bus: &mut T)
    requires
        old(bus).ppu().wf(),
    ensures
        only_state(old(bus), final(bus), hit_flagged(old(bus).ppu()@)),
        final(bus).ppu().wf(),
{
    let screen_x = get_cycle(bus) - 1;
    let s0_hit = get_sprite_0_hit_position(bus);
    if screen_x == s0_hit {
        set_status_flag(bus, StatusFlag::SpriteZeroHit, true);
    }
}

// Rendering

/// Where the colour of a pixel lies in palette memory.
pub open spec fn color_address(info: PixelInfo) -> int {
    0x3F00 + 4 * info.palette_index + info.color_index
}

/// Which of the two pixels of a column shows. Where no sprite has a pixel, the
/// background shows; where both pixels are transparent, the backdrop; where one is, the
/// other; else the sprite in front of the background shows, and the background shows
/// before a sprite behind it.
pub open spec fn composed(bg_info: PixelInfo, fg_info: PixelInfo) -> PixelInfo {
    if fg_info.priority == Priority::Unset {
        bg_info
    } else if bg_info.color_index == 0 && fg_info.color_index == 0 {
        backdrop()
    } else if bg_info.color_index == 0 {
        fg_info
    } else if fg_info.color_index == 0 {
        bg_info
    } else if fg_info.priority == Priority::Front {
        fg_info
    } else {
        bg_info
    }
}

/// The colour that column `x` of the line shows.
pub open spec fn shown(s: State, video: Seq<u8>, x: int) -> u8 {
    found(video, color_address(composed(bg_at(s, x), s.fg[x])) as u16)
}

/// The screen with line `y` as the state shows it.
pub open spec fn line_shown(screen: Seq<u8>, s: State, video: Seq<u8>, y: int, n: int) -> Seq<u8> {
    Seq::new(
        screen.len(),
        |i: int|
            if 256 * y <= i < 256 * y + n {
                shown(s, video, i - 256 * y)
            } else {
                screen[i]
            },
    )
}

fn get_pixel_color<T: Bus>(bus: &mut T, pixel_info: PixelInfo) -> (color: u8)
    requires
        old(bus).inv(),
    ensures
        color == found(old(bus).video(), color_address(pixel_info) as u16),
        only_ppu(old(bus), final(bus), old(bus).ppu()),
        final(bus).inv(),
{
    let palette_index = pixel_info.palette_index as u16;
    let color_index = pixel_info.color_index as u16;

    let base_address: u16 = 0x3F00;
    let offset = 4 * palette_index + color_index;

    let address = base_address + offset;
    bus.read_byte(address)
}

pub fn choose_pixel_info(bg_info: PixelInfo, fg_info: PixelInfo) -> (info: PixelInfo)
    ensures
        info == composed(bg_info, fg_info),
{
    if fg_info.priority == Priority::Unset {
        bg_info
    } else if bg_info.color_index == 0 && fg_info.color_index == 0 {
        PixelInfo { color_index: 0, palette_index: 0, priority: Priority::Middle }
    } else if bg_info.color_index == 0 {
        fg_info
    } else if fg_info.color_index == 0 {
        bg_info
    } else if fg_info.priority == Priority::Front {
        fg_info
    } else if fg_info.priority == Priority::Back {
        bg_info
    } else {
        bg_info
    }
}

fn render<T: Bus>(bus: &mut T, screen_x: usize)
    requires
        old(bus).inv(),
        old(bus).ppu().wf(),
        screen_x < 256,
        0 <= old(bus).ppu().context.scanline < 240,
    ensures
        final(bus).screen() == old(bus).screen().update(
            256 * old(bus).ppu().context.scanline + screen_x,
            shown(old(bus).ppu()@, old(bus).video(), screen_x as int),
        ),
        final(bus).ppu() == old(bus).ppu(),
        final(bus).video() == old(bus).video(),
        forall|a: u16, b: u8| #[trigger] final(bus).written(a, b) == old(bus).written(a, b),
        final(bus).nmi_line() == old(bus).nmi_line(),
        final(bus).frozen() == old(bus).frozen(),
        final(bus).inv(),
{
    let screen_y = get_scanline(bus) as usize;
    let bg_pixel_info = read_from_bg_buffer(bus, screen_x);
    let fg_pixel_info = read_from_fg_buffer(bus, screen_x);

    let pixel_info = choose_pixel_info(bg_pixel_info, fg_pixel_info);
    let color = get_pixel_color(bus, pixel_info);
    bus.set_pixel((screen_x, screen_y), color)
}

/// What the pixels of a line show does not depend on the search for the hit.
pub proof fn lemma_checked_keeps(s: State, n: int)
    requires
        0 <= n,
    ensures
        line_checked(s, n).bg == s.bg,
        line_checked(s, n).fg == s.fg,
        line_checked(s, n).oam == s.oam,
        line_checked(s, n).registers == s.registers,
        line_checked(s, n).context == (Context {
            sprite_0_hit_position: line_checked(s, n).context.sprite_0_hit_position,
            ..s.context
        }),
        -1 <= s.context.sprite_0_hit_position <= 255 ==> -1 <= line_checked(
            s,
            n,
        ).context.sprite_0_hit_position <= 255 || n > 256,
    decreases n,
{
    if n > 0 {
        lemma_checked_keeps(s, n - 1);
    }
}

/// Puts the line of the beam on the screen and looks for the hit of sprite 0.
fn pre_render<T: Bus>(bus: &mut T)
    requires
        old(bus).inv(),
        old(bus).ppu().wf(),
        0 <= old(bus).ppu().context.scanline < 240,
        old(bus).screen().len() == 61440,
    ensures
        final(bus).ppu()@ == line_checked(old(bus).ppu()@, 256),
        final(bus).screen() == line_shown(
            old(bus).screen(),
            old(bus).ppu()@,
            old(bus).video(),
            old(bus).ppu().context.scanline as int,
            256,
        ),
        final(bus).video() == old(bus).video(),
        forall|a: u16, b: u8| #[trigger] final(bus).written(a, b) == old(bus).written(a, b),
        final(bus).nmi_line() == old(bus).nmi_line(),
        final(bus).frozen() == old(bus).frozen(),
        final(bus).ppu().wf(),
        final(bus).inv(),
{
    let ghost s = bus.ppu()@;
    let ghost video = bus.video();
    let ghost y = bus.ppu().context.scanline as int;
    let mut x: usize = 0;
    while x < 256
        invariant
            x <= 256,
            s == old(bus).ppu()@,
            video == old(bus).video(),
            y == s.context.scanline,
            0 <= y < 240,
            old(bus).screen().len() == 61440,
            bus.ppu()@ == line_checked(s, x as int),
            bus.screen() == line_shown(old(bus).screen(), s, video, y, x as int),
            bus.video() == video,
            forall|a: u16, b: u8| #[trigger] bus.written(a, b) == old(bus).written(a, b),
            bus.nmi_line() == old(bus).nmi_line(),
            bus.frozen() == old(bus).frozen(),
            bus.ppu().wf(),
            bus.inv(),
        decreases 256 - x,
    {
        proof {
            lemma_checked_keeps(s, x as int);
        }
        let ghost before = bus.screen();
        render(bus, x);
        assert(bus.screen() =~= line_shown(old(bus).screen(), s, video, y, x as int + 1));
        precheck_s0(bus, x);
        x = x + 1;
    }
    assert(line_shown(old(bus).screen(), s, video, y, 0) =~= old(bus).screen());
}

// API

/// The state with `word` for its current scroll register where rendering is on.
pub open spec fn with_scroll(s: State, word: u16) -> State {
    if has_bit(s.registers.mask as int, 0x08) || has_bit(s.registers.mask as int, 0x10) {
        State { registers: Registers { vram: word, ..s.registers }, ..s }
    } else {
        s
    }
}

/// The state once a frame has begun: the vertical blank and the hit of sprite 0 are
/// over, and sprite 0 is not yet seen.
pub open spec fn frame_started(s: State) -> State {
    State {
        context: Context {
            sprite_0_x: -1i32,
            sprite_0_hit_position: -1i32,
            sprite_0_alpha: 0,
            ..s.context
        },
        ..with_status(with_status(s, 0x80, false), 0x40, false)
    }
}

/// What the line before the first does at the dot of the beam: at dot 1 the frame
/// begins, at dot 304 the vertical scroll is taken from the latched register.
pub open spec fn pre_render_handled(s: State) -> State {
    if s.context.cycle == 1 {
        frame_started(s)
    } else if s.context.cycle == 304 {
        with_scroll(s, y_transferred(s.registers.vram, s.registers.tram))
    } else {
        s
    }
}

/// The state at dot 1 of a visible line, once the background of the line is drawn
/// and the line is searched for the hit of sprite 0.
pub open spec fn line_started(s: State, video: Seq<u8>) -> State {
    line_checked(background_rendered(s, video), 256)
}

/// The state at dot 257 of a visible line, once the sprites of the next line are
/// evaluated, the scroll has gone one line down and its horizontal part is taken from
/// the latched register.
pub open spec fn line_ended(s: State, video: Seq<u8>) -> State {
    let e = sprites_evaluated(s, video);
    let d = with_scroll(e, line_below(e.registers.vram));
    with_scroll(d, x_transferred(d.registers.vram, d.registers.tram))
}

/// What a visible line does at the dot of the beam.
pub open spec fn visible_handled(s: State, video: Seq<u8>) -> State {
    let a = if s.context.cycle == 1 {
        line_started(s, video)
    } else {
        s
    };
    let b = if 1 <= s.context.cycle < 257 {
        hit_flagged(a)
    } else {
        a
    };
    if s.context.cycle == 257 {
        line_ended(b, video)
    } else {
        b
    }
}

/// Whether the beam is where the vertical blank begins.
pub open spec fn at_vblank(s: State) -> bool {
    s.context.scanline == 241 && s.context.cycle == 1
}

/// What the lines behind the picture do at the dot of the beam: the vertical blank
/// is flagged where it begins.
pub open spec fn vblank_handled(s: State) -> State {
    if at_vblank(s) {
        with_status(s, 0x80, true)
    } else {
        s
    }
}

/// The state with the beam one dot on.
pub open spec fn dot_passed(s: State) -> State {
    State { context: next_dot(s.context), ..s }
}

/// The state as the work of a tick finds it: the first dot of the first line is
/// skipped.
pub open spec fn tick_entered(s: State) -> State {
    let a = if s.context.scanline == -1 {
        pre_render_handled(s)
    } else {
        s
    };
    if s.context.scanline == 0 && s.context.cycle == 0 {
        dot_passed(a)
    } else {
        a
    }
}

/// What one tick makes of the unit.
pub open spec fn ticked(s: State, video: Seq<u8>) -> State {
    let b = tick_entered(s);
    let c = if 0 <= s.context.scanline < 240 {
        visible_handled(b, video)
    } else {
        b
    };
    let d = if 241 <= s.context.scanline < 260 {
        vblank_handled(c)
    } else {
        c
    };
    dot_passed(d)
}

/// What one tick makes of the screen: at dot 1 of a visible line the whole line is
/// put out.
pub open spec fn screen_ticked(screen: Seq<u8>, s: State, video: Seq<u8>) -> Seq<u8> {
    let b = tick_entered(s);
    if 0 <= s.context.scanline < 240 && b.context.cycle == 1 {
        line_shown(screen, background_rendered(b, video), video, s.context.scanline as int, 256)
    } else {
        screen
    }
}

/// Whether a tick pulls the interrupt line: where the vertical blank begins, if the
/// control register asks for the interrupt.
pub open spec fn raises_nmi(s: State) -> bool {
    at_vblank(s) && has_bit(s.registers.control as int, 0x80)
}

fn handle_pre_render<T: Bus>(bus: &mut T)
    requires
        old(bus).ppu().wf(),
    ensures
        only_state(old(bus), final(bus), pre_render_handled(old(bus).ppu()@)),
        final(bus).ppu().wf(),
{
    let cycle = get_cycle(bus);
    if cycle == 1 {
        set_status_flag(bus, StatusFlag::VerticalBlank, false);
        set_status_flag(bus, StatusFlag::SpriteZeroHit, false);
        set_sprite_0_x(bus, -1);
        set_sprite_0_hit_position(bus, -1);
        set_sprite_0_alpha(bus, 0);
    } else if cycle == 304 {
        transfer_y(bus);
    }
}

/// Draws the line of the beam.
fn start_line<T: Bus>(bus: &mut T)
    requires
        old(bus).inv(),
        old(bus).ppu().wf(),
        0 <= old(bus).ppu().context.scanline < 240,
        old(bus).screen().len() == 61440,
    ensures
        final(bus).ppu()@ == line_started(old(bus).ppu()@, old(bus).video()),
        final(bus).screen() == line_shown(
            old(bus).screen(),
            background_rendered(old(bus).ppu()@, old(bus).video()),
            old(bus).video(),
            old(bus).ppu().context.scanline as int,
            256,
        ),
        final(bus).video() == old(bus).video(),
        forall|a: u16, b: u8| #[trigger] final(bus).written(a, b) == old(bus).written(a, b),
        final(bus).nmi_line() == old(bus).nmi_line(),
        final(bus).frozen() == old(bus).frozen(),
        final(bus).ppu().context.cycle == old(bus).ppu().context.cycle,
        final(bus).ppu().context.scanline == old(bus).ppu().context.scanline,
        final(bus).ppu().wf(),
        final(bus).inv(),
{
    pre_render_background(bus);
    proof {
        lemma_background_keeps(old(bus).ppu()@, old(bus).video());
    }
    pre_render(bus);
    proof {
        lemma_checked_keeps(background_rendered(old(bus).ppu()@, old(bus).video()), 256);
    }
}

/// Drawing the background leaves the beam where it is.
pub proof fn lemma_background_keeps(s: State, video: Seq<u8>)
    ensures
        background_rendered(s, video).context == s.context,
{
    lemma_tiles_keep(bg_cleared(s), video, 32);
}

/// Drawing tiles leaves the beam where it is.
pub proof fn lemma_tiles_keep(s: State, video: Seq<u8>, n: int)
    ensures
        tiles_rendered(s, video, n).context == s.context,
    decreases n,
{
    if n > 0 {
        lemma_tiles_keep(s, video, n - 1);
    }
}

/// Prepares the sprites and the scroll of the next line.
fn end_line<T: Bus>(bus: &mut T)
    requires
        old(bus).inv(),
        old(bus).ppu().wf(),
    ensures
        only_state(old(bus), final(bus), line_ended(old(bus).ppu()@, old(bus).video())),
        final(bus).ppu().wf(),
        final(bus).inv(),
{
    pre_render_sprites(bus);
    increase_fine_y(bus);
    transfer_x(bus);
}

fn handle_visible_scanline<T: Bus>(bus: &mut T)
    requires
        old(bus).inv(),
        old(bus).ppu().wf(),
        0 <= old(bus).ppu().context.scanline < 240,
        old(bus).screen().len() == 61440,
    ensures
        final(bus).ppu()@ == visible_handled(old(bus).ppu()@, old(bus).video()),
        final(bus).screen() == (if old(bus).ppu().context.cycle == 1 {
            line_shown(
                old(bus).screen(),
                background_rendered(old(bus).ppu()@, old(bus).video()),
                old(bus).video(),
                old(bus).ppu().context.scanline as int,
                256,
            )
        } else {
            old(bus).screen()
        }),
        final(bus).video() == old(bus).video(),
        forall|a: u16, b: u8| #[trigger] final(bus).written(a, b) == old(bus).written(a, b),
        final(bus).nmi_line() == old(bus).nmi_line(),
        final(bus).frozen() == old(bus).frozen(),
        final(bus).ppu().wf(),
        final(bus).inv(),
{
    let cycle = get_cycle(bus);
    if cycle == 1 {
        start_line(bus);
    }
    if cycle >= 1 && cycle < 257 {
        check_s0(bus)
    }
    if cycle == 257 {
        end_line(bus);
    }
}

fn handle_end_of_frame<T: Bus>(bus: &mut T)
    requires
        old(bus).inv(),
        old(bus).ppu().wf(),
    ensures
        final(bus).ppu()@ == vblank_handled(old(bus).ppu()@),
        final(bus).screen() == old(bus).screen(),
        final(bus).video() == old(bus).video(),
        final(bus).nmi_line() == (old(bus).nmi_line() || raises_nmi(old(bus).ppu()@)),
        forall|a: u16, b: u8| #[trigger] final(bus).written(a, b) == old(bus).written(a, b),
        final(bus).frozen() == old(bus).frozen(),
        final(bus).ppu().wf(),
        final(bus).inv(),
{
    let scanline = get_scanline(bus);
    let cycle = get_cycle(bus);
    if scanline == 241 && cycle == 1 {
        set_status_flag(bus, StatusFlag::VerticalBlank, true);
        let enable_nmi = get_control_flag(bus, ControlFlag::EnableNMI);
        if enable_nmi {
            bus.trigger_nmi();
        }
    }
}

/// Advances the picture unit by one dot.
pub fn tick<T: Bus>(bus: &mut T)
    requires
        old(bus).inv(),
        old(bus).ppu().wf(),
        old(bus).screen().len() == 61440,
    ensures
        final(bus).ppu()@ == ticked(old(bus).ppu()@, old(bus).video()),
        final(bus).screen() == screen_ticked(old(bus).screen(), old(bus).ppu()@, old(bus).video()),
        final(bus).video() == old(bus).video(),
        final(bus).nmi_line() == (old(bus).nmi_line() || raises_nmi(old(bus).ppu()@)),
        forall|a: u16, b: u8| #[trigger] final(bus).written(a, b) == old(bus).written(a, b),
        final(bus).frozen() == old(bus).frozen(),
        final(bus).ppu().wf(),
        final(bus).inv(),
{
    let scanline = get_scanline(bus);
    let cycle = get_cycle(bus);

    if scanline == -1 {
        handle_pre_render(bus);
    }
    if scanline == 0 && cycle == 0 {
        increase_cycle(bus);
    }
    if scanline >= 0 && scanline < 240 {
        handle_visible_scanline(bus);
    }
    if scanline >= 241 && scanline < 260 {
        handle_end_of_frame(bus);
    }
    increase_cycle(bus);
}

/// Once sprite 0 is drawn, its pixel in a column counts as opaque where the colour
/// of its row is not 0 there.
pub proof fn lemma_sprite_zero_opaque(s: State, video: Seq<u8>, sprite: Sprite, x: int)
    requires
        sprite.id == 0,
        0 <= x - sprite.x_pos < 8,
    ensures
        s0_in_reach(sprite_rendered(s, video, sprite), x),
        s0_opaque_at(sprite_rendered(s, video, sprite), x) == (sprite_colors(s, video, sprite)[x
            - sprite.x_pos] > 0),
{
    utils::lemma_opaque_bits(sprite_colors(s, video, sprite), x - sprite.x_pos);
}

/// Of the sprites that have a row on the line, the first eight are drawn and no
/// more. The evaluation raises the overflow flag where more than eight have a row on
/// the line and sprites are switched on, and else leaves the flag as it is.
pub proof fn lemma_sprite_overflow(s: State, video: Seq<u8>)
    ensures
        shown_sprites(s).len() == (if covering(s, 64).len() > 8 {
            8
        } else {
            covering(s, 64).len()
        }),
        forall|k: int|
            0 <= k < shown_sprites(s).len() ==> (#[trigger] shown_sprites(s)[k]) == covering(s, 64)[k]
                && covers(s, shown_sprites(s)[k]),
        has_bit(sprites_evaluated(s, video).registers.status as int, 0x20) == (has_bit(
            s.registers.status as int,
            0x20,
        ) || (has_bit(s.registers.mask as int, 0x10) && covering(s, 64).len() > 8)),
{
    let cleared = fg_cleared(s);
    lemma_covering_same(s, cleared, 64);
    let flagged = if covering(cleared, 64).len() > 8 {
        with_status(cleared, 0x20, true)
    } else {
        cleared
    };
    lemma_sprites_keep(flagged, video, shown_sprites(cleared), shown_sprites(cleared).len() as int);
    assert(has_bit(with_status(cleared, 0x20, true).registers.status as int, 0x20)) by {
        reveal(has_bit);
        reveal(put_bit);
        utils::lemma_u8_raise(s.registers.status);
        lemma_or_sets(s.registers.status);
    }
    assert forall|k: int| 0 <= k < shown_sprites(s).len() implies (#[trigger] shown_sprites(s)[k])
        == covering(s, 64)[k] && covers(s, shown_sprites(s)[k]) by {
        lemma_shown_cover(s, 64, k);
    }
}

proof fn lemma_or_sets(status: u8)
    by (bit_vector)
    ensures
        ((status | 0x20) / 0x20) % 2 == 1,
{
}

/// Which sprites have a row on the line depends on the sprite memory, on the line
/// and on the control register alone.
pub proof fn lemma_covering_same(a: State, b: State, n: int)
    requires
        a.oam == b.oam,
        same_line(a, b),
    ensures
        covering(a, n) == covering(b, n),
    decreases n,
{
    if n > 0 {
        lemma_covering_same(a, b, n - 1);
    }
}

/// Where the beam is after a tick: one dot on, and two from the first dot of the
/// first line.
pub open spec fn beam_ticked(c: Context) -> Context {
    if c.scanline == 0 && c.cycle == 0 {
        next_dot(next_dot(c))
    } else {
        next_dot(c)
    }
}

/// Two contexts have the beam at the same dot and agree on whether the frame is
/// complete.
pub open spec fn same_beam(a: Context, b: Context) -> bool {
    a.scanline == b.scanline && a.cycle == b.cycle && a.complete == b.complete
}

/// Drawing sprites leaves the beam where it is.
pub proof fn lemma_sprites_keep(s: State, video: Seq<u8>, sprites: Seq<Sprite>, n: int)
    ensures
        same_beam(sprites_rendered(s, video, sprites, n).context, s.context),
        sprites_rendered(s, video, sprites, n).registers == s.registers,
    decreases n,
{
    if n > 0 {
        lemma_sprites_keep(s, video, sprites, n - 1);
    }
}

/// Whatever a tick does to the unit, it moves the beam as `beam_ticked` says.
pub proof fn lemma_ticked_beam(s: State, video: Seq<u8>)
    ensures
        same_beam(ticked(s, video).context, beam_ticked(s.context)),
{
    let b = tick_entered(s);
    assert(same_beam(
        b.context,
        if s.context.scanline == 0 && s.context.cycle == 0 {
            next_dot(s.context)
        } else {
            s.context
        },
    ));
    if 0 <= s.context.scanline < 240 {
        lemma_background_keeps(b, video);
        lemma_checked_keeps(background_rendered(b, video), 256);
        let a = if b.context.cycle == 1 {
            line_started(b, video)
        } else {
            b
        };
        let h = if 1 <= b.context.cycle < 257 {
            hit_flagged(a)
        } else {
            a
        };
        assert(same_beam(h.context, b.context));
        let cleared = fg_cleared(h);
        let flagged = if covering(cleared, 64).len() > 8 {
            with_status(cleared, 0x20, true)
        } else {
            cleared
        };
        lemma_sprites_keep(flagged, video, shown_sprites(cleared), shown_sprites(cleared).len() as int);
        assert(same_beam(visible_handled(b, video).context, b.context));
    }
}

} // verus!
