pub mod interface;
pub mod primitive;
pub mod render;
pub mod types;

pub use interface::{cpu_peek, cpu_read, cpu_write, dma_port};
pub use render::tick;
pub use types::{
    new, Bus, Context, ControlFlag, LoopyFlag, MaskFlag, PixelInfo, Priority, Registers, Sprite,
    SpriteFlag, State, StatusFlag, PPU,
};
