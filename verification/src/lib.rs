pub mod bus;
pub mod cartridge;
pub mod controller;
pub mod frontend;
pub mod mos;
pub mod ppu;
pub mod utils;
