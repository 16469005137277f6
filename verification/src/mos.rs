pub mod addressing;
pub mod alu;
pub mod instructions;
pub mod operations;
pub mod primitive;
pub mod types;

pub use instructions::{execute, nmi, reset};
pub use primitive::tick;
pub use types::{new, new_mos, Access, AddrMode, Bus, Context, Flag, Mos, Registers};
