pub mod loader;
pub mod mapper;
pub mod types;

pub use loader::{load, LoadError};
pub use mapper::{choose_mapper, generic_mapper};
pub use types::{Cartridge, ConsoleType, Header, Mirroring, TVSystem};
