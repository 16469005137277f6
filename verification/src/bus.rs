pub mod api;
pub mod interface;
pub mod types;

pub use api::load;
pub use types::{Bus, Context, Data};
