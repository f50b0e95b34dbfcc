//! Times of day across a configured list of IANA time zones: one display
//! format for every flavour of timestamp, layered settings, and the
//! decisions behind each command of the `timez` tool.

pub mod civil;
pub mod cmds;
pub mod errors;
pub mod first;
pub mod offset;
pub mod settings;
pub mod text;
pub mod timestamps;
pub mod zones;
