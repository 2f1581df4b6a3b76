//! Address maps for images that link against a bootloader.
//!
//! The symbol table of the bootloader image is read as a sequence of
//! [`SymbolRecord`]s ([`decode`]). [`classify`] decides which records name
//! something that another image may link against, and [`emit`] renders each
//! accepted symbol as one assignment line of the form `NAME=0xHEX;`.
//! [`generate`] does all of it for the bytes of an image.

pub mod address_map;
pub mod classify;
pub mod collision;
pub mod decode;
pub mod emit;
pub mod hex;
pub mod laws;
pub mod symbol;

pub use address_map::{address_map, generate};
pub use classify::{classify, select, Exclusions};
pub use collision::{find_collision, Collision};
pub use decode::{decode, DecodeError};
pub use emit::{emit, render, render_line};
pub use symbol::{AcceptedSymbol, AcceptedView, Binding, Kind, RecordView, SymbolRecord};
