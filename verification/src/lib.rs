//! Building blocks for forwarding dynamic libraries: reading a target's export
//! table, laying out forwarding slots, and producing what a linker or a loader
//! needs to redirect every export to the real library.

pub mod definition;
pub mod error;
pub mod export_table;
pub mod generate;
pub mod laws;
pub mod linktime;
pub mod runtime;
pub mod slots;
pub mod text;
pub mod trampoline;
pub mod utils;
