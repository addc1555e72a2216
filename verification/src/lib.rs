//! Typed, verified access layer over two memory-mapped interrupt
//! controllers: a per-core local controller with a fixed register map,
//! and a shared I/O router reached through a select/window indirect
//! addressing protocol, together with the bitfield codecs that turn raw
//! hardware words into structured values and back.

pub mod apic;
pub mod io_apic;
pub mod values;
