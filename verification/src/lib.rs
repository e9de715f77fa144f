//! An emulation core for an 8-bit handheld console: cartridge header,
//! memory bank controllers, the memory bus and the processor.
pub mod bits;
pub mod bus;
pub mod cpu;
pub mod fault;
pub mod gb;
pub mod mbc;
pub mod ram;
pub mod rom;
