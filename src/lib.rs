//! A terminal wizard that writes a disk image to a storage device: device
//! enumeration from a block-device listing, byte-size formatting, and the
//! stage machine and per-iteration decisions of its event loop.

pub mod device;
pub mod human;
pub mod input;
pub mod page;
pub mod session;
pub mod wizard;
