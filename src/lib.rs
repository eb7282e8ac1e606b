//! Decoding of the 27-byte manufacturer-data advertisements that wireless
//! earbuds and headphones broadcast, and the snapshot of the latest decoded
//! state that local readers query.

pub mod dbus;
pub mod info;
pub mod snapshot;
