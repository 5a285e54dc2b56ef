//! The verified core of a small tiling window manager: rectangle geometry,
//! the control protocol, the window registry and the reactor's decisions.

pub mod geometry;
pub mod message;
pub mod registry;
pub mod reactor;
pub mod socket;
