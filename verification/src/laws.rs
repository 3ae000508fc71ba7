//! What holds of the library as a whole.

pub mod delivery;
pub mod framing;
pub mod joining;
pub mod names;
pub mod presence;
pub mod sockets;
pub mod turns;
pub mod views;
