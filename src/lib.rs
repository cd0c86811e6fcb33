//! A minimal boot environment for a single-board computer, as a verified
//! library: the driver registry and console of the board, the board-side
//! loader that receives a kernel image over a serial line, and the decisions
//! of the host-side pusher that sends it and then acts as a terminal.
use vstd::prelude::*;

pub mod bsp;
pub mod console;
pub mod driver;
pub mod loader;
pub mod protocol;
pub mod session;
pub mod time;
pub mod transfer;

verus! {

} // verus!
