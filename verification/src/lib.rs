//! Decision logic of a tray utility that hides the YouTube Music desktop
//! window, restores it on request and announces track changes.
//!
//! Everything that talks to the operating system lives outside this crate;
//! the functions here take what the system reported as plain values and say
//! what to do next.
use vstd::prelude::*;

pub mod app_id;
pub mod ico;
pub mod lifecycle;
pub mod media;
pub mod toast;
pub mod tray;
pub mod window;

verus! {

} // verus!
