//! The desktop client's own logic: which view sits where on each window's
//! desk, the state the screens are drawn from and the messages that move
//! it, and the short texts the bar and the sign-in screens show.

use vstd::prelude::*;

pub mod calendar;
pub mod connect;
pub mod desk;
pub mod laws;
pub mod layout;
pub mod model;
pub mod names;
pub mod overlay;
pub mod phrase;
pub mod readout;
pub mod screens;
pub mod sign_in;
pub mod text;
pub mod update;
pub mod window;

verus! {

} // verus!
