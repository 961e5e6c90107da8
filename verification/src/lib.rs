//! Decision logic for enabling JIT on iOS devices.
use vstd::prelude::*;

pub mod catalog;
pub mod controls;
pub mod debugger;
pub mod device;
pub mod disk_image;
pub mod display;
pub mod events;
pub mod host;
pub mod imports;
pub mod laws;
pub mod listing;
pub mod lists;
pub mod order;
pub mod packets;
pub mod property_list;
pub mod script_list;
pub mod scripts;
pub mod session;
pub mod text;
pub mod transfer;
pub mod window;
pub mod worker;

verus! {

} // verus!
