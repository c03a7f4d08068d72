//! Battery monitor logic for Keychron mice that speak the vendor HID protocol on
//! usage page `0xFFC1`: which HID collections may be probed, how reports are read,
//! how device interface lists are split, and how the event loop decides what to do.

pub mod info;
pub mod paths;
pub mod report;
pub mod session;
pub mod text;

