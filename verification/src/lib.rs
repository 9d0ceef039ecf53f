//! The logic of a system-tray battery monitor for Pulsar and VAXEE wireless mice.
//!
//! Everything here is a function from plain values to plain values. The program
//! around it performs the Win32 calls and hands their results back.

pub mod color;
pub mod digits;
pub mod glyph;
pub mod hid;
pub mod icon;
pub mod layout;
pub mod menu;
pub mod protocol;
pub mod session;
pub mod settings;
pub mod single;
pub mod taskbar;
pub mod text;
pub mod tray;
pub mod window;
