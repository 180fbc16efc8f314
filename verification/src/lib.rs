//! The decisions of a desktop status bar: what it shows, what it asks of the
//! compositor, the sound server and the kernel, and how it answers their events.

pub mod attr;
pub mod backlight;
pub mod battery;
pub mod bitset;
pub mod bytes;
pub mod charging;
pub mod clients;
pub mod clock;
pub mod events;
pub mod float;
pub mod fx;
pub mod hyprland;
pub mod icons;
pub mod laws;
pub mod picture;
pub mod pipewire;
pub mod runner;
pub mod text;
pub mod theme;
pub mod tooltip;
pub mod tray;
pub mod uevent;
pub mod volume;
pub mod windows;
