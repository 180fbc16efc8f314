//! What holds of the parts of the bar, each stated of all that they can be given.

pub mod attr;
pub mod bar;
pub mod battery;
pub mod bytes;
pub mod clients;
pub mod float;
pub mod icons;
pub mod kernel;
pub mod reports;
pub mod sound;
pub mod state;
pub mod text;
pub mod tooltip;
pub mod volume;
pub mod windows;
