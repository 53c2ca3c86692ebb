//! Terminal colors: a closed color model, its rendering as ANSI SGR
//! parameters, and the capability state that decides which palette is used.

pub mod color;
pub mod control;
pub mod decimal;
pub mod name;
pub mod palette;

pub use crate::color::Color;
pub use crate::control::{ColorControl, ColorLevel, Override, Signals};
