//! Core logic of a bridge that maps a fixed textual device-control command
//! vocabulary onto a desktop window standing in for an emulated device.
//!
//! The library covers everything that can be stated and checked as pure
//! computation: recognizing commands and their operands, mapping points from
//! the fixed virtual screen into a window's client area, planning pointer and
//! key event sequences for taps, swipes and key presses, normalizing raw
//! captured pixel buffers, and encoding frames losslessly. Posting the
//! planned events, looking up windows and performing any other I/O is left to
//! a thin shell around the library.

pub mod codec;
pub mod command;
pub mod frame;
pub mod geometry;
pub mod input;
pub mod text;
