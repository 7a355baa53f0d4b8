//! Keystroke reconstruction and input-method switching rules.

pub mod attempt;
pub mod buffer;
pub mod controller;
pub mod keys;
pub mod probe;
pub mod session;
pub mod text;
pub mod trigger;
