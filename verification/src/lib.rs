//! Verified core of a terminal splits-timer dashboard: fixed-width text
//! composition, color quantization, vertical layout, keyboard dispatch and
//! the render/input state machines. Terminal drawing, file reading and the
//! surrounding event loops live outside the library.

pub mod cli;
pub mod color;
pub mod engine;
pub mod input;
pub mod layout;
pub mod render;
pub mod text;
pub mod widget;
