//! Rules of a small OpenGL rendering scaffold: packed vertex formats, the
//! attribute layout of a vertex record, and the protocol by which shaders are
//! compiled and linked into programs.
//!
//! Nothing here talks to a GPU driver. Every function works on plain values and
//! says which driver call is due next; the caller performs the call and hands
//! back what the driver answered.

pub mod buffer;
pub mod data;
pub mod layout;
pub mod shader;
