//! Deterministic terminal colours for short text tokens such as host names.
//!
//! A token is hashed byte by byte into one of five palette entries, and the
//! entry is rendered as a 24-bit ANSI foreground escape sequence.

pub mod escape;
pub mod hash;
pub mod mapper;
pub mod palette;
pub mod resolve;

pub use palette::ColorHash;
pub use resolve::{bucket_of, color_of, colorize, resolve};
