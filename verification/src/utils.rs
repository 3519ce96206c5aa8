//! Pieces that several phases share.

pub mod buf;
pub mod text;
pub mod uuid;
pub mod velocity;
