//! Integer core of a sky-gradient renderer: quantized colours, image geometry
//! and the plain-text pixel stream.

pub mod decimal;
pub mod image;
pub mod pixel;
