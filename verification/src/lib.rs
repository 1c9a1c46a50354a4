//! Verified core of a small 3D model viewer: mesh assembly, vertex layout,
//! texture preparation and the static bindings between textures and shader
//! samplers. Floating-point values are carried as their IEEE-754 bit patterns,
//! so that every buffer handled here is a sequence of integers.

pub mod buffer;
pub mod diagnostics;
pub mod layout;
pub mod material;
pub mod mesh;
pub mod shell;
pub mod texture;
