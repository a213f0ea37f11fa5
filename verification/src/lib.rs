//! Deterministic random-number generation and worldgen helper logic for
//! Minecraft-compatible terrain generation, together with the density-tree
//! shrinking machinery used to reduce failing worldgen programs.

pub mod compiler;
pub mod density;
pub mod export;
pub mod harness;
pub mod perlin;
pub mod protocol;
pub mod random;
pub mod reply;
pub mod shrink;
pub mod spline;
pub mod xoroshiro;
