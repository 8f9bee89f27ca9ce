//! The engine's systems, as far as they are rules on plain values.

pub mod mesh;
