//! Asset identity, reference-counted handles and per-type reclamation for a
//! rendering engine, together with the integer rules of its texture and
//! vertex-buffer layer.
//!
//! Every executable function in this crate carries a contract that is proved
//! against its body. The few places where the crate relies on code it cannot
//! see are marked `external_body` and documented where they stand.

pub mod asset_server;
pub mod render;
pub mod systems;
pub mod utils;
