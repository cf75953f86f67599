//! Synthesis of companion builder types for records with named fields.
//!
//! A record declaration is described as plain data ([`shape`]); its fields are
//! classified as mandatory or optional ([`classify`]); from those descriptors the
//! builder's type, factory, setters and `build` method are synthesized
//! ([`synth`]). [`runtime`] states and implements what a synthesized builder does
//! when it runs.

pub mod shape;
pub mod classify;
pub mod synth;
pub mod runtime;

