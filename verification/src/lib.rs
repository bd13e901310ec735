//! Verified core of a real-time scene renderer.
//!
//! The crate holds the rules of the renderer: how vertex and instance
//! streams are laid out, how uniform resources are described and rewritten,
//! where the instances of the grid stand, how the tangent space of a mesh is
//! filled in, how the camera moves, which input reaches which part of the
//! scene, and which commands make up a frame, in which order.
//!
//! The crate touches no device and no window. It decides and describes; a
//! shell around it creates the buffers, writes them and replays the passes.
//!
//! Numbers are values of a type parameter with the four operations (see
//! [`scalar`]). What a mathematics library has to supply, from sines to
//! projection matrices, comes in as functions (see [`math`]); the contracts
//! say what is handed to them and what is done with what they return.

pub mod binding;
pub mod buffer;
pub mod bytes;
pub mod camera;
pub mod event;
pub mod frame;
pub mod instance;
pub mod layout;
pub mod light;
pub mod math;
pub mod matrix;
pub mod model;
pub mod pass;
pub mod primitives;
pub mod resources;
pub mod scalar;
pub mod uniform;
