//! Core of a local model-inference server.
//!
//! The library owns the logic of the server: the token sampler, the
//! autoregressive text-generation session, the diffusion image pipeline's
//! planning and step accounting, the model lifecycle manager, the model
//! registry, and the request/response shapes of the wire protocols.
//! Device-resident tensor work, file and network I/O, and the async plumbing
//! around these live outside the library and talk to it through plain values.
//!
//! Probabilities, temperatures and guidance scales are carried as fixed-point
//! integers (the scale is named at each type); the conversion from the
//! backend's floating-point tensors happens at the caller's edge.

pub mod api;
pub mod config;
pub mod diffusion;
pub mod daemon;
pub mod engine;
pub mod gpu;
pub mod hub;
pub mod manager;
pub mod protocol;
pub mod registry;
pub mod runners;
pub mod sampler;
pub mod strutil;
pub mod tui;
pub mod tokenize;
