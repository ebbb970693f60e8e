//! Configuration builder for the OpenVINO execution provider of an
//! inference runtime.
//!
//! The library accumulates user-chosen options (device type, device id,
//! thread count, cache directory, an opaque context handle, and boolean
//! feature flags) into a flat options record, wraps the finished record
//! into a provider handle, and decides the outcome of registering the
//! provider with a session builder.  The foreign registration call itself
//! is made by unverified glue code around the library; the library states
//! exactly what is handed to that call and how its status is translated.

pub mod provider;
pub mod registration;
