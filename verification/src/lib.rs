//! Tool-invocation server core: capability registry, schema-driven argument
//! decoding, typed request dispatch, session negotiation, and the error
//! taxonomy that maps internal failures to protocol-visible errors.
//!
//! The outbound lookups themselves (HTTP calls to the weather and geolocation
//! services) and the wire transport are external collaborators: this crate
//! prepares each call, and maps every possible outcome of it, but never
//! performs I/O itself.

pub mod args;
pub mod dispatch;
pub mod models;
pub mod registry;
pub mod result;
pub mod schema;
pub mod session;
pub mod transport;
pub mod upstream;
