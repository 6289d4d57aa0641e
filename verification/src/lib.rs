//! A verified client core for synchronizing derivation records — named,
//! branch-scoped pointers into a content-addressed artifact store — with a
//! central registry, and for deploying the referenced artifact locally under
//! elevation.
//!
//! The library holds everything that decides: framing and parsing of the
//! hand-rolled wire protocol, the JSON payloads, deletion selectors and their
//! wildcard, the bounded upload-retry machine, the key agent's overlay and
//! teardown accounting, and the privileged-exec writer discipline. Sockets,
//! subprocesses and terminals stay outside; they hand plain values in and take
//! plain values back.

pub mod agent;
pub mod apply;
pub mod clock;
pub mod json;
pub mod num;
pub mod privileged;
pub mod registry;
pub mod sync;
pub mod text;
pub mod transport;
pub mod upload;

