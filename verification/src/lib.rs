//! Data-plane handlers of a paired-device content-sharing service.
//!
//! The library holds the verified core: the clipboard content negotiation
//! cascade, the ranged file download decisions, the windowed read cursor,
//! and the clipboard image encoding. The surrounding process (transport,
//! framing, filesystem and clipboard access) drives these through the step
//! machines in `negotiate` and `download`.

pub mod clip_image;
pub mod download;
pub mod negotiate;
pub mod protocol;
