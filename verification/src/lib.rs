//! Error taxonomy for a certificate-authenticated messaging daemon.
//!
//! The crate owns a single closed sum type, [`error::Error`], covering every
//! failure kind the daemon's trust, access-control, validation and messaging
//! paths can report, together with its two total textual projections and the
//! conversion edges that lift foreign failures into the taxonomy.

pub mod convert;
pub mod foreign;
pub mod error;
