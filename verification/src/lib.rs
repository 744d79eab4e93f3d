//! A log capture-and-delivery bridge: records produced by application code are
//! filtered by severity, stamped with an elapsed-time prefix, wrapped into a
//! transport envelope, and either handed out one by one (immediate mode) or
//! accumulated in a buffer that a flush drains as one ordered batch.

pub mod clock;
pub mod envelope;
pub mod laws;
pub mod logger;
pub mod render;
pub mod severity;
pub mod timefmt;
