//! Durable job receipts and the status answers rebuilt from them.
//!
//! - [`receipt`]: receipt rows, the write discipline (an abandonment never
//!   overwrites a real receipt), the restart stamp, and reading a row back;
//!   [`receipt_laws`] states what writes, stamps and reads do to the table.
//! - [`status`]: the terminal status rebuilt from a receipt and its evidence;
//!   [`outcome_laws`] ties it to the table.
//! - [`routing`]: the order in which a status request is answered, and the
//!   lost-job test that tells a lost job from an unknown one.
//! - [`handlers`]: request caps, the stop reply and the output-tail reply.
//! - [`peer`]: the per-peer dedup discriminator.
//! - [`timestamp`], [`json`], [`text`]: RFC 3339 timestamps, JSON members and
//!   string text.

pub mod text;
pub mod timestamp;
pub mod json;
pub mod receipt;
pub mod receipt_laws;
pub mod status;
pub mod routing;
pub mod outcome_laws;
pub mod handlers;
pub mod peer;
