//! Boot-time init for a secure enclave.
//!
//! Two components, independent of each other:
//!
//! - the process supervisor ([`supervisor`], over the table in [`process`]):
//!   a state machine that has the enclave's services launched in a fixed
//!   order and ties the life of the enclave to the critical one. What holds
//!   of all its runs is proved in [`trace`].
//! - the log sink ([`logger`]): a set-once slot for the process-wide sink and
//!   the rendering of a [`record`] as one line, built from [`level`],
//!   [`timestamp`] and [`text`].
//!
//! The library computes and decides; it neither spawns processes nor writes
//! to a stream. Its callers do, on its answers.

pub mod level;
pub mod logger;
pub mod process;
pub mod record;
pub mod supervisor;
pub mod text;
pub mod timestamp;
pub mod trace;
