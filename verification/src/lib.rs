//! WebP to GIF: the rules of a small desktop converter, verified with Verus.
//! Output folders and file names, the WebP-to-GIF frame timing, the batch
//! job states and history, and the portable launcher's payload format.

pub mod converter;
pub mod history;
pub mod launcher;
pub mod output;
pub mod path;
pub mod settings;
pub mod text;

mod job;

pub use job::{history_entry, now_stamp, stamp_of_seconds, timestamp_text, ConversionJob, JobAction, JobEvent};
