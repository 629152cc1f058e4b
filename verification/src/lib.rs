//! Clipboard change detection.
//!
//! A watcher polls the system clipboard, compares what it reads with what it
//! last saw, and produces one notification per distinct change: the new text
//! as it is, or a new image as a base64-encoded PNG. This library holds the
//! decisions and the conversions; reading the clipboard, sleeping between
//! polls and delivering the notifications are left to the caller.

pub mod armor;
pub mod codec;
pub mod fingerprint;
pub mod laws;
pub mod payload;
pub mod raw_image;
pub mod watcher;

pub use codec::{encode, CodecError};
pub use fingerprint::fingerprint;
pub use payload::{ClipboardPayload, PayloadKind};
pub use raw_image::RawImage;
pub use watcher::{ClipboardError, WatcherState, EVENT_NAME, POLL_INTERVAL_MS};
