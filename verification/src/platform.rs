//! The platform's clipboard-type probe.
//!
//! Some platforms can report type tags for the current clipboard content,
//! which the watcher uses to leave ignored sources — password managers and
//! the like — alone. Such a probe is a platform backend's to provide; this
//! library ships none, so its probe reports the platform unsupported and a
//! caller falls back to an empty tag list, dispatching everything.

use vstd::prelude::*;

verus! {

/// Why the clipboard-type probe gave no tags.
#[derive(Clone, Copy, Debug, PartialEq, Eq, Structural)]
pub enum PlatformError {
    /// No backend for this platform provides the probe.
    Unsupported,
}

/// Asks the platform for the current clipboard content's type tags. No
/// platform backend ships with this library, so the probe always reports
/// the platform unsupported; a caller with a backend of its own answers
/// from that instead.
pub fn get_clipboard_types() -> (r: Result<Vec<String>, PlatformError>)
    ensures
        r == Err::<Vec<String>, PlatformError>(PlatformError::Unsupported),
{
    Err(PlatformError::Unsupported)
}

} // verus!
