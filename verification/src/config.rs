//! The fixed choices of the browser window.
use vstd::prelude::*;

verus! {

/// The address that the web view is pointed at when the window is built.
pub const PAGE_URL: &'static str = "https://thisweek.gnome.org/";

/// The title shown in the header bar. It never changes.
pub const TITLE: &'static str = "Matvei 🏳️‍🌈";

/// How long after the end of a load the progress indicator is cleared, in
/// milliseconds.
pub const PROGRESS_RESET_DELAY_MS: u64 = 500;

/// The web engine's developer tooling is switched on.
pub const ENABLE_DEVELOPER_EXTRAS: bool = true;

/// What pages write to their console is mirrored to standard output.
pub const WRITE_CONSOLE_MESSAGES_TO_STDOUT: bool = true;

} // verus!
