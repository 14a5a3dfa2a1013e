//! The decision core of a minimal browser window: one embedded web view under
//! a header bar with a back button, a title with the current address beneath
//! it, and a transient load-progress indicator.
//!
//! The window itself is drawn by a toolkit and the pages by a web engine;
//! neither lives here. This library holds what the window shows as plain
//! state, and says for every notification from the engine, the toolkit or the
//! platform how that state changes and what is asked of the outside in
//! return. An embedding program forwards each notification to the matching
//! handler of [`shell::BrowserShell`], carries out the returned [`shell::Effect`],
//! and copies the state into its widgets.
pub mod config;
pub mod progress;
pub mod theme;
pub mod shell;
pub mod trace;
