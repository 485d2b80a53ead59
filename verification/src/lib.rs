/// The command endpoint: one callable operation exposed to the UI layer,
/// which emits a fixed diagnostic line.
pub mod command;
/// The tray controller: the tray menu and the dispatch of tray events to
/// process-level actions.
pub mod tray;
