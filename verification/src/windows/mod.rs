pub mod monitor;
pub mod panel;
pub mod pet_claude_sessions_summary;
pub mod pet_task;
pub mod tray;
