pub mod claude_sessions;
pub mod monitor;
