[package]
name = "we_claude_terminal"
version = "0.1.0"
edition = "2021"
publish = false

[dependencies]
sys-locale = "=0.3.2"
dirs = "=6.0.0"
serde = { version = "=1.0.229", features = ["derive"] }
serde_json = "=1.0.154"
rusqlite = { version = "=0.41.1", features = ["bundled"] }
chrono = "=0.4.45"
log = "=0.4.35"
notify = "=8.2.1"
notify-debouncer-mini = "=0.7.0"
