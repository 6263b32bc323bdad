# we_claude_terminal

The logic of a desktop tray application that watches the sessions of a coding agent
running in terminals, shows them in a panel and a desktop pet, and jumps to the
terminal tab of a session.

- `src/` is the library, verified with Verus: session discovery rules, the host
  terminal search, status finalization (including the git-pending cache), the session
  stores, the AppleScript builders for iTerm2 and Terminal.app, language resolution and
  menu texts, configuration changes, repository records and the database viewer checks.
- `tests/` exercises the library on concrete values.
- `app/` is the Tauri shell around it: windows, tray, commands, SQLite, `ps`, `git`,
  `osascript` and the background threads.
