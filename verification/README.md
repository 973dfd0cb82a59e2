# sechat_rs

A terminal client for Nextcloud Talk. The library under `src/` holds the
client's logic, verified with Verus: the conversation and message model, the
decisions taken when conversations are loaded and refreshed, the requests to
the Talk API and how their answers are read, the notifications, and the
models of the interface (modes and keys, chat rows, title bar, user list,
conversation selector, help). `app/` is the program around it: configuration
files, logging, HTTP, the event loop and drawing with ratatui.

Modules of the library:

- `data`: the Talk API's records.
- `message`, `room`, `talk`: messages, conversations and the set of
  conversations of an account.
- `request`: the API requests and how answers are read.
- `notify`: notification contents.
- `config`: settings, theme and styles.
- `app_state`: screens, popups and what a key or mouse event does.
- `chat_box`, `title_bar`, `users`, `chat_selector`, `help_box`, `log_box`,
  `user_styles`: the views.
- `text`, `sorting`, `time_format`: text helpers, ordering by name, and time
  stamps rendered with `chrono`.
