# mustream

A terminal music player for a music server: it browses the server's folders, plays songs from a
queue, searches for videos, previews them and asks the server to download them.

- `src/` is the player itself, written and verified with Verus: its state, what keys and answers
  of the server do to it, the play queue, the clock, the requests, and the texts on the screen.
  Each function's contract speaks of `AppView`, the player over mathematical values; `laws.rs` and
  `text_laws.rs` state what holds across functions.
- `app/` performs what the library asks for: sound, requests, drawing, reading keys.
- `tests/` runs the library on concrete values.

The player never acts by itself. A function that needs something from outside returns an
`Action`; the outcome comes back through `finish_song`, `finish_preview` or `handle_background`.
Time is handed in as nanoseconds since the program started.

The server's address is read from `MUSTREAM_SERVER`; without it the player talks to
`http://localhost:3000`.
