# ducktape

The desktop client's own logic, verified with Verus: the state its screens
are drawn from and the reducer that moves it (`update`), each window's
panes (`layout`, `window`), and the words its screens say.

- `src/model.rs` — the state, its steps, and the effects the shell carries out
- `src/update.rs` — the reducer: one message in, the state moved, effects out
- `src/connect.rs`, `src/sign_in.rs`, `src/desk.rs`, `src/overlay.rs` — the handlers, by screen
- `src/layout.rs`, `src/window.rs` — panes, stacking, focus, and the views mounted for them
- `src/laws.rs` — what holds across messages
- `src/calendar.rs` — the Gregorian calendar, and the proof that the founding date's day arithmetic names its dates
- `src/names.rs`, `src/screens.rs`, `src/readout.rs`, `src/phrase.rs`, `src/text.rs` — texts and their parts
- `app/` — the frames' geometry (floating point) and the dispatch loop around the library
