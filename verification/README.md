# tataku

The decisions of the tataku rhythm game, as a library verified with Verus: what the game
does with menus and dialogs, key bindings, songs and sounds, plays and their scores,
multiplayer lobbies, chat, notifications, background tasks, online packets and Discord
presence. Each public function states in its contract what it returns or changes, and
the song and sound managers record the commands they hand to the audio engine. What the
clock and the audio engine read out (the time, a song's position, state and data) is
passed on as it comes, with nothing stated of its value.

Layout:

- `src/` — the verified library, one module per part of the game. Calls into the
  standard library or outside crates that Verus cannot see into stand behind small
  wrappers whose contracts say what those calls do.
- `tests/` — tests of the library on concrete values.
- `app/` — the unverified rest: reading the clock, files and the network, Discord's
  client, score and screenshot uploads, and serde copies of the library's types.

Verify with `verus` on `src/lib.rs`; build and test with cargo.
