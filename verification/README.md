# music_player

A small desktop player for an MPD server, with its logic verified by Verus.

- `src/` is the verified library:
  - `player.rs`: the player's state machine. `SongData::update` handles one
    message; its contract is `next_state` (the new state) and `step_for`
    (the request to the server or to the settings file, and what follows).
  - `song.rs`: song information made from MPD's replies (fallback texts,
    the album tag, the queue).
  - `client.rs`: the client's server address and the decision that
    toggling playback takes on a status reply.
  - `album_art.rs`: decoding album art through the `image` crate.
  - `theme.rs`: choosing one of iced's built-in themes by name.
  - `view_model.rs`: the text and highlight of what the window shows.
  - `config.rs`: the settings and their defaults.
- `app/` is the window (iced), the requests to the MPD server (mpd), the
  settings file (dirs, toml, serde) and the background listener (tokio).
- `tests/` runs the library on concrete values.
