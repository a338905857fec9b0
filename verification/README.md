# spotify_remote

A small HTTP server that remote-controls a Spotify player, with its decision
logic verified by Verus.

- `src/` — the verified library: Spotify ids and URIs (`ids`), tracks and the
  conversion of Web API records into tracks (`data`), the play queue
  (`queue`), the player state and its event handling (`player`), the scope
  list (`scopes`), sign-in (`auth`: the redirect check and the token steps),
  the error response (`error`), request decisions (`routes`) and cache keys
  (`cache`).
- `app/` — the server around it: HTTP routes (axum), the Web API client
  (rspotify), the audio player (librespot), the SQLite cache and JSON.
- `tests/` — tests of the library on concrete values.

`Cargo.toml` pins `vergen` to 9.0.6. Nothing here calls it: librespot-core's
build script uses `vergen-gitcl`, which does not compile against the newest
`vergen`, and the pin keeps librespot buildable.
