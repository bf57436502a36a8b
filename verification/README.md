# questbuddy

A progression companion for Hollow Knight and Silksong: it decrypts the games'
save files, reads the player's progress out of them, suggests what to do next,
and edits single fields of a save.

- `src/` is the library, verified with Verus.
  - `plugins/save_crypto.rs`: the save file format (header, base-128 length,
    base64 text of the AES-256/ECB/PKCS#7 encrypted JSON), with decryption,
    encryption and the proof that decrypting an encrypted save gives its JSON back.
  - `plugins/codec.rs`, `plugins/json.rs`: the calls into `base64`, `aes`,
    `serde_json` and std's UTF-8 conversion, with the contracts trusted for them.
  - `plugins/hollow_knight.rs`, `plugins/silksong.rs`: reading each game's save.
  - `plugins/discovery.rs`: deciding from the process list whether a game runs,
    and which save slot is the newest.
  - `progress.rs`: items, suggestions and the progress summary.
  - `editor.rs`: reading the player's raw state and writing one field back.
- `app/` is the desktop shell around it: the file system, the process list,
  the folder watcher, the registry and the window.
- `tests/` runs the library on concrete saves and states.
