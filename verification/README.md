# watch_sync

The backend of a media watch-list service: admin and user accounts with sealed
tokens, per-user favorites, and playback positions that clients report and the
server writes to the database in batches.

- `src/` is the verified library (Verus): sessions with their use limits
  (`models::auth_user`), the cache of reported positions and the upload
  decisions (`models::watch_state`), token sealing and opening
  (`utils::encrypt`, `utils::decrypt`, over orion and base64 in
  `utils::cipher`), the credentials a user token seals (`utils::credentials`),
  stored-password checks and the issuing of a user's secrets
  (`utils::password`), record ids (`utils::ids`), the decisions of the REST
  and socket endpoints (`methods`, `middleware`, `rest_methods`), and the
  cut-off of the favorite cleaning (`worker`).
- `app/` is the server around it: axum routes, the socket namespace, the
  database (sea-orm) and its migrations, JSON forms of the library's types,
  and the background loops.
- `tests/` exercises the library with the real outside crates.
