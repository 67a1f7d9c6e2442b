# mb_tray

A menu-bar companion for the Modern Beta Minecraft server, with its logic
verified by Verus.

- `src/` is the verified library: the API's response types and client
  (addresses, headers, judging a reply), the configuration rules, the tray
  state, every menu text, the case-insensitive ordering of player names,
  the poller's state transitions, the profile lookup's state machine and
  card, and the compact variant of the tray (`compact/`).
- `app/` is the program around it: reading the configuration file, sending
  requests and decoding JSON, the poller thread, and the tray icon itself.
- `tests/` runs the library on concrete values.
