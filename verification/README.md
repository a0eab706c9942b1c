# stremio-presence

Discord rich presence for a Stremio shell, as a verified library.

`src/` holds the logic, proved with Verus:

- `shell`: what the player and the web page report, and what the presence thread is told of it
- `engine`: the presence thread, step by step
- `activity`: the activities that are shown on Discord
- `route`, `metadata`: what a route is about, and what is known of it
- `config`, `settings_file`: the settings, from `RPCconfig.ini` and the settings page
- `player`: what is asked of the player, and what it remembers between files
- `text`, `percent`, `json`, `double`: texts, percent encoding, JSON and doubles

A double is carried by its bits, so that its comparisons and casts are integer arithmetic.

`app/` does the work that the library decides on: threads, files, requests, the connection to
Discord, and the player itself. `tests/` runs the library.
