# vaffelbot

A Discord bot that keeps a waffle queue per guild: members order with
`vaffel`, bakers (the `orakel` role) open orders with `start` and announce
baked waffles with `stekt`, and a small web server streams each queue.

`src/` is the library, verified with Verus:

- `queue.rs`: queue entries, the storage key of a guild's queue, a user's
  place in a queue, and what popping asks of the store.
- `guilds.rs`: the set of open guilds and the per-guild update channels.
- `json.rs`: the JSON text of entries and queues (serde_json writes the
  strings, escaped as stated).
- `commands.rs`: the steps of `vaffel`, `stekt` and `start` as machines
  from state and answer to next state and action, and the law that a
  second order adds nothing.
- `messages.rs`: every reply of the Discord commands, the baker check, and
  the feedback issue request.
- `orders.rs`: calendar dates (formatted by chrono), record and daily totals.
- `http.rs`: the web server's answers and server-sent events.
- `config.rs`: the settings and which of them are required.
- `text.rs`: decimal rendering and parsing of integers.
- `laws.rs`: properties that span several operations.

`app/` runs the bot: Redis, Discord (poise/serenity), the HTTP server
(axum), and the environment.
