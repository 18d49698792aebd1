# Moonlapse

A small multiplayer game: a server that keeps a world of players, a terminal
client, and the first version of the server. The logic is a Verus library;
`app/` runs it.

- `src/wire.rs` — the value tree a packet is written to and read from, with
  readers and writers whose results are stated over its model.
- `src/shared/` — components, the world snapshot, packets, and the JSON
  serializer's packet codec, with its round-trip law.
- `src/server/` — the hub (the connection table, logins, routing), the game
  (the world, joining, leaving, movement), the systems, what a connection
  decides, and tick pacing. Handlers return the actions they decide on.
- `src/ecs.rs` — the `hecs` calls the game makes, each with a contract over a
  model of the world's contents.
- `src/client.rs` — the client's state, what each key does, and the text of
  the map and the visible log.
- `src/legacy/` — the first version: its packets and MessagePack/FlexBuffers
  codecs, its hub's ticks, its connection's outbox, and its game.
- `app/` — sockets, channels, timers, byte formats and the terminal.

Run the server with `moonlapse [port]` (42523 by default; 0 lets the system
pick a port, which is logged), the client with `moonlapse client`, and the
first version with `moonlapse legacy [port]`.
