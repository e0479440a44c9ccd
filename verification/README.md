# syncplay

Plays the same film at the same time in several places. Every participant runs a
client, which controls an `mpv` player; a server keeps the clients in step.

- `src/` is the library: durations and clocks, the framing of packets, the
  synchronisation of a client's time with the server's, the player's control protocol,
  and what client and server decide. It is written in Rust with Verus contracts, and
  every function in it is verified against its contract. What it takes from other
  crates stands behind declarations whose contracts are trusted; each says what it
  claims of which function.
- `app/` is the program around it: the network, the player process, and the archived
  and JSON forms of the library's types.
- `tests/` runs the library.
