# tes3mp_runner

Runner for a TES3MP game server, as used by a Pterodactyl egg: it reads the
server configuration, can look up the public IP address and wait for the
master server to drop a stale registration, prunes old logs, can preload a
LuaJIT build, starts the server, colours its output and shuts it down
gracefully on SIGTERM/SIGINT.

Layout:

- `src/` — the library, verified with Verus:
  - `pattern` — compiled `regex` patterns, seen through the pattern text;
  - `text` — characters, trimming, decimal numbers, substring search, path joining;
  - `logging` — `LogLevel`, `LogColorizer` (severity detection and colouring);
  - `config` — port and hostname from `tes3mp-server-default.cfg`;
  - `master` — the server's entry in the master listing, master trouble in
    the output, and the decisions of the wait for the master server;
  - `runner` — executable and library paths, the spawn plan, output lines,
    log pruning, exit classification;
  - `public_ip` — the public IP lookup as a state machine;
  - `shutdown` — the graceful shutdown as a state machine.
- `app/main.rs` — the program: arguments, logging, network, files, processes.
- `tests/` — tests of the library.
