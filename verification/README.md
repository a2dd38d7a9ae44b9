# Windrose server manager

A web dashboard and HTTP API that starts, stops and watches a Windrose
dedicated server: lifecycle control, log and player tracking, backups,
installs, a daily scheduled restart, self-updates, and user accounts with
sessions, CSRF protection, invites, password resets and an audit log.

## Layout

- `src/` — the library, verified with Verus. Every rule of the manager lives
  here with its contract:
  - `text` — strings as sequences of characters: trimming, searching,
    decimal numbers;
  - `updates` — version comparison, release selection, the update state and
    the updater scripts;
  - `crypto` — token digests, random tokens, password hashing;
  - `accounts` — the account store's decisions: credentials, login lockout,
    sessions, user updates, invites, resets, the audit log;
  - `access` — route permissions, cookies, CSRF and the authentication layer;
  - `clock`, `lifecycle`, `pidfile` — time stamps, server states and the PID
    file;
  - `logs`, `players` — log lines, bounded buffers, join/leave detection and
    the registry of players online;
  - `schedule` — the daily restart and its countdown;
  - `config`, `game_config`, `files`, `install`, `web` — settings, reading
    the game's configuration files from their text, JSON documents, job
    requests and the HTTP details of the frontend.
- `tests/` — tests of the library on concrete values.
- `app/` — the program around the library: the HTTP server, the SQLite
  account store, background jobs and file and network I/O.
