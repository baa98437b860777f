# xcraft

A command-line tool for building and running Xcode projects (`.xcworkspace`,
SPM `Package.swift`, Tuist `Project.swift`) from the terminal, with its
decisions verified by Verus.

## Layout

- `src/` — the verified library. Every decision the tool makes is a function
  with a `requires`/`ensures` contract over mathematical models:
  - `workspace`: workspace types, candidate detection, Tuist generation.
  - `scheme`: scheme and configuration lists and their resolution.
  - `destination`: destinations, their spec strings (`simulator:<udid>`,
    `device:<udid>`, `macos`), listing and resolution.
  - `xcodebuild`: `xcodebuild` command lines, build settings, launch info.
  - `launch`: the launch protocol as a step function from stage and event to
    next stage and action.
  - `resolve`, `cache`: inputs falling back to cached selections, and what
    is recorded for the next run.
  - `bsp`: `buildServer.json` contents and Content-Length message forwarding.
  - `select`, `command`, `error`, `text`, `paths`: shared pieces.
- `app/` — the executable around the library: argument parsing, running
  tools, reading their JSON, prompting, and the cache file
  `.xcli/state.toml`.
- `tests/` — tests of the library on concrete values.
