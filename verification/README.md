# go_updater

Keeps a Linux machine's Go installation at the latest stable release from
go.dev. The library (`src/`) holds the decisions and computations, each with a
proved contract:

- `decimal`, `semver`, `version_order`: reading Go tags such as `go1.25.2`
  and ordering versions;
- `release`: the go.dev release list, the latest stable release and the
  archive that fits the machine;
- `update`: the update run as a state machine (fetch, decode, compare,
  download, checksum, install, re-check);
- `root_run`: running a command as root directly or through sudo, pkexec, su;
- `sys`, `fs`: reading `go version` output, download paths, SHA-256 checks;
- `text`: small verified string helpers.

`app/` performs the outside work (HTTP, processes, files, console output)
that the state machines ask for, and provides `run_update` and `cli_main`.
