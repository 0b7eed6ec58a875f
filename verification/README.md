# nc-cli

A command-line tool that manages a Nextcloud server over SSH: it runs `occ` subcommands
(users, quotas, files, scans, maintenance mode, status) and copies a local directory to the
server with `rsync`, rescanning the result afterwards.

Layout:

- `src/` is the library, verified with Verus:
  - `cli.rs`: the subcommands and global options, and each subcommand's success message;
  - `occ.rs`: the `occ` invocation for a subcommand;
  - `config.rs`: reading `config.toml` (through the `toml` crate) into settings;
  - `sync.rs`: the `rsync` argument list and its messages;
  - `ssh.rs`: the SSH connection's parameters, result and messages;
  - `run.rs`: one run as a state machine, from the options and configuration to the
    actions to perform and the lines to print;
  - `text.rs`: decimal numbers, `host:port` addresses and other text helpers.
- `app/` is the program: argument parsing with clap, file access, running rsync, and the
  SSH session with ssh2; it performs the actions the run machine returns.
- `tests/` holds the tests of the library.
