# oxy

Oxy is a remote access tool built on the Noise protocol framework. This
crate is its verified core, written in Verus:

- `src/mid.rs` — the layout of mid packets and reading and writing their
  header fields;
- `src/inner.rs` — cutting inner messages into frames and reassembling them;
- `src/session.rs` — Noise sessions backed by snow, and the record of the
  calls handed to snow, which only the wrappers of those calls add to;
- `src/noise.rs` — the Noise steps between frames and mid packets;
- `src/oxy.rs` — packet numbering, the packet pipelines, and the server's
  conversation table;
- `src/copy.rs` — the file-copy protocol;
- `src/arg.rs`, `src/config.rs`, `src/config_wizard.rs` — configuration;
- `src/messagewatchers.rs`, `src/metacommand.rs`, `src/ui.rs`, `src/pty.rs`
  — what is done with inner messages, prompt commands and keyboard input.

`app/` holds the code that talks to the outside world: command-line parsing
with clap, TOML and CBOR serialization, the terminal, pseudo-terminals, and
the connection handle that builds a Noise session from the configured keys
and hands it mid packets, and a server's table of such connections.
