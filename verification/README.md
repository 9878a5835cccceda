# wayle_plugin

The verified core of Wayle's WebAssembly bar plugins, written in Verus.

- `src/text.rs` — whitespace, trimming, prefixes and decimal text, with
  exact specifications.
- `src/sdk/` — what a plugin uses: payload types, validators, builders, and
  the decoding of what the host answers a command (`sdk/host.rs`).
- `src/config.rs` — the `[[modules.plugins]]` entry and its command policy.
- `src/shell/` — what the host decides: the effective policy and command
  replies (`policy.rs`), the translation of plugin payloads
  (`registry.rs`), bounds checks on plugin memory (`memory.rs`), path
  expansion (`paths.rs`) and the bar module's state machine and dropdown
  layout (`module.rs`).
- `src/laws.rs` — properties across functions, proved.
- `app/` — ordinary Rust around the library: the ABI glue on the plugin
  side (host imports, memory buffers, JSON, `export_plugin!`), the serde
  forms of configuration and payloads, the wasmtime runtime, and the async
  tasks of the bar module.
