# grpc_dialout

A telemetry collector for network devices that dial out over gRPC (2-layer
JSON, 3-layer GPB/Telemetry, gNMI) and UDP.

- `src/` is the verified library: UDP header parsing, reassembly of
  fragmented messages, the choice of services for a configuration, the
  per-message decisions and every text the collector prints, with
  contracts proved by Verus. The `bytes` and `serde_json` calls it makes
  go through trusted wrappers in `src/buffers.rs` and `src/json.rs`, whose
  contracts state what those crates' sources do.
- `app/` is the command-line program around it: argument parsing (clap),
  logging, sockets, the tonic gRPC services, protobuf decoding with prost
  and prost-reflect, and proto compilation with protox.
- `tests/` runs the library on concrete inputs.

The desktop front end (a tauri window with start, stop and statistics
commands) is not part of this crate. Its configuration and statistics
decisions are in `src/gui.rs`; the window itself needs tauri and the
system's web-view libraries, which this build does not include.
