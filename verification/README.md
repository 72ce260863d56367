# daqlab

The instrument protocols, codecs and validation rules of a process data-acquisition and
control tool, written in Verus with their behaviour stated in contracts and proved.

## Layout

- `src/` — the verified library.
  - `protocol/` — the Metakon register protocol (requests, checksums, responses) and the
    virtual-instrument protocol: frames, the message codec, a stream decoder, a client over a
    byte transport and a server that answers from an instrument model.
  - `instrument.rs` — parameter values, access, types, ranges and descriptors.
  - `process_control/` — controller kinds, diagnostics, PID gains and limits, reference-source
    parameters, furnace parameters, the resolution of keyed parameter updates, loop names and
    requests for new controllers, with their error descriptions.
  - `presentation.rs` — plot pane keys and layouts.
  - `process_recorder.rs` — action identifiers and names, and the decisions of the recorder
    thread.
  - `sample_sink.rs` — CSV rows and field quoting.
  - `binary64.rs`, `bytes.rs`, `text.rs` — IEEE-754 bit patterns, little-endian integers and
    text helpers that the rest builds on.
- `tests/` — tests of the library.
- `app/` — ordinary Rust around the library: in-memory transports over channels, the numeric
  controllers and reference ramps (binary64 arithmetic), the recorder thread and its SQLite
  writer, and sample formatting.

Floating-point values cross the library as their IEEE-754 binary64 bit patterns (`u64`).
