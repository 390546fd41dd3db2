# mam_voice

The decision-making core of a desktop voice changer, written in Verus: every
function in `src/` carries a contract that Verus proves.

## Layout

- `src/device.rs`, `src/device_capabilities.rs`: endpoint descriptions, stable
  identifiers, virtual-endpoint hints and families, capability summaries.
- `src/external_route.rs`, `src/commands/external_routes.rs`: discovery of virtual
  playback/capture pairs, manual pairs, the route catalog, saving and deleting the
  saved route, and route readiness checks.
- `src/application_settings.rs`, `src/commands/devices.rs`: the settings document,
  its schema migrations and validation, and restoring endpoint selections.
- `src/product.rs`: what the application reports about itself.
- `src/stream_config.rs`, `src/stream_plan.rs`, `src/reliability.rs`: stream format
  negotiation, ring and prefill sizing, and the reliability profiles.
- `src/engine_state.rs`, `src/controller.rs`, `src/worker.rs`, `src/metrics.rs`: the
  engine's lifecycle and bounded recovery, the processing thread's pacing, and the
  diagnostic counters.
- `src/presets.rs`, `src/preset_copies.rs`, `src/preset_validity.rs`: preset
  documents, validation and edits, names for copies, and why edits keep a valid
  document valid.
- `src/voice_dataset/`: voice profiles, consent, prompts, takes, review, trimming,
  statistics, quality verdicts, WAV header checks, storage paths and export selection.
- `app/`: the shell around the library (audio host, files, serialized forms, sample
  measurements and conversion, and the commands); it is ordinary Rust.
- `tests/`: tests of the library's behaviour on concrete values.
