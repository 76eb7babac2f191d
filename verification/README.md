# audio_purifai

The decision logic of a desktop app that runs DeepFilterNet speech
enhancement over batches of audio files, written in Verus with its behaviour
stated in contracts and proved.

- `src/text.rs`: whitespace trimming, `u32` parsing and decimal rendering, each
  against an exact specification.
- `src/paths.rs`: where `ffmpeg`/`ffprobe`, the Python environment and the
  bundled scripts are looked for, as functions of a `HostPaths` snapshot of
  the machine.
- `src/audio.rs`: WAV header reading (through `hound`) and the summary of an
  `ffprobe` report.
- `src/queue.rs`: one enhancement job as a state machine, with proofs that a
  job reports its end at most once and nothing after it, that its start comes
  first and before any progress, and that the lines it keeps are its progress
  messages.
- `src/worker.rs`: the model worker's command, and judging its launch and its answers.
- `src/setup.rs`: running the environment setup script.
- `app/`: the Tauri shell (commands, processes, files, events) around the
  library.
