# babble

The verified core of a voice-controlled assistant: audio is recorded into a
bounded sample buffer, transcribed, checked for spoken stop commands, and
sent to a language model whose streamed answer can be interrupted; text can
be normalized for speech synthesis; scripted scenarios drive the interface
and assert on the shared application state.

Layout:

- `src/` — the library, verified with Verus. Every public function carries
  a contract; cross-function properties are stated as `law_*` proof
  functions next to the code they are about.
  - `audio` — the sample ring buffer (over `ringbuf`), voice-detection
    chunk sizes, input device descriptions.
  - `text` — character classes, trimming, word splitting, replacement and
    decimal formatting/parsing over `Seq<char>`.
  - `state` — the shared application state and its transitions.
  - `processor` — stop-command detection, the conversation and streaming
    decisions of the generation worker, speech segmentation, and the
    orchestrator's step function.
  - `speech` — text normalization for synthesis and the ordered playback
    queue.
  - `testconfig` — scenarios, their validation and the scenario runner.
  - `ui` — the interface's decisions (record button, labels, session).
  - `cli`, `error`, `status` — command line, error kinds, worker status.
- `tests/` — tests run against the compiled library.
- `app/` — the program: threads, channels, microphone capture, resampling,
  WAV files, scenario parsing from TOML, and a windowless interface loop.
