# solo_conversation_core

Verified core of a two-direction speech-translation session (one phone, two
languages, each direction independently Live, PushToTalk or Off).

`src/` (verified with Verus):

- `config` — per-direction mode and language codes; switching one direction
  never touches the other.
- `vad` — voice-activity gate with the Muted → Elevated → Normal echo window
  around text-to-speech playback, as an exact state-transition spec.
- `pipeline` — both directions' capture loops fed from one audio stream,
  push-to-talk bracketing, the single ambiguous event when both directions are
  Live, and the langid → confidence → sticky-bias resolution chain.
- `langid` — two-candidate language disambiguation through `whatlang`
  (trusted wrappers, results named).
- `session` — lifecycle and the mapping from pipeline events to host outputs.
- `runtime_guard`, `error`, `mt`, `harness`, `text` — small decision and
  formatting pieces.

`app/` holds what Verus does not see: the UniFFI objects and callback traits,
the locks that share configuration and session with the host, floating-point
amplitude and confidence comparisons, ONNX Runtime model loading, and the
desktop harness (WAV via `hound`, microphone via `cpal`).
