# bitsong

Core of a browser 8-bit music sequencer, verified with Verus.

- `src/basetype.rs`: note events (`Midi`), envelope stages and the integer type aliases.
- `src/transport.rs`: the play / pause / reset / reload state machine, its invariant and laws.
- `src/arrangement.rs`: lookup of pattern placements on a channel and the pattern selection.
- `src/export.rs`: bit-width names, level rescaling, channel interleaving, export frames, WAV export and file names.
- `src/wav.rs`: stereo WAV encoding through hound, frame by frame.
- `app/`: the Web Audio / download shell (`SongWrapper`), 32-bit float WAV encoding and the floating-point sample types.
