# chiptunomatic

Turn any file into a chiptune: the file name and byte length are hashed into
a seed that decides the root note, tempo, chord loop, drum pattern and song
form, and the file's bytes become the melody and bass notes. The same file
always gives the same tune.

## Layout

- `src/` — the verified library (Verus). Every decision that turns a seed
  and a byte stream into a song: song metadata from an MD5 digest, the music
  modes and their tables, the byte-to-note reader, the voices' clocks in
  sixteenths (chord and phrase positions), arpeggios, drum steps,
  song sections, mute/solo routing, and the player's key handling, progress
  and audio-worker command handling. Contracts state what each function
  returns; proof functions state the laws (tempo ranges, drum layouts, the
  song fitting its file, chunked input reading as one, focus and mode cycles,
  solo rules, PCM round trip).
- `tests/` — runtime tests of the library.
- `app/` — the command-line player around the library: sound synthesis
  (floating point), mixing, WAV export, configuration, the terminal UI and
  the audio worker.
