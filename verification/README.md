# messagio

Terminal messages with colors, tags and sounds: success, error, warning and
information lines, message builders, pulsing lines, spinners, first-run
questions and a preferences file.

The crate is written in Verus and proved against its contracts.

- `src/` is the library.  It decides what to show and what to play, and
  returns it as a list of effects (text to print, tone steps to play,
  pauses); it never prints or plays itself.  Its state is a `Settings`
  value owned by the caller.  The preferences file format is read and
  written by `config`, with the round trip between the two proved.
- `app/` is the thin shell around it: it keeps one `Settings` behind a lock,
  carries the effects out (printing, the audio output, sleeping), reads and
  writes the preferences file, asks the first-run questions on the terminal,
  and runs spinners on threads.
- `tests/` holds the tests, run against the compiled library.
