# rme-cli

Control of the RME Babyface Pro's ALSA mixer controls from the command line.

- `src/` is the library, verified with Verus: `text` (lines, trimming, searching),
  `number` (decimal integers), `controls` (the card's controls and the values they
  take), `command` (what `get` and `set` read and write), `amixer` (its command
  lines and output), `cards` (finding the card), `laws` (properties of the whole).
- `app/` is the program: argument parsing, `/proc` and `amixer` I/O, and the
  floating-point volume curve.
