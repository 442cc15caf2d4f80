# libchordr

A library for songs written with chords: it reads the Chorddown and ChordPro formats into
tokens, parses tokens into a document tree and the song's metadata, detects repeat marks such
as `2x Chorus`, and transposes keys.

- `src/` is the library, written in Verus: every function carries a contract over a
  mathematical model (`Seq<char>` for text, model enums for tokens, nodes and metadata), and
  the properties that span functions are proof functions next to the code they are about.
- `tests/` runs the library on concrete songs.
- `app/` holds what works with the outside world: reading a song from a `BufRead`, and drawing
  a parsed song into a PDF with `printpdf`.
