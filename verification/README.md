# rustify

A client library for the native Spotify library (`libspotify`), with audio
output through OpenAL.

- `src/` is the verified part: handles for the native objects, decoding of the
  native numeric codes, the text rules for names and C strings, the decisions
  of the session's event worker, of playlist and link lookup, and of audio
  delivery. Every function there carries a contract that Verus proves.
- `app/` is the native side: the `extern "C"` declarations, the callbacks the
  native library makes, the worker thread, waiting for objects to load, and
  the OpenAL player. It takes each decision by calling `src/`.
- `tests/` runs the verified functions on concrete values.
