# lzma_sdk

Safe wrappers around the `LZMA SDK`, with the logic around the SDK's codecs verified in
Verus.

The SDK's kernels (raw `LZMA`, `LZMA2` and `XZ` encoding and decoding, the branch-conversion
filters, and the `.7z` database reader) do the byte-level work. Everything the wrappers decide
around them is in `src/` and carries a contract that Verus proves:

- `lzma::options`, `lzma2::options`, `xz::options`: the typed option models, their validation,
  and the exact SDK property records they translate into.
- `lzma::props`: the five-byte raw `LZMA` properties header, with encode/decode round-trip
  lemmas.
- `lzma`, `lzma2`, `xz` encoders and decoders: the buffering, draining and accounting state
  machines; they take what one SDK call reported as an argument.
- `alone`: the `.lzma` container header and the size checks of its decoder.
- `filter`: branch-conversion bookkeeping and the delta filter, with round-trip and chunking
  lemmas.
- `checksum`: CRC-32, CRC-64 and SHA-256, specified bit by bit and round by round.
- `archive`: the `.7z` entry table built from the archive database, and extraction checks.
- `stream`: the factory for encoders and decoders, and the decisions of the SDK stream
  callbacks.

`app/` holds the FFI side: it calls the SDK, implements the stream callbacks, and feeds the
results to the state machines. `tests/` exercises the library on concrete values.
