# Symbian OS 9.3 domain types, verified

A Verus library for writing Rust on Symbian OS 9.3 (S60 3rd edition FP2, ARMv5TE):

- `src/des` — the 16-bit descriptors (`Buf16`, `HBuf16`, `PtrC16`, `Lit16`) with their
  observed header words, and UTF-8 ⇄ UTF-16 conversion with exact success conditions.
- `src/error`, `src/error_kind` — the `e32err.h` codes; a raw `TInt` survives every
  round trip.
- `src/fmt` — the fast `write!` path: decimal digits without a 64-bit division routine,
  compile-time UTF-16, and the `Sink`/`Arg` contracts a destination and an argument meet.
- `src/locale` — the strings-file reader (`StringsLayout`, `Str::get`), language codes.
- `src/fs`, `src/net`, `src/executor`, `src/heap`, `src/libcalls`, `src/time` — the
  decisions made around the platform's calls: path names, open calls, entry bits, address
  families, end of input, executor binding and poll steps, heap cell sizes and padding,
  `memcmp` and the atomic read-modify-write arithmetic, wrapping tick intervals.

`app/` holds the calls themselves: euser, efsrv, esock and bafl through `extern "C"`,
the `GlobalAlloc`, the compiler's runtime entry points and the active-object executor.
It hands plain values to the library and acts on what comes back.

`tests/` exercises the library on concrete values.
