# countio

Byte counting for readers, writers and seekers, verified with Verus.

- `src/counter/` — `Counter<D>`: the tallies of bytes read and written
  (modelled by `ByteCounts`), and `std::io::{Read, BufRead, Write, Seek}` for it.
- `src/progress/` — `Progress<D>`: a counter with optional expected sizes and
  the completed share of each direction as an integer fraction.
- `src/inner.rs` — the wrapped object with a ghost log of the calls made on
  it and a record of how much of its read buffer may still be consumed, and the
  trusted calls into `std::io` on it.
- `src/laws.rs` — properties across operations (over any run of operations, and
  over any log of calls, the tallies grow by exactly the bytes moved, the two directions are independent,
  what a reset keeps).
- `app/` — the asynchronous traits of `futures-io` and `tokio`, and the
  percentages as floats, on thin copies of the two wrappers.
