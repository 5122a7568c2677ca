# netbuf

A network buffer for asynchronous network applications, verified with Verus.

- `src/buf.rs`: the `Buf` type and its operations, each specified over the
  abstract state of `src/model.rs`.
- `src/model.rs`: `BufState`, what can be observed of a buffer (its useful
  bytes, the consumed bytes still at the start of its allocation, the spare
  room after them), and the state that each operation leads to.
- `src/range.rs`: `RangeArgument`, the ranges that buffers are sliced by.
- `src/text.rs`: decimal notation for the debugging description.
- `src/laws.rs`: properties that relate several operations, proved over
  `BufState`.
- `app/`: reading from `Read` objects and writing to `Write` objects. The
  library decides how much room a read gets and takes what was read; the
  stream calls happen in `app/`.
