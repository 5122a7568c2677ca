use vstd::prelude::*;

use crate::buf::{ALLOC_MIN, MAX_BUF_SIZE, READ_MIN};
use crate::range::RangeArgument;

verus! {

/// The larger of two natural numbers.
pub open spec fn max_nat(a: nat, b: nat) -> nat {
    if a >= b {
        a
    } else {
        b
    }
}

/// The smaller of two natural numbers.
pub open spec fn min_nat(a: nat, b: nat) -> nat {
    if a <= b {
        a
    } else {
        b
    }
}

/// What can be observed of a buffer: its useful bytes, the number of
/// already consumed bytes that still occupy the start of its allocation
/// (`head`), and the room left after the useful bytes (`spare`).
///
/// The allocation holds `head + bytes.len() + spare` bytes; a buffer with
/// no allocation has all three at zero.
pub struct BufState {
    pub bytes: Seq<u8>,
    pub head: nat,
    pub spare: nat,
}

impl BufState {
    /// The state of a buffer without allocation.
    pub open spec fn empty() -> BufState {
        BufState { bytes: Seq::empty(), head: 0, spare: 0 }
    }

    /// Number of useful bytes.
    pub open spec fn len(self) -> nat {
        self.bytes.len()
    }

    /// Size of the allocation.
    pub open spec fn cap(self) -> nat {
        self.head + self.bytes.len() + self.spare
    }

    /// A buffer never holds more than `MAX_BUF_SIZE` bytes of allocation.
    pub open spec fn valid(self) -> bool {
        self.cap() <= MAX_BUF_SIZE
    }

    /// Whether the allocation can be grown to make room for `n` more bytes
    /// without reaching `MAX_BUF_SIZE`. When consumed bytes occupy the
    /// start, only the useful bytes move to the new allocation; otherwise
    /// the allocation grows in place.
    pub open spec fn can_grow(self, n: nat) -> bool {
        if self.head > 0 {
            self.len() + n < MAX_BUF_SIZE
        } else {
            self.cap() + n < MAX_BUF_SIZE
        }
    }

    /// Size of the allocation made when growing for exactly `n` more bytes.
    pub open spec fn exact_cap(self, n: nat) -> nat {
        if self.cap() == 0 {
            n
        } else if self.head > 0 {
            self.len() + n
        } else {
            self.cap() + n
        }
    }

    /// Twice the allocation, but no more than `MAX_BUF_SIZE`.
    pub open spec fn doubled_cap(self) -> nat {
        min_nat(2 * self.cap(), MAX_BUF_SIZE as nat)
    }

    /// Size of the allocation made when growing for `n` more bytes with
    /// more data expected to follow: a first allocation holds at least
    /// `ALLOC_MIN` bytes, a later one at least doubles the allocation.
    pub open spec fn grown_cap(self, n: nat) -> nat {
        if self.cap() == 0 {
            max_nat(n, ALLOC_MIN as nat)
        } else if self.head > 0 {
            max_nat(self.len() + n, self.doubled_cap())
        } else {
            max_nat(self.cap() + n, self.doubled_cap())
        }
    }

    /// The same bytes at the start of an allocation of `cap` bytes.
    pub open spec fn relocated(self, cap: nat) -> BufState {
        BufState { bytes: self.bytes, head: 0, spare: (cap - self.len()) as nat }
    }

    /// Room for `n` more bytes, made by a growth of exactly what is needed.
    pub open spec fn reserved_exact(self, n: nat) -> BufState {
        if n <= self.spare {
            self
        } else {
            self.relocated(self.exact_cap(n))
        }
    }

    /// Room for `n` more bytes, made by a generous growth.
    pub open spec fn reserved(self, n: nat) -> BufState {
        if n <= self.spare {
            self
        } else {
            self.relocated(self.grown_cap(n))
        }
    }

    /// `more` written into the spare room.
    pub open spec fn appended(self, more: Seq<u8>) -> BufState {
        BufState {
            bytes: self.bytes + more,
            head: self.head,
            spare: (self.spare - more.len()) as nat,
        }
    }

    /// The bytes that a stream delivered written into the spare room; a
    /// buffer left without useful bytes releases its allocation.
    pub open spec fn commit(self, chunk: Seq<u8>) -> BufState {
        if self.len() + chunk.len() == 0 {
            BufState::empty()
        } else {
            self.appended(chunk)
        }
    }

    /// A buffer holds an allocation only while it holds useful bytes.
    pub open spec fn tidy(self) -> bool {
        self.len() == 0 ==> self.cap() == 0
    }

    /// The state after `Buf::extend`.
    pub open spec fn extend(self, more: Seq<u8>) -> BufState {
        self.reserved_exact(more.len()).appended(more)
    }

    /// The state after `Buf::write`.
    pub open spec fn write(self, more: Seq<u8>) -> BufState {
        self.reserved(more.len()).appended(more)
    }

    /// The state after the first `n` bytes are consumed: the allocation is
    /// released when nothing is left.
    pub open spec fn consume(self, n: nat) -> BufState {
        if n == self.len() {
            BufState::empty()
        } else {
            BufState {
                bytes: self.bytes.subrange(n as int, self.len() as int),
                head: self.head + n,
                spare: self.spare,
            }
        }
    }

    /// The state after `Buf::remove_range`.
    pub open spec fn remove(self, range: RangeArgument) -> BufState {
        match range {
            RangeArgument::RangeTo(end) => self.consume(end as nat),
            RangeArgument::RangeFrom(start) => {
                if start == 0 {
                    BufState::empty()
                } else {
                    BufState {
                        bytes: self.bytes.subrange(0, start as int),
                        head: self.head,
                        spare: self.spare + (self.len() - start) as nat,
                    }
                }
            },
            RangeArgument::Range(start, end) => {
                if start == 0 {
                    self.consume(end as nat)
                } else if start == end {
                    self
                } else {
                    BufState {
                        bytes: self.bytes.subrange(0, start as int) + self.bytes.subrange(
                            end as int,
                            self.len() as int,
                        ),
                        head: self.head,
                        spare: self.spare + (end - start) as nat,
                    }
                }
            },
        }
    }

    /// The state in which a read from a stream starts: at least `READ_MIN`
    /// bytes of spare room.
    pub open spec fn prepare_read(self) -> BufState {
        self.reserved(READ_MIN as nat)
    }

    /// The state in which a read of at most `max` buffered bytes starts.
    /// Room is made only when less than `READ_MIN` is spare: small buffers
    /// grow generously but to no more than `max` bytes, larger ones to
    /// exactly `max` bytes (in place, they keep an allocation that already
    /// holds `max` bytes).
    pub open spec fn prepare_read_max(self, max: nat) -> BufState {
        if self.len() >= max || self.spare >= READ_MIN {
            self
        } else if 2 * self.cap() < max {
            self.relocated(min_nat(self.grown_cap(READ_MIN as nat), max))
        } else if self.head > 0 {
            self.relocated(max)
        } else {
            self.relocated(max_nat(self.cap(), max))
        }
    }

    /// The byte at `index` of the allocation past the consumed bytes set to
    /// `value`; only a useful byte is observable.
    pub open spec fn set_byte(self, index: nat, value: u8) -> BufState {
        BufState {
            bytes: if index < self.len() {
                self.bytes.update(index as int, value)
            } else {
                self.bytes
            },
            head: self.head,
            spare: self.spare,
        }
    }

    /// The useful bytes from `start` on overwritten by `src`.
    pub open spec fn overwrite(self, start: int, src: Seq<u8>) -> BufState {
        BufState {
            bytes: self.bytes.subrange(0, start) + src + self.bytes.subrange(
                start + src.len(),
                self.len() as int,
            ),
            head: self.head,
            spare: self.spare,
        }
    }
}

} // verus!
