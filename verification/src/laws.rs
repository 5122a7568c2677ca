use vstd::prelude::*;

use crate::buf::{ALLOC_MIN, MAX_BUF_SIZE, READ_MIN};
use crate::model::BufState;
use crate::range::RangeArgument;

verus! {

/// Consuming `a` bytes and then `b` bytes is the same as consuming `a + b`
/// bytes at once, allocation included.
pub proof fn law_consume_twice(s: BufState, a: nat, b: nat)
    requires
        a + b <= s.len(),
    ensures
        s.consume(a).consume(b) == s.consume(a + b),
{
    if a == s.len() {
        assert(s.consume(a).consume(b) == BufState::empty());
    } else if a + b == s.len() {
    } else {
        assert(s.consume(a).consume(b).bytes =~= s.consume(a + b).bytes);
    }
}

/// Consuming drops the first bytes; the buffer does not shrink unless no
/// byte is left, and then its allocation is released.
pub proof fn law_consume_releases_only_when_drained(s: BufState, n: nat)
    requires
        n <= s.len(),
    ensures
        s.consume(n).bytes == s.bytes.subrange(n as int, s.len() as int),
        n < s.len() ==> s.consume(n).cap() == s.cap(),
        n < s.len() ==> s.consume(n).head == s.head + n && s.consume(n).spare == s.spare,
        n == s.len() ==> s.consume(n).cap() == 0,
{
    assert(s.consume(n).bytes =~= s.bytes.subrange(n as int, s.len() as int));
}

/// Removing a range that starts at the beginning is consuming; removing
/// everything with `0..` releases the allocation.
pub proof fn law_remove_prefix_is_consume(s: BufState, end: usize)
    requires
        end <= s.len(),
    ensures
        s.remove(RangeArgument::RangeTo(end)) == s.consume(end as nat),
        s.remove(RangeArgument::Range(0, end)) == s.consume(end as nat),
        s.remove(RangeArgument::RangeFrom(0)) == BufState::empty(),
{
}

/// Removing a valid range keeps the bytes before and after it, in order,
/// so that the buffer is shorter by the length of the range; the buffer
/// never shrinks, except when it becomes empty and releases its allocation.
pub proof fn law_remove_keeps_the_rest(s: BufState, range: RangeArgument)
    requires
        range.removable_within(s.len()),
    ensures
        s.remove(range).bytes == s.bytes.subrange(0, range.lower(s.len())) + s.bytes.subrange(
            range.upper(s.len()),
            s.len() as int,
        ),
        s.remove(range).len() == s.len() - (range.upper(s.len()) - range.lower(s.len())),
        s.remove(range).cap() == s.cap() || s.remove(range).cap() == 0,
        s.tidy() && s.remove(range).len() == 0 ==> s.remove(range).cap() == 0,
        s.remove(range).len() > 0 ==> s.remove(range).cap() == s.cap(),
        s.remove(range).len() > 0 && range.lower(s.len()) > 0 ==> s.remove(range).head
            == s.head,
{
    let lo = range.lower(s.len());
    let hi = range.upper(s.len());
    match range {
        RangeArgument::RangeTo(end) => {
            assert(s.bytes.subrange(0, 0) + s.bytes.subrange(hi, s.len() as int) =~= s.bytes.subrange(
                hi,
                s.len() as int,
            ));
        },
        RangeArgument::RangeFrom(start) => {
            assert(s.bytes.subrange(0, lo) + s.bytes.subrange(hi, s.len() as int) =~= s.bytes.subrange(
                0,
                lo,
            ));
            if start == 0 {
                assert(s.bytes.subrange(0, lo) =~= Seq::<u8>::empty());
            }
        },
        RangeArgument::Range(start, end) => {
            if end == 0 {
                assert(s.bytes.subrange(0, 0) + s.bytes.subrange(0, s.len() as int) =~= s.bytes);
                assert(s.consume(0).bytes =~= s.bytes);
            } else if start == 0 {
                assert(s.bytes.subrange(0, 0) + s.bytes.subrange(hi, s.len() as int)
                    =~= s.bytes.subrange(hi, s.len() as int));
            } else if start == end {
                assert(s.bytes.subrange(0, lo) + s.bytes.subrange(hi, s.len() as int) =~= s.bytes);
            }
        },
    }
}

/// What `extend` and `write` add is read back at the end of the useful
/// bytes, after the bytes that were there, unchanged; the two differ only
/// in how much room they allocate.
pub proof fn law_append_reads_back(s: BufState, more: Seq<u8>)
    ensures
        s.extend(more).bytes == s.bytes + more,
        s.write(more).bytes == s.bytes + more,
        s.extend(more).bytes.subrange(0, s.len() as int) == s.bytes,
        s.extend(more).bytes.subrange(s.len() as int, (s.len() + more.len()) as int) == more,
{
    assert(s.extend(more).bytes.subrange(0, s.len() as int) =~= s.bytes);
    assert(s.extend(more).bytes.subrange(s.len() as int, (s.len() + more.len()) as int) =~= more);
}

/// `extend` reserves the smallest possible chunk: once it had to grow, no
/// spare room is left, except the room that an allocation growing in place
/// already had.
pub proof fn law_extend_allocates_exactly(s: BufState, more: Seq<u8>)
    requires
        more.len() > s.spare,
    ensures
        s.extend(more).spare == if s.cap() > 0 && s.head == 0 {
            s.spare
        } else {
            0
        },
        s.extend(more).head == 0,
{
}

/// `write` grows generously: a first allocation holds at least `ALLOC_MIN`
/// bytes, and a later growth at least doubles the allocation (up to
/// `MAX_BUF_SIZE`).
pub proof fn law_write_grows_generously(s: BufState, more: Seq<u8>)
    requires
        more.len() > s.spare,
    ensures
        s.cap() == 0 ==> s.write(more).cap() >= ALLOC_MIN,
        s.cap() > 0 ==> s.write(more).cap() >= crate::model::min_nat(
            2 * s.cap(),
            MAX_BUF_SIZE as nat,
        ),
        s.write(more).cap() >= s.len() + more.len(),
        s.write(more).head == 0,
        s.write(more).cap() == if s.cap() == 0 {
            if more.len() > ALLOC_MIN {
                more.len()
            } else {
                ALLOC_MIN as nat
            }
        } else {
            let needed = if s.head > 0 {
                s.len() + more.len()
            } else {
                s.cap() + more.len()
            };
            let doubled = if 2 * s.cap() < MAX_BUF_SIZE {
                2 * s.cap()
            } else {
                MAX_BUF_SIZE as nat
            };
            if needed > doubled {
                needed
            } else {
                doubled
            }
        },
{
}

/// Appending within the spare room moves nothing: the consumed bytes stay
/// at the start and the spare room shrinks by what was appended.
pub proof fn law_append_within_room(s: BufState, more: Seq<u8>)
    requires
        more.len() <= s.spare,
    ensures
        s.extend(more).head == s.head,
        s.extend(more).spare == s.spare - more.len(),
        s.write(more).head == s.head,
        s.write(more).spare == s.spare - more.len(),
{
}

/// Preparing a read keeps the useful bytes and leaves at least `READ_MIN`
/// bytes of room; the bytes that the stream delivers then follow them.
pub proof fn law_read_appends(s: BufState, chunk: Seq<u8>)
    requires
        chunk.len() <= s.prepare_read().spare,
    ensures
        s.prepare_read().bytes == s.bytes,
        s.prepare_read().spare >= READ_MIN,
        s.prepare_read().commit(chunk).bytes == s.bytes + chunk,
{
    assert(s.prepare_read().commit(chunk).bytes =~= s.bytes + chunk);
}

/// A read of at most `max` buffered bytes keeps the useful bytes, is
/// offered at least one byte of room, and can never take the buffer past
/// `max` bytes.
pub proof fn law_read_max_stays_within(s: BufState, max: nat)
    requires
        s.len() < max,
    ensures
        s.prepare_read_max(max).bytes == s.bytes,
        ({
            let room = crate::model::min_nat(
                s.prepare_read_max(max).spare,
                (max - s.len()) as nat,
            );
            0 < room && s.len() + room <= max
        }),
{
}

/// A byte set in the useful bytes is read back; the others are unchanged.
pub proof fn law_set_reads_back(s: BufState, index: nat, value: u8)
    requires
        index < s.len(),
    ensures
        s.set_byte(index, value).bytes[index as int] == value,
        forall|k: int|
            0 <= k < s.len() && k != index ==> s.set_byte(index, value).bytes[k] == s.bytes[k],
        s.set_byte(index, value).cap() == s.cap(),
{
}

/// Bytes copied into a range are read back from that range; the bytes
/// around it are unchanged.
pub proof fn law_overwrite_reads_back(s: BufState, start: int, src: Seq<u8>)
    requires
        0 <= start,
        start + src.len() <= s.len(),
    ensures
        s.overwrite(start, src).len() == s.len(),
        s.overwrite(start, src).head == s.head,
        s.overwrite(start, src).spare == s.spare,
        s.overwrite(start, src).bytes.subrange(start, start + src.len()) == src,
        s.overwrite(start, src).bytes.subrange(0, start) == s.bytes.subrange(0, start),
        s.overwrite(start, src).bytes.subrange(start + src.len(), s.len() as int)
            == s.bytes.subrange(start + src.len(), s.len() as int),
{
    let t = s.overwrite(start, src);
    assert(t.bytes.subrange(start, start + src.len()) =~= src);
    assert(t.bytes.subrange(0, start) =~= s.bytes.subrange(0, start));
    assert(t.bytes.subrange(start + src.len(), s.len() as int) =~= s.bytes.subrange(
        start + src.len(),
        s.len() as int,
    ));
}

/// A buffer without allocation holds no bytes.
pub proof fn law_unallocated_is_empty(s: BufState)
    requires
        s.cap() == 0,
    ensures
        s.len() == 0,
        s.bytes == Seq::<u8>::empty(),
{
    assert(s.bytes =~= Seq::<u8>::empty());
}

/// A buffer that holds no useful bytes holds no allocation: every operation
/// keeps this, and committing a read restores it after `prepare_read` or
/// `prepare_read_max` allocated room for the read.
pub proof fn law_drained_buffers_hold_no_memory(
    s: BufState,
    n: nat,
    more: Seq<u8>,
    range: RangeArgument,
    chunk: Seq<u8>,
    index: nat,
    value: u8,
    start: int,
    src: Seq<u8>,
)
    ensures
        n <= s.len() ==> s.consume(n).tidy(),
        chunk.len() <= s.spare ==> s.commit(chunk).tidy(),
        s.tidy() && range.removable_within(s.len()) ==> s.remove(range).tidy(),
        s.tidy() && (s.cap() > 0 || more.len() > 0) ==> s.extend(more).tidy() && s.write(
            more,
        ).tidy(),
        s.tidy() ==> s.set_byte(index, value).tidy(),
        s.tidy() && 0 <= start && start + src.len() <= s.len() ==> s.overwrite(start, src).tidy(),
{
    if n <= s.len() && n < s.len() {
        assert(s.consume(n).len() == s.len() - n);
    }
    if s.tidy() && range.removable_within(s.len()) {
        match range {
            RangeArgument::RangeFrom(x) => {
                if x > 0 {
                    assert(s.remove(range).len() == x);
                }
            },
            RangeArgument::Range(x, y) => {
                if x > 0 && x != y {
                    assert(s.remove(range).len() == x + (s.len() - y));
                }
            },
            RangeArgument::RangeTo(_) => {},
        }
    }
    if 0 <= start && start + src.len() <= s.len() {
        assert(s.overwrite(start, src).len() == s.len());
    }
}

/// Growing makes the room asked for, keeps the useful bytes, and keeps the
/// allocation within `MAX_BUF_SIZE` when `can_grow` allows the growth.
pub proof fn law_growth_stays_within_limit(s: BufState, n: nat)
    requires
        s.valid(),
        s.can_grow(n),
    ensures
        s.reserved(n).valid(),
        s.reserved_exact(n).valid(),
        s.reserved(n).spare >= n,
        s.reserved_exact(n).spare >= n,
        s.reserved(n).bytes == s.bytes,
        s.reserved_exact(n).bytes == s.bytes,
{
}

/// A read of at most `max` buffered bytes never grows the allocation beyond
/// `max` bytes.
pub proof fn law_read_max_allocates_at_most_max(s: BufState, max: nat)
    ensures
        s.prepare_read_max(max).cap() <= crate::model::max_nat(s.cap(), max),
{
}

/// Committing a read appends exactly the bytes that were read after the
/// bytes already buffered, whatever room the read was given; the allocation
/// is kept, unless the buffer is left without bytes and releases it.
pub proof fn law_commit_appends(s: BufState, chunk: Seq<u8>)
    requires
        chunk.len() <= s.spare,
    ensures
        s.commit(chunk).bytes == s.bytes + chunk,
        s.commit(chunk).len() == s.len() + chunk.len(),
        s.len() + chunk.len() > 0 ==> s.commit(chunk).cap() == s.cap() && s.commit(chunk).head
            == s.head,
        s.len() + chunk.len() == 0 ==> s.commit(chunk).cap() == 0,
{
    if s.len() + chunk.len() == 0 {
        assert(s.bytes + chunk =~= Seq::<u8>::empty());
    }
}

/// Setting a useful byte replaces that byte only: the number of useful
/// bytes, the other bytes and the allocation stay; setting a position past
/// the useful bytes changes no byte.
pub proof fn law_set_replaces_one_byte(s: BufState, index: nat, value: u8)
    ensures
        index < s.len() ==> s.set_byte(index, value).bytes == s.bytes.update(index as int, value),
        index >= s.len() ==> s.set_byte(index, value).bytes == s.bytes,
        s.set_byte(index, value).len() == s.len(),
        s.set_byte(index, value).head == s.head,
        s.set_byte(index, value).spare == s.spare,
{
}

/// A range selects the positions it names: `start..end` selects from
/// `start` to `end` (nothing when `end` is 0), `start..` from `start` to the
/// end of the buffer, `..end` from the start to `end`.
pub proof fn law_range_bounds(range: RangeArgument, len: nat)
    ensures
        (match range {
            RangeArgument::RangeFrom(start) => range.lower(len) == start && range.upper(len)
                == len,
            RangeArgument::Range(start, end) => if end == 0 {
                range.lower(len) == 0 && range.upper(len) == 0
            } else {
                range.lower(len) == start && range.upper(len) == end
            },
            RangeArgument::RangeTo(end) => range.lower(len) == 0 && range.upper(len) == end,
        }),
{
}

/// Which ranges a buffer of `len` useful bytes accepts: for removal, every
/// range that starts no later than it ends and ends within the buffer; for
/// reading and overwriting the same, and also any range ending at 0.
pub proof fn law_range_validity(range: RangeArgument, len: nat)
    ensures
        (match range {
            RangeArgument::RangeFrom(start) => (range.removable_within(len) <==> start <= len)
                && (range.selects_within(len) <==> start <= len),
            RangeArgument::Range(start, end) => (range.removable_within(len) <==> start <= end
                && end <= len) && (range.selects_within(len) <==> (end == 0 || (start <= end
                && end <= len))),
            RangeArgument::RangeTo(end) => (range.removable_within(len) <==> end <= len) && (
            range.selects_within(len) <==> end <= len),
        }),
{
}

/// Removing a valid range removes exactly the positions it names: `a..b`
/// keeps the bytes before `a` and from `b` on, `a..` keeps the bytes before
/// `a`, `..b` keeps the bytes from `b` on.
pub proof fn law_remove_exact(s: BufState, range: RangeArgument)
    requires
        range.removable_within(s.len()),
    ensures
        (match range {
            RangeArgument::RangeFrom(start) => s.remove(range).bytes == s.bytes.subrange(
                0,
                start as int,
            ),
            RangeArgument::Range(start, end) => s.remove(range).bytes == s.bytes.subrange(
                0,
                start as int,
            ) + s.bytes.subrange(end as int, s.len() as int),
            RangeArgument::RangeTo(end) => s.remove(range).bytes == s.bytes.subrange(
                end as int,
                s.len() as int,
            ),
        }),
{
    match range {
        RangeArgument::RangeFrom(start) => {
            if start == 0 {
                assert(s.bytes.subrange(0, 0) =~= Seq::<u8>::empty());
            }
        },
        RangeArgument::Range(start, end) => {
            if start == 0 {
                assert(s.bytes.subrange(0, 0) + s.bytes.subrange(end as int, s.len() as int)
                    =~= s.bytes.subrange(end as int, s.len() as int));
                if end == s.len() {
                    assert(s.bytes.subrange(end as int, s.len() as int) =~= Seq::<u8>::empty());
                }
            } else if start == end {
                assert(s.bytes.subrange(0, start as int) + s.bytes.subrange(end as int, s.len() as int)
                    =~= s.bytes);
            }
        },
        RangeArgument::RangeTo(end) => {
            if end == s.len() {
                assert(s.bytes.subrange(end as int, s.len() as int) =~= Seq::<u8>::empty());
            }
        },
    }
}

/// Growth is allowed exactly when the allocation it makes stays below
/// `MAX_BUF_SIZE`: with consumed bytes at the start only the useful bytes
/// and the new ones count, otherwise the whole allocation and the new ones.
pub proof fn law_can_grow_exactly_below_limit(s: BufState, n: nat)
    ensures
        s.head > 0 ==> (s.can_grow(n) <==> s.len() + n < MAX_BUF_SIZE),
        s.head == 0 ==> (s.can_grow(n) <==> s.cap() + n < MAX_BUF_SIZE),
{
}

/// Preparing a read of at most `max` bytes never changes the buffered
/// bytes, and changes nothing at all when `max` bytes are already buffered
/// or `READ_MIN` bytes are spare.
pub proof fn law_read_max_keeps_bytes(s: BufState, max: nat)
    ensures
        s.prepare_read_max(max).bytes == s.bytes,
        s.len() >= max ==> s.prepare_read_max(max) == s,
        s.spare >= READ_MIN ==> s.prepare_read_max(max) == s,
        s.len() < max ==> ({
            let room = crate::model::min_nat(
                s.prepare_read_max(max).spare,
                (max - s.len()) as nat,
            );
            room == max - s.len() || room >= READ_MIN
        }),
        s.len() < max && s.spare < READ_MIN && 2 * s.cap() >= max ==> s.prepare_read_max(max).cap()
            == if s.head == 0 && s.cap() >= max {
            s.cap()
        } else {
            max
        },
        s.len() < max && s.spare < READ_MIN && 2 * s.cap() < max ==> s.prepare_read_max(max).cap()
            == if s.cap() == 0 {
            if max < ALLOC_MIN {
                max
            } else {
                ALLOC_MIN as nat
            }
        } else {
            let needed = if s.head > 0 {
                (s.len() + READ_MIN) as nat
            } else {
                (s.cap() + READ_MIN) as nat
            };
            let doubled = if 2 * s.cap() < MAX_BUF_SIZE {
                2 * s.cap()
            } else {
                MAX_BUF_SIZE as nat
            };
            let grown = if needed > doubled {
                needed
            } else {
                doubled
            };
            if grown < max {
                grown
            } else {
                max
            }
        },
        s.len() < max && s.spare < READ_MIN ==> s.prepare_read_max(max).head == 0,
{
    if s.len() < max && s.spare < READ_MIN && 2 * s.cap() < max {
        let g = s.grown_cap(READ_MIN as nat);
        assert(g >= s.len() + READ_MIN);
        assert(s.prepare_read_max(max) == s.relocated(crate::model::min_nat(g, max)));
    }
}

/// Preparing a read never changes the buffered bytes, and changes nothing
/// when `READ_MIN` bytes are already spare.
pub proof fn law_read_keeps_bytes(s: BufState)
    ensures
        s.prepare_read().bytes == s.bytes,
        s.prepare_read().spare >= READ_MIN,
        s.spare >= READ_MIN ==> s.prepare_read() == s,
        s.spare < READ_MIN ==> s.prepare_read().head == 0,
        s.spare < READ_MIN ==> s.prepare_read().cap() == if s.cap() == 0 {
            ALLOC_MIN as nat
        } else {
            let needed = if s.head > 0 {
                (s.len() + READ_MIN) as nat
            } else {
                (s.cap() + READ_MIN) as nat
            };
            let doubled = if 2 * s.cap() < MAX_BUF_SIZE {
                2 * s.cap()
            } else {
                MAX_BUF_SIZE as nat
            };
            if needed > doubled {
                needed
            } else {
                doubled
            }
        },
{
}

/// The value of a string of decimal digits.
pub open spec fn decimal_value(digits: Seq<char>) -> int
    decreases digits.len(),
{
    if digits.len() == 0 {
        0
    } else {
        10 * decimal_value(digits.drop_last()) + (digits.last() as int - '0' as int)
    }
}

/// The digit character of `k` is `k` characters after `'0'`.
proof fn lemma_digit_char_value(k: nat)
    requires
        k < 10,
    ensures
        crate::text::digit_char(k) as int == '0' as int + k,
{
    assert('0' as int == 48);
    assert('1' as int == 49);
    assert('9' as int == 57);
}

/// The decimal notation of `n` is made of digits only, has no leading
/// zero, and reads back as `n`.
pub proof fn law_decimal_reads_back(n: nat)
    ensures
        decimal_value(crate::text::decimal(n)) == n,
        forall|i: int|
            0 <= i < crate::text::decimal(n).len() ==> '0' <= #[trigger] crate::text::decimal(n)[i]
                <= '9',
        crate::text::decimal(n).len() > 0,
        n > 0 ==> crate::text::decimal(n)[0] != '0',
    decreases n,
{
    let d = crate::text::decimal(n);
    lemma_digit_char_value(n % 10);
    if n < 10 {
        assert(n % 10 == n);
        assert(d.drop_last() =~= Seq::<char>::empty());
        assert(decimal_value(d.drop_last()) == 0);
        assert(d.last() == crate::text::digit_char(n));
    } else {
        law_decimal_reads_back(n / 10);
        let q = crate::text::decimal(n / 10);
        assert(d.drop_last() =~= q);
        assert(d.last() == crate::text::digit_char(n % 10));
        assert(n == 10 * (n / 10) + n % 10);
        assert(decimal_value(d) == 10 * decimal_value(q) + (d.last() as int - '0' as int));
    }
}

/// The allocation holds the consumed bytes, the useful bytes and the spare
/// room; a state is valid when it stays within `MAX_BUF_SIZE`; a buffer
/// without allocation holds nothing.
pub proof fn law_layout(s: BufState)
    ensures
        s.cap() == s.head + s.bytes.len() + s.spare,
        s.len() == s.bytes.len(),
        s.valid() <==> s.cap() <= MAX_BUF_SIZE,
        BufState::empty().bytes == Seq::<u8>::empty(),
        BufState::empty().head == 0,
        BufState::empty().spare == 0,
        s.tidy() <==> (s.len() == 0 ==> s.cap() == 0),
{
}

/// The smaller and the larger of two numbers.
pub proof fn law_min_max(a: nat, b: nat)
    ensures
        crate::model::min_nat(a, b) <= a && crate::model::min_nat(a, b) <= b,
        crate::model::min_nat(a, b) == a || crate::model::min_nat(a, b) == b,
        crate::model::max_nat(a, b) >= a && crate::model::max_nat(a, b) >= b,
        crate::model::max_nat(a, b) == a || crate::model::max_nat(a, b) == b,
{
}

} // verus!
