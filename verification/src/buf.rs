use vstd::prelude::*;

use crate::model::BufState;
use crate::range::RangeArgument;
use crate::text::push_decimal;

verus! {

/// Spare room that a read from a stream is given at least.
pub const READ_MIN: usize = 4096;

/// Size of the first allocation made for data that more data will follow.
pub const ALLOC_MIN: usize = 16384;

/// Maximum size of buffer allowed (`(1 << 32) - 2`). Most network servers
/// should set their own limits to something much smaller.
pub const MAX_BUF_SIZE: usize = 4294967294;

/// A buffer object to be used for reading from and writing to the network.
///
/// Its allocation holds, in this order, bytes that were already consumed,
/// the useful bytes, and spare room for bytes to come. Consuming bytes at
/// the start is cheap; the allocation is released when no useful byte is
/// left; growing moves the useful bytes to the start of the new allocation.
pub struct Buf {
    data: Vec<u8>,
    consumed: u32,
    remaining: u32,
}

impl View for Buf {
    type V = BufState;

    closed spec fn view(&self) -> BufState {
        Buf::state_of(self.data@, self.consumed, self.remaining)
    }
}

/// Copies `src` into `dst` at `offset`.
fn copy_memory(src: &[u8], dst: &mut Vec<u8>, offset: usize)
    requires
        offset + src@.len() <= old(dst)@.len(),
    ensures
        final(dst)@ == old(dst)@.subrange(0, offset as int) + src@ + old(dst)@.subrange(
            offset + src@.len(),
            old(dst)@.len() as int,
        ),
{
    let n = src.len();
    let dlen = dst.len();
    let mut i: usize = 0;
    while i < n
        invariant
            i <= n,
            n == src@.len(),
            dlen == old(dst)@.len(),
            offset + n <= dlen,
            dst@.len() == old(dst)@.len(),
            forall|k: int| 0 <= k < offset ==> dst@[k] == old(dst)@[k],
            forall|k: int| 0 <= k < i ==> dst@[offset + k] == src@[k],
            forall|k: int| offset + i <= k < dst@.len() ==> dst@[k] == old(dst)@[k],
        decreases n - i,
    {
        dst.set(offset + i, src[i]);
        i = i + 1;
    }
    assert(dst@ =~= old(dst)@.subrange(0, offset as int) + src@ + old(dst)@.subrange(
        offset + src@.len(),
        old(dst)@.len() as int,
    ));
}

impl Buf {
    /// The state of a buffer with allocation `data`, of which `consumed`
    /// bytes at the start were consumed and `remaining` at the end are spare.
    closed spec fn state_of(data: Seq<u8>, consumed: u32, remaining: u32) -> BufState {
        BufState {
            bytes: data.subrange(consumed as int, data.len() - remaining as int),
            head: consumed as nat,
            spare: remaining as nat,
        }
    }

    /// The consumed bytes and the spare room fit in the allocation, which
    /// stays within `MAX_BUF_SIZE`.
    #[verifier::type_invariant]
    closed spec fn inv(&self) -> bool {
        &&& self.consumed + self.remaining <= self.data@.len()
        &&& self.data@.len() <= MAX_BUF_SIZE
    }

    /// Takes the parts of the buffer out, leaving an empty buffer behind.
    fn take_parts(&mut self) -> (parts: (Vec<u8>, u32, u32))
        ensures
            final(self)@ == BufState::empty(),
            parts.1 + parts.2 <= parts.0@.len() <= MAX_BUF_SIZE,
            old(self)@ == Buf::state_of(parts.0@, parts.1, parts.2),
    {
        proof {
            use_type_invariant(&*self);
        }
        let mut taken = Buf::new();
        core::mem::swap(self, &mut taken);
        proof {
            use_type_invariant(&taken);
        }
        let Buf { data, consumed, remaining } = taken;
        (data, consumed, remaining)
    }

    /// Creates an empty buffer. It has no preallocated size; a buffer
    /// always releases its memory when no useful bytes are left in it.
    pub fn new() -> (b: Buf)
        ensures
            b@ == BufState::empty(),
    {
        let b = Buf { data: Vec::new(), consumed: 0, remaining: 0 };
        assert(b@.bytes =~= Seq::<u8>::empty());
        b
    }

    /// Size of the spare room after the useful bytes.
    pub fn remaining(&self) -> (r: usize)
        ensures
            r == self@.spare,
    {
        proof {
            use_type_invariant(self);
        }
        self.remaining as usize
    }

    /// Number of consumed bytes that still occupy the start of the
    /// allocation.
    pub fn consumed(&self) -> (r: usize)
        ensures
            r == self@.head,
    {
        proof {
            use_type_invariant(self);
        }
        self.consumed as usize
    }

    /// Capacity of the buffer, i.e. the bytes it is allocated for. Use for
    /// debugging or for calculating memory usage. Note it's not guaranteed
    /// that you can write `buf.capacity() - buf.len()` bytes without resize.
    /// The buffer never holds more than `MAX_BUF_SIZE` bytes of allocation.
    pub fn capacity(&self) -> (r: usize)
        ensures
            r == self@.cap(),
            self@.valid(),
    {
        proof {
            use_type_invariant(self);
        }
        self.data.len()
    }

    /// Number of useful bytes in the buffer.
    pub fn len(&self) -> (r: usize)
        ensures
            r == self@.len(),
    {
        proof {
            use_type_invariant(self);
        }
        self.data.len() - self.consumed as usize - self.remaining as usize
    }

    /// Whether the buffer holds no useful bytes.
    pub fn is_empty(&self) -> (r: bool)
        ensures
            r == (self@.len() == 0),
    {
        proof {
            use_type_invariant(self);
        }
        self.len() == 0
    }

    /// Moves the useful bytes to the start of a new allocation of `new_cap`
    /// bytes. When no consumed bytes occupy the start, the allocation grows
    /// in place.
    fn relocate(&mut self, new_cap: usize)
        requires
            old(self)@.len() <= new_cap <= MAX_BUF_SIZE,
        ensures
            final(self)@ == old(self)@.relocated(new_cap as nat),
    {
        proof {
            use_type_invariant(&*self);
        }
        let len = self.len();
        let (mut data, consumed, remaining) = self.take_parts();
        if consumed == 0 {
            data.resize(new_cap, 0u8);
            *self = Buf { data, consumed: 0, remaining: (new_cap - len) as u32 };
        } else {
            let start = consumed as usize;
            let end = data.len() - remaining as usize;
            let mut fresh: Vec<u8> = Vec::with_capacity(new_cap);
            let mut i: usize = start;
            while i < end
                invariant
                    start <= i <= end,
                    end <= data@.len(),
                    fresh@ =~= data@.subrange(start as int, i as int),
                decreases end - i,
            {
                fresh.push(data[i]);
                i = i + 1;
            }
            fresh.resize(new_cap, 0u8);
            *self = Buf { data: fresh, consumed: 0, remaining: (new_cap - len) as u32 };
        }
        assert(self@.bytes =~= old(self)@.bytes);
    }

    /// Size of the allocation for `bytes` more bytes with a generous growth.
    fn grown_capacity(&self, bytes: usize) -> (c: usize)
        requires
            self@.can_grow(bytes as nat),
        ensures
            c == self@.grown_cap(bytes as nat),
    {
        proof {
            use_type_invariant(self);
        }
        let cap = self.data.len();
        let len = self.len();
        let doubled = if cap > MAX_BUF_SIZE / 2 {
            MAX_BUF_SIZE
        } else {
            cap * 2
        };
        if cap == 0 {
            if bytes > ALLOC_MIN {
                bytes
            } else {
                ALLOC_MIN
            }
        } else {
            let needed = if self.consumed > 0 {
                len + bytes
            } else {
                cap + bytes
            };
            if needed > doubled {
                needed
            } else {
                doubled
            }
        }
    }

    /// Makes room for `bytes` more bytes with a generous growth.
    fn reserve(&mut self, bytes: usize)
        requires
            old(self)@.can_grow(bytes as nat),
        ensures
            final(self)@ == old(self)@.relocated(old(self)@.grown_cap(bytes as nat)),
    {
        proof {
            use_type_invariant(&*self);
        }
        let new_cap = self.grown_capacity(bytes);
        self.relocate(new_cap);
    }

    /// Makes room for `bytes` more bytes with the smallest growth.
    fn reserve_exact(&mut self, bytes: usize)
        requires
            old(self)@.can_grow(bytes as nat),
        ensures
            final(self)@ == old(self)@.relocated(old(self)@.exact_cap(bytes as nat)),
    {
        proof {
            use_type_invariant(&*self);
        }
        let new_cap = if self.consumed > 0 {
            self.len() + bytes
        } else {
            self.data.len() + bytes
        };
        self.relocate(new_cap);
    }

    /// Writes `bytes` into the spare room, after the useful bytes.
    fn append_within(&mut self, bytes: &[u8])
        requires
            bytes@.len() <= old(self)@.spare,
        ensures
            final(self)@ == old(self)@.appended(bytes@),
    {
        proof {
            use_type_invariant(&*self);
        }
        let (mut data, consumed, remaining) = self.take_parts();
        let offset = data.len() - remaining as usize;
        copy_memory(bytes, &mut data, offset);
        *self = Buf { data, consumed, remaining: remaining - bytes.len() as u32 };
        assert(self@.bytes =~= old(self)@.bytes + bytes@);
    }

    /// Marks the first `bytes` of the buffer as read. Basically it's
    /// shaving off bytes from the buffer, but does it efficiently. When
    /// there are no more bytes in the buffer it's deallocated.
    ///
    /// The buffer does not shrink otherwise: it's assumed that all bytes
    /// will be consumed shortly.
    pub fn consume(&mut self, bytes: usize)
        requires
            bytes <= old(self)@.len(),
        ensures
            final(self)@ == old(self)@.consume(bytes as nat),
    {
        proof {
            use_type_invariant(&*self);
        }
        let ln = self.len();
        if bytes == ln {
            *self = Buf::new();
        } else {
            self.consumed = self.consumed + bytes as u32;
            assert(self@.bytes =~= old(self)@.bytes.subrange(bytes as int, ln as int));
        }
    }

    /// Extends the buffer with `bytes`. Unlike `write`, this reserves the
    /// smallest possible chunk of memory, so it's inefficient to grow with
    /// this method; it suits a whole object put in place at once.
    pub fn extend(&mut self, bytes: &[u8])
        requires
            old(self)@.cap() > 0 || bytes@.len() > 0,
            bytes@.len() <= old(self)@.spare || old(self)@.can_grow(bytes@.len()),
        ensures
            final(self)@ == old(self)@.extend(bytes@),
    {
        proof {
            use_type_invariant(&*self);
        }
        if (self.remaining as usize) < bytes.len() {
            self.reserve_exact(bytes.len());
        }
        self.append_within(bytes);
    }

    /// Appends `bytes`, assuming more data will follow shortly: growth is
    /// generous (a first allocation of at least `ALLOC_MIN` bytes, then at
    /// least doubling). Returns the number of bytes written, all of them.
    pub fn write(&mut self, bytes: &[u8]) -> (n: usize)
        requires
            old(self)@.cap() > 0 || bytes@.len() > 0,
            bytes@.len() <= old(self)@.spare || old(self)@.can_grow(bytes@.len()),
        ensures
            final(self)@ == old(self)@.write(bytes@),
            n == bytes@.len(),
    {
        proof {
            use_type_invariant(&*self);
        }
        if (self.remaining as usize) < bytes.len() {
            self.reserve(bytes.len());
        }
        self.append_within(bytes);
        bytes.len()
    }

    /// Removes an arbitrary range of bytes. A more comprehensive version of
    /// `consume()`: it's occasionally useful if you receive data by chunks
    /// but want to buffer the whole body anyway (e.g. to remove the chunk
    /// length prefixes of http chunked encoding).
    ///
    /// Bytes after the range move to close the gap. The buffer never
    /// shrinks here, except when it becomes empty by consuming all its
    /// bytes, or when the range is `0..`, which releases the allocation.
    pub fn remove_range(&mut self, range: RangeArgument)
        requires
            range.removable_within(old(self)@.len()),
        ensures
            final(self)@ == old(self)@.remove(range),
    {
        proof {
            use_type_invariant(&*self);
        }
        match range {
            RangeArgument::RangeTo(end) => self.consume(end),
            RangeArgument::RangeFrom(start) => {
                if start == 0 {
                    *self = Buf::new();
                } else {
                    let ln = self.len();
                    self.remaining = self.remaining + (ln - start) as u32;
                    assert(self@.bytes =~= old(self)@.bytes.subrange(0, start as int));
                }
            },
            RangeArgument::Range(start, end) => {
                if start == 0 {
                    self.consume(end);
                } else if start != end {
                    let ln = self.len();
                    let removed = end - start;
                    let tail = ln - end;
                    let (mut data, consumed, remaining) = self.take_parts();
                    let base = consumed as usize;
                    let ghost old_data = data@;
                    let mut i: usize = 0;
                    while i < tail
                        invariant
                            i <= tail,
                            tail == ln - end,
                            start < end <= ln,
                            removed == end - start,
                            base + ln + remaining == old_data.len(),
                            old_data.len() <= MAX_BUF_SIZE,
                            data@.len() == old_data.len(),
                            forall|k: int| 0 <= k < base + start ==> data@[k] == old_data[k],
                            forall|k: int|
                                base + start <= k < base + start + i ==> #[trigger] data@[k]
                                    == old_data[k + removed],
                            forall|k: int|
                                base + start + i <= k < old_data.len() ==> data@[k] == old_data[k],
                        decreases tail - i,
                    {
                        let b = data[base + end + i];
                        data.set(base + start + i, b);
                        i = i + 1;
                    }
                    *self = Buf { data, consumed, remaining: remaining + removed as u32 };
                    assert(self@.bytes =~= old(self)@.bytes.subrange(0, start as int)
                        + old(self)@.bytes.subrange(end as int, ln as int));
                }
            },
        }
    }

    /// Prepares a read from a stream: makes sure at least `READ_MIN` bytes
    /// of spare room are available, growing generously if not, and returns
    /// the size of the spare room, which is how many bytes the stream may
    /// deliver. The bytes read are then handed to `commit_read`.
    pub fn prepare_read(&mut self) -> (room: usize)
        requires
            READ_MIN <= old(self)@.spare || old(self)@.can_grow(READ_MIN as nat),
        ensures
            final(self)@ == old(self)@.prepare_read(),
            room == final(self)@.spare,
            room >= READ_MIN,
    {
        proof {
            use_type_invariant(&*self);
        }
        if (self.remaining as usize) < READ_MIN {
            self.reserve(READ_MIN);
        }
        self.remaining as usize
    }

    /// Prepares a read of no more than `max` buffered bytes. Returns `None`
    /// when the buffer already holds `max` bytes or more; otherwise makes
    /// room and returns how many bytes the stream may deliver: no more than
    /// the spare room, and no more than what is missing to reach `max`.
    ///
    /// Room is made only when less than `READ_MIN` is spare. Small buffers
    /// grow generously, since the limit may be far (e.g. a limit on header
    /// size); a buffer whose doubled capacity reaches `max` grows by exactly
    /// what is missing. Either way the allocation never grows beyond `max`
    /// bytes.
    pub fn prepare_read_max(&mut self, max: usize) -> (room: Option<usize>)
        requires
            max < MAX_BUF_SIZE,
        ensures
            final(self)@ == old(self)@.prepare_read_max(max as nat),
            final(self)@.cap() <= crate::model::max_nat(old(self)@.cap(), max as nat),
            old(self)@.len() >= max ==> room.is_none(),
            old(self)@.len() < max ==> room == Some(
                crate::model::min_nat(final(self)@.spare, (max - old(self)@.len()) as nat) as usize,
            ),
    {
        proof {
            use_type_invariant(&*self);
        }
        let len = self.len();
        if len >= max {
            return None;
        }
        let todo = max - len;
        if (self.remaining as usize) < READ_MIN {
            let cap = self.data.len();
            if cap < max / 2 + max % 2 {
                let grown = self.grown_capacity(READ_MIN);
                let new_cap = if grown < max {
                    grown
                } else {
                    max
                };
                self.relocate(new_cap);
            } else if self.consumed > 0 {
                self.relocate(max);
            } else if cap < max {
                self.relocate(max);
            }
        }
        let room = self.remaining as usize;
        if room < todo {
            Some(room)
        } else {
            Some(todo)
        }
    }

    /// Whether `prepare_read` may be called: the spare room already holds
    /// `READ_MIN` bytes, or the allocation can grow to make it.
    pub fn can_prepare_read(&self) -> (r: bool)
        ensures
            r == (READ_MIN <= self@.spare || self@.can_grow(READ_MIN as nat)),
    {
        self.can_take(READ_MIN)
    }

    /// Whether `bytes` more bytes can be appended with `extend` or `write`:
    /// appending nothing needs an allocation, and when the spare room is too
    /// small the allocation must be able to grow.
    pub fn can_append(&self, bytes: usize) -> (r: bool)
        ensures
            r == ((self@.cap() > 0 || bytes > 0) && (bytes <= self@.spare || self@.can_grow(
                bytes as nat,
            ))),
    {
        proof {
            use_type_invariant(self);
        }
        (self.data.len() > 0 || bytes > 0) && self.can_take(bytes)
    }

    /// Whether the spare room holds `bytes` bytes or the allocation can grow
    /// to make room for them.
    fn can_take(&self, bytes: usize) -> (r: bool)
        ensures
            r == (bytes <= self@.spare || self@.can_grow(bytes as nat)),
    {
        proof {
            use_type_invariant(self);
        }
        if bytes <= self.remaining as usize {
            true
        } else if self.consumed > 0 {
            self.len() < MAX_BUF_SIZE && bytes < MAX_BUF_SIZE - self.len()
        } else {
            bytes < MAX_BUF_SIZE - self.data.len()
        }
    }

    /// Appends the bytes that a stream delivered into the spare room: the
    /// allocation does not change, unless the buffer is left without useful
    /// bytes (the stream delivered nothing, or failed, into an empty
    /// buffer), in which case it is released.
    pub fn commit_read(&mut self, chunk: &[u8])
        requires
            chunk@.len() <= old(self)@.spare,
        ensures
            final(self)@ == old(self)@.commit(chunk@),
    {
        proof {
            use_type_invariant(&*self);
        }
        self.append_within(chunk);
        if self.len() == 0 {
            *self = Buf::new();
        }
    }

    /// The useful bytes.
    pub fn as_slice(&self) -> (r: &[u8])
        ensures
            r@ == self@.bytes,
    {
        proof {
            use_type_invariant(self);
        }
        let end = self.data.len() - self.remaining as usize;
        vstd::slice::slice_subrange(self.data.as_slice(), self.consumed as usize, end)
    }

    /// The useful bytes in `range`: `start..`, `start..end` or `..end`. A
    /// range that ends at 0 selects nothing.
    pub fn slice(&self, range: RangeArgument) -> (r: &[u8])
        requires
            range.selects_within(self@.len()),
        ensures
            r@ == self@.bytes.subrange(range.lower(self@.len()), range.upper(self@.len())),
    {
        proof {
            use_type_invariant(self);
        }
        let (lo, hi) = range.bounds(self.len());
        let base = self.consumed as usize;
        let r = vstd::slice::slice_subrange(self.data.as_slice(), base + lo, base + hi);
        assert(r@ =~= self@.bytes.subrange(lo as int, hi as int));
        r
    }

    /// The byte at `index` past the consumed bytes. Positions in the spare
    /// room can be read too, but what they hold is not meaningful.
    pub fn at(&self, index: usize) -> (r: u8)
        requires
            index < self@.len() + self@.spare,
        ensures
            index < self@.len() ==> r == self@.bytes[index as int],
    {
        proof {
            use_type_invariant(self);
        }
        self.data[self.consumed as usize + index]
    }

    /// Sets the byte at `index` past the consumed bytes. Setting a position
    /// in the spare room changes no useful byte.
    pub fn set(&mut self, index: usize, value: u8)
        requires
            index < old(self)@.len() + old(self)@.spare,
        ensures
            final(self)@ == old(self)@.set_byte(index as nat, value),
    {
        proof {
            use_type_invariant(&*self);
        }
        let (mut data, consumed, remaining) = self.take_parts();
        data.set(consumed as usize + index, value);
        *self = Buf { data, consumed, remaining };
        assert(self@.bytes =~= old(self)@.set_byte(index as nat, value).bytes);
    }

    /// Overwrites the useful bytes in `range` with `src`, which has the
    /// length of the range.
    pub fn copy_to_range(&mut self, range: RangeArgument, src: &[u8])
        requires
            range.selects_within(old(self)@.len()),
            range.upper(old(self)@.len()) - range.lower(old(self)@.len()) == src@.len(),
        ensures
            final(self)@ == old(self)@.overwrite(range.lower(old(self)@.len()), src@),
    {
        proof {
            use_type_invariant(&*self);
        }
        let (lo, _hi) = range.bounds(self.len());
        let (mut data, consumed, remaining) = self.take_parts();
        copy_memory(src, &mut data, consumed as usize + lo);
        *self = Buf { data, consumed, remaining };
        assert(self@.bytes =~= old(self)@.overwrite(lo as int, src@).bytes);
    }

    /// Turns the buffer into a vector of its useful bytes. When no consumed
    /// bytes occupy the start, the allocation is reused.
    pub fn into_vec(self) -> (v: Vec<u8>)
        ensures
            v@ == self@.bytes,
    {
        proof {
            use_type_invariant(&self);
        }
        let len = self.len();
        if self.consumed == 0 {
            let mut data = self.data;
            data.truncate(len);
            data
        } else {
            let start = self.consumed as usize;
            let end = start + len;
            let mut v: Vec<u8> = Vec::with_capacity(len);
            let mut i: usize = start;
            while i < end
                invariant
                    start <= i <= end,
                    end <= self.data@.len(),
                    v@ =~= self.data@.subrange(start as int, i as int),
                decreases end - i,
            {
                v.push(self.data[i]);
                i = i + 1;
            }
            v
        }
    }

    /// A description of the buffer for debugging:
    /// `Buf { len=..; consumed=..; remaining=.. }`.
    pub fn debug_string(&self) -> (s: String)
        ensures
            s@ == "Buf { len="@ + crate::text::decimal(self@.len()) + "; consumed="@ + crate::text::decimal(self@.head)
                + "; remaining="@ + crate::text::decimal(self@.spare) + " }"@,
    {
        proof {
            use_type_invariant(self);
        }
        let mut s = String::from_str("Buf { len=");
        push_decimal(&mut s, self.len());
        s.append("; consumed=");
        push_decimal(&mut s, self.consumed as usize);
        s.append("; remaining=");
        push_decimal(&mut s, self.remaining as usize);
        s.append(" }");
        s
    }
}

} // verus!
