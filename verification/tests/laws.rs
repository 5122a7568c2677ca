use netbuf::{Buf, RangeArgument, ALLOC_MIN, READ_MIN};

fn filled(bytes: &[u8]) -> Buf {
    let mut buf = Buf::new();
    buf.extend(bytes);
    buf
}

#[test]
fn consume_twice_is_consume_once() {
    let mut a = filled(b"abcdef");
    a.consume(2);
    a.consume(3);
    let mut b = filled(b"abcdef");
    b.consume(5);
    assert_eq!(a.as_slice(), b"f");
    assert_eq!(a.debug_string(), b.debug_string());
    assert_eq!(a.capacity(), b.capacity());
}

#[test]
fn consume_twice_to_the_end_releases() {
    let mut a = filled(b"abcdef");
    a.consume(6);
    a.consume(0);
    assert_eq!(a.capacity(), 0);
    assert!(a.is_empty());
    assert_eq!(a.debug_string(), "Buf { len=0; consumed=0; remaining=0 }");
}

#[test]
fn consume_keeps_capacity_until_drained() {
    let mut buf = filled(b"hello");
    buf.consume(4);
    assert_eq!(buf.capacity(), 5);
    assert_eq!(buf.consumed(), 4);
    assert_eq!(buf.as_slice(), b"o");
    buf.consume(1);
    assert_eq!(buf.capacity(), 0);
    assert!(buf.is_empty());
}

#[test]
fn remove_prefix_is_consume() {
    let mut a = filled(b"Crappy stuff");
    a.remove_range(RangeArgument::RangeTo(4));
    let mut b = filled(b"Crappy stuff");
    b.remove_range(RangeArgument::from(0..4));
    let mut c = filled(b"Crappy stuff");
    c.consume(4);
    assert_eq!(a.as_slice(), b"py stuff");
    assert_eq!(a.debug_string(), c.debug_string());
    assert_eq!(b.debug_string(), c.debug_string());
}

#[test]
fn remove_keeps_capacity() {
    let mut buf = filled(b"0123456789");
    buf.remove_range(RangeArgument::from(2..5));
    assert_eq!(buf.as_slice(), b"0156789");
    assert_eq!(buf.capacity(), 10);
    assert_eq!(buf.remaining(), 3);
    buf.remove_range(RangeArgument::RangeFrom(3));
    assert_eq!(buf.as_slice(), b"015");
    assert_eq!(buf.capacity(), 10);
    assert_eq!(buf.remaining(), 7);
}

#[test]
fn remove_everything_releases() {
    let mut buf = filled(b"abc");
    buf.remove_range(RangeArgument::from(..));
    assert_eq!(buf.capacity(), 0);
    let mut buf = filled(b"abc");
    buf.remove_range(RangeArgument::from(0..3));
    assert_eq!(buf.capacity(), 0);
}

#[test]
fn remove_empty_range_is_nothing() {
    let mut buf = filled(b"abc");
    buf.remove_range(RangeArgument::from(2..2));
    assert_eq!(buf.as_slice(), b"abc");
}

#[test]
fn appended_bytes_read_back() {
    let mut buf = filled(b"head");
    buf.write(b"tail");
    assert_eq!(buf.slice(RangeArgument::RangeTo(4)), b"head");
    assert_eq!(buf.slice(RangeArgument::RangeFrom(4)), b"tail");
}

#[test]
fn extend_allocates_exactly() {
    let mut buf = filled(b"abcd");
    assert_eq!(buf.capacity(), 4);
    assert_eq!(buf.remaining(), 0);
    buf.consume(1);
    buf.extend(b"xy");
    assert_eq!(buf.as_slice(), b"bcdxy");
    assert_eq!(buf.capacity(), 5);
    assert_eq!(buf.consumed(), 0);
    assert_eq!(buf.remaining(), 0);
}

#[test]
fn extend_grows_in_place_by_what_is_asked() {
    let mut buf = filled(b"abcd");
    buf.remove_range(RangeArgument::RangeFrom(2));
    assert_eq!(buf.remaining(), 2);
    buf.extend(b"xyz");
    assert_eq!(buf.as_slice(), b"abxyz");
    assert_eq!(buf.capacity(), 7);
    assert_eq!(buf.remaining(), 2);
}

#[test]
fn extend_nothing_changes_nothing() {
    let mut buf = filled(b"abc");
    buf.extend(b"");
    assert_eq!(buf.as_slice(), b"abc");
    assert_eq!(buf.capacity(), 3);
}

#[test]
fn write_grows_generously() {
    let mut buf = Buf::new();
    assert_eq!(buf.write(b"abc"), 3);
    assert_eq!(buf.capacity(), ALLOC_MIN);
    let big = vec![7u8; ALLOC_MIN];
    assert_eq!(buf.write(&big), ALLOC_MIN);
    assert_eq!(buf.capacity(), ALLOC_MIN * 2);
    assert_eq!(buf.len(), ALLOC_MIN + 3);
    assert_eq!(buf.slice(RangeArgument::RangeTo(4)), b"abc\x07");
}

#[test]
fn write_after_consume_moves_bytes() {
    let mut buf = filled(b"abcdef");
    buf.consume(4);
    buf.write(b"xyz");
    assert_eq!(buf.as_slice(), b"efxyz");
    assert_eq!(buf.consumed(), 0);
    // doubling the old allocation of 6 bytes is more than the 5 needed
    assert_eq!(buf.capacity(), 12);
}

#[test]
fn prepare_read_offers_read_min() {
    let mut buf = filled(b"abc");
    assert!(buf.can_prepare_read());
    let room = buf.prepare_read();
    assert!(room >= READ_MIN);
    assert_eq!(room, buf.remaining());
    assert_eq!(buf.as_slice(), b"abc");
    buf.commit_read(b"de");
    assert_eq!(buf.as_slice(), b"abcde");
    assert_eq!(buf.capacity(), READ_MIN + 3);
}

#[test]
fn prepare_read_max_limits() {
    let mut buf = filled(b"abc");
    assert_eq!(buf.prepare_read_max(3), None);
    assert_eq!(buf.prepare_read_max(2), None);
    assert_eq!(buf.capacity(), 3);
    // twice the capacity reaches max: grow by exactly what is missing
    assert_eq!(buf.prepare_read_max(5), Some(2));
    assert_eq!(buf.capacity(), 5);
    buf.commit_read(b"de");
    assert_eq!(buf.prepare_read_max(5), None);
    assert_eq!(buf.as_slice(), b"abcde");
    // a small buffer grows generously, but not beyond max
    assert_eq!(buf.prepare_read_max(100), Some(95));
    assert_eq!(buf.capacity(), 100);
}

#[test]
fn set_reads_back() {
    let mut buf = filled(b"abc");
    buf.set(1, b'X');
    assert_eq!(buf.at(1), b'X');
    assert_eq!(buf.as_slice(), b"aXc");
}

#[test]
fn set_in_spare_room_changes_no_byte() {
    let mut buf = filled(b"abcd");
    buf.remove_range(RangeArgument::RangeFrom(2));
    buf.set(3, b'Z');
    assert_eq!(buf.as_slice(), b"ab");
    assert_eq!(buf.capacity(), 4);
}

#[test]
fn overwrite_reads_back() {
    let mut buf = filled(b"abcdef");
    buf.copy_to_range(RangeArgument::from(1..4), b"XYZ");
    assert_eq!(buf.slice(RangeArgument::from(1..4)), b"XYZ");
    assert_eq!(buf.as_slice(), b"aXYZef");
}

#[test]
fn range_ending_at_zero_is_empty() {
    let buf = filled(b"abc");
    assert_eq!(buf.slice(RangeArgument::from(5..0)), b"");
    assert_eq!(buf.slice(RangeArgument::from(..)), b"abc");
}

#[test]
fn range_conversions() {
    assert!(matches!(RangeArgument::from(2..7), RangeArgument::Range(2, 7)));
    assert!(matches!(RangeArgument::from(..), RangeArgument::RangeFrom(0)));
    assert!(matches!(RangeArgument::from(3..), RangeArgument::RangeFrom(3)));
    assert!(matches!(RangeArgument::from(..9), RangeArgument::RangeTo(9)));
}

#[test]
fn unallocated_holds_nothing() {
    let buf = Buf::new();
    assert!(buf.is_empty());
    assert_eq!(buf.len(), 0);
    assert_eq!(buf.capacity(), 0);
    assert_eq!(buf.consumed(), 0);
    assert_eq!(buf.remaining(), 0);
}

#[test]
fn debug_string_numbers() {
    let mut buf = Buf::new();
    buf.write(b"hello");
    assert_eq!(buf.debug_string(), "Buf { len=5; consumed=0; remaining=16379 }");
    buf.consume(2);
    assert_eq!(buf.debug_string(), "Buf { len=3; consumed=2; remaining=16379 }");
}

#[test]
fn into_vec_after_consume() {
    let mut buf = filled(b"abcdef");
    buf.consume(2);
    assert_eq!(buf.into_vec(), b"cdef".to_vec());
}

#[test]
fn commit_of_nothing_into_empty_buffer_releases() {
    let mut buf = Buf::new();
    let room = buf.prepare_read();
    assert_eq!(room, ALLOC_MIN);
    assert_eq!(buf.capacity(), ALLOC_MIN);
    buf.commit_read(b"");
    assert!(buf.is_empty());
    assert_eq!(buf.capacity(), 0);
}

#[test]
fn remove_ranges_reaching_the_end() {
    let mut buf = filled(b"hello");
    buf.remove_range(RangeArgument::from(2..5));
    assert_eq!(buf.as_slice(), b"he");
    assert_eq!(buf.capacity(), 5);
    buf.remove_range(RangeArgument::RangeFrom(2));
    assert_eq!(buf.as_slice(), b"he");
    assert_eq!(buf.capacity(), 5);
    buf.remove_range(RangeArgument::from(1..1));
    assert_eq!(buf.as_slice(), b"he");
}

#[test]
fn read_max_on_new_buffer_allocates_at_most_max() {
    let mut buf = Buf::new();
    assert_eq!(buf.prepare_read_max(100), Some(100));
    assert_eq!(buf.capacity(), 100);
    buf.commit_read(b"x");
    assert_eq!(buf.capacity(), 100);
    assert_eq!(buf.prepare_read_max(100), Some(99));
}

#[test]
fn read_max_keeps_large_allocation_in_place() {
    let mut buf = filled(b"abcdefgh");
    buf.remove_range(RangeArgument::RangeFrom(2));
    // 6 spare bytes are below READ_MIN, but the allocation already holds max
    assert_eq!(buf.prepare_read_max(5), Some(3));
    assert_eq!(buf.capacity(), 8);
}

#[test]
fn is_empty_means_no_bytes() {
    let mut buf = Buf::new();
    assert!(buf.is_empty());
    buf.prepare_read();
    assert!(buf.is_empty());
    assert_eq!(buf.capacity(), ALLOC_MIN);
    buf.commit_read(b"a");
    assert!(!buf.is_empty());
}

#[test]
fn can_append_checks() {
    let buf = Buf::new();
    assert!(!buf.can_append(0));
    assert!(buf.can_append(10));
    let buf = filled(b"abc");
    assert!(buf.can_append(0));
}
