use netbuf::{Buf, RangeArgument, ALLOC_MIN};

#[test]
fn empty() {
    let buf = Buf::new();
    assert_eq!(buf.as_slice(), b"");
    assert_eq!(buf.debug_string(), "Buf { len=0; consumed=0; remaining=0 }")
}

#[test]
fn two_writes() {
    let mut buf = Buf::new();
    assert_eq!(buf.write(b"hello"), 5);
    assert_eq!(buf.write(b" world"), 6);
    assert_eq!(buf.as_slice(), b"hello world");
    assert_eq!(buf.capacity(), ALLOC_MIN);
}

#[test]
fn two_extends() {
    let mut buf = Buf::new();
    buf.extend(b"hello");
    buf.extend(b" world");
    assert_eq!(buf.as_slice(), b"hello world");
    assert_eq!(buf.capacity(), 11);
}

#[test]
fn write_extend() {
    let mut buf = Buf::new();
    buf.write(b"hello");
    buf.extend(b" world");
    assert_eq!(buf.as_slice(), b"hello world");
    assert_eq!(buf.capacity(), ALLOC_MIN);
}

#[test]
fn extend_write() {
    let mut buf = Buf::new();
    buf.extend(b"hello");
    buf.write(b" world");
    assert_eq!(buf.as_slice(), b"hello world");
    let cap = buf.capacity();
    // The growth policy is not pinned down here, so this check is fuzzy
    assert!(cap >= 11);
    assert!(cap < 256);
}

#[test]
fn into() {
    let mut buf = Buf::new();
    buf.extend(b"hello");
    buf.write(b" world");
    let vec: Vec<u8> = buf.into_vec();
    assert_eq!(&vec[..], b"hello world");
    let cap = vec.capacity();
    // The allocation policy of vectors is not pinned down, so this check is fuzzy
    assert!(cap >= 11);
    assert!(cap < 256);
}

#[test]
fn consumed_into() {
    let mut buf = Buf::new();
    buf.extend(b"hello");
    buf.write(b" world");
    buf.consume(6);
    let vec: Vec<u8> = buf.into_vec();
    assert_eq!(&vec[..], b"world");
    assert_eq!(vec.capacity(), 5);
}

#[test]
fn extend_consume_extend() {
    let mut buf = Buf::new();
    buf.extend(b"hello");
    buf.consume(3);
    buf.extend(b" world");
    assert_eq!(buf.as_slice(), b"lo world");
    assert_eq!(buf.capacity(), 8);
}

#[test]
fn extend_consume_write() {
    let mut buf = Buf::new();
    buf.extend(b"hello");
    buf.consume(3);
    buf.write(b"Some larger string for you");
    assert_eq!(buf.as_slice(), b"loSome larger string for you");
    assert_eq!(buf.capacity(), 28);
}

#[test]
fn consume_all() {
    let mut buf = Buf::new();
    buf.extend(b"hello");
    buf.write(b" world");
    buf.consume(11);
    assert_eq!(buf.capacity(), 0);
    assert_eq!(buf.as_slice(), b"");
    let vec: Vec<u8> = buf.into_vec();
    assert_eq!(&vec[..], b"");
    assert_eq!(vec.capacity(), 0);
}

#[test]
fn index() {
    let mut buf = Buf::new();
    buf.extend(b"Hello World!");
    assert_eq!(buf.at(0), b'H');
    assert_eq!(buf.at(6), b'W');
    buf.consume(2);
    assert_eq!(buf.at(2), b'o');
    assert_eq!(buf.at(8), b'd');
}

#[test]
fn index_mut() {
    let mut buf = Buf::new();
    buf.extend(b"Hello World!");
    assert_eq!(buf.at(0), b'H');
    buf.set(0, b'h');
    assert_eq!(buf.at(6), b'W');
    buf.set(6, b'M');
    assert_eq!(buf.as_slice(), b"hello Morld!");
    buf.consume(2);
    buf.set(1, b'e');
    buf.set(5, b'e');
    buf.set(8, b'e');
    assert_eq!(buf.as_slice(), b"leo Merle!");
}

#[test]
fn ranges() {
    let mut buf = Buf::new();
    buf.extend(b"Hello world!");
    assert_eq!(buf.as_slice(), b"Hello world!");
    assert_eq!(buf.slice(RangeArgument::from(..0)), b"");
    assert_eq!(buf.slice(RangeArgument::from(..5)), b"Hello");
    assert_eq!(buf.slice(RangeArgument::from(..12)), b"Hello world!");
    assert_eq!(buf.slice(RangeArgument::from(..7)), b"Hello w");
    assert_eq!(buf.slice(RangeArgument::from(0..)), b"Hello world!");
    assert_eq!(buf.slice(RangeArgument::from(3..)), b"lo world!");
    assert_eq!(buf.slice(RangeArgument::from(6..)), b"world!");
    assert_eq!(buf.slice(RangeArgument::from(12..)), b"");
    assert_eq!(buf.slice(RangeArgument::from(0..0)), b"");
    assert_eq!(buf.slice(RangeArgument::from(2..8)), b"llo wo");
    assert_eq!(buf.slice(RangeArgument::from(0..12)), b"Hello world!");
    assert_eq!(buf.slice(RangeArgument::from(0..5)), b"Hello");
    assert_eq!(buf.slice(RangeArgument::from(7..12)), b"orld!");
    assert_eq!(buf.slice(RangeArgument::from(3..3)), b"");
    assert_eq!(buf.slice(RangeArgument::from(3..9)), b"lo wor");
}

#[test]
fn consume_ranges() {
    let mut buf = Buf::new();
    buf.extend(b"Crappy stuff");
    buf.extend(b"Hello world!");
    buf.consume(12);
    assert_eq!(buf.as_slice(), b"Hello world!");
    assert_eq!(buf.slice(RangeArgument::from(..0)), b"");
    assert_eq!(buf.slice(RangeArgument::from(..5)), b"Hello");
    assert_eq!(buf.slice(RangeArgument::from(..12)), b"Hello world!");
    assert_eq!(buf.slice(RangeArgument::from(..7)), b"Hello w");
    assert_eq!(buf.slice(RangeArgument::from(0..)), b"Hello world!");
    assert_eq!(buf.slice(RangeArgument::from(3..)), b"lo world!");
    assert_eq!(buf.slice(RangeArgument::from(6..)), b"world!");
    assert_eq!(buf.slice(RangeArgument::from(12..)), b"");
    assert_eq!(buf.slice(RangeArgument::from(2..8)), b"llo wo");
    assert_eq!(buf.slice(RangeArgument::from(0..12)), b"Hello world!");
    assert_eq!(buf.slice(RangeArgument::from(0..5)), b"Hello");
    assert_eq!(buf.slice(RangeArgument::from(7..12)), b"orld!");
    assert_eq!(buf.slice(RangeArgument::from(3..3)), b"");
    assert_eq!(buf.slice(RangeArgument::from(3..9)), b"lo wor");
}

#[test]
fn remove_ranges() {
    let mut buf = Buf::new();
    buf.extend(b"Crappy stuff");
    buf.extend(b"Hello world!");
    assert_eq!(buf.as_slice(), b"Crappy stuffHello world!");
    buf.remove_range(RangeArgument::from(..4));
    assert_eq!(buf.as_slice(), b"py stuffHello world!");
    buf.remove_range(RangeArgument::from(3..8));
    assert_eq!(buf.as_slice(), b"py Hello world!");
    buf.remove_range(RangeArgument::from(7..14));
    assert_eq!(buf.as_slice(), b"py Hell!");
    buf.remove_range(RangeArgument::from(7..));
    assert_eq!(buf.as_slice(), b"py Hell");
}

#[test]
fn mut_ranges() {
    let mut buf = Buf::new();
    buf.extend(b"Crappy stuff");
    buf.extend(b"Hello world!");
    buf.consume(12);
    buf.copy_to_range(RangeArgument::from(..), b"HELLO WORLD.");
    assert_eq!(buf.as_slice(), b"HELLO WORLD.");
    buf.copy_to_range(RangeArgument::from(..5), b"hell!");
    assert_eq!(buf.as_slice(), b"hell! WORLD.");
    buf.copy_to_range(RangeArgument::from(4..10), b"o worl");
    assert_eq!(buf.as_slice(), b"hello worlD.");
    buf.copy_to_range(RangeArgument::from(10..), b"d!");
    assert_eq!(buf.as_slice(), b"hello world!");
}
