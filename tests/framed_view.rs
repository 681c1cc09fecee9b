use std::io::{Cursor, Read, Seek, Write};

use framed_file::{Frame, FramedFile, SeekFrom, StreamError};

type Mem = Cursor<Vec<u8>>;

fn store(len: usize) -> Mem {
    let bytes: Vec<u8> = (0..len).map(|i| i as u8).collect();
    Cursor::new(bytes)
}

fn open(mut file: Mem, start: u64, end: u64) -> FramedFile<Mem> {
    file.seek(std::io::SeekFrom::Start(start)).unwrap();
    FramedFile::from_range(file, Frame { start, end }).unwrap()
}

fn do_read(v: &mut FramedFile<Mem>, buf: &mut [u8]) -> usize {
    let n = v.read_len(buf.len());
    if n == 0 {
        return 0;
    }
    let got = v.stream_mut().read(&mut buf[..n]).unwrap();
    assert!(got <= n);
    v.advance(got);
    got
}

fn do_write(v: &mut FramedFile<Mem>, buf: &[u8]) -> Result<usize, StreamError> {
    let n = v.write_len(buf.len())?;
    let put = v.stream_mut().write(&buf[..n]).unwrap();
    assert!(put <= n);
    v.advance(put);
    Ok(put)
}

fn do_seek(v: &mut FramedFile<Mem>, pos: SeekFrom) -> Result<u64, StreamError> {
    let rel = v.seek_position(pos)?;
    let abs = v.absolute_offset(rel);
    v.stream_mut().seek(std::io::SeekFrom::Start(abs)).unwrap();
    v.set_position(rel);
    Ok(rel)
}

#[test]
fn fresh_view_starts_at_zero() {
    let v = open(store(100), 20, 50);
    assert_eq!(v.position(), 0);
    assert_eq!(v.remaining_len(), 30);
    assert_eq!(v.frame_start(), 20);
    assert_eq!(v.frame_end(), 50);
    assert_eq!(v.frame_len(), 30);
    assert_eq!(*v.frame(), Frame { start: 20, end: 50 });
}

#[test]
fn new_matches_from_range() {
    let v = FramedFile::new(store(10), Frame { start: 2, end: 7 }).unwrap();
    assert_eq!(v.position(), 0);
    assert_eq!(v.remaining_len(), 5);
}

#[test]
fn reversed_range_is_refused() {
    let r = FramedFile::from_range(store(10), Frame { start: 7, end: 2 });
    assert_eq!(r.err(), Some(StreamError::InvalidInput));
}

#[test]
fn from_len_builds_range() {
    let v = FramedFile::from_len(store(10), 3, 4).unwrap();
    assert_eq!(v.frame_start(), 3);
    assert_eq!(v.frame_end(), 7);
    assert_eq!(v.remaining_len(), 4);
}

#[test]
fn from_len_overflow_is_refused() {
    let r = FramedFile::from_len(store(10), u64::MAX, 1);
    assert_eq!(r.err(), Some(StreamError::InvalidInput));
}

#[test]
fn empty_range_from_len() {
    let v = FramedFile::from_len(store(10), 5, 0).unwrap();
    assert_eq!(v.remaining_len(), 0);
    assert_eq!(v.read_len(8), 0);
    assert_eq!(v.write_len(8), Err(StreamError::WriteZero));
}

#[test]
fn read_advances_by_bytes_returned() {
    let mut v = open(store(100), 20, 50);
    let mut buf = [0u8; 10];
    let got = do_read(&mut v, &mut buf);
    assert_eq!(got, 10);
    assert_eq!(v.position(), 10);
    assert_eq!(buf[0], 20);
    assert_eq!(buf[9], 29);
}

#[test]
fn short_underlying_read_advances_by_actual_count() {
    // The store ends at 25 while the range claims up to 50.
    let mut v = open(store(25), 20, 50);
    let mut buf = [0u8; 10];
    let got = do_read(&mut v, &mut buf);
    assert_eq!(got, 5);
    assert_eq!(v.position(), 5);
    assert_eq!(v.remaining_len(), 25);
}

#[test]
fn read_at_end_returns_zero() {
    let mut v = open(store(100), 20, 50);
    do_seek(&mut v, SeekFrom::End(0)).unwrap();
    let mut buf = [0u8; 4];
    assert_eq!(do_read(&mut v, &mut buf), 0);
    assert_eq!(v.position(), 30);
}

#[test]
fn write_at_end_fails_with_write_zero() {
    let mut v = open(store(100), 20, 50);
    do_seek(&mut v, SeekFrom::Start(30)).unwrap();
    assert_eq!(do_write(&mut v, &[1, 2, 3]), Err(StreamError::WriteZero));
    assert_eq!(v.position(), 30);
}

#[test]
fn empty_write_fails_with_write_zero() {
    let v = open(store(100), 20, 50);
    assert_eq!(v.write_len(0), Err(StreamError::WriteZero));
}

#[test]
fn oversized_write_is_clamped() {
    let mut v = open(store(100), 20, 50);
    do_seek(&mut v, SeekFrom::Start(27)).unwrap();
    assert_eq!(v.write_len(10), Ok(3));
    let put = do_write(&mut v, &[9u8; 10]).unwrap();
    assert_eq!(put, 3);
    assert_eq!(v.position(), 30);
    let bytes = v.into_raw_file().into_inner();
    assert_eq!(&bytes[47..50], &[9, 9, 9]);
    assert_eq!(bytes[50], 50);
}

#[test]
fn seek_to_every_target_in_range() {
    let mut v = open(store(100), 20, 50);
    for t in 0..=30u64 {
        assert_eq!(do_seek(&mut v, SeekFrom::Start(t)), Ok(t));
        assert_eq!(v.position(), t);
        assert_eq!(v.stream_mut().position(), 20 + t);
    }
}

#[test]
fn seek_past_end_fails_and_keeps_position() {
    let mut v = open(store(100), 20, 50);
    do_seek(&mut v, SeekFrom::Start(12)).unwrap();
    assert_eq!(do_seek(&mut v, SeekFrom::Start(31)), Err(StreamError::InvalidInput));
    assert_eq!(v.position(), 12);
}

#[test]
fn seek_from_end_and_current() {
    let mut v = open(store(100), 20, 50);
    assert_eq!(do_seek(&mut v, SeekFrom::End(-10)), Ok(20));
    assert_eq!(do_seek(&mut v, SeekFrom::Current(-5)), Ok(15));
    assert_eq!(do_seek(&mut v, SeekFrom::Current(15)), Ok(30));
    assert_eq!(do_seek(&mut v, SeekFrom::End(1)), Err(StreamError::InvalidInput));
    assert_eq!(v.position(), 30);
}

#[test]
fn seek_before_start_fails() {
    let mut v = open(store(100), 20, 50);
    assert_eq!(do_seek(&mut v, SeekFrom::Current(-1)), Err(StreamError::InvalidInput));
    assert_eq!(do_seek(&mut v, SeekFrom::End(-31)), Err(StreamError::InvalidInput));
    assert_eq!(do_seek(&mut v, SeekFrom::Current(i64::MIN)), Err(StreamError::InvalidInput));
    assert_eq!(v.position(), 0);
}

#[test]
fn absolute_offset_adds_frame_start() {
    let v = open(store(100), 20, 50);
    assert_eq!(v.absolute_offset(0), 20);
    assert_eq!(v.absolute_offset(30), 50);
}

#[test]
fn write_seek_back_read_round_trip() {
    let mut v = open(store(100), 20, 50);
    do_seek(&mut v, SeekFrom::Start(4)).unwrap();
    let data = [0xAAu8, 0xBB, 0xCC, 0xDD, 0xEE];
    assert_eq!(do_write(&mut v, &data), Ok(5));
    assert_eq!(do_seek(&mut v, SeekFrom::Start(4)), Ok(4));
    let mut back = [0u8; 5];
    assert_eq!(do_read(&mut v, &mut back), 5);
    assert_eq!(back, data);
}

#[test]
fn end_to_end_clamped_read_then_write_zero() {
    let mut v = open(store(100), 20, 50);
    assert_eq!(do_seek(&mut v, SeekFrom::Current(0)), Ok(0));
    let mut buf = [0u8; 40];
    let got = do_read(&mut v, &mut buf);
    assert!(got <= 30);
    assert_eq!(got, 30);
    assert_eq!(buf[0], 20);
    assert_eq!(buf[29], 49);
    assert_eq!(do_read(&mut v, &mut buf), 0);
    assert_eq!(do_write(&mut v, &[1, 2, 3, 4, 5]), Err(StreamError::WriteZero));
}

#[test]
fn error_messages() {
    assert_eq!(StreamError::WriteZero.message(), "Write exceeds file range");
    assert_eq!(StreamError::InvalidInput.message(), "Seek position out of bounds");
}
