use vstd::prelude::*;

verus! {

/// Where a seek is measured from: the start, the end, or the current cursor.
#[derive(Clone, Copy, Debug, PartialEq, Eq, Structural)]
pub enum SeekFrom {
    Start(u64),
    End(i64),
    Current(i64),
}

/// The failures that this library raises itself. Failures of the underlying
/// stream are reported by whoever performs the I/O.
#[derive(Clone, Copy, Debug, PartialEq, Eq, Structural)]
pub enum StreamError {
    /// A write found no room left in the active range.
    WriteZero,
    /// A seek target fell outside `[0, length]`, or a range was malformed.
    InvalidInput,
}

impl StreamError {
    /// A short human-readable description of the failure.
    pub fn message(&self) -> (r: &'static str) {
        match self {
            StreamError::WriteZero => "Write exceeds file range",
            StreamError::InvalidInput => "Seek position out of bounds",
        }
    }
}

/// The position a seek asks for, as an unbounded integer.
pub open spec fn seek_target(pos: SeekFrom, len: int, cur: int) -> int {
    match pos {
        SeekFrom::Start(off) => off as int,
        SeekFrom::End(off) => len + off,
        SeekFrom::Current(off) => cur + off,
    }
}

/// Whether a seek lands inside `[0, len]`.
pub open spec fn seek_ok(pos: SeekFrom, len: int, cur: int) -> bool {
    0 <= seek_target(pos, len, cur) <= len
}

/// Resolves a seek against a stream of length `len` whose cursor is at `cur`.
/// Succeeds exactly when the target lies in `[0, len]`; the arithmetic never wraps.
pub fn resolve_seek(pos: SeekFrom, len: u64, cur: u64) -> (r: Result<u64, StreamError>)
    ensures
        r is Ok <==> seek_ok(pos, len as int, cur as int),
        r matches Ok(t) ==> t as int == seek_target(pos, len as int, cur as int),
        r matches Err(e) ==> e == StreamError::InvalidInput,
{
    let target: i128 = match pos {
        SeekFrom::Start(off) => off as i128,
        SeekFrom::End(off) => len as i128 + off as i128,
        SeekFrom::Current(off) => cur as i128 + off as i128,
    };
    if target < 0 || target > len as i128 {
        Err(StreamError::InvalidInput)
    } else {
        Ok(target as u64)
    }
}

} // verus!
