use vstd::prelude::*;
use crate::seek::{SeekFrom, StreamError, seek_ok, seek_target, resolve_seek};
use crate::store::{lemma_read_after_write, store_read, store_write};

verus! {

/// A half-open range `[start, end)` of absolute offsets in a stream.
#[derive(Clone, Copy, Debug, PartialEq, Eq, Structural)]
pub struct Frame {
    pub start: u64,
    pub end: u64,
}

impl Frame {
    /// Whether the range is well formed: it does not end before it starts.
    pub open spec fn valid(&self) -> bool {
        self.start <= self.end
    }

    /// The number of bytes the range covers.
    pub open spec fn len(&self) -> int {
        self.end - self.start
    }
}

/// A zero-based view of the range `frame` of an underlying stream `file`.
///
/// The view keeps the cursor and decides every range question: how many bytes
/// a read or write may move, where a seek lands and which absolute offset it
/// stands for. The caller moves the bytes through `stream_mut` and reports back
/// how many were transferred. The underlying stream is expected to stand at
/// absolute offset `frame_start() + position()` between operations.
pub struct FramedFile<F> {
    file: F,
    frame: Frame,
    current_pos: u64,
}

impl<F> FramedFile<F> {
    /// The range this view is restricted to.
    pub closed spec fn frame_spec(&self) -> Frame {
        self.frame
    }

    /// The cursor, relative to the start of the range.
    pub closed spec fn pos(&self) -> int {
        self.current_pos as int
    }

    /// The wrapped stream.
    pub closed spec fn stream(&self) -> F {
        self.file
    }

    /// The range is well formed and the cursor lies within it.
    pub open spec fn wf(&self) -> bool {
        &&& self.frame_spec().valid()
        &&& 0 <= self.pos() <= self.frame_spec().len()
    }

    /// Bytes left between the cursor and the end of the range.
    pub open spec fn remaining(&self) -> int {
        self.frame_spec().len() - self.pos()
    }

    /// The clamped transfer length for a buffer of `buf_len` bytes.
    pub open spec fn clamp_len(&self, buf_len: int) -> int {
        if buf_len <= self.remaining() {
            buf_len
        } else {
            self.remaining()
        }
    }

    /// Binds `file` to `frame`, with the cursor at the start of the range.
    /// A range that ends before it starts is refused.
    pub fn new(file: F, frame: Frame) -> (r: Result<Self, StreamError>)
        ensures
            r is Ok <==> frame.valid(),
            r matches Ok(v) ==> v.wf() && v.pos() == 0 && v.frame_spec() == frame
                && v.remaining() == frame.end - frame.start && v.stream() == file,
            r matches Err(e) ==> e == StreamError::InvalidInput,
    {
        Self::from_range(file, frame)
    }

    /// Binds `file` to `frame`, with the cursor at the start of the range.
    /// A range that ends before it starts is refused.
    pub fn from_range(file: F, frame: Frame) -> (r: Result<Self, StreamError>)
        ensures
            r is Ok <==> frame.valid(),
            r matches Ok(v) ==> v.wf() && v.pos() == 0 && v.frame_spec() == frame
                && v.remaining() == frame.end - frame.start && v.stream() == file,
            r matches Err(e) ==> e == StreamError::InvalidInput,
    {
        if frame.end < frame.start {
            return Err(StreamError::InvalidInput);
        }
        Ok(FramedFile { file, frame, current_pos: 0 })
    }

    /// Binds `file` to `[start, start + len)`. Refused when the end does not
    /// fit in a `u64`.
    pub fn from_len(file: F, start: u64, len: u64) -> (r: Result<Self, StreamError>)
        ensures
            r is Ok <==> start + len <= u64::MAX,
            r matches Ok(v) ==> v.wf() && v.pos() == 0 && v.frame_spec().start == start
                && v.frame_spec().len() == len && v.stream() == file,
            r matches Err(e) ==> e == StreamError::InvalidInput,
    {
        match start.checked_add(len) {
            Some(end) => Self::from_range(file, Frame { start, end }),
            None => Err(StreamError::InvalidInput),
        }
    }

    /// The cursor, relative to the start of the range.
    pub fn position(&self) -> (r: u64)
        ensures
            r == self.pos(),
    {
        self.current_pos
    }

    /// The range this view is restricted to.
    pub fn frame(&self) -> (r: &Frame)
        ensures
            *r == self.frame_spec(),
    {
        &self.frame
    }

    /// The absolute offset where the range starts.
    pub fn frame_start(&self) -> (r: u64)
        ensures
            r == self.frame_spec().start,
    {
        self.frame().start
    }

    /// The absolute offset where the range ends.
    pub fn frame_end(&self) -> (r: u64)
        ensures
            r == self.frame_spec().end,
    {
        self.frame().end
    }

    /// The number of bytes the range covers.
    pub fn frame_len(&self) -> (r: u64)
        requires
            self.wf(),
        ensures
            r == self.frame_spec().len(),
    {
        self.frame_end() - self.frame_start()
    }

    /// Bytes left between the cursor and the end of the range.
    pub fn remaining_len(&self) -> (r: u64)
        requires
            self.wf(),
        ensures
            r == self.remaining(),
    {
        self.frame_len() - self.position()
    }

    /// Releases the wrapped stream.
    pub fn into_raw_file(self) -> (r: F)
        ensures
            r == self.stream(),
    {
        self.file
    }

    /// The wrapped stream, for the caller to move bytes through. The range and
    /// the cursor stay as they are.
    pub fn stream_mut(&mut self) -> (r: &mut F)
        ensures
            *r == old(self).stream(),
            final(self).stream() == *final(r),
            final(self).frame_spec() == old(self).frame_spec(),
            final(self).pos() == old(self).pos(),
    {
        &mut self.file
    }

    /// How many bytes a read into a buffer of `buf_len` bytes may ask the
    /// underlying stream for: the buffer, clamped to what is left of the range.
    /// Zero means the range is exhausted (or the buffer empty) and the read
    /// returns zero bytes without touching the stream.
    pub fn read_len(&self, buf_len: usize) -> (r: usize)
        requires
            self.wf(),
        ensures
            r == self.clamp_len(buf_len as int),
    {
        let rem = self.remaining_len();
        if (buf_len as u64) <= rem {
            buf_len
        } else {
            rem as usize
        }
    }

    /// How many bytes a write of a buffer of `buf_len` bytes may hand to the
    /// underlying stream. Fails with `WriteZero` when nothing can be written.
    pub fn write_len(&self, buf_len: usize) -> (r: Result<usize, StreamError>)
        requires
            self.wf(),
        ensures
            r is Ok <==> buf_len > 0 && self.remaining() > 0,
            r matches Ok(n) ==> n == self.clamp_len(buf_len as int),
            r matches Err(e) ==> e == StreamError::WriteZero,
    {
        let n = self.read_len(buf_len);
        if n == 0 {
            Err(StreamError::WriteZero)
        } else {
            Ok(n)
        }
    }

    /// Records that `n` bytes were transferred at the cursor.
    pub fn advance(&mut self, n: usize)
        requires
            old(self).wf(),
            n <= old(self).remaining(),
        ensures
            final(self).wf(),
            final(self).pos() == old(self).pos() + n,
            final(self).frame_spec() == old(self).frame_spec(),
            final(self).stream() == old(self).stream(),
    {
        self.current_pos = self.current_pos + n as u64;
    }

    /// Where a seek lands, relative to the start of the range. The target must
    /// lie in `[0, frame_len()]`, else the seek fails with `InvalidInput`.
    pub fn seek_position(&self, pos: SeekFrom) -> (r: Result<u64, StreamError>)
        requires
            self.wf(),
        ensures
            r is Ok <==> seek_ok(pos, self.frame_spec().len(), self.pos()),
            r matches Ok(t) ==> t == seek_target(pos, self.frame_spec().len(), self.pos()),
            r matches Err(e) ==> e == StreamError::InvalidInput,
    {
        resolve_seek(pos, self.frame_len(), self.current_pos)
    }

    /// The absolute offset in the underlying stream of relative position `rel`.
    pub fn absolute_offset(&self, rel: u64) -> (r: u64)
        requires
            self.wf(),
            rel <= self.frame_spec().len(),
        ensures
            r == self.frame_spec().start + rel,
    {
        self.frame.start + rel
    }

    /// Commits a seek that the underlying stream has carried out.
    pub fn set_position(&mut self, rel: u64)
        requires
            old(self).wf(),
            rel <= old(self).frame_spec().len(),
        ensures
            final(self).wf(),
            final(self).pos() == rel,
            final(self).frame_spec() == old(self).frame_spec(),
            final(self).stream() == old(self).stream(),
    {
        self.current_pos = rel;
    }
}

/// A read of `k` bytes with `k` within what is left asks the stream for all
/// `k`, and whatever count `got` the stream then reports may be committed:
/// the cursor moves by exactly `got` and stays inside the range.
pub proof fn lemma_read_advances_by_count<F>(v: FramedFile<F>, k: int, got: int)
    requires
        v.wf(),
        0 <= k <= v.remaining(),
        0 <= got <= v.clamp_len(k),
    ensures
        v.clamp_len(k) == k,
        0 <= v.pos() + got <= v.frame_spec().len(),
        v.remaining() - got == v.frame_spec().len() - (v.pos() + got),
{
}

/// At the end of the range a read asks for nothing and so returns zero bytes,
/// while a write has no room and is refused.
pub proof fn lemma_exhausted_range<F>(v: FramedFile<F>, buf_len: int)
    requires
        v.wf(),
        v.remaining() == 0,
        buf_len >= 0,
    ensures
        v.clamp_len(buf_len) == 0,
{
}

/// A write never hands the stream more than what is left of the range.
pub proof fn lemma_write_within_range<F>(v: FramedFile<F>, k: int)
    requires
        v.wf(),
        k >= 0,
    ensures
        v.clamp_len(k) <= v.remaining(),
        v.clamp_len(k) <= k,
        v.pos() + v.clamp_len(k) <= v.frame_spec().len(),
{
}

/// Every position from the start to the end of the range, end included, is a
/// valid seek target, whatever the cursor.
pub proof fn lemma_seek_within_range<F>(v: FramedFile<F>, target: u64)
    requires
        v.wf(),
        target <= v.frame_spec().len(),
    ensures
        seek_ok(SeekFrom::Start(target), v.frame_spec().len(), v.pos()),
        seek_target(SeekFrom::Start(target), v.frame_spec().len(), v.pos()) == target,
        v.frame_spec().start + target <= v.frame_spec().end,
{
}

/// One past the end of the range is not a valid seek target.
pub proof fn lemma_seek_past_range<F>(v: FramedFile<F>)
    requires
        v.wf(),
        v.frame_spec().len() < u64::MAX,
    ensures
        !seek_ok(
            SeekFrom::Start((v.frame_spec().len() + 1) as u64),
            v.frame_spec().len(),
            v.pos(),
        ),
{
}

/// Writing `data` at cursor `p` and then seeking back to `p` lets a read of
/// the same length ask for all of it at the same absolute offset, and the
/// bytes read back are the bytes written.
pub proof fn lemma_round_trip<F>(v: FramedFile<F>, data: Seq<u8>, s: Seq<u8>)
    requires
        v.wf(),
        0 < data.len() <= v.remaining(),
    ensures
        v.clamp_len(data.len() as int) == data.len(),
        seek_ok(SeekFrom::Start(v.pos() as u64), v.frame_spec().len(), v.pos() + data.len()),
        seek_target(SeekFrom::Start(v.pos() as u64), v.frame_spec().len(), v.pos() + data.len())
            == v.pos(),
        store_read(
            store_write(s, (v.frame_spec().start + v.pos()) as nat, data),
            (v.frame_spec().start + v.pos()) as nat,
            v.clamp_len(data.len() as int) as nat,
        ) == data,
{
    lemma_read_after_write(s, (v.frame_spec().start + v.pos()) as nat, data);
}

} // verus!
