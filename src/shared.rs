use vstd::prelude::*;
use crate::seek::{SeekFrom, StreamError, seek_ok, seek_target, resolve_seek};
use crate::store::{lemma_read_after_write, store_read, store_write};
use std::sync::Arc;

verus! {

/// One cursor over a resource shared by all its duplicates.
///
/// Each duplicate keeps its own cursor and only ever changes its own. Reads and
/// writes go to the shared resource at an explicit offset, `position()`, so no
/// duplicate depends on an ambient position that another could move. A seek is
/// a change of this value alone.
pub struct SharedFile<H> {
    cur_pos: u64,
    file: Arc<H>,
}

impl<H> SharedFile<H> {
    /// This duplicate's cursor.
    pub closed spec fn pos(&self) -> int {
        self.cur_pos as int
    }

    /// The shared resource.
    pub closed spec fn resource(&self) -> H {
        *self.file
    }

    /// Shares `file`, with the cursor at `start`, the resource's position when
    /// it is taken over.
    pub fn new(file: H, start: u64) -> (r: Self)
        ensures
            r.pos() == start,
            r.resource() == file,
    {
        SharedFile { cur_pos: start, file: Arc::new(file) }
    }

    /// This duplicate's cursor.
    pub fn position(&self) -> (r: u64)
        ensures
            r == self.pos(),
    {
        self.cur_pos
    }

    /// The shared resource, for the caller to read or write at `position()`.
    pub fn handle(&self) -> (r: &H)
        ensures
            *r == self.resource(),
    {
        &*self.file
    }

    /// Records that `n` bytes were transferred at the cursor.
    pub fn advance(&mut self, n: usize)
        requires
            old(self).pos() + n <= u64::MAX,
        ensures
            final(self).pos() == old(self).pos() + n,
            final(self).resource() == old(self).resource(),
    {
        self.cur_pos = self.cur_pos + n as u64;
    }

    /// Moves the cursor over a resource currently `file_len` bytes long. The
    /// target must lie in `[0, file_len]`, else the seek fails with
    /// `InvalidInput` and the cursor stays where it was.
    pub fn seek(&mut self, pos: SeekFrom, file_len: u64) -> (r: Result<u64, StreamError>)
        ensures
            r is Ok <==> seek_ok(pos, file_len as int, old(self).pos()),
            r matches Ok(t) ==> t == seek_target(pos, file_len as int, old(self).pos())
                && final(self).pos() == t,
            r is Err ==> final(self).pos() == old(self).pos(),
            r matches Err(e) ==> e == StreamError::InvalidInput,
            final(self).resource() == old(self).resource(),
    {
        let r = resolve_seek(pos, file_len, self.cur_pos);
        if let Ok(t) = r {
            self.cur_pos = t;
        }
        r
    }
}

/// Another cursor over the same resource, starting where this one stands.
/// From then on the two move independently.
impl<H> Clone for SharedFile<H> {
    fn clone(&self) -> (r: Self)
        ensures
            r.pos() == self.pos(),
    {
        SharedFile { cur_pos: self.cur_pos, file: Arc::clone(&self.file) }
    }
}

/// Two cursors that stand at the same offset address the same bytes: what a
/// positional write through one puts at its cursor, a positional read of the
/// same length through the other gets back.
pub proof fn lemma_shared_write_then_read<H>(
    writer: SharedFile<H>,
    reader: SharedFile<H>,
    data: Seq<u8>,
    s: Seq<u8>,
)
    requires
        writer.pos() == reader.pos(),
        writer.pos() + data.len() <= u64::MAX,
    ensures
        store_read(store_write(s, writer.pos() as nat, data), reader.pos() as nat, data.len())
            == data,
{
    lemma_read_after_write(s, writer.pos() as nat, data);
}

} // verus!
