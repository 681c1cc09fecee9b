use vstd::prelude::*;

verus! {

/// The bytes of a positional store after writing `data` at offset `off`.
/// Bytes past the old end that the write skips over read as zero.
pub open spec fn store_write(s: Seq<u8>, off: nat, data: Seq<u8>) -> Seq<u8> {
    let new_len: nat = if s.len() > off + data.len() { s.len() } else { off + data.len() };
    Seq::new(
        new_len,
        |i: int|
            if off <= i < off + data.len() {
                data[i - off]
            } else if i < s.len() {
                s[i]
            } else {
                0u8
            },
    )
}

/// The bytes that a positional read of up to `n` bytes at offset `off` returns
/// when it is served in full: the stored bytes from `off`, cut at the end.
pub open spec fn store_read(s: Seq<u8>, off: nat, n: nat) -> Seq<u8> {
    if off >= s.len() {
        Seq::empty()
    } else if off + n <= s.len() {
        s.subrange(off as int, (off + n) as int)
    } else {
        s.subrange(off as int, s.len() as int)
    }
}

/// Reading back a span right after writing it yields the written bytes.
pub proof fn lemma_read_after_write(s: Seq<u8>, off: nat, data: Seq<u8>)
    ensures
        store_read(store_write(s, off, data), off, data.len()) == data,
{
    let w = store_write(s, off, data);
    if data.len() > 0 {
        assert(store_read(w, off, data.len()) =~= data);
    } else {
        assert(store_read(w, off, data.len()) =~= data);
    }
}

} // verus!
