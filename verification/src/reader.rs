use vstd::prelude::*;
use vstd::slice::slice_subrange;

use crate::codec::{gunzip_of, gzip_decompress, gzip_of, lz4_decompress, lz4_of, unlz4_of};
use crate::dispatch::{codec_of, detect_codec, Codec};
use crate::error::DetectError;

verus! {

/// A buffered reader over the payload of a possibly compressed byte
/// stream. The codec is chosen from the file name's extension alone;
/// the whole stream is decoded up front, so reading, peeking and
/// consuming then operate on a plain in-memory cursor and cannot fail.
#[derive(Debug)]
pub struct DetectReader {
    data: Vec<u8>,
    pos: usize,
}

impl DetectReader {
    /// The decoded payload this reader walks over.
    pub closed spec fn contents(&self) -> Seq<u8> {
        self.data@
    }

    /// How many payload bytes have been consumed so far.
    pub closed spec fn position(&self) -> int {
        self.pos as int
    }

    /// The read position never passes the end of the payload.
    pub open spec fn wf(&self) -> bool {
        self.position() <= self.contents().len()
    }

    /// Open a reader over `raw`, the bytes of the file named `path`.
    /// The extension selects the codec: pass-through bytes are taken as
    /// they are, a gzip or LZ4 stream is decoded, and a stream the
    /// matching encoder rejects yields the backend's error.
    pub fn open(path: &str, raw: Vec<u8>) -> (r: Result<DetectReader, DetectError>)
        ensures
            r matches Ok(rd) ==> rd.wf() && rd.position() == 0,
            codec_of(path@) == Codec::Identity ==> (r matches Ok(rd) && rd.contents() == raw@),
            codec_of(path@) == Codec::Gzip ==> match r {
                Ok(rd) => gunzip_of(raw@) == Some(rd.contents()),
                Err(e) => gunzip_of(raw@) is None && e matches DetectError::Io(_),
            },
            codec_of(path@) == Codec::Gzip ==> forall|l: int, p: Seq<u8>|
                #![trigger gzip_of(l, p)]
                (l == 0 || l == 1 || l == 9) && raw@ == gzip_of(l, p) ==> (r matches Ok(rd)
                    && rd.contents() == p),
            codec_of(path@) == Codec::Lz4 ==> match r {
                Ok(rd) => unlz4_of(raw@) == Some(rd.contents()),
                Err(e) => e matches DetectError::Io(_),
            },
            codec_of(path@) == Codec::Lz4 ==> forall|l: int, p: Seq<u8>|
                #![trigger lz4_of(l, p)]
                (l == 1 || l == 3) && raw@ == lz4_of(l, p) ==> (r matches Ok(rd)
                    ==> rd.contents() == p),
    {
        match detect_codec(path) {
            Codec::Identity => Ok(DetectReader { data: raw, pos: 0 }),
            Codec::Gzip => match gzip_decompress(raw.as_slice()) {
                Ok(v) => Ok(DetectReader { data: v, pos: 0 }),
                Err(e) => Err(e),
            },
            Codec::Lz4 => match lz4_decompress(raw.as_slice()) {
                Ok(v) => Ok(DetectReader { data: v, pos: 0 }),
                Err(e) => Err(e),
            },
        }
    }

    /// Read up to `n` of the payload bytes that remain, advancing the
    /// read position by exactly as many bytes as are returned.
    pub fn read(&mut self, n: usize) -> (out: Vec<u8>)
        requires
            old(self).wf(),
        ensures
            final(self).wf(),
            final(self).contents() == old(self).contents(),
            out@ == old(self).contents().subrange(
                old(self).position(),
                if old(self).position() + n <= old(self).contents().len() {
                    old(self).position() + n
                } else {
                    old(self).contents().len() as int
                },
            ),
            final(self).position() == old(self).position() + out@.len(),
    {
        let avail: usize = self.data.len() - self.pos;
        let take: usize = if n < avail {
            n
        } else {
            avail
        };
        let mut out: Vec<u8> = Vec::new();
        let mut i: usize = 0;
        while i < take
            invariant
                i <= take,
                self.pos + take <= self.data.len(),
                out@ == self.data@.subrange(self.pos as int, self.pos + i as int),
            decreases take - i,
        {
            out.push(self.data[self.pos + i]);
            proof {
                assert(out@ =~= self.data@.subrange(self.pos as int, self.pos + i + 1 as int));
            }
            i = i + 1;
        }
        self.pos = self.pos + take;
        out
    }

    /// Expose all payload bytes that remain unread, without consuming
    /// them. The view is non-empty whenever unread bytes remain.
    pub fn fill_buf(&self) -> (buf: &[u8])
        requires
            self.wf(),
        ensures
            buf@ == self.contents().subrange(self.position(), self.contents().len() as int),
            self.position() < self.contents().len() ==> buf@.len() > 0,
    {
        slice_subrange(self.data.as_slice(), self.pos, self.data.len())
    }

    /// Mark `amt` bytes as consumed, confirming a prior peek: the read
    /// position advances by exactly `amt` and nothing is re-fetched.
    /// `amt` must not exceed the length of the view a peek returns.
    pub fn consume(&mut self, amt: usize)
        requires
            old(self).wf(),
            old(self).position() + amt <= old(self).contents().len(),
        ensures
            final(self).wf(),
            final(self).contents() == old(self).contents(),
            final(self).position() == old(self).position() + amt,
    {
        let n: usize = self.data.len();
        proof {
            assert(self.pos + amt <= n);
        }
        self.pos = self.pos + amt;
    }
}

} // verus!
