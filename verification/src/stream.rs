use vstd::prelude::*;

verus! {

/// How many bytes one pull request asks the stream for.  It matches the
/// span the decoder refills its internal window by, so a well-buffered
/// stream is drained in decoder-sized steps.
pub const PULL_REQUEST_LEN: usize = 11520;

/// The byte-source capability the caller supplies for decoding: one
/// operation, "read up to `max_len` bytes and return them".
///
/// A pull that yields no bytes means "no data now"; it is not an error, and
/// by itself not end-of-stream either.  A failing callback surfaces as an
/// error message, which the decode step turns into a stream-failure signal.
pub trait ByteSource {
    /// How much the source can still hand out, in the abstract: every pull
    /// that yields bytes strictly shrinks it, so a consumer that stops as
    /// soon as a pull yields nothing can be shown to finish.  A source
    /// written outside the proofs may leave the default in place.
    open spec fn budget(&self) -> nat {
        0
    }

    /// Issues exactly one pull request for up to `max_len` bytes.
    fn pull(&mut self, max_len: usize) -> (r: Result<Vec<u8>, String>)
        ensures
            r matches Ok(chunk) ==> chunk@.len() <= max_len,
            (r matches Ok(chunk) && chunk@.len() > 0) ==> final(self).budget() < old(
                self,
            ).budget(),
    ;
}

/// Maps one raw stream-callback result to the bytes actually read.
///
/// A non-positive count means "no data now" and yields no bytes — not an
/// error.  A positive count yields exactly the first `count` bytes of the
/// callback's buffer, copied verbatim.
pub fn normalize_read(count: i32, buffer: Vec<u8>) -> (out: Vec<u8>)
    requires
        count > 0 ==> count as int <= buffer@.len(),
    ensures
        count <= 0 ==> out@ == Seq::<u8>::empty(),
        count > 0 ==> out@ == buffer@.take(count as int),
{
    if count <= 0 {
        Vec::new()
    } else {
        let mut out = buffer;
        out.truncate(count as usize);
        out
    }
}

/// A byte source over bytes already in memory: pulls hand out successive
/// spans of the buffer until it is exhausted, then yield nothing forever.
pub struct SliceSource {
    data: Vec<u8>,
    pos: usize,
}

impl SliceSource {
    /// The bytes not yet handed out.
    pub closed spec fn remaining(self) -> Seq<u8> {
        if self.pos <= self.data@.len() {
            self.data@.skip(self.pos as int)
        } else {
            Seq::empty()
        }
    }

    /// A source over the whole of `data`.
    pub fn new(data: Vec<u8>) -> (r: Self)
        ensures
            r.remaining() == data@,
    {
        SliceSource { data, pos: 0 }
    }

    /// A source that is exhausted from the start.
    pub fn empty() -> (r: Self)
        ensures
            r.remaining() == Seq::<u8>::empty(),
    {
        SliceSource { data: Vec::new(), pos: 0 }
    }
}

impl ByteSource for SliceSource {
    open spec fn budget(&self) -> nat {
        self.remaining().len()
    }

    fn pull(&mut self, max_len: usize) -> (r: Result<Vec<u8>, String>)
        ensures
            r matches Ok(chunk) ==> {
                &&& chunk@ == old(self).remaining().take(
                    vstd::math::min(max_len as int, old(self).remaining().len() as int),
                )
                &&& final(self).remaining() == old(self).remaining().skip(chunk@.len() as int)
            },
    {
        let len = self.data.len();
        if self.pos >= len {
            return Ok(Vec::new());
        }
        let avail: usize = len - self.pos;
        let n: usize = if max_len < avail {
            max_len
        } else {
            avail
        };
        let mut chunk: Vec<u8> = Vec::new();
        let mut i: usize = 0;
        while i < n
            invariant
                i <= n,
                n <= max_len,
                n <= avail,
                avail == len - self.pos,
                self.pos < len,
                len == self.data@.len(),
                chunk@ == self.data@.subrange(self.pos as int, self.pos + i),
            decreases n - i,
        {
            let b = self.data[self.pos + i];
            chunk.push(b);
            i = i + 1;
        }
        self.pos = self.pos + n;
        proof {
            assert(chunk@ =~= old(self).remaining().take(
                vstd::math::min(max_len as int, old(self).remaining().len() as int),
            ));
            assert(self.remaining() =~= old(self).remaining().skip(chunk@.len() as int));
        }
        Ok(chunk)
    }
}

} // verus!
