//! The byte source and byte sink seams of the copier, with in-memory
//! implementations.
//!
//! The network stream implements [`ByteSource`]; the destination that the
//! caller supplies implements [`ByteSink`]. The in-memory implementations
//! here are verified and let the copier be exercised on known bytes.

use vstd::prelude::*;

verus! {

/// The smaller of two quantities.
pub open spec fn smaller_of(a: int, b: int) -> int {
    if a <= b {
        a
    } else {
        b
    }
}

/// A sequential source of bytes, read in bounded chunks.
pub trait ByteSource {
    /// The bytes this source has handed out so far, in order. The default
    /// (nothing, ever) is for implementations outside the verified world;
    /// the ones here override it with their real contents.
    open spec fn produced(&self) -> Seq<u8> {
        Seq::<u8>::empty()
    }

    /// The source is exhausted: it will hand out nothing more. The default
    /// (never) is for implementations outside the verified world.
    open spec fn at_end(&self) -> bool {
        false
    }

    /// Read the next chunk of at most `max` bytes. `Ok` with an empty chunk
    /// means the source is exhausted.
    fn read_chunk(&mut self, max: usize) -> (r: Result<Vec<u8>, ()>)
        requires
            max >= 1,
        ensures
            match r {
                Ok(chunk) => chunk@.len() <= max && final(self).produced()
                    == old(self).produced() + chunk@
                    && (chunk@.len() == 0 ==> final(self).at_end()),
                Err(_) => final(self).produced() == old(self).produced(),
            },
    ;
}

/// A destination for bytes, written one chunk at a time.
pub trait ByteSink {
    /// The bytes this sink has accepted so far, in order. The default
    /// (nothing, ever) is for implementations outside the verified world;
    /// the ones here override it with their real contents.
    open spec fn contents(&self) -> Seq<u8> {
        Seq::<u8>::empty()
    }

    /// Append one whole chunk. On failure some prefix of the chunk — and
    /// nothing else — may have landed: a partial write may remain.
    fn write_chunk(&mut self, chunk: &Vec<u8>) -> (ok: bool)
        ensures
            ok ==> final(self).contents() == old(self).contents() + chunk@,
            !ok ==> exists|p: Seq<u8>|
                #![auto]
                p.is_prefix_of(chunk@) && final(self).contents() == old(self).contents() + p,
    ;
}

/// A verified source over a fixed byte buffer. `per_read` bounds how many
/// bytes one read hands out, so a transfer's chunking can be chosen exactly.
pub struct MemSource {
    data: Vec<u8>,
    pos: usize,
    per_read: usize,
}

impl MemSource {
    /// A source that will hand out `data`, at most `per_read` bytes per read.
    pub fn new(data: Vec<u8>, per_read: usize) -> (s: MemSource)
        requires
            per_read >= 1,
        ensures
            s.produced() == Seq::<u8>::empty(),
            s.data_view() == data@,
            s.chunk_bound() == per_read as int,
            s.at_end() <==> data@.len() == 0,
    {
        MemSource { data, pos: 0, per_read }
    }

    /// The whole buffer this source was created over.
    pub closed spec fn data_view(&self) -> Seq<u8> {
        self.data@
    }

    /// The most bytes one read hands out.
    pub closed spec fn chunk_bound(&self) -> int {
        self.per_read as int
    }
}

impl ByteSource for MemSource {
    closed spec fn produced(&self) -> Seq<u8> {
        if self.pos as int <= self.data@.len() {
            self.data@.take(self.pos as int)
        } else {
            self.data@
        }
    }

    closed spec fn at_end(&self) -> bool {
        self.produced().len() >= self.data@.len() || self.per_read == 0
    }

    fn read_chunk(&mut self, max: usize) -> (r: Result<Vec<u8>, ()>)
        ensures
            final(self).data_view() == old(self).data_view(),
            final(self).chunk_bound() == old(self).chunk_bound(),
            (match r {
                Ok(chunk) => chunk@.len() == smaller_of(
                    smaller_of(old(self).chunk_bound(), max as int),
                    old(self).data_view().len() - old(self).produced().len(),
                ),
                Err(_) => false,
            }),
    {
        if self.pos >= self.data.len() {
            return Ok(Vec::new());
        }
        let remaining = self.data.len() - self.pos;
        let mut k = remaining;
        if max < k {
            k = max;
        }
        if self.per_read < k {
            k = self.per_read;
        }
        let end = self.pos + k;
        let mut idx = self.pos;
        let mut out: Vec<u8> = Vec::new();
        while idx < end
            invariant
                self.pos <= idx <= end,
                end <= self.data@.len(),
                out@ == self.data@.subrange(self.pos as int, idx as int),
            decreases end - idx,
        {
            out.push(self.data[idx]);
            proof {
                assert(self.data@.subrange(self.pos as int, idx + 1) =~= self.data@.subrange(
                    self.pos as int,
                    idx as int,
                ).push(self.data@[idx as int]));
            }
            idx = idx + 1;
        }
        proof {
            assert(self.data@.take(end as int) =~= self.data@.take(self.pos as int)
                + self.data@.subrange(self.pos as int, end as int));
        }
        self.pos = end;
        Ok(out)
    }
}

/// A verified sink that keeps every accepted byte in memory.
pub struct MemSink {
    data: Vec<u8>,
}

impl MemSink {
    /// An empty sink: the state of a destination just created or truncated.
    pub fn new() -> (s: MemSink)
        ensures
            s.contents() == Seq::<u8>::empty(),
    {
        MemSink { data: Vec::new() }
    }

    /// Drop everything accepted so far, as truncating the destination does.
    pub fn truncate(&mut self)
        ensures
            final(self).contents() == Seq::<u8>::empty(),
    {
        self.data.clear();
    }

    /// The accepted bytes.
    pub fn bytes(&self) -> (b: &Vec<u8>)
        ensures
            b@ == self.contents(),
    {
        &self.data
    }
}

impl ByteSink for MemSink {
    closed spec fn contents(&self) -> Seq<u8> {
        self.data@
    }

    fn write_chunk(&mut self, chunk: &Vec<u8>) -> (ok: bool)
        ensures
            ok,
    {
        let mut j: usize = 0;
        while j < chunk.len()
            invariant
                j <= chunk@.len(),
                self.data@ == old(self).data@ + chunk@.take(j as int),
            decreases chunk@.len() - j,
        {
            self.data.push(chunk[j]);
            proof {
                assert(old(self).data@ + chunk@.take(j + 1) =~= (old(self).data@
                    + chunk@.take(j as int)).push(chunk@[j as int]));
            }
            j = j + 1;
        }
        proof {
            assert(chunk@.take(chunk@.len() as int) =~= chunk@);
        }
        true
    }
}

} // verus!
