//! Progress reporting: the observer seam, a verified recording observer,
//! and the percentage computation.

use vstd::prelude::*;

verus! {

/// The sum of a sequence of chunk sizes.
pub open spec fn sum_chunks(s: Seq<usize>) -> int
    decreases s.len(),
{
    if s.len() == 0 {
        0
    } else {
        sum_chunks(s.drop_last()) + s.last()
    }
}

/// The presentation side of a transfer. The copier drives it synchronously:
/// once with the declared total before any byte moves, then once per chunk
/// after that chunk is handed to the sink.
pub trait ProgressObserver {
    /// The chunk sizes reported so far, in order. The default (nothing,
    /// ever) is for implementations outside the verified world; the ones
    /// here override it with what they really saw.
    open spec fn history(&self) -> Seq<usize> {
        Seq::<usize>::empty()
    }

    /// The size hints reported so far, in order. The default (nothing,
    /// ever) is for implementations outside the verified world.
    open spec fn hints(&self) -> Seq<Option<u64>> {
        Seq::<Option<u64>>::empty()
    }

    /// Told what total size the response declared, before any chunk.
    fn note_total_size(&mut self, total_size: Option<u64>)
        ensures
            final(self).history() == old(self).history(),
            final(self).hints() == old(self).hints().push(total_size),
    ;

    /// Told, after each chunk reached the sink, how many bytes it held.
    fn on_chunk(&mut self, bytes: usize)
        requires
            bytes >= 1,
        ensures
            final(self).history() == old(self).history().push(bytes),
            final(self).hints() == old(self).hints(),
    ;
}

/// A verified observer that records everything it is told.
pub struct RecordingObserver {
    pub chunks: Vec<usize>,
    pub hints: Vec<Option<u64>>,
}

impl RecordingObserver {
    /// An observer that has been told nothing yet.
    pub fn new() -> (o: RecordingObserver)
        ensures
            o.history() == Seq::<usize>::empty(),
            o.hints() == Seq::<Option<u64>>::empty(),
    {
        RecordingObserver { chunks: Vec::new(), hints: Vec::new() }
    }
}

impl ProgressObserver for RecordingObserver {
    open spec fn history(&self) -> Seq<usize> {
        self.chunks@
    }

    open spec fn hints(&self) -> Seq<Option<u64>> {
        self.hints@
    }

    fn note_total_size(&mut self, total_size: Option<u64>)
        ensures
            final(self).chunks == old(self).chunks,
    {
        self.hints.push(total_size);
    }

    fn on_chunk(&mut self, bytes: usize)
        ensures
            final(self).hints == old(self).hints,
    {
        self.chunks.push(bytes);
    }
}

/// The whole-percent progress of `transferred` bytes against a declared
/// total of `total` bytes, capped at 100.
pub open spec fn percent_of(transferred: u64, total: u64) -> int
    recommends
        total > 0,
{
    let p = (transferred as int * 100) / (total as int);
    if p > 100 {
        100
    } else {
        p
    }
}

/// The percentage shown for `transferred` bytes against the size hint.
/// Without a usable hint (absent, or zero) there is no percentage: the
/// computation degrades to `None` rather than dividing by the hint.
pub fn percent_done(transferred: u64, total_size: Option<u64>) -> (r: Option<u64>)
    ensures
        match total_size {
            Some(t) => if t > 0 {
                r == Some(percent_of(transferred, t) as u64)
            } else {
                r is None
            },
            None => r is None,
        },
{
    match total_size {
        Some(t) => {
            if t > 0 {
                let wide: u128 = (transferred as u128) * 100 / (t as u128);
                if wide > 100 {
                    Some(100)
                } else {
                    Some(wide as u64)
                }
            } else {
                None
            }
        },
        None => None,
    }
}

} // verus!
