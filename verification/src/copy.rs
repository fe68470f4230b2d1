//! The progress-tracked copier: the core transfer loop.

use vstd::prelude::*;
use crate::byte_io::ByteSink;
use crate::byte_io::ByteSource;
use crate::progress::ProgressObserver;
use crate::progress::sum_chunks;

verus! {

/// How many bytes one read asks for at most. The exact chunk size is an
/// implementation detail; a read may hand back less.
pub const CHUNK_SIZE: usize = 8192;

/// Why a copy aborted. Terminal for the attempt; nothing is retried, and
/// whatever the sink had already accepted is left in place.
#[derive(Clone, Copy, PartialEq, Eq, Structural, Debug)]
pub enum CopyError {
    /// The source failed to produce the next chunk.
    Read,
    /// The sink refused a chunk.
    Write,
    /// The running byte count outgrew its counter.
    Oversize,
}

/// A concatenation splits back into its parts.
pub(crate) proof fn lemma_concat_parts<A>(a: Seq<A>, b: Seq<A>)
    ensures
        a.is_prefix_of(a + b),
        (a + b).skip(a.len() as int) == b,
{
    assert(a =~= (a + b).subrange(0, a.len() as int));
    assert((a + b).skip(a.len() as int) =~= b);
}

/// `parts` are the written chunks behind the reports: one part per report,
/// each report carrying exactly its part's size.
pub open spec fn is_chunk_decomposition(parts: Seq<Seq<u8>>, reported: Seq<usize>) -> bool {
    parts.len() == reported.len() && (forall|i: int|
        0 <= i < parts.len() ==> #[trigger] parts[i].len() == reported[i])
}

/// Reports that decompose into parts sum to exactly the bytes in them.
pub proof fn lemma_reports_sum_to_flatten_len(parts: Seq<Seq<u8>>, reported: Seq<usize>)
    requires
        is_chunk_decomposition(parts, reported),
    ensures
        sum_chunks(reported) == parts.flatten().len(),
    decreases parts.len(),
{
    if parts.len() == 0 {
        assert(parts.flatten() =~= Seq::<u8>::empty());
    } else {
        let front = parts.drop_last();
        lemma_reports_sum_to_flatten_len(front, reported.drop_last());
        front.lemma_flatten_push(parts.last());
        assert(front.push(parts.last()) =~= parts);
        assert(parts[parts.len() - 1].len() == reported[reported.len() - 1]);
    }
}

/// Re-running a transfer against a truncated destination fully replaces
/// prior content: a sink that was emptied holds, after a successful copy,
/// exactly the newly delivered bytes, so nothing of any previous, larger
/// content remains beyond the new length.
pub proof fn lemma_truncated_rerun_replaces(emptied: Seq<u8>, delivered: Seq<u8>, after: Seq<u8>)
    requires
        emptied.len() == 0,
        after == emptied + delivered,
    ensures
        after == delivered,
        after.len() == delivered.len(),
{
    assert(after =~= delivered);
}

/// Stream `source` into `sink` in bounded chunks, telling `observer` the
/// size of each chunk right after the sink accepts it, and return how many
/// bytes moved.
///
/// On success the source was read to its end, the sink has accepted exactly
/// the bytes the source produced during the call, in order, and the chunk
/// sizes reported to the observer add up to that same byte count. On any
/// error the transfer stops at once: the sink holds what it accepted (plus,
/// after a failed write, at most a partial chunk), and the observer was
/// told exactly the fully accepted chunks — nothing after the error.
#[verifier::loop_isolation(false)]
pub fn copy_with_progress<S: ByteSource, K: ByteSink, O: ProgressObserver>(
    source: &mut S,
    sink: &mut K,
    observer: &mut O,
) -> (r: Result<u64, CopyError>)
    ensures
        old(source).produced().is_prefix_of(final(source).produced()),
        old(observer).history().is_prefix_of(final(observer).history()),
        final(observer).hints() == old(observer).hints(),
        forall|i: int|
            old(observer).history().len() <= i < final(observer).history().len()
                ==> final(observer).history()[i] >= 1,
        match r {
            Ok(total) => {
                let delivered = final(source).produced().skip(
                    old(source).produced().len() as int,
                );
                let reported = final(observer).history().skip(
                    old(observer).history().len() as int,
                );
                &&& delivered.len() == total as int
                &&& final(sink).contents() == old(sink).contents() + delivered
                &&& sum_chunks(reported) == total as int
                &&& final(source).at_end()
                &&& exists|parts: Seq<Seq<u8>>|
                    #![auto]
                    delivered == parts.flatten() && is_chunk_decomposition(parts, reported)
            },
            Err(e) => {
                let delta = final(source).produced().skip(old(source).produced().len() as int);
                let reported = final(observer).history().skip(
                    old(observer).history().len() as int,
                );
                &&& sum_chunks(reported) <= delta.len()
                &&& exists|parts: Seq<Seq<u8>>, partial: Seq<u8>|
                    #![auto]
                    final(sink).contents() == old(sink).contents() + parts.flatten() + partial
                        && is_chunk_decomposition(parts, reported) && partial.len() <= CHUNK_SIZE
                &&& e == CopyError::Read ==> final(sink).contents() == old(sink).contents() + delta
                    && sum_chunks(reported) == delta.len()
            },
        },
{
    let mut total: u64 = 0;
    let ghost mut delivered: Seq<u8> = Seq::<u8>::empty();
    let ghost mut reported: Seq<usize> = Seq::<usize>::empty();
    let ghost mut pieces: Seq<Seq<u8>> = Seq::<Seq<u8>>::empty();
    proof {
        assert(old(source).produced() + delivered =~= old(source).produced());
        assert(old(sink).contents() + delivered =~= old(sink).contents());
        assert(old(observer).history() + reported =~= old(observer).history());
        assert(pieces.flatten() =~= delivered);
    }
    loop
        invariant
            source.produced() == old(source).produced() + delivered,
            sink.contents() == old(sink).contents() + delivered,
            observer.history() == old(observer).history() + reported,
            observer.hints() == old(observer).hints(),
            delivered.len() == total as int,
            sum_chunks(reported) == total as int,
            forall|i: int| 0 <= i < reported.len() ==> reported[i] >= 1,
            pieces.flatten() == delivered,
            is_chunk_decomposition(pieces, reported),
        decreases u64::MAX - total,
    {
        let chunk = match source.read_chunk(CHUNK_SIZE) {
            Ok(c) => c,
            Err(_) => {
                proof {
                    lemma_concat_parts(old(source).produced(), delivered);
                    lemma_concat_parts(old(observer).history(), reported);
                    assert(sink.contents() =~= old(sink).contents() + pieces.flatten()
                        + Seq::<u8>::empty());
                }
                return Err(CopyError::Read);
            },
        };
        let n = chunk.len();
        proof {
            lemma_concat_parts(old(source).produced() + delivered, chunk@);
        }
        if n == 0 {
            proof {
                assert(old(source).produced() + delivered + chunk@ =~= old(source).produced()
                    + delivered);
                lemma_concat_parts(old(source).produced(), delivered);
                lemma_concat_parts(old(observer).history(), reported);
            }
            return Ok(total);
        }
        if n as u64 > u64::MAX - total {
            proof {
                lemma_concat_parts(old(source).produced(), delivered + chunk@);
                assert(old(source).produced() + delivered + chunk@ =~= old(source).produced() + (
                delivered + chunk@));
                lemma_concat_parts(old(observer).history(), reported);
                assert(sink.contents() =~= old(sink).contents() + pieces.flatten()
                    + Seq::<u8>::empty());
                assert((delivered + chunk@).len() >= delivered.len());
            }
            return Err(CopyError::Oversize);
        }
        if !sink.write_chunk(&chunk) {
            proof {
                lemma_concat_parts(old(source).produced(), delivered + chunk@);
                assert(old(source).produced() + delivered + chunk@ =~= old(source).produced() + (
                delivered + chunk@));
                lemma_concat_parts(old(observer).history(), reported);
                let p = choose|p: Seq<u8>|
                    #![auto]
                    p.is_prefix_of(chunk@) && sink.contents() == (old(sink).contents() + delivered)
                        + p;
                assert(sink.contents() =~= old(sink).contents() + pieces.flatten() + p);
                assert(p.len() <= chunk@.len() <= CHUNK_SIZE);
                assert((delivered + chunk@).len() >= delivered.len());
            }
            return Err(CopyError::Write);
        }
        observer.on_chunk(n);
        total = total + n as u64;
        proof {
            let prev_delivered = delivered;
            let prev_reported = reported;
            let prev_pieces = pieces;
            delivered = delivered + chunk@;
            reported = reported.push(n);
            pieces = pieces.push(chunk@);
            assert(old(source).produced() + prev_delivered + chunk@ =~= old(source).produced()
                + delivered);
            assert(old(sink).contents() + prev_delivered + chunk@ =~= old(sink).contents()
                + delivered);
            assert(reported.drop_last() =~= prev_reported);
            assert(sum_chunks(reported) == sum_chunks(prev_reported) + n);
            prev_pieces.lemma_flatten_push(chunk@);
        }
    }
}

} // verus!
