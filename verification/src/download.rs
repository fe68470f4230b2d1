//! One whole download attempt: fetch, report the size hint, copy with
//! progress, and map the result onto an outcome.

use vstd::prelude::*;
use crate::byte_io::ByteSink;
use crate::byte_io::ByteSource;
use crate::copy::CHUNK_SIZE;
use crate::copy::copy_with_progress;
use crate::copy::is_chunk_decomposition;
use crate::copy::lemma_reports_sum_to_flatten_len;
use crate::copy::lemma_concat_parts;
use crate::fetch::FetchError;
use crate::fetch::fetch;
use crate::outcome::Outcome;
use crate::progress::ProgressObserver;
use crate::progress::sum_chunks;

verus! {

/// Run one download attempt: fetch `url`, tell the observer what total the
/// response declared, stream the body into `sink` chunk by chunk, and
/// report what the attempt ended in. Exactly one outcome per invocation.
///
/// On success the sink grew by exactly the transferred bytes and the chunk
/// sizes reported to the observer add up to that growth. On an HTTP status
/// error or a transport failure nothing was written and nothing reported.
/// On a local I/O failure the partial transfer is left in place: the sink
/// keeps what it had accepted — the reported chunks plus at most one
/// partial chunk — and nothing was reported after the error.
pub fn download<K: ByteSink, O: ProgressObserver>(
    url: &str,
    sink: &mut K,
    observer: &mut O,
) -> (r: Outcome)
    ensures
        old(observer).history().is_prefix_of(final(observer).history()),
        forall|i: int|
            old(observer).history().len() <= i < final(observer).history().len()
                ==> final(observer).history()[i] >= 1,
        match r {
            Outcome::Success => {
                let reported = final(observer).history().skip(
                    old(observer).history().len() as int,
                );
                &&& old(sink).contents().is_prefix_of(final(sink).contents())
                &&& sum_chunks(reported) == final(sink).contents().len()
                    - old(sink).contents().len()
                &&& exists|h: Option<u64>|
                    #![auto]
                    final(observer).hints() == old(observer).hints().push(h)
            },
            Outcome::HttpStatusError(c) => !(200 <= c <= 299)
                && final(sink).contents() == old(sink).contents()
                && final(observer).history() == old(observer).history()
                && final(observer).hints() == old(observer).hints(),
            Outcome::TransportError => final(sink).contents() == old(sink).contents()
                && final(observer).history() == old(observer).history()
                && final(observer).hints() == old(observer).hints(),
            Outcome::IoError => {
                let growth = final(sink).contents().len() - old(sink).contents().len();
                let reported = final(observer).history().skip(
                    old(observer).history().len() as int,
                );
                &&& old(sink).contents().is_prefix_of(final(sink).contents())
                &&& growth - CHUNK_SIZE <= sum_chunks(reported) <= growth
                &&& exists|h: Option<u64>|
                    #![auto]
                    final(observer).hints() == old(observer).hints().push(h)
            },
        },
{
    let fetched = match fetch(url) {
        Ok(p) => p,
        Err(FetchError::Status(c)) => {
            return Outcome::HttpStatusError(c);
        },
        Err(FetchError::Transport) => {
            return Outcome::TransportError;
        },
    };
    let (mut stream, meta) = fetched;
    observer.note_total_size(meta.total_size);
    match copy_with_progress(&mut stream, sink, observer) {
        Ok(total) => {
            proof {
                let delivered = stream.produced().skip(0);
                lemma_concat_parts(old(sink).contents(), delivered);
            }
            Outcome::Success
        },
        Err(_) => {
            proof {
                let reported = observer.history().skip(old(observer).history().len() as int);
                let (parts, partial) = choose|parts: Seq<Seq<u8>>, partial: Seq<u8>|
                    #![auto]
                    sink.contents() == old(sink).contents() + parts.flatten() + partial
                        && is_chunk_decomposition(parts, reported) && partial.len() <= CHUNK_SIZE;
                lemma_reports_sum_to_flatten_len(parts, reported);
                assert(old(sink).contents() + parts.flatten() + partial =~= old(sink).contents()
                    + (parts.flatten() + partial));
                lemma_concat_parts(old(sink).contents(), parts.flatten() + partial);
            }
            Outcome::IoError
        },
    }
}

} // verus!
