use vstd::prelude::*;

use crate::engine::{cache_after, cached_payload, run_fetch, FetchError};
use crate::key::{key_of, Provenance, SourceMeta};
use crate::store::{entry_bytes, lemma_entry_round_trip, parse_entry, KEY_LEN};

verus! {

/// Fetching twice with the same source and provenance, after the first fetch
/// succeeded and persisted its entry, does not run the producer the second
/// time, does not read the source in full, and returns the same bytes.
pub proof fn lemma_repeat_fetch_hits(
    p: Provenance,
    meta: Result<SourceMeta, String>,
    stored: Option<Seq<u8>>,
    contents: Result<Seq<u8>, String>,
    producer: spec_fn(Seq<u8>) -> Result<Seq<u8>, String>,
)
    requires
        run_fetch(p, meta, stored, contents, producer).outcome is Ok,
    ensures
        ({
            let first = run_fetch(p, meta, stored, contents, producer);
            let second = run_fetch(p, meta, cache_after(stored, first, true), contents, producer);
            &&& !second.source_read
            &&& second.producer_input is None
            &&& second.outcome == first.outcome
        }),
{
    let first = run_fetch(p, meta, stored, contents, producer);
    if let Ok(m) = meta {
        let key = key_of(p, m);
        if first.written is Some {
            if let Ok(src) = contents {
                if let Ok(out) = producer(src) {
                    lemma_entry_round_trip(key, out);
                }
            }
        }
    }
}

/// A stored entry written for other source metadata is a miss: a source that
/// reads back at its recorded size is produced afresh.
pub proof fn lemma_changed_source_reproduces(
    p: Provenance,
    old_meta: SourceMeta,
    new_meta: SourceMeta,
    payload: Seq<u8>,
    src: Seq<u8>,
    producer: spec_fn(Seq<u8>) -> Result<Seq<u8>, String>,
)
    requires
        old_meta.size != new_meta.size || old_meta.mtime != new_meta.mtime,
        src.len() == new_meta.size,
    ensures
        ({
            let stored = Some(entry_bytes(key_of(p, old_meta), payload));
            &&& cached_payload(key_of(p, new_meta), stored) is None
            &&& run_fetch(p, Ok(new_meta), stored, Ok(src), producer).producer_input == Some(src)
        }),
{
    lemma_entry_round_trip(key_of(p, old_meta), payload);
}

/// A stored entry written under another compile-option fingerprint is a miss:
/// a source that reads back at its recorded size is produced afresh.
pub proof fn lemma_changed_fingerprint_reproduces(
    p: Provenance,
    fingerprint: u32,
    meta: SourceMeta,
    payload: Seq<u8>,
    src: Seq<u8>,
    producer: spec_fn(Seq<u8>) -> Result<Seq<u8>, String>,
)
    requires
        fingerprint != p.compile_option_fingerprint,
        src.len() == meta.size,
    ensures
        ({
            let q = Provenance { compile_option_fingerprint: fingerprint, ..p };
            let stored = Some(entry_bytes(key_of(p, meta), payload));
            &&& cached_payload(key_of(q, meta), stored) is None
            &&& run_fetch(q, Ok(meta), stored, Ok(src), producer).producer_input == Some(src)
        }),
{
    lemma_entry_round_trip(key_of(p, meta), payload);
}

/// A cache file shorter than the key header counts as absent: the fetch
/// produces, succeeds, and a successful write leaves a valid entry in its place.
pub proof fn lemma_truncated_entry_is_replaced(
    p: Provenance,
    meta: SourceMeta,
    truncated: Seq<u8>,
    src: Seq<u8>,
    producer: spec_fn(Seq<u8>) -> Result<Seq<u8>, String>,
)
    requires
        truncated.len() < KEY_LEN,
        src.len() == meta.size,
        producer(src) is Ok,
    ensures
        ({
            let run = run_fetch(p, Ok(meta), Some(truncated), Ok(src), producer);
            let out = producer(src)->Ok_0;
            &&& run.outcome == Ok::<Seq<u8>, FetchError>(out)
            &&& cache_after(Some(truncated), run, true) == Some(entry_bytes(key_of(p, meta), out))
            &&& parse_entry(entry_bytes(key_of(p, meta), out)) == Some((key_of(p, meta), out))
        }),
{
    lemma_entry_round_trip(key_of(p, meta), producer(src)->Ok_0);
}

/// A failing fetch never writes the cache file, and a producer failure is
/// what the fetch fails with.
pub proof fn lemma_failure_leaves_cache(
    p: Provenance,
    meta: Result<SourceMeta, String>,
    stored: Option<Seq<u8>>,
    contents: Result<Seq<u8>, String>,
    producer: spec_fn(Seq<u8>) -> Result<Seq<u8>, String>,
    write_ok: bool,
)
    ensures
        ({
            let run = run_fetch(p, meta, stored, contents, producer);
            &&& run.outcome is Err ==> run.written is None && cache_after(stored, run, write_ok)
                == stored
            &&& run.producer_input is Some && producer(run.producer_input->Some_0) is Err
                ==> run.outcome == Err::<Seq<u8>, FetchError>(
                FetchError::ProductionFailed(producer(run.producer_input->Some_0)->Err_0),
            )
        }),
{
}

/// Once the producer has succeeded, the fetch returns its bytes whether or not
/// the write of the entry succeeds; a failed write leaves the cache file as it was.
pub proof fn lemma_persist_failure_still_returns(
    p: Provenance,
    meta: Result<SourceMeta, String>,
    stored: Option<Seq<u8>>,
    contents: Result<Seq<u8>, String>,
    producer: spec_fn(Seq<u8>) -> Result<Seq<u8>, String>,
)
    ensures
        ({
            let run = run_fetch(p, meta, stored, contents, producer);
            run.producer_input is Some && producer(run.producer_input->Some_0) is Ok ==> {
                &&& run.outcome == Ok::<Seq<u8>, FetchError>(
                    producer(run.producer_input->Some_0)->Ok_0,
                )
                &&& cache_after(stored, run, false) == stored
            }
        }),
{
}

} // verus!
