use vstd::prelude::*;

use crate::key::{key_of, CacheKey, Provenance, SourceMeta};
use crate::store::{decode_entry, encode_entry, entry_bytes, parse_entry, CacheError};

verus! {

/// Why a fetch could not hand back an artifact.
#[derive(Clone, Debug)]
pub enum FetchError {
    /// The source file is missing, or its metadata or contents could not be read.
    SourceUnreadable(String),
    /// The source's length changed between the metadata read and the full read.
    SourceChangedDuringRead { expected: u64, actual: usize },
    /// The producer failed; its message is kept.
    ProductionFailed(String),
}

/// The artifact a successful fetch returns, and how it was obtained.
#[derive(Clone, Debug)]
pub enum Fetched {
    /// The stored entry was valid; the producer did not run.
    Hit(Vec<u8>),
    /// The producer ran and its output was persisted.
    Stored(Vec<u8>),
    /// The producer ran but persisting its output failed.
    Unstored(Vec<u8>, CacheError),
}

/// Freshly produced bytes together with the entry that should be persisted for them.
#[derive(Clone, Debug)]
pub struct PendingStore {
    pub payload: Vec<u8>,
    pub entry: Vec<u8>,
}

/// Orchestrates validation of cached artifacts against the current provenance.
/// Each method is one decision of the fetch protocol; the caller performs the
/// filesystem work and the production in between.
#[derive(Clone, Copy, Debug)]
pub struct FetchEngine {
    pub provenance: Provenance,
}

/// The bytes of a cache file that could be read, if any.
pub open spec fn stored_view(stored: Result<Vec<u8>, CacheError>) -> Option<Seq<u8>> {
    match stored {
        Ok(v) => Some(v@),
        Err(_) => None,
    }
}

/// The outcome of the metadata read, turned into the current key.
pub open spec fn start_spec(p: Provenance, meta: Result<SourceMeta, String>) -> Result<
    CacheKey,
    FetchError,
> {
    match meta {
        Ok(m) => Ok(key_of(p, m)),
        Err(e) => Err(FetchError::SourceUnreadable(e)),
    }
}

/// The payload that a cache file holding `stored` offers for `key`: only an
/// entry whose key equals `key` exactly is a hit.
pub open spec fn cached_payload(key: CacheKey, stored: Option<Seq<u8>>) -> Option<Seq<u8>> {
    match stored {
        Some(s) => match parse_entry(s) {
            Some(e) => if e.0 == key {
                Some(e.1)
            } else {
                None
            },
            None => None,
        },
        None => None,
    }
}

/// Whether the full read of the source agrees with the size in `key`.
pub open spec fn admit_spec(key: CacheKey, contents: Result<Seq<u8>, String>) -> Result<
    Seq<u8>,
    FetchError,
> {
    match contents {
        Err(e) => Err(FetchError::SourceUnreadable(e)),
        Ok(s) => if s.len() == key.source_size {
            Ok(s)
        } else {
            Err(FetchError::SourceChangedDuringRead { expected: key.source_size, actual: s.len() as usize })
        },
    }
}

/// What one complete fetch does, given what the world answers at each step.
pub struct FetchRun {
    /// The bytes returned to the caller, or the error the fetch fails with.
    pub outcome: Result<Seq<u8>, FetchError>,
    /// Whether the source was read in full (only on a miss).
    pub source_read: bool,
    /// The source bytes the producer was invoked on, if it was invoked.
    pub producer_input: Option<Seq<u8>>,
    /// The bytes handed to the atomic write of the cache file, if any.
    pub written: Option<Seq<u8>>,
}

/// One fetch under provenance `p`: `meta` is the metadata read of the source,
/// `stored` the readable contents of the cache file, `contents` the full read of
/// the source and `producer` the fallback transformation.
pub open spec fn run_fetch(
    p: Provenance,
    meta: Result<SourceMeta, String>,
    stored: Option<Seq<u8>>,
    contents: Result<Seq<u8>, String>,
    producer: spec_fn(Seq<u8>) -> Result<Seq<u8>, String>,
) -> FetchRun {
    match start_spec(p, meta) {
        Err(e) => FetchRun { outcome: Err(e), source_read: false, producer_input: None, written: None },
        Ok(key) => match cached_payload(key, stored) {
            Some(x) => FetchRun { outcome: Ok(x), source_read: false, producer_input: None, written: None },
            None => match admit_spec(key, contents) {
                Err(e) => FetchRun { outcome: Err(e), source_read: true, producer_input: None, written: None },
                Ok(src) => match producer(src) {
                    Err(m) => FetchRun {
                        outcome: Err(FetchError::ProductionFailed(m)),
                        source_read: true,
                        producer_input: Some(src),
                        written: None,
                    },
                    Ok(out) => FetchRun {
                        outcome: Ok(out),
                        source_read: true,
                        producer_input: Some(src),
                        written: Some(entry_bytes(key, out)),
                    },
                },
            },
        },
    }
}

/// The cache file's readable contents after a fetch whose write succeeded
/// exactly when `write_ok`.
pub open spec fn cache_after(stored: Option<Seq<u8>>, run: FetchRun, write_ok: bool) -> Option<
    Seq<u8>,
> {
    match run.written {
        Some(w) => if write_ok {
            Some(w)
        } else {
            stored
        },
        None => stored,
    }
}

impl Fetched {
    /// The artifact bytes, however they were obtained.
    pub open spec fn payload_view(&self) -> Seq<u8> {
        match self {
            Fetched::Hit(v) => v@,
            Fetched::Stored(v) => v@,
            Fetched::Unstored(v, _) => v@,
        }
    }

    /// Gives up the artifact bytes.
    pub fn into_payload(self) -> (r: Vec<u8>)
        ensures
            r@ == self.payload_view(),
    {
        match self {
            Fetched::Hit(v) => v,
            Fetched::Stored(v) => v,
            Fetched::Unstored(v, _) => v,
        }
    }
}

impl FetchEngine {
    /// An engine for the given host identifiers, with a compile-option fingerprint of zero.
    pub fn new(os_identifier: u32, runtime_identifier: u32) -> (r: FetchEngine)
        ensures
            r.provenance == Provenance::spec_new(os_identifier, runtime_identifier),
    {
        FetchEngine { provenance: Provenance::new(os_identifier, runtime_identifier) }
    }

    /// The provenance that keys are currently built from.
    pub fn current(&self) -> (r: Provenance)
        ensures
            r == self.provenance,
    {
        self.provenance
    }

    /// Replaces the compile-option fingerprint; the other provenance fields stay.
    pub fn set_compile_option_fingerprint(&mut self, value: u32)
        ensures
            final(self).provenance == (Provenance {
                compile_option_fingerprint: value,
                ..old(self).provenance
            }),
    {
        self.provenance.compile_option_fingerprint = value;
    }

    /// First step: builds the current key from the source's metadata, or fails
    /// when the metadata could not be read.
    pub fn start(&self, meta: Result<SourceMeta, String>) -> (r: Result<CacheKey, FetchError>)
        ensures
            r == start_spec(self.provenance, meta),
    {
        match meta {
            Ok(m) => Ok(self.provenance.key_for(m)),
            Err(e) => Err(FetchError::SourceUnreadable(e)),
        }
    }

    /// Second step: the stored payload when the cache file holds an entry for
    /// exactly `key`. A missing, unreadable or corrupt file is a miss.
    pub fn lookup(&self, key: &CacheKey, stored: Result<Vec<u8>, CacheError>) -> (r: Option<Vec<u8>>)
        ensures
            match r {
                Some(v) => cached_payload(*key, stored_view(stored)) == Some(v@),
                None => cached_payload(*key, stored_view(stored)) is None,
            },
    {
        match stored {
            Ok(bytes) => match decode_entry(bytes.as_slice()) {
                Ok(entry) => {
                    if entry.key.matches(key) {
                        Some(entry.payload)
                    } else {
                        None
                    }
                },
                Err(_) => None,
            },
            Err(_) => None,
        }
    }

    /// Third step, on a miss: accepts the full contents of the source only when
    /// their length is the size that the key recorded.
    pub fn admit_source(&self, key: &CacheKey, contents: Result<Vec<u8>, String>) -> (r: Result<
        Vec<u8>,
        FetchError,
    >)
        ensures
            match r {
                Ok(v) => admit_spec(*key, contents_view(contents)) == Ok::<Seq<u8>, FetchError>(v@),
                Err(e) => admit_spec(*key, contents_view(contents)) == Err::<Seq<u8>, FetchError>(e),
            },
    {
        match contents {
            Err(e) => Err(FetchError::SourceUnreadable(e)),
            Ok(v) => {
                if v.len() as u64 == key.source_size {
                    Ok(v)
                } else {
                    Err(FetchError::SourceChangedDuringRead { expected: key.source_size, actual: v.len() })
                }
            },
        }
    }

    /// Fourth step: wraps a producer failure, or pairs the produced bytes with
    /// the entry to persist for them under `key`.
    pub fn prepare_store(&self, key: &CacheKey, produced: Result<Vec<u8>, String>) -> (r: Result<
        PendingStore,
        FetchError,
    >)
        ensures
            match produced {
                Ok(out) => r matches Ok(ps) && ps.payload@ == out@ && ps.entry@ == entry_bytes(
                    *key,
                    out@,
                ),
                Err(m) => r == Err::<PendingStore, FetchError>(FetchError::ProductionFailed(m)),
            },
    {
        match produced {
            Ok(out) => {
                let entry = encode_entry(key, out.as_slice());
                Ok(PendingStore { payload: out, entry })
            },
            Err(m) => Err(FetchError::ProductionFailed(m)),
        }
    }

    /// Last step: the produced bytes are returned whether or not persisting them
    /// succeeded; a persist failure is reported beside them.
    pub fn finish(&self, pending: PendingStore, written: Result<(), CacheError>) -> (r: Fetched)
        ensures
            r.payload_view() == pending.payload@,
            written is Ok ==> r is Stored,
            written matches Err(e) ==> r matches Fetched::Unstored(_, e2) && e2 == e,
    {
        match written {
            Ok(()) => Fetched::Stored(pending.payload),
            Err(e) => Fetched::Unstored(pending.payload, e),
        }
    }
}

/// The full read of a source, as bytes.
pub open spec fn contents_view(contents: Result<Vec<u8>, String>) -> Result<Seq<u8>, String> {
    match contents {
        Ok(v) => Ok(v@),
        Err(e) => Err(e),
    }
}

} // verus!
