use vstd::prelude::*;

verus! {

/// Version of the on-disk entry layout; bumping it invalidates every older entry.
pub const FORMAT_VERSION: u32 = 2;

/// Size and modification time of a source file, as observed by a metadata read.
#[derive(Clone, Copy, Debug, PartialEq, Eq, Structural)]
pub struct SourceMeta {
    pub size: u64,
    /// Seconds since the Unix epoch.
    pub mtime: u64,
}

/// The conditions under which a cached artifact is valid.
/// Two keys match only when every field is equal.
#[derive(Clone, Copy, Debug, PartialEq, Eq, Structural)]
pub struct CacheKey {
    pub format_version: u32,
    pub os_identifier: u32,
    pub runtime_identifier: u32,
    pub compile_option_fingerprint: u32,
    pub source_size: u64,
    pub source_mtime: u64,
}

/// Process-level facts that are folded into every key.
#[derive(Clone, Copy, Debug, PartialEq, Eq, Structural)]
pub struct Provenance {
    pub format_version: u32,
    pub os_identifier: u32,
    pub runtime_identifier: u32,
    pub compile_option_fingerprint: u32,
}

/// The key that a source with metadata `meta` has under provenance `p`.
pub open spec fn key_of(p: Provenance, meta: SourceMeta) -> CacheKey {
    CacheKey {
        format_version: p.format_version,
        os_identifier: p.os_identifier,
        runtime_identifier: p.runtime_identifier,
        compile_option_fingerprint: p.compile_option_fingerprint,
        source_size: meta.size,
        source_mtime: meta.mtime,
    }
}

impl Provenance {
    /// Provenance with the current layout version and a fingerprint of zero.
    pub open spec fn spec_new(os_identifier: u32, runtime_identifier: u32) -> Provenance {
        Provenance {
            format_version: FORMAT_VERSION,
            os_identifier,
            runtime_identifier,
            compile_option_fingerprint: 0,
        }
    }

    /// Provenance with the current layout version and a fingerprint of zero.
    pub fn new(os_identifier: u32, runtime_identifier: u32) -> (r: Provenance)
        ensures
            r == Provenance::spec_new(os_identifier, runtime_identifier),
    {
        Provenance { format_version: FORMAT_VERSION, os_identifier, runtime_identifier, compile_option_fingerprint: 0 }
    }

    /// Builds the key for a source whose metadata is `meta`.
    pub fn key_for(&self, meta: SourceMeta) -> (r: CacheKey)
        ensures
            r == key_of(*self, meta),
    {
        CacheKey {
            format_version: self.format_version,
            os_identifier: self.os_identifier,
            runtime_identifier: self.runtime_identifier,
            compile_option_fingerprint: self.compile_option_fingerprint,
            source_size: meta.size,
            source_mtime: meta.mtime,
        }
    }
}

impl CacheKey {
    /// Exact comparison: any differing field makes the keys differ.
    pub fn matches(&self, other: &CacheKey) -> (r: bool)
        ensures
            r == (*self == *other),
    {
        self.format_version == other.format_version
            && self.os_identifier == other.os_identifier
            && self.runtime_identifier == other.runtime_identifier
            && self.compile_option_fingerprint == other.compile_option_fingerprint
            && self.source_size == other.source_size
            && self.source_mtime == other.source_mtime
    }
}

/// 32-bit FNV-1a offset basis.
pub const FNV_OFFSET: u32 = 0x811c9dc5;

/// 32-bit FNV-1a prime.
pub const FNV_PRIME: u32 = 0x01000193;

/// FNV-1a over the first `n` bytes of `s`.
pub open spec fn fnv1a_prefix(s: Seq<u8>, n: nat) -> u32
    decreases n,
{
    if n == 0 || n > s.len() {
        FNV_OFFSET
    } else {
        let h = fnv1a_prefix(s, (n - 1) as nat);
        vstd::wrapping::u32_specs::wrapping_mul((h ^ (s[n - 1] as u32)), FNV_PRIME)
    }
}

/// FNV-1a of a whole byte string.
pub open spec fn fnv1a(s: Seq<u8>) -> u32 {
    fnv1a_prefix(s, s.len())
}

/// Fingerprint of an identifying string (an OS release, a runtime revision),
/// used for the identifier fields of a key.
pub fn fingerprint(bytes: &[u8]) -> (r: u32)
    ensures
        r == fnv1a(bytes@),
{
    let mut h: u32 = FNV_OFFSET;
    let mut i: usize = 0;
    while i < bytes.len()
        invariant
            i <= bytes@.len(),
            h == fnv1a_prefix(bytes@, i as nat),
        decreases bytes@.len() - i,
    {
        h = (h ^ (bytes[i] as u32)).wrapping_mul(FNV_PRIME);
        i = i + 1;
    }
    h
}

} // verus!
