use vstd::prelude::*;
use vstd::bytes::{
    lemma_auto_spec_u32_to_from_le_bytes, lemma_auto_spec_u64_to_from_le_bytes,
    spec_u32_from_le_bytes, spec_u32_to_le_bytes, spec_u64_from_le_bytes, spec_u64_to_le_bytes,
    u32_from_le_bytes, u32_to_le_bytes, u64_from_le_bytes, u64_to_le_bytes,
};
use vstd::slice::{slice_subrange, slice_to_vec};

use crate::key::CacheKey;

verus! {

/// Number of bytes that the fixed key header occupies at the start of an entry.
pub const KEY_LEN: usize = 32;

/// Why a cache entry could not be read or written.
#[derive(Clone, Debug)]
pub enum CacheError {
    /// No entry exists at the cache path yet.
    NotFound,
    /// The entry is shorter than the key header or otherwise malformed.
    Corrupt,
    /// Any other filesystem failure, with its message.
    Io(String),
}

/// A key header followed by an opaque payload.
#[derive(Clone, Debug)]
pub struct CacheEntry {
    pub key: CacheKey,
    pub payload: Vec<u8>,
}

/// The header bytes of `k`: four little-endian `u32` fields, then size and mtime
/// as little-endian `u64`.
pub open spec fn key_bytes(k: CacheKey) -> Seq<u8> {
    spec_u32_to_le_bytes(k.format_version)
        + spec_u32_to_le_bytes(k.os_identifier)
        + spec_u32_to_le_bytes(k.runtime_identifier)
        + spec_u32_to_le_bytes(k.compile_option_fingerprint)
        + spec_u64_to_le_bytes(k.source_size)
        + spec_u64_to_le_bytes(k.source_mtime)
}

/// The file contents of an entry with key `k` and payload `p`.
pub open spec fn entry_bytes(k: CacheKey, p: Seq<u8>) -> Seq<u8> {
    key_bytes(k) + p
}

/// The key that the first `KEY_LEN` bytes of `s` spell.
pub open spec fn parse_key(s: Seq<u8>) -> CacheKey {
    CacheKey {
        format_version: spec_u32_from_le_bytes(s.subrange(0, 4)),
        os_identifier: spec_u32_from_le_bytes(s.subrange(4, 8)),
        runtime_identifier: spec_u32_from_le_bytes(s.subrange(8, 12)),
        compile_option_fingerprint: spec_u32_from_le_bytes(s.subrange(12, 16)),
        source_size: spec_u64_from_le_bytes(s.subrange(16, 24)),
        source_mtime: spec_u64_from_le_bytes(s.subrange(24, 32)),
    }
}

/// What reading the bytes `s` of a cache file yields: `None` when the file is
/// too short to hold a key (corrupt), else the key and the remaining payload.
pub open spec fn parse_entry(s: Seq<u8>) -> Option<(CacheKey, Seq<u8>)> {
    if s.len() < KEY_LEN {
        None
    } else {
        Some((parse_key(s), s.subrange(KEY_LEN as int, s.len() as int)))
    }
}

/// The header of any key is exactly `KEY_LEN` bytes long.
pub proof fn lemma_key_bytes_len(k: CacheKey)
    ensures
        key_bytes(k).len() == KEY_LEN,
{
    lemma_auto_spec_u32_to_from_le_bytes();
    lemma_auto_spec_u64_to_from_le_bytes();
}

/// Decoding the bytes of an encoded entry gives back its key and payload.
pub proof fn lemma_entry_round_trip(k: CacheKey, p: Seq<u8>)
    ensures
        parse_entry(entry_bytes(k, p)) == Some((k, p)),
{
    lemma_auto_spec_u32_to_from_le_bytes();
    lemma_auto_spec_u64_to_from_le_bytes();
    let s = entry_bytes(k, p);
    let a = spec_u32_to_le_bytes(k.format_version);
    let b = spec_u32_to_le_bytes(k.os_identifier);
    let c = spec_u32_to_le_bytes(k.runtime_identifier);
    let d = spec_u32_to_le_bytes(k.compile_option_fingerprint);
    let e = spec_u64_to_le_bytes(k.source_size);
    let f = spec_u64_to_le_bytes(k.source_mtime);
    assert(s.subrange(0, 4) =~= a);
    assert(s.subrange(4, 8) =~= b);
    assert(s.subrange(8, 12) =~= c);
    assert(s.subrange(12, 16) =~= d);
    assert(s.subrange(16, 24) =~= e);
    assert(s.subrange(24, 32) =~= f);
    assert(s.subrange(32, s.len() as int) =~= p);
}

/// Serialises `key` followed by `payload` in the persisted layout.
pub fn encode_entry(key: &CacheKey, payload: &[u8]) -> (r: Vec<u8>)
    ensures
        r@ == entry_bytes(*key, payload@),
        r@.len() == KEY_LEN + payload@.len(),
{
    proof {
        lemma_key_bytes_len(*key);
    }
    let mut out = u32_to_le_bytes(key.format_version);
    let mut part = u32_to_le_bytes(key.os_identifier);
    out.append(&mut part);
    let mut part = u32_to_le_bytes(key.runtime_identifier);
    out.append(&mut part);
    let mut part = u32_to_le_bytes(key.compile_option_fingerprint);
    out.append(&mut part);
    let mut part = u64_to_le_bytes(key.source_size);
    out.append(&mut part);
    let mut part = u64_to_le_bytes(key.source_mtime);
    out.append(&mut part);
    let mut rest = slice_to_vec(payload);
    out.append(&mut rest);
    out
}

/// Deserialises the bytes of a cache file. A file shorter than the key header
/// is `Corrupt`; anything longer holds a key and a (possibly empty) payload.
pub fn decode_entry(bytes: &[u8]) -> (r: Result<CacheEntry, CacheError>)
    ensures
        match r {
            Ok(e) => parse_entry(bytes@) == Some((e.key, e.payload@)),
            Err(err) => parse_entry(bytes@) is None && err is Corrupt,
        },
{
    if bytes.len() < KEY_LEN {
        return Err(CacheError::Corrupt);
    }
    let key = CacheKey {
        format_version: u32_from_le_bytes(slice_subrange(bytes, 0, 4)),
        os_identifier: u32_from_le_bytes(slice_subrange(bytes, 4, 8)),
        runtime_identifier: u32_from_le_bytes(slice_subrange(bytes, 8, 12)),
        compile_option_fingerprint: u32_from_le_bytes(slice_subrange(bytes, 12, 16)),
        source_size: u64_from_le_bytes(slice_subrange(bytes, 16, 24)),
        source_mtime: u64_from_le_bytes(slice_subrange(bytes, 24, 32)),
    };
    let payload = slice_to_vec(slice_subrange(bytes, KEY_LEN, bytes.len()));
    Ok(CacheEntry { key, payload })
}

} // verus!
