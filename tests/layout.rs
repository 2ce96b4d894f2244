use bootsnap_native::key::{fingerprint, CacheKey, Provenance, SourceMeta, FORMAT_VERSION};
use bootsnap_native::store::{decode_entry, encode_entry, CacheError, KEY_LEN};

fn sample_key() -> CacheKey {
    CacheKey {
        format_version: 1,
        os_identifier: 0x0403_0201,
        runtime_identifier: 3,
        compile_option_fingerprint: 0xFFFF_FFFF,
        source_size: 0x0102,
        source_mtime: 0x0807_0605_0403_0201,
    }
}

#[test]
fn entry_layout_is_little_endian_header_then_payload() {
    let bytes = encode_entry(&sample_key(), &[9, 8]);
    assert_eq!(
        bytes,
        vec![
            1, 0, 0, 0, 1, 2, 3, 4, 3, 0, 0, 0, 255, 255, 255, 255, 2, 1, 0, 0, 0, 0, 0, 0, 1, 2,
            3, 4, 5, 6, 7, 8, 9, 8
        ]
    );
    assert_eq!(bytes.len(), KEY_LEN + 2);
}

#[test]
fn decode_round_trips() {
    let bytes = encode_entry(&sample_key(), b"payload");
    let entry = decode_entry(&bytes).unwrap();
    assert_eq!(entry.key, sample_key());
    assert_eq!(entry.payload, b"payload".to_vec());
}

#[test]
fn header_alone_has_empty_payload() {
    let bytes = encode_entry(&sample_key(), &[]);
    let entry = decode_entry(&bytes).unwrap();
    assert_eq!(entry.key, sample_key());
    assert!(entry.payload.is_empty());
}

#[test]
fn short_file_is_corrupt() {
    assert!(matches!(decode_entry(&[]), Err(CacheError::Corrupt)));
    assert!(matches!(decode_entry(&[0u8; 31]), Err(CacheError::Corrupt)));
}

#[test]
fn fingerprint_is_fnv1a() {
    assert_eq!(fingerprint(b""), 0x811c_9dc5);
    assert_eq!(fingerprint(b"a"), 0xe40c_292c);
    assert_eq!(fingerprint(b"foobar"), 0xbf9c_f968);
}

#[test]
fn key_takes_provenance_and_metadata() {
    let mut p = Provenance::new(5, 6);
    assert_eq!(p.format_version, FORMAT_VERSION);
    assert_eq!(p.compile_option_fingerprint, 0);
    p.compile_option_fingerprint = 9;
    let k = p.key_for(SourceMeta { size: 12, mtime: 34 });
    assert_eq!(
        k,
        CacheKey {
            format_version: FORMAT_VERSION,
            os_identifier: 5,
            runtime_identifier: 6,
            compile_option_fingerprint: 9,
            source_size: 12,
            source_mtime: 34,
        }
    );
    let mut other = k;
    other.source_mtime = 35;
    assert!(k.matches(&k));
    assert!(!k.matches(&other));
}
