use sleigh_lift::store::{catalog_names, SpecEntry, SpecStore};
use sleigh_lift::SleighError;

/// An xz stream of the text "spec-document-alpha".
fn alpha_blob() -> Vec<u8> {
    vec![
        253, 55, 122, 88, 90, 0, 0, 4, 230, 214, 180, 70, 2, 0, 33, 1, 22, 0, 0, 0, 116, 47, 229,
        163, 1, 0, 18, 115, 112, 101, 99, 45, 100, 111, 99, 117, 109, 101, 110, 116, 45, 97, 108,
        112, 104, 97, 0, 0, 148, 80, 53, 252, 8, 154, 95, 102, 0, 1, 43, 19, 156, 9, 72, 210, 31,
        182, 243, 125, 1, 0, 0, 0, 0, 4, 89, 90,
    ]
}

/// An xz stream of the text "spec-document-beta".
fn beta_blob() -> Vec<u8> {
    vec![
        253, 55, 122, 88, 90, 0, 0, 4, 230, 214, 180, 70, 2, 0, 33, 1, 22, 0, 0, 0, 116, 47, 229,
        163, 1, 0, 17, 115, 112, 101, 99, 45, 100, 111, 99, 117, 109, 101, 110, 116, 45, 98, 101,
        116, 97, 0, 0, 0, 32, 27, 149, 223, 25, 86, 220, 99, 0, 1, 42, 18, 75, 8, 84, 188, 31,
        182, 243, 125, 1, 0, 0, 0, 0, 4, 89, 90,
    ]
}

/// An xz stream of bytes that are not valid UTF-8.
fn non_text_blob() -> Vec<u8> {
    vec![
        253, 55, 122, 88, 90, 0, 0, 4, 230, 214, 180, 70, 2, 0, 33, 1, 22, 0, 0, 0, 116, 47, 229,
        163, 1, 0, 2, 255, 254, 65, 0, 0, 154, 22, 211, 208, 149, 64, 35, 156, 0, 1, 27, 3, 11,
        47, 185, 16, 31, 182, 243, 125, 1, 0, 0, 0, 0, 4, 89, 90,
    ]
}

fn two_entry_store() -> SpecStore {
    SpecStore::new(vec![
        SpecEntry { name: "alpha".to_string(), compressed: alpha_blob() },
        SpecEntry { name: "beta".to_string(), compressed: beta_blob() },
    ])
}

#[test]
fn resolve_decompresses_once_and_memoizes() {
    let mut store = two_entry_store();
    assert_eq!(store.decompressions(), 0);
    let first = store.resolve("alpha").unwrap();
    assert_eq!(first, "spec-document-alpha");
    assert_eq!(store.decompressions(), 1);
    let second = store.resolve("alpha").unwrap();
    assert_eq!(second, first);
    assert_eq!(store.decompressions(), 1);
    let third = store.resolve("alpha").unwrap();
    assert_eq!(third, first);
    assert_eq!(store.decompressions(), 1);
}

#[test]
fn resolve_keeps_entries_independent() {
    let mut store = two_entry_store();
    assert_eq!(store.resolve("beta").unwrap(), "spec-document-beta");
    assert_eq!(store.decompressions(), 1);
    assert_eq!(store.resolve("alpha").unwrap(), "spec-document-alpha");
    assert_eq!(store.decompressions(), 2);
    assert_eq!(store.resolve("beta").unwrap(), "spec-document-beta");
    assert_eq!(store.decompressions(), 2);
}

#[test]
fn resolve_unknown_name_fails() {
    let mut store = two_entry_store();
    let err = store.resolve("not-a-real-arch").unwrap_err();
    assert_eq!(err, SleighError::UnknownArchitecture);
    assert_eq!(store.decompressions(), 0);
}

#[test]
fn resolve_corrupt_entry_fails_loudly() {
    let mut store = SpecStore::new(vec![SpecEntry {
        name: "broken".to_string(),
        compressed: vec![0, 1, 2, 3],
    }]);
    let err = store.resolve("broken").unwrap_err();
    assert_eq!(err, SleighError::CorruptEmbeddedSpecification);
}

#[test]
fn resolve_non_text_entry_fails_loudly() {
    let mut store = SpecStore::new(vec![SpecEntry {
        name: "binary".to_string(),
        compressed: non_text_blob(),
    }]);
    let err = store.resolve("binary").unwrap_err();
    assert_eq!(err, SleighError::CorruptEmbeddedSpecification);
}

#[test]
fn catalog_lists_the_fixed_names() {
    let names = catalog_names();
    assert_eq!(names.len(), 110);
    assert_eq!(names[0], "6502");
    assert_eq!(names[names.len() - 1], "z80");
    for expected in ["x86", "x86-64", "AARCH64", "AARCH64BE", "ARM8_le", "Dalvik", "JVM"] {
        assert!(names.iter().any(|n| n == expected));
    }
}

#[test]
fn catalog_resolves_all_builder_names() {
    let names = catalog_names();
    for v in ["4", "4t", "5", "5t", "6", "7", "8"] {
        for e in ["le", "be"] {
            let name = format!("ARM{}_{}", v, e);
            assert!(names.iter().any(|n| *n == name));
        }
    }
}

#[test]
fn empty_store_knows_no_name() {
    let mut store = SpecStore::new(vec![]);
    assert_eq!(store.resolve("x86").unwrap_err(), SleighError::UnknownArchitecture);
    assert_eq!(store.decompressions(), 0);
}

#[test]
fn corrupt_entry_is_never_cached() {
    let mut store = SpecStore::new(vec![SpecEntry {
        name: "broken".to_string(),
        compressed: vec![9, 9, 9],
    }]);
    assert_eq!(store.resolve("broken").unwrap_err(), SleighError::CorruptEmbeddedSpecification);
    assert_eq!(store.decompressions(), 1);
    assert_eq!(store.resolve("broken").unwrap_err(), SleighError::CorruptEmbeddedSpecification);
    assert_eq!(store.decompressions(), 2);
}

#[test]
fn duplicate_names_answer_from_the_first_entry() {
    let mut store = SpecStore::new(vec![
        SpecEntry { name: "arch".to_string(), compressed: alpha_blob() },
        SpecEntry { name: "arch".to_string(), compressed: beta_blob() },
    ]);
    assert_eq!(store.resolve("arch").unwrap(), "spec-document-alpha");
}

#[test]
fn all_ones_size_field_is_rejected_without_decoding() {
    // A stream whose footer carries an all-ones 32-bit size field: a sound
    // header and empty index, then `0xFFFFFFFF` where the decoder reads the
    // size it adds one to. The store rejects it outright as corrupt, before
    // any decompression is attempted.
    let crafted = vec![
        253u8, 55, 122, 88, 90, 0, 0, 0, 255, 18, 217, 65, 0, 0, 0, 0, 28, 223, 68, 33, 222, 173,
        190, 239, 255, 255, 255, 255,
    ];
    let mut store = SpecStore::new(vec![SpecEntry {
        name: "crafted".to_string(),
        compressed: crafted,
    }]);
    assert_eq!(store.resolve("crafted").unwrap_err(), SleighError::CorruptEmbeddedSpecification);
    assert_eq!(store.decompressions(), 0);
    assert_eq!(store.resolve("crafted").unwrap_err(), SleighError::CorruptEmbeddedSpecification);
    assert_eq!(store.decompressions(), 0);
}
