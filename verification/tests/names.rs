use ac_trainer::cstr::until_nul;
use ac_trainer::snapshot::{classify_entry, find_entry, ScanError, SnapshotEntry};

fn buffer(name: &str) -> Vec<u8> {
    let mut raw = vec![0u8; 256];
    raw[..name.len()].copy_from_slice(name.as_bytes());
    raw
}

fn entry(name: &str, value: u64) -> SnapshotEntry {
    SnapshotEntry { name: buffer(name), value }
}

#[test]
fn until_nul_stops_at_first_nul() {
    assert_eq!(until_nul(&[65, 66, 0, 67, 0]), vec![65, 66]);
}

#[test]
fn until_nul_without_nul_keeps_everything() {
    assert_eq!(until_nul(&[1, 2, 3]), vec![1, 2, 3]);
}

#[test]
fn until_nul_of_leading_nul_is_empty() {
    assert_eq!(until_nul(&[0, 9, 9]), Vec::<u8>::new());
    assert_eq!(until_nul(&[]), Vec::<u8>::new());
}

#[test]
fn classify_matching_name() {
    let target = String::from("ac_client.exe");
    assert_eq!(classify_entry(&buffer("ac_client.exe"), &target).unwrap(), true);
}

#[test]
fn classify_other_name() {
    let target = String::from("ac_client.exe");
    assert_eq!(classify_entry(&buffer("explorer.exe"), &target).unwrap(), false);
    // A name that only starts like the target is another name.
    assert_eq!(classify_entry(&buffer("ac_client.exe.bak"), &target).unwrap(), false);
    assert_eq!(classify_entry(&buffer("ac_client"), &target).unwrap(), false);
}

#[test]
fn classify_invalid_utf8_keeps_the_decoding_error() {
    let target = String::from("ac_client.exe");
    let mut raw = buffer("ac");
    raw[2] = 0xFF;
    let err = classify_entry(&raw, &target).unwrap_err();
    assert_eq!(err.to_string(), "invalid utf-8 sequence of 1 bytes from index 2");
    assert_eq!(err.into_bytes(), vec![b'a', b'c', 0xFF]);
}

#[test]
fn classify_ignores_bytes_after_nul() {
    let target = String::from("ac_client.exe");
    let mut raw = buffer("ac_client.exe");
    raw[20] = 0xFF;
    assert_eq!(classify_entry(&raw, &target).unwrap(), true);
}

#[test]
fn classify_non_ascii_name() {
    let target = String::from("jeu_é.exe");
    assert_eq!(classify_entry(&buffer("jeu_é.exe"), &target).unwrap(), true);
}

#[test]
fn find_entry_returns_first_match() {
    let entries = vec![
        entry("System", 4),
        entry("ac_client.exe", 1234),
        entry("ac_client.exe", 5678),
    ];
    assert_eq!(find_entry(&entries, "ac_client.exe").unwrap(), Some(1234));
}

#[test]
fn find_entry_without_match_is_none() {
    let entries = vec![entry("System", 4), entry("explorer.exe", 800)];
    assert_eq!(find_entry(&entries, "ac_client.exe").unwrap(), None);
    assert_eq!(find_entry(&Vec::new(), "ac_client.exe").unwrap(), None);
}

#[test]
fn find_entry_stops_at_invalid_name_before_match() {
    let mut bad = entry("x", 1);
    bad.name[0] = 0xC3; // a lone lead byte
    let entries = vec![entry("System", 4), bad, entry("ac_client.exe", 1234)];
    match find_entry(&entries, "ac_client.exe") {
        Err(ScanError::InvalidName(e)) => {
            assert_eq!(e.to_string(), "incomplete utf-8 byte sequence from index 0");
        }
        other => panic!("expected an invalid name, got {:?}", other),
    }
}

#[test]
fn find_entry_ignores_invalid_name_after_match() {
    let mut bad = entry("x", 1);
    bad.name[0] = 0xFF;
    let entries = vec![entry("ac_client.exe", 1234), bad];
    assert_eq!(find_entry(&entries, "ac_client.exe").unwrap(), Some(1234));
}
