use proofnest_backend::registry::{RegisterError, Registry};
use proofnest_backend::MAX_PAYLOAD_BYTES;

fn register_simple(
    reg: &mut Registry,
    key: &str,
    content: Vec<u8>,
    content_type: &str,
    name: &str,
) -> Result<(), RegisterError> {
    reg.register_hash(
        key.to_string(),
        content,
        content_type.to_string(),
        name.to_string(),
        "a description".to_string(),
        "an owner".to_string(),
        "1970-01-01".to_string(),
        "0".to_string(),
        false,
        "owner@example.com".to_string(),
        vec![1, 2, 3],
        1_000,
    )
}

#[test]
fn example_scenario() {
    let mut reg = Registry::new();
    let r = register_simple(&mut reg, "abc123", b"0123456789".to_vec(), "text/plain", "doc");
    assert_eq!(r, Ok(()));

    let info = reg.get_hash_info("abc123".to_string()).expect("registered key must be found");
    assert_eq!(info.content, Some(b"0123456789".to_vec()));
    assert_eq!(info.content_type, "text/plain");
    assert_eq!(info.name, "doc");

    assert_eq!(reg.get_file_chunk("abc123".to_string(), 3, 4), b"3456".to_vec());
    assert_eq!(reg.get_file_chunk("abc123".to_string(), 8, 10), b"89".to_vec());

    let r2 = register_simple(&mut reg, "abc123", b"other".to_vec(), "text/plain", "doc2");
    assert_eq!(r2, Err(RegisterError::DuplicateKey));
}

#[test]
fn payload_size_bound() {
    let mut reg = Registry::new();

    let exactly_max = vec![0u8; MAX_PAYLOAD_BYTES];
    let r = register_simple(&mut reg, "at-limit", exactly_max, "application/octet-stream", "big");
    assert_eq!(r, Ok(()));

    let one_over = vec![0u8; MAX_PAYLOAD_BYTES + 1];
    let r2 = register_simple(&mut reg, "over-limit", one_over, "application/octet-stream", "huge");
    assert_eq!(r2, Err(RegisterError::PayloadTooLarge));

    assert!(reg.get_hash_info("over-limit".to_string()).is_none());
}

#[test]
fn oversized_payload_rejected_even_for_duplicate_key() {
    let mut reg = Registry::new();
    assert_eq!(register_simple(&mut reg, "k", vec![1], "t", "n"), Ok(()));
    let r = register_simple(&mut reg, "k", vec![0u8; MAX_PAYLOAD_BYTES + 1], "t", "n");
    assert_eq!(r, Err(RegisterError::PayloadTooLarge));
}

#[test]
fn duplicate_register_leaves_original_unchanged() {
    let mut reg = Registry::new();
    let r = reg.register_hash(
        "deadbeef".to_string(),
        b"payload-one".to_vec(),
        "text/plain".to_string(),
        "first".to_string(),
        "first description".to_string(),
        "first owner".to_string(),
        "1990-05-05".to_string(),
        "5".to_string(),
        true,
        "first@example.com".to_string(),
        vec![9, 9, 9],
        111,
    );
    assert_eq!(r, Ok(()));

    let r2 = reg.register_hash(
        "deadbeef".to_string(),
        b"payload-two".to_vec(),
        "image/png".to_string(),
        "second".to_string(),
        "second description".to_string(),
        "second owner".to_string(),
        "2000-06-06".to_string(),
        "7".to_string(),
        false,
        "second@example.com".to_string(),
        vec![8, 8, 8],
        222,
    );
    assert_eq!(r2, Err(RegisterError::DuplicateKey));

    let info = reg.get_hash_info("deadbeef".to_string()).expect("original record must remain");
    assert_eq!(info.content, Some(b"payload-one".to_vec()));
    assert_eq!(info.content_type, "text/plain");
    assert_eq!(info.name, "first");
    assert_eq!(info.description, "first description");
    assert_eq!(info.owner_name, "first owner");
    assert_eq!(info.owner_dob, "1990-05-05");
    assert_eq!(info.royalty_fee, "5");
    assert!(info.has_royalty);
    assert_eq!(info.contact_details, "first@example.com");
    assert_eq!(info.user, vec![9, 9, 9]);
    assert_eq!(info.timestamp, 111);
}

#[test]
fn listing_strips_payload_while_lookup_keeps_it() {
    let mut reg = Registry::new();
    assert_eq!(register_simple(&mut reg, "k1", b"abc".to_vec(), "text/plain", "one"), Ok(()));
    assert_eq!(register_simple(&mut reg, "k2", b"defg".to_vec(), "text/html", "two"), Ok(()));

    let listing = reg.get_all_files();
    assert_eq!(listing.len(), 2);
    for (key, entry) in &listing {
        assert!(entry.content.is_none());
        let full = reg.get_hash_info(key.clone()).expect("listed key must be found");
        assert!(full.content.is_some());
        assert_eq!(entry.content_type, full.content_type);
        assert_eq!(entry.name, full.name);
        assert_eq!(entry.description, full.description);
        assert_eq!(entry.owner_name, full.owner_name);
        assert_eq!(entry.owner_dob, full.owner_dob);
        assert_eq!(entry.royalty_fee, full.royalty_fee);
        assert_eq!(entry.has_royalty, full.has_royalty);
        assert_eq!(entry.contact_details, full.contact_details);
        assert_eq!(entry.user, full.user);
        assert_eq!(entry.timestamp, full.timestamp);
    }
    assert_eq!(listing[0].0, "k1");
    assert_eq!(listing[1].0, "k2");
}

#[test]
fn unknown_key_reads_are_safe() {
    let mut reg = Registry::new();
    assert!(reg.get_hash_info("missing".to_string()).is_none());
    assert!(reg.verify_hash("missing".to_string()).is_none());
    assert!(reg.get_hash_metadata("missing".to_string()).is_none());
    assert_eq!(reg.get_file_chunk("missing".to_string(), 0, 10), Vec::<u8>::new());
    assert!(reg.get_all_files().is_empty());

    assert_eq!(register_simple(&mut reg, "present", b"xy".to_vec(), "t", "n"), Ok(()));
    assert!(reg.get_hash_info("missing".to_string()).is_none());
    assert_eq!(reg.get_file_chunk("missing".to_string(), 0, 10), Vec::<u8>::new());
    assert!(!reg.get_all_files().iter().any(|(k, _)| k == "missing"));
}

#[test]
fn chunk_edge_cases() {
    let mut reg = Registry::new();
    let payload = b"0123456789".to_vec();
    assert_eq!(register_simple(&mut reg, "k", payload.clone(), "t", "n"), Ok(()));

    // Full read in one chunk.
    assert_eq!(reg.get_file_chunk("k".to_string(), 0, 10), payload);
    // Zero-length request.
    assert_eq!(reg.get_file_chunk("k".to_string(), 0, 0), Vec::<u8>::new());
    assert_eq!(reg.get_file_chunk("k".to_string(), 5, 0), Vec::<u8>::new());
    // Offset exactly at the end, and past the end.
    assert_eq!(reg.get_file_chunk("k".to_string(), 10, 1), Vec::<u8>::new());
    assert_eq!(reg.get_file_chunk("k".to_string(), 11, 1), Vec::<u8>::new());
    assert_eq!(reg.get_file_chunk("k".to_string(), u32::MAX, u32::MAX), Vec::<u8>::new());
    // Truncated at the end, no padding.
    assert_eq!(reg.get_file_chunk("k".to_string(), 6, 100), b"6789".to_vec());
    // Requests that together reassemble the payload.
    let mut reassembled = Vec::new();
    reassembled.extend(reg.get_file_chunk("k".to_string(), 0, 4));
    reassembled.extend(reg.get_file_chunk("k".to_string(), 4, 4));
    reassembled.extend(reg.get_file_chunk("k".to_string(), 8, 4));
    assert_eq!(reassembled, payload);
    // A request near the u32 boundary must not wrap around.
    assert_eq!(reg.get_file_chunk("k".to_string(), 5, u32::MAX), b"56789".to_vec());
}

#[test]
fn chunk_of_empty_payload_is_empty() {
    let mut reg = Registry::new();
    assert_eq!(register_simple(&mut reg, "empty", Vec::new(), "t", "n"), Ok(()));
    let info = reg.get_hash_info("empty".to_string()).expect("registered key must be found");
    assert_eq!(info.content, Some(Vec::new()));
    assert_eq!(reg.get_file_chunk("empty".to_string(), 0, 10), Vec::<u8>::new());
}

#[test]
fn repeated_reads_return_identical_results() {
    let mut reg = Registry::new();
    assert_eq!(register_simple(&mut reg, "k", b"stable".to_vec(), "t", "n"), Ok(()));

    let a = reg.get_hash_info("k".to_string()).expect("registered key must be found");
    let b = reg.get_hash_info("k".to_string()).expect("registered key must be found");
    assert_eq!(a.content, b.content);
    assert_eq!(a.content_type, b.content_type);
    assert_eq!(a.name, b.name);
    assert_eq!(a.user, b.user);
    assert_eq!(a.timestamp, b.timestamp);

    assert_eq!(
        reg.get_file_chunk("k".to_string(), 2, 3),
        reg.get_file_chunk("k".to_string(), 2, 3)
    );

    let l1 = reg.get_all_files();
    let l2 = reg.get_all_files();
    assert_eq!(l1.len(), l2.len());
    for i in 0..l1.len() {
        assert_eq!(l1[i].0, l2[i].0);
        assert_eq!(l1[i].1.name, l2[i].1.name);
    }
}

#[test]
fn aliases_agree_with_lookup() {
    let mut reg = Registry::new();
    assert_eq!(register_simple(&mut reg, "k", b"zz".to_vec(), "t", "n"), Ok(()));

    let direct = reg.get_hash_info("k".to_string()).expect("registered key must be found");
    let verified = reg.verify_hash("k".to_string()).expect("alias must find the key");
    let meta = reg.get_hash_metadata("k".to_string()).expect("alias must find the key");
    assert_eq!(direct.content, verified.content);
    assert_eq!(direct.name, verified.name);
    assert_eq!(direct.content, meta.content);
    assert_eq!(direct.name, meta.name);
}

#[test]
fn cloned_record_preserves_every_field() {
    let mut reg = Registry::new();
    assert_eq!(register_simple(&mut reg, "k", b"abc".to_vec(), "text/plain", "n"), Ok(()));
    let info = reg.get_hash_info("k".to_string()).expect("registered key must be found");
    let copy = info.clone();
    assert_eq!(copy.user, info.user);
    assert_eq!(copy.timestamp, info.timestamp);
    assert_eq!(copy.content, info.content);
    assert_eq!(copy.content_type, info.content_type);
    assert_eq!(copy.name, info.name);
    assert_eq!(copy.description, info.description);
    assert_eq!(copy.owner_name, info.owner_name);
    assert_eq!(copy.owner_dob, info.owner_dob);
    assert_eq!(copy.royalty_fee, info.royalty_fee);
    assert_eq!(copy.has_royalty, info.has_royalty);
    assert_eq!(copy.contact_details, info.contact_details);
}
