use audit_ledger::hash::{generate_data_hash, generate_hash, generate_signature, hash_bytes, hex_encode, same_text};
use audit_ledger::principal::Principal;
use audit_ledger::text::u64_to_text;

#[test]
fn hash_of_abc_is_the_known_sha256() {
    assert_eq!(
        generate_hash("abc"),
        "ba7816bf8f01cfea414140de5dae2223b00361a396177a9cb410ff61f20015ad"
    );
}

#[test]
fn hash_of_nothing_is_the_known_sha256() {
    assert_eq!(
        generate_hash(""),
        "e3b0c44298fc1c149afbf4c8996fb92427ae41e4649b934ca495991b7852b855"
    );
    assert_eq!(hash_bytes(&[]), generate_hash(""));
}

#[test]
fn hashing_twice_gives_the_same_digest() {
    assert_eq!(generate_hash("same input"), generate_hash("same input"));
    assert_ne!(generate_hash("same input"), generate_hash("other input"));
}

#[test]
fn hex_encode_writes_two_lower_case_digits_per_byte() {
    assert_eq!(hex_encode(&[0x00, 0x0f, 0xa5, 0xff]), "000fa5ff");
    assert_eq!(hex_encode(&[]), "");
}

#[test]
fn principal_text_is_the_checksummed_base32_form() {
    assert_eq!(Principal::anonymous().to_text(), "2vxsx-fae");
    assert_eq!(Principal::from_slice(&[]).unwrap().to_text(), "aaaaa-aa");
    assert_eq!(Principal::from_slice(&[1, 2, 3]).unwrap().to_text(), "kw6ia-hibai-bq");
}

#[test]
fn principal_takes_at_most_29_bytes() {
    assert!(Principal::from_slice(&[7u8; 29]).is_some());
    assert!(Principal::from_slice(&[7u8; 30]).is_none());
    let p = Principal::from_slice(&[9, 8, 7]).unwrap();
    assert_eq!(p.as_slice(), &[9, 8, 7]);
    assert!(p.same_as(&p.clone()));
    assert!(!p.same_as(&Principal::anonymous()));
    assert_eq!(Principal::anonymous().as_slice(), &[4]);
}

#[test]
fn data_hash_has_the_expected_value() {
    let p = Principal::from_slice(&[1, 2, 3]).unwrap();
    assert_eq!(
        generate_data_hash(1, &p, "CREATE", "client", "7", "created client 7"),
        "81e1f3d50b7dd0b77693a23c1043bef847203479cb29c8a00cdad2319aae3c8b"
    );
}

#[test]
fn signature_has_the_expected_value() {
    let p = Principal::from_slice(&[1, 2, 3]).unwrap();
    assert_eq!(
        generate_signature(1, &p, "CREATE", "client", "7", 1000, "0000000000000000"),
        "95e090f7282b95c7f7d20d573e142b4c3d023038e353ff29733ef621914d9302"
    );
}

#[test]
fn moving_a_character_between_fields_changes_the_hash() {
    let p = Principal::anonymous();
    let a = generate_data_hash(1, &p, "a:b", "c", "d", "e");
    let b = generate_data_hash(1, &p, "a", "b:c", "d", "e");
    let c = generate_data_hash(1, &p, "ab", "c", "d", "e");
    let d = generate_data_hash(1, &p, "a", "bc", "d", "e");
    assert_ne!(a, b);
    assert_ne!(c, d);
}

#[test]
fn same_text_compares_character_for_character() {
    assert!(same_text("client", "client"));
    assert!(!same_text("client", "clients"));
    assert!(!same_text("client", "cliant"));
    assert!(same_text("", ""));
}

#[test]
fn numbers_are_written_in_decimal() {
    assert_eq!(u64_to_text(0), "0");
    assert_eq!(u64_to_text(7), "7");
    assert_eq!(u64_to_text(10), "10");
    assert_eq!(u64_to_text(1203), "1203");
    assert_eq!(u64_to_text(u64::MAX), "18446744073709551615");
}
