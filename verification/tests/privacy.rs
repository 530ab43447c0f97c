use sha2::{Digest, Sha256};
use satspath::privacy::{
    canonical_identifier, identifier_hash, mask_address, mask_identifier, mask_invoice, mask_pubkey,
};

#[test]
fn masked_output_does_not_reveal_full_email_or_pubkey() {
    let email = "rodrigo@gmail.com";
    let pubkey = "0279be667ef9dcbbac55a06295ce870b07029bfcdb2dce28d959f2815b16f81798";
    let masked_email = mask_identifier(email);
    let masked_pubkey = mask_pubkey(pubkey);

    assert_eq!(masked_email, "r***@gmail.com");
    assert!(!masked_email.contains("rodrigo"));
    assert_eq!(masked_pubkey, "0279be...1798");
    assert!(!masked_pubkey.contains("667ef9dcbbac55"));
}

#[test]
fn identifier_hash_uses_canonical_identifier() {
    assert_eq!(
        identifier_hash(" Rodrigo@Gmail.com "),
        identifier_hash("rodrigo@gmail.com")
    );
}

#[test]
fn canonical_identifier_trims_and_lowercases() {
    assert_eq!(canonical_identifier("  Alice@Example.COM\t"), "alice@example.com");
    let once = canonical_identifier(" Bob@X.org ");
    assert_eq!(canonical_identifier(&once), once);
}

#[test]
fn identifier_hash_is_sha256_hex_of_canonical_form() {
    let expected = hex::encode(Sha256::digest("rodrigo@gmail.com".as_bytes()));
    assert_eq!(identifier_hash(" RODRIGO@gmail.com"), expected);
    assert_eq!(identifier_hash("x").len(), 64);
}

#[test]
fn masks_keep_only_the_edges() {
    assert_eq!(mask_address("bc1qxy2kgdygjrsqtzq2n0yrf2493p83kkfjhx0wlh"), "bc1qxy...wlh");
    assert_eq!(mask_invoice("lnbc2500u1pvjluezpp5qqqsyqcyq5rqwzqfqqqsyqcyq5rqwzqfqqqsyqcyq5rqwzqfqypq"), "lnbc2500...qfqypq");
    assert_eq!(mask_identifier("no-at-sign"), "no-...ign");
    assert_eq!(mask_identifier("short"), "***");
}
