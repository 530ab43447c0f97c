use satspath::invite::{create_invite, create_invite_at, create_invite_record, create_invite_record_with};
use satspath::privacy::identifier_hash;
use satspath::profile::InviteStatus;

#[test]
fn unknown_user_invite_record_contains_no_private_material() {
    let invite = create_invite_record("someone@gmail.com", 1_000, Some("coffee".into()), "sender-fp".into(), 600);
    assert_eq!(invite.status, InviteStatus::Created);
    assert_eq!(invite.display_hint, "s***@gmail.com");
    assert!(!format!("{invite:?}").contains("seed"));
    assert!(!format!("{invite:?}").contains("xprv"));
    assert!(invite.expires_at > invite.created_at);
}

#[test]
fn invite_record_fields_at_fixed_time() {
    let r = create_invite_record_with("Someone@Gmail.com ", 5, None, "fp".into(), 600, "id-1".into(), 1_000);
    assert_eq!(r.invite_id, "id-1");
    assert_eq!(r.identifier_hash, identifier_hash("someone@gmail.com"));
    assert_eq!(r.created_at, 1_000);
    assert_eq!(r.expires_at, 1_600);
    let wrapped = create_invite_record_with("a@b.c", 5, None, "fp".into(), 1, "id-2".into(), i64::MAX);
    assert_eq!(wrapped.expires_at, i64::MIN);
}

#[test]
fn invite_claim_url_and_warning() {
    let invite = create_invite_at("bob@example.com", 21_000, 42);
    let hash = identifier_hash("bob@example.com");
    assert_eq!(invite.alias_hash, hash);
    assert_eq!(invite.created_at, 42);
    assert_eq!(
        invite.claim_url,
        format!("https://satspath.local/claim?alias_hash={}&amount=21000", &hash[..16])
    );
    assert!(invite.warning.contains("generating their own keys locally"));
    assert_eq!(create_invite("bob@example.com", 21_000).claim_url, invite.claim_url);
}
