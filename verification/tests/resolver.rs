use satspath::crypto::{generate_identity_keypair, sign_profile};
use satspath::errors::SatsPathError;
use satspath::profile::{PaymentMethod, PaymentProfile, SignedPaymentProfile};
use satspath::resolver::{
    chain_step, http_profile_url, http_status_check, Bip353Resolver, ChainResolver, ChainStep,
    NostrResolver, PearResolver, ProfileResolver,
};

fn signed_for(alias: &str) -> SignedPaymentProfile {
    let kp = generate_identity_keypair();
    let profile = PaymentProfile {
        alias: alias.to_string(),
        identity_pubkey: hex::encode(&kp.public_key),
        methods: vec![PaymentMethod::Lightning {
            label: "LN".into(),
            lightning_address: Some(alias.to_string()),
            lnurl: None,
            bolt12: None,
            receiver_pubkey: None,
        }],
        updated_at: 1_700_000_000,
        expires_at: None,
        sequence: None,
        preferences: Vec::new(),
        nonce: None,
        rotation: None,
        method_verifications: Vec::new(),
    };
    let bytes = format!("{profile:?}").into_bytes();
    sign_profile(profile, &bytes, &kp.secret_key)
}

struct MockResolver {
    should_succeed: bool,
    returned_alias: Option<String>,
}

impl ProfileResolver for MockResolver {
    fn resolve_alias(&self, alias: &str) -> Result<SignedPaymentProfile, SatsPathError> {
        if self.should_succeed {
            let profile_alias = self.returned_alias.clone().unwrap_or_else(|| alias.to_string());
            Ok(signed_for(&profile_alias))
        } else {
            Err(SatsPathError::AliasNotFound(alias.to_string()))
        }
    }
}

struct FailingResolver(SatsPathError);

impl ProfileResolver for FailingResolver {
    fn resolve_alias(&self, _alias: &str) -> Result<SignedPaymentProfile, SatsPathError> {
        Err(self.0.clone())
    }
}

#[test]
fn chain_resolver_success() {
    let chain = ChainResolver::new()
        .push(MockResolver { should_succeed: false, returned_alias: None })
        .push(MockResolver { should_succeed: true, returned_alias: None });
    let result = chain.resolve_alias("test@domain.com");
    assert!(result.is_ok());
    assert_eq!(result.unwrap().profile.alias, "test@domain.com");
}

#[test]
fn chain_resolver_failure() {
    let chain = ChainResolver::new()
        .push(MockResolver { should_succeed: false, returned_alias: None })
        .push(MockResolver { should_succeed: false, returned_alias: None });
    let res = chain.resolve_alias("test@domain.com");
    assert!(res.is_err());
}

#[test]
fn chain_resolver_rejects_substituted_alias() {
    let chain = ChainResolver::new().push(MockResolver {
        should_succeed: true,
        returned_alias: Some("test@domain.com".to_string()),
    });
    let res = chain.resolve_alias("alice@domain.com");
    assert!(res.is_err());
    let err = res.unwrap_err().message();
    assert!(err.contains("security failure"), "Expected security failure message, got: {}", err);
    assert!(err.contains("alice@domain.com"));
    assert!(err.contains("test@domain.com"));
    assert_eq!(
        err,
        "alias not found: security failure: requested alice@domain.com, but got profile for test@domain.com"
    );
}

enum Mixed {
    Mock(MockResolver),
    Failing(FailingResolver),
}

impl ProfileResolver for Mixed {
    fn resolve_alias(&self, alias: &str) -> Result<SignedPaymentProfile, SatsPathError> {
        match self {
            Mixed::Mock(r) => r.resolve_alias(alias),
            Mixed::Failing(r) => r.resolve_alias(alias),
        }
    }
}

#[test]
fn chain_skips_network_errors_and_stops_on_others() {
    let chain = ChainResolver::new()
        .push(Mixed::Failing(FailingResolver(SatsPathError::NetworkError("down".into()))))
        .push(Mixed::Mock(MockResolver { should_succeed: true, returned_alias: None }));
    assert!(chain.resolve_alias("x@y.z").is_ok());

    let stop = ChainResolver::new()
        .push(Mixed::Failing(FailingResolver(SatsPathError::InvalidRoute("no".into()))))
        .push(Mixed::Mock(MockResolver { should_succeed: true, returned_alias: None }));
    assert_eq!(stop.resolve_alias("x@y.z"), Err(SatsPathError::InvalidRoute("no".into())));

    let empty: ChainResolver<MockResolver> = ChainResolver::new();
    assert_eq!(empty.resolve_alias("x@y.z"), Err(SatsPathError::AliasNotFound("x@y.z".into())));
}

#[test]
fn chain_accepts_differently_written_same_identifier() {
    let chain = ChainResolver::new().push(MockResolver {
        should_succeed: true,
        returned_alias: Some(" Test@Domain.com".to_string()),
    });
    assert!(chain.resolve_alias("test@domain.com").is_ok());
    assert!(matches!(chain_step("a@b.c", Err(SatsPathError::AliasNotFound("a".into()))), ChainStep::Continue));
}

#[test]
fn builtin_resolvers_answers() {
    let bip353 = Bip353Resolver::new();
    assert!(bip353.dnssec_required());
    assert!(matches!(bip353.resolve_alias("\u{20bf}alice@example.com"), Err(SatsPathError::InvalidRoute(_))));
    assert_eq!(
        bip353.resolve_alias("alice@example.com"),
        Err(SatsPathError::AliasNotFound("alice@example.com".into()))
    );
    assert_eq!(
        NostrResolver.resolve_alias("bob@x.org"),
        Err(SatsPathError::AliasNotFound("Nostr resolver scaffold only: bob@x.org".into()))
    );
}

#[test]
fn http_resolver_url_and_status() {
    assert_eq!(
        http_profile_url("alice@example.com").unwrap(),
        "https://example.com/.well-known/satspath/alice"
    );
    assert!(matches!(http_profile_url("no-at"), Err(SatsPathError::AliasNotFound(_))));
    assert!(matches!(http_profile_url("a@b@c"), Err(SatsPathError::AliasNotFound(_))));
    assert!(http_status_check("a@b.c", 200).is_ok());
    assert_eq!(http_status_check("a@b.c", 404), Err(SatsPathError::AliasNotFound("a@b.c".into())));
    assert_eq!(
        http_status_check("a@b.c", 500),
        Err(SatsPathError::NetworkError("HTTP error 500 fetching profile".into()))
    );
}

#[test]
fn pear_answer_refuses_expired_profiles() {
    let mut signed = signed_for("p@q.r");
    signed.profile.expires_at = Some(10);
    assert!(PearResolver::answer("p@q.r", Some(signed.clone()), 9).is_ok());
    assert_eq!(
        PearResolver::answer("p@q.r", Some(signed), 10),
        Err(SatsPathError::AliasNotFound("p@q.r".into()))
    );
    assert_eq!(PearResolver::answer("p@q.r", None, 0), Err(SatsPathError::AliasNotFound("p@q.r".into())));
}

struct Recording {
    name: &'static str,
    asked: std::rc::Rc<std::cell::RefCell<Vec<String>>>,
    answer: Option<SatsPathError>,
}

impl ProfileResolver for Recording {
    fn resolve_alias(&self, alias: &str) -> Result<SignedPaymentProfile, SatsPathError> {
        self.asked.borrow_mut().push(format!("{}:{}", self.name, alias));
        match &self.answer {
            Some(e) => Err(e.clone()),
            None => Ok(signed_for(alias)),
        }
    }
}

#[test]
fn chain_asks_in_order_until_an_answer() {
    let asked = std::rc::Rc::new(std::cell::RefCell::new(Vec::new()));
    let rec = |name: &'static str, answer: Option<SatsPathError>| Recording { name, asked: asked.clone(), answer };
    let chain = ChainResolver::new()
        .push(rec("a", Some(SatsPathError::AliasNotFound("x".into()))))
        .push(rec("b", Some(SatsPathError::NetworkError("down".into()))))
        .push(rec("c", None))
        .push(rec("d", None));
    let answer = chain.resolve_alias("test@domain.com").unwrap();
    assert_eq!(answer.profile.alias, "test@domain.com");
    assert_eq!(
        *asked.borrow(),
        vec!["a:test@domain.com", "b:test@domain.com", "c:test@domain.com"]
    );

    asked.borrow_mut().clear();
    let none = ChainResolver::new()
        .push(rec("a", Some(SatsPathError::AliasNotFound("x".into()))))
        .push(rec("b", Some(SatsPathError::NetworkError("down".into()))));
    assert_eq!(none.resolve_alias("q@r.s"), Err(SatsPathError::AliasNotFound("q@r.s".into())));
    assert_eq!(*asked.borrow(), vec!["a:q@r.s", "b:q@r.s"]);
}
