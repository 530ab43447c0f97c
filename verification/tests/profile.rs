use satspath::profile::{default_bitcoin_network, BitcoinNetwork, PaymentMethod};

fn lightning(address: Option<&str>, lnurl: Option<&str>, bolt12: Option<&str>) -> PaymentMethod {
    PaymentMethod::Lightning {
        label: "LN".into(),
        lightning_address: address.map(str::to_string),
        lnurl: lnurl.map(str::to_string),
        bolt12: bolt12.map(str::to_string),
        receiver_pubkey: None,
    }
}

#[test]
fn method_names_and_labels() {
    let chain = PaymentMethod::Onchain {
        label: "Savings".into(),
        network: BitcoinNetwork::Testnet,
        address: "tb1qabc".into(),
        pubkey_hint: None,
        descriptor_hint: None,
    };
    assert_eq!(chain.method_name(), "Onchain");
    assert_eq!(chain.label(), "Savings");
    assert_eq!(lightning(None, None, None).method_name(), "Lightning");
    assert_eq!(default_bitcoin_network(), BitcoinNetwork::Mainnet);
}

#[test]
fn ownership_descriptors() {
    let chain = PaymentMethod::Onchain {
        label: "x".into(),
        network: BitcoinNetwork::Regtest,
        address: "bcrt1q".into(),
        pubkey_hint: None,
        descriptor_hint: None,
    };
    assert_eq!(chain.ownership_descriptor(), "onchain:regtest:bcrt1q");
    assert_eq!(
        lightning(Some("  Alice@Example.COM "), Some("lnurl1"), None).ownership_descriptor(),
        "ln-address:alice@example.com"
    );
    assert_eq!(lightning(None, Some("lnurl1"), Some("lno1")).ownership_descriptor(), "lnurl:lnurl1");
    assert_eq!(lightning(None, None, Some("lno1")).ownership_descriptor(), "bolt12:lno1");
    assert_eq!(lightning(None, None, None).ownership_descriptor(), "lightning:LN");
    let ark = PaymentMethod::Ark {
        label: "Ark".into(),
        server: "https://ark".into(),
        pubkey: "02ff".into(),
        vtxo_pointer: None,
        proof: None,
        expires_at: None,
    };
    assert_eq!(ark.ownership_descriptor(), "ark:02ff");
}
