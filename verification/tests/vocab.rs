use barreleye_client::text::same_text;
use barreleye_client::{Blockchain, Env};

#[test]
fn environments_have_lowercase_tokens() {
    assert_eq!(Env::Localhost.as_str(), "localhost");
    assert_eq!(Env::Testnet.as_str(), "testnet");
    assert_eq!(Env::Mainnet.as_str(), "mainnet");
}

#[test]
fn protocol_families_have_lowercase_tokens() {
    assert_eq!(Blockchain::Bitcoin.as_str(), "bitcoin");
    assert_eq!(Blockchain::Evm.as_str(), "evm");
}

#[test]
fn reading_a_token_undoes_writing_it() {
    for env in [Env::Localhost, Env::Testnet, Env::Mainnet] {
        assert_eq!(Env::from_token(env.as_str()), Some(env));
    }
    for blockchain in [Blockchain::Bitcoin, Blockchain::Evm] {
        assert_eq!(Blockchain::from_token(blockchain.as_str()), Some(blockchain));
    }
}

#[test]
fn a_text_outside_the_vocabulary_names_nothing() {
    assert_eq!(Env::from_token(""), None);
    assert_eq!(Env::from_token("MAINNET"), None);
    assert_eq!(Env::from_token("mainnet "), None);
    assert_eq!(Env::from_token("evm"), None);
    assert_eq!(Blockchain::from_token(""), None);
    assert_eq!(Blockchain::from_token("Evm"), None);
    assert_eq!(Blockchain::from_token("mainnet"), None);
}

#[test]
fn same_text_compares_every_character() {
    assert!(same_text("", ""));
    assert!(same_text("mainnet", "mainnet"));
    assert!(!same_text("mainnet", "testnet"));
    assert!(!same_text("mainnet", "mainne"));
    assert!(!same_text("mainne", "mainnet"));
    assert!(!same_text("", "a"));
    assert!(same_text("ünï", "ünï"));
    assert!(!same_text("ünï", "uni"));
}
