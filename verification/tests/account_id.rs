use workspaces::rpc::tool::{dev_account_id, endpoint_from, helper_endpoint};
use workspaces::text::to_decimal;
use workspaces::types::{copy_bytes, AccountId, InMemorySigner, SecretKey};
use workspaces::Error;

#[test]
fn valid_identifiers_are_accepted() {
    for text in ["ab", "testnet", "test.near", "a-b_c.d0", "0x", "sub.alice", "a.b.c.d"] {
        let id = AccountId::from_str(text).unwrap();
        assert_eq!(id.as_str(), text);
        assert_eq!(id.to_string(), text);
    }
    let longest = "a".repeat(64);
    assert_eq!(AccountId::from_str(&longest).unwrap().as_str(), longest);
}

#[test]
fn invalid_identifiers_are_refused() {
    for text in [
        "", "a", "A", "Ab", "aB", ".ab", "ab.", "-ab", "ab-", "_ab", "ab_", "a..b", "a.-b", "a__b",
        "a b", "a@b", "ab\u{e9}", "\u{e9}\u{e9}", "a/b", "a:b",
    ] {
        assert!(AccountId::from_str(text).is_none(), "{:?}", text);
    }
    let too_long = "a".repeat(65);
    assert!(AccountId::from_str(&too_long).is_none());
}

#[test]
fn top_level_means_no_dot() {
    assert!(AccountId::from_str("alice").unwrap().is_top_level());
    assert!(AccountId::from_str("al-ice_0").unwrap().is_top_level());
    assert!(!AccountId::from_str("alice.near").unwrap().is_top_level());
    assert!(!AccountId::from_str("a.b.c").unwrap().is_top_level());
}

#[test]
fn identifiers_compare_by_their_text() {
    let a = AccountId::from_str("alice").unwrap();
    let b = AccountId::from_str("alice").unwrap();
    let c = AccountId::from_str("alicf").unwrap();
    assert_eq!(a, b);
    assert_ne!(a, c);
    assert_eq!(a.clone(), a);
}

#[test]
fn decimal_numerals() {
    assert_eq!(to_decimal(0), "0");
    assert_eq!(to_decimal(7), "7");
    assert_eq!(to_decimal(10), "10");
    assert_eq!(to_decimal(3030), "3030");
    assert_eq!(to_decimal(65535), "65535");
    assert_eq!(to_decimal(1234567890), "1234567890");
    assert_eq!(to_decimal(u64::MAX), "18446744073709551615");
}

#[test]
fn dev_accounts_are_named_after_stamp_and_salt() {
    let id = dev_account_id(20211013203542, 19272259128235);
    assert_eq!(id.as_str(), "dev-20211013203542-19272259128235");
    assert!(id.is_top_level());
    assert_eq!(dev_account_id(0, 0).as_str(), "dev-0-0");
    assert_eq!(
        dev_account_id(u64::MAX, u64::MAX).as_str(),
        "dev-18446744073709551615-18446744073709551615"
    );
}

#[test]
fn helper_endpoint_is_the_serialized_url() {
    assert_eq!(
        helper_endpoint("https://helper.testnet.near.org"),
        Ok("https://helper.testnet.near.org/".to_string())
    );
    assert_eq!(
        helper_endpoint("HTTP://Example.COM:80/a/../b"),
        Ok("http://example.com/b".to_string())
    );
}

#[test]
fn helper_endpoint_that_is_no_url_is_an_error() {
    let expected = Err(Error::HelperServiceError("helper endpoint is not a valid URL".to_string()));
    assert_eq!(helper_endpoint("not a url"), expected);
    assert_eq!(helper_endpoint(""), expected);
    assert_eq!(helper_endpoint("https://"), expected);
}

#[test]
fn parsed_endpoint_is_judged() {
    assert_eq!(endpoint_from(Ok("https://x.org/".to_string())), Ok("https://x.org/".to_string()));
    assert_eq!(
        endpoint_from(Err(url::ParseError::EmptyHost)),
        Err(Error::HelperServiceError("helper endpoint is not a valid URL".to_string()))
    );
}

#[test]
fn keys_keep_their_halves() {
    let key = SecretKey::from_parts(vec![1, 2, 3], vec![4, 5]);
    assert_eq!(key.secret_bytes(), &vec![1, 2, 3]);
    assert_eq!(key.public_key().data, vec![4, 5]);
    let copy = key.clone();
    assert_eq!(copy, key);
    assert_eq!(copy_bytes(&vec![]), Vec::<u8>::new());
    assert_eq!(copy_bytes(&vec![9, 8, 7]), vec![9, 8, 7]);

    let id = AccountId::from_str("alice").unwrap();
    let signer = InMemorySigner::from_secret_key(id.clone(), key.clone());
    assert_eq!(signer.account_id, id);
    assert_eq!(signer.secret_key, key);
    assert_eq!(signer.public_key().data, vec![4, 5]);
    assert_eq!(signer.clone(), signer);
}
