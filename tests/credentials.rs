use release_kit::credentials::{
    validate_account_id, validate_api_token, validate_domain, validate_r2_access_key,
    CredentialError,
};

#[test]
fn api_token_rules() {
    assert!(matches!(validate_api_token(""), Err(CredentialError::TokenEmpty)));
    assert!(matches!(validate_api_token("abc"), Err(CredentialError::TokenTooShort)));
    assert!(matches!(
        validate_api_token("abcdefghij0123456789!"),
        Err(CredentialError::TokenInvalidCharacters)
    ));
    assert!(validate_api_token("abcdefghij_0123456789-XYZ").is_ok());
    assert!(validate_api_token("a".repeat(20).as_str()).is_ok());
    assert!(validate_api_token("a".repeat(19).as_str()).is_err());
}

#[test]
fn api_token_length_counts_bytes() {
    // Nine two-byte characters and two ASCII letters: 20 bytes, 11 characters.
    let t = format!("{}ab", "é".repeat(9));
    assert!(matches!(validate_api_token(&t), Err(CredentialError::TokenInvalidCharacters)));
}

#[test]
fn account_id_rules() {
    assert!(matches!(validate_account_id(""), Err(CredentialError::AccountIdEmpty)));
    assert!(matches!(validate_account_id("abc"), Err(CredentialError::AccountIdWrongLength)));
    assert!(matches!(
        validate_account_id("0123456789abcdef0123456789abcdeg"),
        Err(CredentialError::AccountIdNotHex)
    ));
    assert!(validate_account_id("0123456789abcdef0123456789ABCDEF").is_ok());
}

#[test]
fn access_key_rules() {
    assert!(matches!(validate_r2_access_key(""), Err(CredentialError::AccessKeyEmpty)));
    assert!(matches!(validate_r2_access_key("abc123"), Err(CredentialError::AccessKeyTooShort)));
    assert!(matches!(
        validate_r2_access_key("abc123-xyz789"),
        Err(CredentialError::AccessKeyNotAlphanumeric)
    ));
    assert!(validate_r2_access_key("abc123xyz789").is_ok());
}

#[test]
fn domain_rules() {
    assert!(validate_domain("example.com").is_ok());
    assert!(validate_domain("my-site.example.co.uk").is_ok());
    assert!(matches!(validate_domain(""), Err(CredentialError::DomainEmpty)));
    assert!(matches!(validate_domain("localhost"), Err(CredentialError::DomainNoDot)));
    assert!(matches!(validate_domain(".example.com"), Err(CredentialError::DomainDotAtEdge)));
    assert!(matches!(validate_domain("example.com."), Err(CredentialError::DomainDotAtEdge)));
    assert!(matches!(validate_domain("-example.com"), Err(CredentialError::DomainHyphenAtEdge)));
    assert!(matches!(validate_domain("exa_mple.com"), Err(CredentialError::DomainInvalidCharacters)));
    assert!(matches!(validate_domain("example..com"), Err(CredentialError::DomainConsecutiveDots)));
    let long = format!("{}.com", "a".repeat(64));
    match validate_domain(&long) {
        Err(CredentialError::DomainLabelTooLong(l)) => assert_eq!(l, "a".repeat(64)),
        other => panic!("{:?}", other),
    }
    assert!(validate_domain(&format!("{}.com", "a".repeat(63))).is_ok());
    match validate_domain("good.-bad.com") {
        Err(CredentialError::DomainLabelHyphen(l)) => assert_eq!(l, "-bad"),
        other => panic!("{:?}", other),
    }
}

#[test]
fn messages_name_the_label() {
    let e = CredentialError::DomainLabelHyphen("-x".to_string());
    assert_eq!(e.message(), "Domain label '-x' cannot start or end with hyphen");
}
