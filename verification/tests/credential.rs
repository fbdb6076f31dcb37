use sidecar_supervisor::credential::{generate_credential, CREDENTIAL_LEN};

#[test]
fn credential_is_a_hyphenated_lower_case_identifier() {
    let credential = generate_credential();
    assert_eq!(CREDENTIAL_LEN, 36);
    assert_eq!(credential.chars().count(), CREDENTIAL_LEN);
    for (i, c) in credential.chars().enumerate() {
        if i == 8 || i == 13 || i == 18 || i == 23 {
            assert_eq!(c, '-');
        } else {
            assert!(matches!(c, '0'..='9' | 'a'..='f'), "{c} at {i}");
        }
    }
}

#[test]
fn credentials_are_fresh() {
    assert_ne!(generate_credential(), generate_credential());
}
