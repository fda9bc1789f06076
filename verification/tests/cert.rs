use configurator::cert::{
    check_identity, files_to_remove, guard_identity, has_dns_name, CertError, CertificateNames,
    IdentityAction, IdentityFile, SubjectName,
};

const WITH_NAMES: &[u8] = b"-----BEGIN CERTIFICATE-----
MIIBrDCCAVKgAwIBAgIUTSnBvLBUQj37evu5tRT3aDHD/7owCgYIKoZIzj0EAwIw
DzENMAsGA1UEAwwEbm9kZTAgFw0yNjEwMjgyMDQ0MzhaGA8yMTI2MTAwNDIwNDQz
OFowDzENMAsGA1UEAwwEbm9kZTBZMBMGByqGSM49AgEGCCqGSM49AwEHA0IABDTQ
9rJUDcEE0Z8kJeA/BecajGYSrr9pXumSJ7TV6QTnADnFcUD8Bhw8QaJJnITHFHY3
ElMyH3pXUQuX4ZYo7CKjgYkwgYYwHQYDVR0OBBYEFPGNFZRhua8UUZU8aNSEbJg5
n/4hMB8GA1UdIwQYMBaAFPGNFZRhua8UUZU8aNSEbJg5n/4hMA8GA1UdEwEB/wQF
MAMBAf8wMwYDVR0RBCwwKoIJbG9jYWxob3N0ghBhYmNkZWZnaGlqLm9uaW9uhwR/
AAABgQVhQGIuYzAKBggqhkjOPQQDAgNIADBFAiBVHcbk5h3NrG4hNk/qctc8IbLT
WEI0diX6XfSL5RWFgwIhAMBB9G+I52dCpLCF/UcAEfIH/JE9QG8Ygz7qz7jEPJPL
-----END CERTIFICATE-----
";

const WITHOUT_NAMES: &[u8] = b"-----BEGIN CERTIFICATE-----
MIIBdDCCARugAwIBAgIUBrQw9GPBmcD0IsQCDQ8LbuvcDpwwCgYIKoZIzj0EAwIw
DzENMAsGA1UEAwwEbm9kZTAgFw0yNjEwMjgyMDQ0MzhaGA8yMTI2MTAwNDIwNDQz
OFowDzENMAsGA1UEAwwEbm9kZTBZMBMGByqGSM49AgEGCCqGSM49AwEHA0IABOep
KfEs0oTW/Tt5oUj8w+DRCkOomsH5lmuMkk55OmTiDP8YXSeixZS3QlfvOFXjT6GH
1sH30TSQlMWFTyvxvB+jUzBRMB0GA1UdDgQWBBS1PiSZX/VwXlgrs+AtbJ+nzIrt
RDAfBgNVHSMEGDAWgBS1PiSZX/VwXlgrs+AtbJ+nzIrtRDAPBgNVHRMBAf8EBTAD
AQH/MAoGCCqGSM49BAMCA0cAMEQCIHzoMCCcNKRQfRzcsDqPhjjsFR+k1OmLDdkd
gOgnY93FAiBpDz3qafayhjH+EOzjdhzhHoDF5Rb2kYFpt9Lm1wYGcw==
-----END CERTIFICATE-----
";

fn dns(host: &str) -> SubjectName {
    SubjectName::Dns(host.to_string())
}

#[test]
fn absent_certificate_is_no_error() {
    assert_eq!(guard_identity(None, "abcdefghij.onion"), Ok(IdentityAction::Keep));
}

#[test]
fn certificate_that_names_the_address_is_kept() {
    assert_eq!(
        guard_identity(Some(WITH_NAMES), "abcdefghij.onion"),
        Ok(IdentityAction::Keep)
    );
    assert_eq!(guard_identity(Some(WITH_NAMES), "localhost"), Ok(IdentityAction::Keep));
}

#[test]
fn certificate_that_does_not_name_the_address_is_regenerated() {
    assert_eq!(
        guard_identity(Some(WITH_NAMES), "other.onion"),
        Ok(IdentityAction::Regenerate)
    );
    // Only host names count: the address and the mail entry do not.
    assert_eq!(
        guard_identity(Some(WITH_NAMES), "127.0.0.1"),
        Ok(IdentityAction::Regenerate)
    );
    assert_eq!(guard_identity(Some(WITH_NAMES), "a@b.c"), Ok(IdentityAction::Regenerate));
}

#[test]
fn certificate_without_alternative_names_is_an_error() {
    assert_eq!(
        guard_identity(Some(WITHOUT_NAMES), "abcdefghij.onion"),
        Err(CertError::MissingIdentityExtension)
    );
}

#[test]
fn unreadable_certificate_is_an_error() {
    assert_eq!(
        guard_identity(Some(b"not a certificate"), "abcdefghij.onion"),
        Err(CertError::UnreadableCertificate)
    );
    assert_eq!(
        guard_identity(
            Some(b"-----BEGIN CERTIFICATE-----\nAQID\n-----END CERTIFICATE-----\n"),
            "abcdefghij.onion"
        ),
        Err(CertError::UnreadableCertificate)
    );
}

#[test]
fn guard_run_twice_mutates_nothing_the_second_time() {
    // Matching: nothing to remove, either time.
    let first = guard_identity(Some(WITH_NAMES), "localhost").unwrap();
    assert!(files_to_remove(first).is_empty());
    let second = guard_identity(Some(WITH_NAMES), "localhost").unwrap();
    assert!(files_to_remove(second).is_empty());
    // Mismatched: both files go, and the second run finds no certificate.
    let first = guard_identity(Some(WITH_NAMES), "other.onion").unwrap();
    assert_eq!(files_to_remove(first), vec![IdentityFile::Key, IdentityFile::Certificate]);
    let second = guard_identity(None, "other.onion").unwrap();
    assert!(files_to_remove(second).is_empty());
}

#[test]
fn check_identity_by_names() {
    let names = CertificateNames::Names(vec![SubjectName::Other, dns("a.onion"), dns("b.onion")]);
    assert_eq!(check_identity(&names, "b.onion"), Ok(IdentityAction::Keep));
    assert_eq!(check_identity(&names, "a.onion"), Ok(IdentityAction::Keep));
    assert_eq!(check_identity(&names, "c.onion"), Ok(IdentityAction::Regenerate));
    assert_eq!(check_identity(&names, ""), Ok(IdentityAction::Regenerate));
    assert_eq!(
        check_identity(&CertificateNames::Names(vec![]), "a.onion"),
        Ok(IdentityAction::Regenerate)
    );
    assert_eq!(
        check_identity(&CertificateNames::NoAlternativeNames, "a.onion"),
        Err(CertError::MissingIdentityExtension)
    );
    assert_eq!(
        check_identity(&CertificateNames::Unreadable, "a.onion"),
        Err(CertError::UnreadableCertificate)
    );
}

#[test]
fn has_dns_name_needs_an_exact_match() {
    let names = vec![dns("a.onion"), SubjectName::Other];
    assert!(has_dns_name(&names, "a.onion"));
    assert!(!has_dns_name(&names, "A.onion"));
    assert!(!has_dns_name(&names, "a.onio"));
    assert!(!has_dns_name(&vec![], "a.onion"));
}

#[test]
fn removal_is_all_or_nothing() {
    assert_eq!(files_to_remove(IdentityAction::Keep), vec![]);
    assert_eq!(
        files_to_remove(IdentityAction::Regenerate),
        vec![IdentityFile::Key, IdentityFile::Certificate]
    );
}

#[test]
fn guard_errors_have_their_messages() {
    assert_eq!(CertError::MissingIdentityExtension.message(), "No Alternative Names");
    assert_eq!(CertError::UnreadableCertificate.message(), "Unreadable certificate");
}
