//! The TLS identity guard: a certificate that does not name the address under
//! which the node is reached is removed together with its key, so that the
//! daemon makes a new pair at its next start.

use vstd::prelude::*;
use crate::text::same_text;

verus! {

/// One entry of a certificate's subject alternative names.
#[derive(Debug, Clone, PartialEq, Eq)]
pub enum SubjectName {
    /// A host name.
    Dns(String),
    /// An entry of any other kind.
    Other,
}

/// What a certificate file says of the names it is valid for.
#[derive(Debug, Clone, PartialEq, Eq)]
pub enum CertificateNames {
    /// The file is not a PEM block that holds an X.509 certificate.
    Unreadable,
    /// The certificate has no readable subject alternative names extension.
    NoAlternativeNames,
    /// The entries of the extension, in order.
    Names(Vec<SubjectName>),
}

/// An entry as a mathematical value.
pub enum SubjectNameView {
    Dns(Seq<char>),
    Other,
}

/// A certificate's names as a mathematical value.
pub enum CertificateNamesView {
    Unreadable,
    NoAlternativeNames,
    Names(Seq<SubjectNameView>),
}

impl View for SubjectName {
    type V = SubjectNameView;

    open spec fn view(&self) -> SubjectNameView {
        match *self {
            SubjectName::Dns(host) => SubjectNameView::Dns(host@),
            SubjectName::Other => SubjectNameView::Other,
        }
    }
}

impl View for CertificateNames {
    type V = CertificateNamesView;

    open spec fn view(&self) -> CertificateNamesView {
        match *self {
            CertificateNames::Unreadable => CertificateNamesView::Unreadable,
            CertificateNames::NoAlternativeNames => CertificateNamesView::NoAlternativeNames,
            CertificateNames::Names(names) => CertificateNamesView::Names(
                names@.map_values(|n: SubjectName| n@),
            ),
        }
    }
}

/// What `x509_parser` reads from the bytes of a certificate file.
pub uninterp spec fn certificate_names_of(pem: Seq<u8>) -> CertificateNamesView;

/// Reads the first PEM block of `pem` with `x509_parser::pem::parse_x509_pem`,
/// parses it with `Pem::parse_x509`, and copies out the entries that
/// `TbsCertificate::subject_alternative_name` returns, host names with their
/// text. Trusted: the outcome depends on the bytes alone.
#[verifier::external_body]
fn certificate_names(pem: &[u8]) -> (r: CertificateNames)
    ensures
        r@ == certificate_names_of(pem@),
{
    let Ok((_, block)) = x509_parser::pem::parse_x509_pem(pem) else {
        return CertificateNames::Unreadable;
    };
    let Ok(cert) = block.parse_x509() else {
        return CertificateNames::Unreadable;
    };
    let Some((_, san)) = cert.tbs_certificate.subject_alternative_name() else {
        return CertificateNames::NoAlternativeNames;
    };
    CertificateNames::Names(san.general_names.iter().map(|name| match name {
        x509_parser::extensions::GeneralName::DNSName(host) => SubjectName::Dns(host.to_string()),
        _ => SubjectName::Other,
    }).collect())
}

/// Why the guard cannot judge a certificate.
#[derive(Debug, Clone, Copy, PartialEq, Eq, Structural)]
pub enum CertError {
    /// The certificate file cannot be read as a certificate.
    UnreadableCertificate,
    /// The certificate carries no subject alternative names.
    MissingIdentityExtension,
}

/// What is to be done with the identity pair.
#[derive(Debug, Clone, Copy, PartialEq, Eq, Structural)]
pub enum IdentityAction {
    /// Leave key and certificate as they are.
    Keep,
    /// Remove key and certificate.
    Regenerate,
}

/// A file of the identity pair.
#[derive(Debug, Clone, Copy, PartialEq, Eq, Structural)]
pub enum IdentityFile {
    Key,
    Certificate,
}

/// Some entry is the host name `address`.
pub open spec fn names_contain(names: Seq<SubjectNameView>, address: Seq<char>) -> bool {
    exists|i: int| 0 <= i < names.len() && #[trigger] names[i] == SubjectNameView::Dns(address)
}

/// The guard's verdict on a certificate with the given names, for a node
/// reached under `expected`.
pub open spec fn identity_verdict(names: CertificateNamesView, expected: Seq<char>) -> Result<
    IdentityAction,
    CertError,
> {
    match names {
        CertificateNamesView::Unreadable => Err(CertError::UnreadableCertificate),
        CertificateNamesView::NoAlternativeNames => Err(CertError::MissingIdentityExtension),
        CertificateNamesView::Names(entries) => if names_contain(entries, expected) {
            Ok(IdentityAction::Keep)
        } else {
            Ok(IdentityAction::Regenerate)
        },
    }
}

/// The guard's verdict on a certificate file, or on its absence: without a
/// certificate there is nothing to do.
pub open spec fn guard_verdict(certificate: Option<Seq<u8>>, expected: Seq<char>) -> Result<
    IdentityAction,
    CertError,
> {
    match certificate {
        None => Ok(IdentityAction::Keep),
        Some(pem) => identity_verdict(certificate_names_of(pem), expected),
    }
}

/// The files that an action removes.
pub open spec fn removal_list(action: IdentityAction) -> Seq<IdentityFile> {
    match action {
        IdentityAction::Keep => Seq::empty(),
        IdentityAction::Regenerate => seq![IdentityFile::Key, IdentityFile::Certificate],
    }
}

/// The identity pair on disk: whether the key exists, and the certificate's
/// bytes if it exists.
pub struct IdentityFiles {
    pub key_present: bool,
    pub certificate: Option<Seq<u8>>,
}

/// The identity pair after the files that `action` lists have been removed.
pub open spec fn files_after(files: IdentityFiles, action: IdentityAction) -> IdentityFiles {
    IdentityFiles {
        key_present: files.key_present && !removal_list(action).contains(IdentityFile::Key),
        certificate: if removal_list(action).contains(IdentityFile::Certificate) {
            None
        } else {
            files.certificate
        },
    }
}

/// Whether some entry is the host name `address`.
pub fn has_dns_name(names: &Vec<SubjectName>, address: &str) -> (r: bool)
    ensures
        r == names_contain(names@.map_values(|n: SubjectName| n@), address@),
{
    let ghost views = names@.map_values(|n: SubjectName| n@);
    let mut i: usize = 0;
    while i < names.len()
        invariant
            i <= names.len(),
            views == names@.map_values(|n: SubjectName| n@),
            forall|j: int| 0 <= j < i ==> views[j] != SubjectNameView::Dns(address@),
        decreases names.len() - i,
    {
        assert(views[i as int] == names@[i as int]@);
        match &names[i] {
            SubjectName::Dns(host) => {
                if same_text(host.as_str(), address) {
                    return true;
                }
            },
            SubjectName::Other => {},
        }
        i += 1;
    }
    false
}

/// Judges a certificate by its names.
pub fn check_identity(names: &CertificateNames, expected: &str) -> (r: Result<
    IdentityAction,
    CertError,
>)
    ensures
        r == identity_verdict(names@, expected@),
{
    match names {
        CertificateNames::Unreadable => Err(CertError::UnreadableCertificate),
        CertificateNames::NoAlternativeNames => Err(CertError::MissingIdentityExtension),
        CertificateNames::Names(entries) => {
            if has_dns_name(entries, expected) {
                Ok(IdentityAction::Keep)
            } else {
                Ok(IdentityAction::Regenerate)
            }
        },
    }
}

/// Runs the guard. `certificate` holds the bytes of the certificate file, or
/// `None` if there is no such file; `expected` is the address under which
/// the node's control interface is reached.
pub fn guard_identity(certificate: Option<&[u8]>, expected: &str) -> (r: Result<
    IdentityAction,
    CertError,
>)
    ensures
        r == guard_verdict(
            match certificate {
                Some(pem) => Some(pem@),
                None => None,
            },
            expected@,
        ),
{
    match certificate {
        None => Ok(IdentityAction::Keep),
        Some(pem) => {
            let names = certificate_names(pem);
            check_identity(&names, expected)
        },
    }
}

/// The files to remove for an action: none, or both the key and the
/// certificate.
pub fn files_to_remove(action: IdentityAction) -> (r: Vec<IdentityFile>)
    ensures
        r@ == removal_list(action),
{
    match action {
        IdentityAction::Keep => Vec::new(),
        IdentityAction::Regenerate => {
            let mut r: Vec<IdentityFile> = Vec::new();
            r.push(IdentityFile::Key);
            r.push(IdentityFile::Certificate);
            r
        },
    }
}

/// No action removes one file of the pair and leaves the other.
pub proof fn lemma_never_half_a_pair(action: IdentityAction)
    ensures
        removal_list(action).contains(IdentityFile::Key) <==> removal_list(action).contains(
            IdentityFile::Certificate,
        ),
{
    let list = removal_list(action);
    if action == IdentityAction::Regenerate {
        assert(list[0] == IdentityFile::Key);
        assert(list[1] == IdentityFile::Certificate);
    }
}

/// A certificate that names the expected address is kept, and the pair is
/// left exactly as it was.
pub proof fn lemma_matching_identity_is_untouched(
    files: IdentityFiles,
    names: Seq<SubjectNameView>,
    expected: Seq<char>,
)
    requires
        files.certificate is Some,
        certificate_names_of(files.certificate->Some_0) == CertificateNamesView::Names(names),
        names_contain(names, expected),
    ensures
        guard_verdict(files.certificate, expected) == Ok::<IdentityAction, CertError>(
            IdentityAction::Keep,
        ),
        removal_list(IdentityAction::Keep).len() == 0,
        files_after(files, IdentityAction::Keep) == files,
{
}

/// A certificate that does not name the expected address leads to the
/// removal of the key and of the certificate, both.
pub proof fn lemma_mismatch_removes_both(
    files: IdentityFiles,
    names: Seq<SubjectNameView>,
    expected: Seq<char>,
)
    requires
        files.certificate is Some,
        certificate_names_of(files.certificate->Some_0) == CertificateNamesView::Names(names),
        !names_contain(names, expected),
    ensures
        guard_verdict(files.certificate, expected) == Ok::<IdentityAction, CertError>(
            IdentityAction::Regenerate,
        ),
        !files_after(files, IdentityAction::Regenerate).key_present,
        files_after(files, IdentityAction::Regenerate).certificate is None,
{
    let list = removal_list(IdentityAction::Regenerate);
    assert(list[0] == IdentityFile::Key);
    assert(list[1] == IdentityFile::Certificate);
}

/// Running the guard again on what its first run left behind keeps
/// everything: the second run removes no file.
pub proof fn lemma_guard_is_idempotent(files: IdentityFiles, expected: Seq<char>)
    requires
        guard_verdict(files.certificate, expected) is Ok,
    ensures
        ({
            let first = guard_verdict(files.certificate, expected)->Ok_0;
            let left = files_after(files, first);
            &&& guard_verdict(left.certificate, expected) == Ok::<IdentityAction, CertError>(
                IdentityAction::Keep,
            )
            &&& files_after(left, IdentityAction::Keep) == left
        }),
{
    let first = guard_verdict(files.certificate, expected)->Ok_0;
    if first == IdentityAction::Regenerate {
        // The certificate is gone, so the second run has nothing to judge.
        assert(removal_list(first)[1] == IdentityFile::Certificate);
    }
}

/// The message of a guard error.
pub open spec fn cert_message(e: CertError) -> Seq<char> {
    match e {
        CertError::UnreadableCertificate => "Unreadable certificate"@,
        CertError::MissingIdentityExtension => "No Alternative Names"@,
    }
}

impl CertError {
    /// The message to show for this error.
    pub fn message(&self) -> (r: String)
        ensures
            r@ == cert_message(*self),
    {
        match self {
            CertError::UnreadableCertificate => String::from_str("Unreadable certificate"),
            CertError::MissingIdentityExtension => String::from_str("No Alternative Names"),
        }
    }
}

} // verus!
