//! Issuing a certificate for a signing request with the CA's certificate and
//! key, through rcgen.
use vstd::prelude::*;
use crate::error::EngineError;

verus! {

/// Whether a text is a PEM signing request that rcgen parses and whose
/// signature checks.
pub uninterp spec fn request_parses(pem: Seq<char>) -> bool;

/// Whether a text is a PEM certificate that rcgen reads as an issuer: its
/// key usages, key identifier method and subject name.
pub uninterp spec fn ca_certificate_parses(pem: Seq<char>) -> bool;

#[verifier::external_type_specification]
#[verifier::external_body]
pub struct ExKeyPair(rcgen::KeyPair);

#[verifier::external_type_specification]
#[verifier::external_body]
#[verifier::reject_recursive_types(S)]
pub struct ExIssuer<'a, S>(rcgen::Issuer<'a, S>);

#[verifier::external_type_specification]
#[verifier::external_body]
pub struct ExCertificateSigningRequestParams(rcgen::CertificateSigningRequestParams);

#[verifier::external_type_specification]
#[verifier::external_body]
pub struct ExCertificate(rcgen::Certificate);

#[verifier::external_type_specification]
#[verifier::external_body]
pub struct ExRcgenError(rcgen::Error);

/// Relies on rcgen::CertificateSigningRequestParams::from_pem: parsing and
/// checking a request depends on its text alone.
#[verifier::external_body]
fn parse_request(pem: &str) -> (r: Result<rcgen::CertificateSigningRequestParams, rcgen::Error>)
    ensures
        r is Ok == request_parses(pem@),
{
    rcgen::CertificateSigningRequestParams::from_pem(pem)
}

/// Relies on rcgen::SerialNumber::from(u64): sets the serial number of the
/// certificate to be issued.
#[verifier::external_body]
fn set_serial(params: &mut rcgen::CertificateSigningRequestParams, serial: u64) {
    params.params.serial_number = Some(rcgen::SerialNumber::from(serial));
}

/// Relies on rcgen::KeyPair::from_pem: reads a private key.
#[verifier::external_body]
fn parse_key_pair(pem: &str) -> (r: Result<rcgen::KeyPair, rcgen::Error>) {
    rcgen::KeyPair::from_pem(pem)
}

/// Relies on rcgen::Issuer::from_ca_cert_pem: an issuer from the CA's
/// certificate and key; whether it succeeds depends on the certificate's
/// text alone, the key being only kept.
#[verifier::external_body]
fn issuer_from_ca(
    certificate_pem: &str,
    key: rcgen::KeyPair,
) -> (r: Result<rcgen::Issuer<'static, rcgen::KeyPair>, rcgen::Error>)
    ensures
        r is Ok == ca_certificate_parses(certificate_pem@),
{
    rcgen::Issuer::from_ca_cert_pem(certificate_pem, key)
}

/// Relies on rcgen::CertificateSigningRequestParams::signed_by: issues the
/// certificate.
#[verifier::external_body]
fn sign_params(
    params: &rcgen::CertificateSigningRequestParams,
    issuer: &rcgen::Issuer<'static, rcgen::KeyPair>,
) -> (r: Result<rcgen::Certificate, rcgen::Error>) {
    params.signed_by(issuer)
}

/// Relies on rcgen::Certificate::pem: the certificate, PEM encoded.
#[verifier::external_body]
fn certificate_pem(certificate: &rcgen::Certificate) -> (r: String) {
    certificate.pem()
}

/// Relies on the `Display` of rcgen::Error: a message for the user.
#[verifier::external_body]
fn rcgen_error_text(e: &rcgen::Error) -> (r: String) {
    e.to_string()
}

/// Checks that `pem` is a signing request that can be signed; the failure
/// carries rcgen's message.
pub fn check_request(pem: &str) -> (r: Result<(), EngineError>)
    ensures
        r is Ok == request_parses(pem@),
        r matches Err(e) ==> e is Crypto,
{
    match parse_request(pem) {
        Ok(_) => Ok(()),
        Err(e) => Err(EngineError::Crypto(rcgen_error_text(&e))),
    }
}

/// Issues a certificate for the request `request_pem`, with serial number
/// `serial`, signed by the CA whose certificate and private key are given in
/// PEM. Every failure is a crypto error with rcgen's message; a request that
/// does not parse, or a CA certificate that does not, always fails.
pub fn sign_request(request_pem: &str, serial: u64, ca_certificate: &str, ca_key: &str) -> (r:
    Result<String, EngineError>)
    ensures
        !request_parses(request_pem@) ==> r is Err,
        !ca_certificate_parses(ca_certificate@) ==> r is Err,
        r matches Err(e) ==> e is Crypto,
{
    let key = match parse_key_pair(ca_key) {
        Ok(k) => k,
        Err(e) => return Err(EngineError::Crypto(rcgen_error_text(&e))),
    };
    let issuer = match issuer_from_ca(ca_certificate, key) {
        Ok(i) => i,
        Err(e) => return Err(EngineError::Crypto(rcgen_error_text(&e))),
    };
    let mut params = match parse_request(request_pem) {
        Ok(p) => p,
        Err(e) => return Err(EngineError::Crypto(rcgen_error_text(&e))),
    };
    set_serial(&mut params, serial);
    match sign_params(&params, &issuer) {
        Ok(certificate) => Ok(certificate_pem(&certificate)),
        Err(e) => Err(EngineError::Crypto(rcgen_error_text(&e))),
    }
}

} // verus!
