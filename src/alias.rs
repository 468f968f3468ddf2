//! The alias of a submission: a stable external name derived from the
//! producer's correlator and the request text, known before any round trip.
use vstd::prelude::*;
use vstd::utf8::*;
use crate::text::{decimal, decimal_text};
use base64::Engine;

verus! {

/// The BLAKE3 digest of a byte string.
pub uninterp spec fn blake3_of(bytes: Seq<u8>) -> Seq<u8>;

/// The standard (padded) base64 rendering of a byte string.
pub uninterp spec fn base64_of(bytes: Seq<u8>) -> Seq<char>;

/// What the standard base64 decoder, which requires canonical padding,
/// makes of a text: the bytes, or nothing where the text is not base64.
pub uninterp spec fn base64_decoded(text: Seq<char>) -> Option<Seq<u8>>;

#[verifier::external_type_specification]
#[verifier::external_body]
pub struct ExDecodeError(base64::DecodeError);

/// Relies on blake3::hash: the 32-byte digest of the input.
#[verifier::external_body]
fn blake3_digest(bytes: &[u8]) -> (r: Vec<u8>)
    ensures
        r@ == blake3_of(bytes@),
        r@.len() == 32,
{
    blake3::hash(bytes).as_bytes().to_vec()
}

/// Relies on base64's `Engine::encode` for the standard alphabet with the
/// default configuration (padding on): four symbols for each started group
/// of three bytes, which the same engine decodes back.
#[verifier::external_body]
fn base64_standard_encode(bytes: &[u8]) -> (r: String)
    requires
        bytes@.len() <= usize::MAX / 2,
    ensures
        r@ == base64_of(bytes@),
        r@.len() == 4 * ((bytes@.len() + 2) / 3),
        base64_decoded(r@) == Some(bytes@),
{
    base64::engine::GeneralPurpose::new(&base64::alphabet::STANDARD, Default::default()).encode(
        bytes,
    )
}

/// Relies on base64's `Engine::decode` for the standard alphabet with the
/// default configuration (canonical padding required).
#[verifier::external_body]
fn base64_standard_decode(text: &str) -> (r: Result<Vec<u8>, base64::DecodeError>)
    ensures
        match r {
            Ok(v) => base64_decoded(text@) == Some(v@),
            Err(_) => base64_decoded(text@) is None,
        },
{
    base64::engine::GeneralPurpose::new(&base64::alphabet::STANDARD, Default::default()).decode(
        text,
    )
}

/// Relies on the `Display` of base64::DecodeError: a message for the user.
#[verifier::external_body]
fn decode_error_text(e: &base64::DecodeError) -> (r: String) {
    e.to_string()
}

/// Standard base64 with padding.
pub fn encode_base64(bin: &[u8]) -> (r: String)
    requires
        bin@.len() <= usize::MAX / 2,
    ensures
        r@ == base64_of(bin@),
        r@.len() == 4 * ((bin@.len() + 2) / 3),
        base64_decoded(r@) == Some(bin@),
{
    base64_standard_encode(bin)
}

/// Decodes standard base64; a text that is not canonical base64 is a codec
/// error.
pub fn decode_base64(text: &str) -> (r: Result<Vec<u8>, crate::error::EngineError>)
    ensures
        match r {
            Ok(v) => base64_decoded(text@) == Some(v@),
            Err(e) => base64_decoded(text@) is None && e is Codec,
        },
{
    match base64_standard_decode(text) {
        Ok(v) => Ok(v),
        Err(e) => Err(crate::error::EngineError::Codec(decode_error_text(&e))),
    }
}

/// The text that is hashed: the client id in decimal, `;`, then the request.
pub open spec fn alias_text(client_id: u64, pem: Seq<char>) -> Seq<char> {
    decimal(client_id as nat) + seq![';'] + pem
}

/// The alias of the submission of `pem` by `client_id`.
pub open spec fn alias_of(client_id: u64, pem: Seq<char>) -> Seq<char> {
    base64_of(blake3_of(encode_utf8(alias_text(client_id, pem))))
}

/// The alias under which the submission of `pem` by `client_id` is followed:
/// base64 of the BLAKE3 digest of `"<client_id>;<pem>"`.
pub fn get_alt_name(client_id: u64, pem: &str) -> (r: String)
    ensures
        r@ == alias_of(client_id, pem@),
        r@.len() == 44,
{
    let mut input = decimal_text(client_id);
    proof {
        reveal_strlit(";");
    }
    input.append(";");
    input.append(pem);
    let digest = blake3_digest(input.as_str().as_bytes());
    assert(input@ == alias_text(client_id, pem@));
    base64_standard_encode(digest.as_slice())
}

/// The alias depends on the client id and the request alone: equal inputs
/// give equal aliases.
pub proof fn lemma_alias_pure(client_a: u64, pem_a: Seq<char>, client_b: u64, pem_b: Seq<char>)
    requires
        client_a == client_b,
        pem_a == pem_b,
    ensures
        alias_of(client_a, pem_a) == alias_of(client_b, pem_b),
{
}

} // verus!
