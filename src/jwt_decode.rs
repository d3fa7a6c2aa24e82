use vstd::prelude::*;
use jwt::header::HeaderContentType;
use jwt::{AlgorithmType, Claims};

verus! {

#[verifier::external_type_specification]
#[verifier::external_body]
pub struct ExJwtError(jwt::Error);

#[verifier::external_type_specification]
#[verifier::external_body]
pub struct ExClaims(jwt::Claims);

#[verifier::external_type_specification]
pub struct ExAlgorithmType(jwt::AlgorithmType);

#[verifier::external_type_specification]
pub struct ExHeaderContentType(jwt::header::HeaderContentType);

/// Header fields shown for a decoded token.
pub struct DecodedJwtHeader {
    pub alg: AlgorithmType,
    pub typ: HeaderContentType,
}

/// A token's header and claims, read without checking its signature.
pub struct DecodedJwt {
    pub header: DecodedJwtHeader,
    pub claims: Claims,
}

/// The algorithm and content type of a token's header, or `None` when the
/// token does not have three dot-separated parts whose header and claims
/// decode (base64url, then JSON).
pub uninterp spec fn parsed_header_of(token: Seq<char>) -> Option<(AlgorithmType, Option<HeaderContentType>)>;

/// A missing content type reads as "JWT".
pub open spec fn content_type_or_default(content_type: Option<HeaderContentType>) -> HeaderContentType {
    match content_type {
        Some(t) => t,
        None => HeaderContentType::JsonWebToken,
    }
}

/// Text that every decoding failure starts with.
pub open spec fn failure_prefix() -> Seq<char> {
    "Failed to decode JWT token. Please check that the token is valid and properly formatted. Error: "@
}

/// Relies on jwt's `Token::parse_unverified` (with `Header` and `Claims`):
/// `Ok` exactly when the token parses; hands back the header's algorithm and
/// content type, and the claims.
#[verifier::external_body]
fn parse_unverified(token: &str) -> (r: Result<(AlgorithmType, Option<HeaderContentType>, Claims), jwt::Error>)
    ensures
        r is Ok == parsed_header_of(token@) is Some,
        r matches Ok(parts) ==> parsed_header_of(token@) == Some((parts.0, parts.1)),
{
    match jwt::Token::<jwt::Header, jwt::Claims, jwt::Unverified>::parse_unverified(token) {
        Ok(t) => Ok((t.header().algorithm, t.header().content_type, t.claims().clone())),
        Err(e) => Err(e),
    }
}

/// Relies on the `Display` of jwt's `Error`: its message. Nothing is stated of it.
#[verifier::external_body]
fn error_text(e: &jwt::Error) -> (r: String) {
    e.to_string()
}

/// The message reported when a token cannot be decoded.
pub fn failure_message(detail: &str) -> (r: String)
    ensures
        r@ == failure_prefix() + detail@,
{
    let prefix = "Failed to decode JWT token. Please check that the token is valid and properly formatted. Error: ";
    String::from_str(prefix).concat(detail)
}

/// Assembles a decoded token; a missing content type reads as "JWT".
pub fn decoded_from_parts(
    alg: AlgorithmType,
    content_type: Option<HeaderContentType>,
    claims: Claims,
) -> (r: DecodedJwt)
    ensures
        r.header.alg == alg,
        r.header.typ == content_type_or_default(content_type),
        r.claims == claims,
{
    let typ = match content_type {
        Some(t) => t,
        None => HeaderContentType::JsonWebToken,
    };
    DecodedJwt { header: DecodedJwtHeader { alg, typ }, claims }
}

/// Decodes a token's header and claims without verifying its signature.
pub fn decode_jwt(token: &str) -> (r: Result<DecodedJwt, String>)
    ensures
        r is Ok == parsed_header_of(token@) is Some,
        r matches Ok(d) ==> parsed_header_of(token@) matches Some(h) && d.header.alg == h.0
            && d.header.typ == content_type_or_default(h.1),
        r matches Err(m) ==> m@.len() >= failure_prefix().len() && m@.subrange(
            0,
            failure_prefix().len() as int,
        ) == failure_prefix(),
{
    match parse_unverified(token) {
        Ok((alg, content_type, claims)) => Ok(decoded_from_parts(alg, content_type, claims)),
        Err(e) => {
            let detail = error_text(&e);
            let m = failure_message(detail.as_str());
            assert(m@.subrange(0, failure_prefix().len() as int) =~= failure_prefix());
            Err(m)
        },
    }
}

} // verus!
