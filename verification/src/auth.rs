//! Token issuance and verification.
//!
//! A token is a signed credential over a claim set and a symmetric secret.
//! The signing scheme itself lives in an outside crate; its two operations are
//! named by uninterpreted functions (`token_of`, `decoded_claims`), and every
//! decision the service takes on a token is verified against those names.

use vstd::prelude::*;

use crate::config::{Claims, ServerConfig};

verus! {

/// The claim set embedded in a token, as mathematical values.
pub ghost struct ClaimsView {
    pub location: Seq<char>,
    pub ip_port: Seq<char>,
    pub description: Seq<char>,
    pub uuid: Seq<char>,
    pub exp: u64,
}

/// The claim set with the given fields.
pub open spec fn claims_view(
    location: Seq<char>,
    ip_port: Seq<char>,
    description: Seq<char>,
    uuid: Seq<char>,
    exp: u64,
) -> ClaimsView {
    ClaimsView { location, ip_port, description, uuid, exp }
}

/// The signed token that the signing scheme produces for a claim set under a
/// secret. It depends on the claim fields and the secret alone.
pub uninterp spec fn token_of(claims: ClaimsView, secret: Seq<char>) -> Seq<char>;

/// What signature verification yields for a presented token under a secret:
/// the embedded claim set, or nothing when the token is malformed or its
/// signature does not match the secret. The expiry bound is not part of this
/// name; the library enforces it itself. The outcome depends on the token and
/// the secret alone.
pub uninterp spec fn decoded_claims(token: Seq<char>, secret: Seq<char>) -> Option<ClaimsView>;

/// A token is admitted at time `now` when its signature verifies under
/// `secret` and its expiry bound has not passed.
pub open spec fn token_valid(token: Seq<char>, secret: Seq<char>, now: u64) -> bool {
    match decoded_claims(token, secret) {
        Some(claims) => claims.exp >= now,
        None => false,
    }
}

/// Relies on uuid::Uuid::new_v4 and its hyphenated rendering: a freshly drawn
/// random identifier, 36 characters long.
#[verifier::external_body]
pub(crate) fn fresh_secret() -> (r: String)
    ensures
        r@.len() == 36,
{
    uuid::Uuid::new_v4().to_string()
}

/// Relies on jsonwebtoken::encode under the default header (HS256): the token
/// is a deterministic function of the claim fields and the secret, and
/// signature verification under the same secret recovers exactly the claim
/// set it was issued over (the crate's sign-then-verify round trip). Encoding
/// cannot fail here — the key family matches the header, and serializing a
/// JSON object and HMAC-signing are infallible — so success is promised.
#[verifier::external_body]
pub(crate) fn encode_claims(
    location: &str,
    ip_port: &str,
    description: &str,
    uuid: &str,
    exp: u64,
    secret: &str,
) -> (r: Option<String>)
    ensures
        r is Some,
        r matches Some(t) ==> t@ == token_of(
            claims_view(location@, ip_port@, description@, uuid@, exp),
            secret@,
        ),
        r matches Some(t) ==> decoded_claims(t@, secret@) == Some(
            claims_view(location@, ip_port@, description@, uuid@, exp),
        ),
{
    let mut claims = serde_json::Map::new();
    claims.insert("location".to_owned(), serde_json::Value::from(location));
    claims.insert("ip_port".to_owned(), serde_json::Value::from(ip_port));
    claims.insert("description".to_owned(), serde_json::Value::from(description));
    claims.insert("uuid".to_owned(), serde_json::Value::from(uuid));
    claims.insert("exp".to_owned(), serde_json::Value::from(exp));
    jsonwebtoken::encode(
        &jsonwebtoken::Header::default(),
        &serde_json::Value::Object(claims),
        &jsonwebtoken::EncodingKey::from_secret(secret.as_bytes()),
    ).ok()
}

/// Relies on jsonwebtoken::decode over HS256 with a fixed configuration whose
/// expiry check is turned off: the outcome then depends on the token and the
/// secret alone. The expiry bound is enforced by the verified caller.
#[verifier::external_body]
pub(crate) fn decode_claims(token: &str, secret: &str) -> (r: Option<Claims>)
    ensures
        r matches Some(c) ==> decoded_claims(token@, secret@) == Some(c@),
        r is None ==> decoded_claims(token@, secret@) is None,
{
    let mut validation = jsonwebtoken::Validation::default();
    validation.validate_exp = false;
    validation.required_spec_claims = std::collections::HashSet::new();
    let key = jsonwebtoken::DecodingKey::from_secret(secret.as_bytes());
    let c = jsonwebtoken::decode::<serde_json::Value>(token, &key, &validation).ok()?.claims;
    Some(Claims {
        location: c.get("location")?.as_str()?.to_owned(),
        ip_port: c.get("ip_port")?.as_str()?.to_owned(),
        description: c.get("description")?.as_str()?.to_owned(),
        uuid: c.get("uuid")?.as_str()?.to_owned(),
        exp: c.get("exp")?.as_u64()?,
    })
}

/// Law (token round trip): a well-formed identity record's token verifies
/// under the record's own secret at any time up to its expiry, and yields
/// exactly the claim set it was issued over — so, combined with
/// `authenticate`'s contract, verifying a freshly issued token against the
/// issuing secret succeeds and returns claims matching the identity fields.
pub proof fn lemma_token_round_trip(cfg: ServerConfig, now: u64)
    requires
        cfg.wf(),
        now <= cfg.claims().exp,
    ensures
        token_valid(cfg.token@, cfg.password@, now),
        decoded_claims(cfg.token@, cfg.password@) == Some(cfg.claims()),
{
}

/// Law (secret binding): a token is admitted only together with a secret
/// the signing scheme accepts it under — one that does not verify under
/// the presented secret is refused, whatever claims it carries. That a token
/// issued under one secret never verifies under a different one rests on the
/// signing scheme itself and is exercised by tests against the real scheme.
pub proof fn lemma_secret_binding(token: Seq<char>, secret: Seq<char>, now: u64)
    requires
        decoded_claims(token, secret) is None,
    ensures
        !token_valid(token, secret, now),
{
}

/// Law (expiry enforcement): a token whose claim set has expired is refused
/// even when its signature verifies, exactly as a mis-signed one is.
pub proof fn lemma_expired_token_refused(token: Seq<char>, secret: Seq<char>, now: u64)
    requires
        decoded_claims(token, secret) matches Some(claims) && claims.exp < now,
    ensures
        !token_valid(token, secret, now),
{
}

/// Verify a presented token against the secret at time `now`.
///
/// Any failure — malformed token, wrong secret, expired claim — collapses to
/// `None`; the caller never learns which check failed.
pub fn authenticate(token: &str, secret: &str, now: u64) -> (r: Option<Claims>)
    ensures
        token_valid(token@, secret@, now) ==> (r matches Some(c)
            && decoded_claims(token@, secret@) == Some(c@)),
        !token_valid(token@, secret@, now) ==> r is None,
{
    match decode_claims(token, secret) {
        Some(claims) => {
            if claims.exp >= now {
                Some(claims)
            } else {
                None
            }
        },
        None => None,
    }
}

} // verus!
