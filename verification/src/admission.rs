//! The admission gate: a connection becomes a session only if its handshake
//! carries a credential and the credential is valid. Nothing here touches
//! the store or the channel, so a refused connection leaves no trace.
//!
//! The credential is a signed token. Checking its signature and its expiry
//! is the work of `jsonwebtoken`; splitting a query string is the work of
//! `serde_urlencoded`.

use vstd::prelude::*;
use crate::config::Config;
use crate::errors::{AppError, AppErrorView};
use crate::json::{integer_member_within, json_members, json_text, json_unsigned, text_member, JsonMember};
use crate::text::{owned, same_text};

verus! {

/// Why a connection was refused. Either way the answer is "unauthorized",
/// and the connection is not upgraded.
#[derive(Clone, Copy, Debug, PartialEq, Eq, Structural)]
pub enum AdmissionError {
    /// The handshake carried no credential.
    MissingCredential,
    /// The credential was malformed, wrongly signed or expired, or named no
    /// identity.
    InvalidCredential,
}

/// The error that a refusal for `e` is reported as.
pub open spec fn refusal(e: AdmissionError) -> AppErrorView {
    match e {
        AdmissionError::MissingCredential => AppErrorView::AuthError("Missing credential"@),
        AdmissionError::InvalidCredential => AppErrorView::AuthError("Invalid credential"@),
    }
}

impl AdmissionError {
    /// The refusal as an error of the server.
    pub fn to_app_error(&self) -> (r: AppError)
        ensures
            r@ == refusal(*self),
    {
        match self {
            AdmissionError::MissingCredential => AppError::AuthError(owned("Missing credential")),
            AdmissionError::InvalidCredential => AppError::AuthError(owned("Invalid credential")),
        }
    }
}

/// What a credential claims: the identity it was issued to, and the time at
/// which it expires, in seconds since the epoch.
#[derive(Debug)]
pub struct Claims {
    pub sub: String,
    pub exp: usize,
}

/// What `Claims` hold, as mathematical values.
pub ghost struct ClaimsView {
    pub sub: Seq<char>,
    pub exp: int,
}

impl View for Claims {
    type V = ClaimsView;

    open spec fn view(&self) -> ClaimsView {
        ClaimsView { sub: self.sub@, exp: self.exp as int }
    }
}

/// What the server reads of a connection's handshake: its cookies by name
/// and value, in the order of the request, and its query string.
#[derive(Debug)]
pub struct Handshake {
    pub cookies: Vec<(String, String)>,
    pub query: String,
}

/// The name of the cookie that carries the credential.
pub open spec fn token_cookie() -> Seq<char> {
    "access_token"@
}

/// The name of the query parameter that carries the credential.
pub open spec fn token_parameter() -> Seq<char> {
    "token"@
}

/// Pairs of strings as pairs of their views.
pub open spec fn pairs_view(pairs: Seq<(String, String)>) -> Seq<(Seq<char>, Seq<char>)> {
    pairs.map_values(|p: (String, String)| (p.0@, p.1@))
}

/// The value of the first pair of `pairs` whose key is `key`.
pub open spec fn first_value(pairs: Seq<(Seq<char>, Seq<char>)>, key: Seq<char>) -> Option<Seq<char>>
    decreases pairs.len(),
{
    if pairs.len() == 0 {
        None
    } else if pairs[0].0 == key {
        Some(pairs[0].1)
    } else {
        first_value(pairs.drop_first(), key)
    }
}

/// The value of the last pair of `pairs` whose key is `key`.
pub open spec fn last_value(pairs: Seq<(Seq<char>, Seq<char>)>, key: Seq<char>) -> Option<Seq<char>>
    decreases pairs.len(),
{
    if pairs.len() == 0 {
        None
    } else if pairs.last().0 == key {
        Some(pairs.last().1)
    } else {
        last_value(pairs.drop_last(), key)
    }
}

/// The pairs of a query string in the order in which they stand in it, keys
/// and values decoded; `None` where `serde_urlencoded` refuses the string.
pub uninterp spec fn urlencoded_pairs(query: Seq<char>) -> Option<Seq<(Seq<char>, Seq<char>)>>;

/// Calls `serde_urlencoded::from_str` for a vector of pairs of strings. The
/// contract claims that what it returns depends on `query` alone.
#[verifier::external_body]
fn parse_query(query: &str) -> (r: Option<Vec<(String, String)>>)
    ensures
        match r {
            Some(pairs) => urlencoded_pairs(query@) == Some(pairs_view(pairs@)),
            None => urlencoded_pairs(query@) is None,
        },
{
    serde_urlencoded::from_str::<Vec<(String, String)>>(query).ok()
}

/// The members of the claims that the token `token` carries: those of the
/// JSON value that its middle part, between the two dots, encodes.
pub uninterp spec fn token_payload(token: Seq<char>) -> Map<Seq<char>, JsonMember>;

/// Calls `jsonwebtoken::decode` with `DecodingKey::from_secret(secret)` and
/// `Validation::default()`, and hands out the claims of a token that passed.
/// Whether a token passes depends on the secret and on the time of the
/// call, and of that the contract claims nothing. It claims that the claims
/// of a token that passed are those that the token carries, which depend on
/// the token alone.
#[verifier::external_body]
fn decode_token(token: &str, secret: &[u8]) -> (r: Option<serde_json::Value>)
    ensures
        r matches Some(payload) ==> json_members(payload) == token_payload(token@),
{
    let key = jsonwebtoken::DecodingKey::from_secret(secret);
    let validation = jsonwebtoken::Validation::default();
    match jsonwebtoken::decode::<serde_json::Value>(token, &key, &validation) {
        Ok(data) => Some(data.claims),
        Err(_) => None,
    }
}

/// The value of the first pair of `pairs` whose key is `key`.
pub fn first_value_of(pairs: &Vec<(String, String)>, key: &str) -> (r: Option<String>)
    ensures
        match r {
            Some(value) => Some(value@),
            None => None,
        } == first_value(pairs_view(pairs@), key@),
{
    let ghost all = pairs_view(pairs@);
    let mut i: usize = 0;
    assert(all.subrange(0, all.len() as int) =~= all);
    while i < pairs.len()
        invariant
            i <= pairs@.len(),
            all == pairs_view(pairs@),
            first_value(all, key@) == first_value(all.subrange(i as int, all.len() as int), key@),
        decreases pairs@.len() - i,
    {
        let ghost rest = all.subrange(i as int, all.len() as int);
        assert(rest[0] == all[i as int]);
        assert(rest.drop_first() =~= all.subrange(i + 1, all.len() as int));
        if same_text(pairs[i].0.as_str(), key) {
            return Some(owned(pairs[i].1.as_str()));
        }
        i += 1;
    }
    None
}

/// The value of the last pair of `pairs` whose key is `key`.
pub fn last_value_of(pairs: &Vec<(String, String)>, key: &str) -> (r: Option<String>)
    ensures
        match r {
            Some(value) => Some(value@),
            None => None,
        } == last_value(pairs_view(pairs@), key@),
{
    let ghost all = pairs_view(pairs@);
    let mut i: usize = pairs.len();
    assert(all.subrange(0, all.len() as int) =~= all);
    while i > 0
        invariant
            i <= pairs@.len(),
            all == pairs_view(pairs@),
            last_value(all, key@) == last_value(all.subrange(0, i as int), key@),
        decreases i,
    {
        let ghost front = all.subrange(0, i as int);
        assert(front.last() == all[i - 1]);
        assert(front.drop_last() =~= all.subrange(0, i - 1));
        if same_text(pairs[i - 1].0.as_str(), key) {
            return Some(owned(pairs[i - 1].1.as_str()));
        }
        i -= 1;
    }
    None
}

/// The value of the parameter `name` in the query string `query`: that of
/// its last occurrence. `None` where the parameter does not occur or the
/// query string cannot be split.
pub fn query_parameter(query: &str, name: &str) -> (r: Option<String>)
    ensures
        match r {
            Some(value) => Some(value@),
            None => None,
        } == match urlencoded_pairs(query@) {
            Some(pairs) => last_value(pairs, name@),
            None => None,
        },
{
    match parse_query(query) {
        Some(pairs) => last_value_of(&pairs, name),
        None => None,
    }
}

/// The credential that a handshake offers: the value of its first cookie
/// `access_token`, or else that of the parameter `token` of its query.
pub open spec fn offered_token(
    cookies: Seq<(Seq<char>, Seq<char>)>,
    query_pairs: Option<Seq<(Seq<char>, Seq<char>)>>,
) -> Option<Seq<char>> {
    match first_value(cookies, token_cookie()) {
        Some(token) => Some(token),
        None => match query_pairs {
            Some(pairs) => last_value(pairs, token_parameter()),
            None => None,
        },
    }
}

/// The credential of a handshake whose cookies are `cookies` and whose
/// query parameter `token`, if it has one, is `parameter`.
pub fn choose_token(cookies: &Vec<(String, String)>, parameter: Option<String>) -> (r: Option<String>)
    ensures
        match r {
            Some(token) => Some(token@),
            None => None,
        } == match first_value(pairs_view(cookies@), token_cookie()) {
            Some(token) => Some(token),
            None => match parameter {
                Some(token) => Some(token@),
                None => None,
            },
        },
{
    match first_value_of(cookies, "access_token") {
        Some(token) => Some(token),
        None => parameter,
    }
}

/// The credential that `handshake` offers, if it offers one.
pub fn extract_access_token(handshake: &Handshake) -> (r: Option<String>)
    ensures
        match r {
            Some(token) => Some(token@),
            None => None,
        } == offered_token(pairs_view(handshake.cookies@), urlencoded_pairs(handshake.query@)),
{
    let parameter = query_parameter(handshake.query.as_str(), "token");
    choose_token(&handshake.cookies, parameter)
}

/// The claims made of the two members of a token's payload, where both are
/// there and the expiry fits the machine's word.
pub open spec fn assembled_claims(sub: Option<Seq<char>>, exp: Option<int>) -> Option<ClaimsView> {
    match (sub, exp) {
        (Some(sub), Some(exp)) => if 0 <= exp <= usize::MAX {
            Some(ClaimsView { sub, exp })
        } else {
            None
        },
        _ => None,
    }
}

/// The claims that a payload with the members `members` makes: `sub` is a
/// string, `exp` is an unsigned integer.
pub open spec fn claims_of(members: Map<Seq<char>, JsonMember>) -> Option<ClaimsView> {
    assembled_claims(
        text_member(members, "sub"@),
        integer_member_within(members, "exp"@, 0, u64::MAX as int),
    )
}

/// Puts claims together from the two members as they were read.
pub fn assemble_claims(sub: Option<String>, exp: Option<u64>) -> (r: Option<Claims>)
    ensures
        match r {
            Some(claims) => Some(claims@),
            None => None,
        } == assembled_claims(
            match sub {
                Some(s) => Some(s@),
                None => None,
            },
            match exp {
                Some(n) => Some(n as int),
                None => None,
            },
        ),
{
    let sub = match sub {
        Some(sub) => sub,
        None => {
            return None;
        },
    };
    let exp = match exp {
        Some(exp) => exp,
        None => {
            return None;
        },
    };
    if exp > usize::MAX as u64 {
        return None;
    }
    Some(Claims { sub, exp: exp as usize })
}

/// Reads the claims out of the payload of a token.
pub fn claims_from_json(payload: &serde_json::Value) -> (r: Option<Claims>)
    ensures
        match r {
            Some(claims) => Some(claims@),
            None => None,
        } == claims_of(json_members(*payload)),
{
    let sub = json_text(payload, "sub");
    let exp = json_unsigned(payload, "exp");
    assemble_claims(sub, exp)
}

/// The identity that the payload of a checked token names. `decoded` is
/// `None` where the token did not pass the check.
pub fn identity_of(decoded: Option<serde_json::Value>) -> (r: Result<String, AdmissionError>)
    ensures
        match r {
            Ok(identity) => decoded is Some && claims_of(json_members(decoded->0)) is Some
                && identity@ == claims_of(json_members(decoded->0))->0.sub,
            Err(e) => e == AdmissionError::InvalidCredential && (decoded is None || claims_of(
                json_members(decoded->0),
            ) is None),
        },
{
    match decoded {
        Some(payload) => match claims_from_json(&payload) {
            Some(claims) => Ok(claims.sub),
            None => Err(AdmissionError::InvalidCredential),
        },
        None => Err(AdmissionError::InvalidCredential),
    }
}

/// The identity that a token names whose claims have the members
/// `members`: its `sub`, where the claims are complete.
pub open spec fn named_identity(members: Map<Seq<char>, JsonMember>) -> Option<Seq<char>> {
    match claims_of(members) {
        Some(claims) => Some(claims.sub),
        None => None,
    }
}

/// Checks the signature and the expiry of `token` against `secret` and
/// returns the identity that the token names: the `sub` of the claims that
/// it carries. A token whose claims name no identity or no expiry is never
/// accepted, and every failure is an invalid credential.
pub fn validate_jwt(token: &str, secret: &[u8]) -> (r: Result<String, AdmissionError>)
    ensures
        match r {
            Ok(identity) => named_identity(token_payload(token@)) == Some(identity@),
            Err(e) => e == AdmissionError::InvalidCredential,
        },
        named_identity(token_payload(token@)) is None ==> r is Err,
{
    identity_of(decode_token(token, secret))
}

/// Checks `token` against the secret of `config` and returns the identity
/// that the token names: the `sub` of the claims that it carries. Every
/// failure is an invalid credential.
pub fn validate_token(token: &str, config: &Config) -> (r: Result<String, AdmissionError>)
    ensures
        match r {
            Ok(identity) => named_identity(token_payload(token@)) == Some(identity@),
            Err(e) => e == AdmissionError::InvalidCredential,
        },
        named_identity(token_payload(token@)) is None ==> r is Err,
{
    validate_jwt(token, config.jwt_secret.as_str().as_bytes())
}

/// Whether `r` is a right answer to a handshake that offers `token`.
///
/// Without a token the connection is refused as `MissingCredential`. With
/// one it is admitted under the identity that the claims of the token name,
/// or refused as `InvalidCredential`; a token whose claims name no identity
/// or no expiry is always refused. Nothing but the token that is offered
/// bears on the identity.
pub open spec fn right_answer(token: Option<Seq<char>>, r: Result<String, AdmissionError>) -> bool {
    match token {
        None => r matches Err(e) && e == AdmissionError::MissingCredential,
        Some(token) => match r {
            Ok(identity) => named_identity(token_payload(token)) == Some(identity@),
            Err(e) => e == AdmissionError::InvalidCredential,
        },
    }
}

/// Admits or refuses the connection with the handshake `handshake`.
///
/// A handshake without a credential is refused as `MissingCredential`,
/// whatever else it holds. One with a credential is admitted under the
/// identity that the credential names, the `sub` of its claims, or refused
/// as `InvalidCredential`.
pub fn admit_connection(handshake: &Handshake, secret: &[u8]) -> (r: Result<String, AdmissionError>)
    ensures
        right_answer(
            offered_token(pairs_view(handshake.cookies@), urlencoded_pairs(handshake.query@)),
            r,
        ),
{
    match extract_access_token(handshake) {
        Some(token) => validate_jwt(token.as_str(), secret),
        None => Err(AdmissionError::MissingCredential),
    }
}

/// A handshake that offers nothing is refused as missing and no other is;
/// a token whose claims name no identity is refused as invalid; and an
/// identity that is admitted is the one that the offered token names.
pub proof fn lemma_refusals(token: Option<Seq<char>>, r: Result<String, AdmissionError>)
    requires
        right_answer(token, r),
    ensures
        token is None <==> r == Err::<String, AdmissionError>(AdmissionError::MissingCredential),
        match token {
            Some(t) => named_identity(token_payload(t)) is None ==> r == Err::<
                String,
                AdmissionError,
            >(AdmissionError::InvalidCredential),
            None => true,
        },
        match r {
            Ok(identity) => token is Some && named_identity(token_payload(token->0)) == Some(
                identity@,
            ),
            Err(_) => true,
        },
{
}

} // verus!
