//! The signed JWT with which the channel asks LINE for an access token.

use vstd::prelude::*;
use vstd::string::StringExecFns;
use crate::error::ServerError;
use crate::text::{json_string, json_unquote, lemma_json_string_reads_back, push_json_string, push_signed_decimal, signed_decimal};

verus! {

/// The audience of channel JWTs: LINE's API.
pub const LINE_AUDIENCE: &'static str = "https://api.line.me/";

/// The type written in the JWT header.
pub const JWT_TYPE: &'static str = "JWT";

/// How long a channel JWT is valid: 30 minutes, in seconds.
pub const JWT_LIFETIME_SECS: i64 = 1800;

/// How long the access token asked for shall be valid: 30 days, in seconds.
pub const CHANNEL_TOKEN_LIFETIME_SECS: i64 = 2592000;

/// The earliest UTC time, in seconds since the Unix epoch, that chrono can
/// hold (January 1 of year -262143).
pub const UTC_MIN_SECS: i64 = -8334601228800;

/// The latest UTC time, in whole seconds since the Unix epoch, that chrono
/// can hold (December 31 of year 262142, 23:59:59).
pub const UTC_MAX_SECS: i64 = 8210266876799;

/// The claims of a channel JWT.
#[derive(Debug, PartialEq, Eq)]
pub struct Claims {
    pub iss: String,
    pub sub: String,
    pub aud: String,
    pub exp: i64,
    pub token_exp: i64,
}

/// The JSON object of a set of claims, fields in declaration order, written
/// compactly.
pub open spec fn claims_json(iss: Seq<char>, sub: Seq<char>, aud: Seq<char>, exp: int, token_exp: int) -> Seq<char> {
    "{\"iss\":"@ + json_string(iss) + ",\"sub\":"@ + json_string(sub) + ",\"aud\":"@ + json_string(aud)
        + ",\"exp\":"@ + signed_decimal(exp) + ",\"token_exp\":"@ + signed_decimal(token_exp) + "}"@
}

/// The claims JSON of the JWT that channel `channel_id` signs at time `now`
/// (seconds since the Unix epoch).
pub open spec fn channel_claims_json(channel_id: Seq<char>, now: int) -> Seq<char> {
    claims_json(channel_id, channel_id, LINE_AUDIENCE@, now + JWT_LIFETIME_SECS, CHANNEL_TOKEN_LIFETIME_SECS as int)
}

/// The claims JSON holds the issuer, subject and audience as string literals
/// that read back as those texts, and the two times in decimal.
pub proof fn lemma_claims_json_reads_back(iss: Seq<char>, sub: Seq<char>, aud: Seq<char>, exp: int, token_exp: int)
    ensures
        exists|i: Seq<char>, s: Seq<char>, a: Seq<char>|
            claims_json(iss, sub, aud, exp, token_exp) == "{\"iss\":"@ + i + ",\"sub\":"@ + s + ",\"aud\":"@ + a
                + ",\"exp\":"@ + signed_decimal(exp) + ",\"token_exp\":"@ + signed_decimal(token_exp) + "}"@
            && json_unquote(i) == Some(iss) && json_unquote(s) == Some(sub) && json_unquote(a) == Some(aud),
{
    lemma_json_string_reads_back(iss);
    lemma_json_string_reads_back(sub);
    lemma_json_string_reads_back(aud);
    assert(claims_json(iss, sub, aud, exp, token_exp) == "{\"iss\":"@ + json_string(iss) + ",\"sub\":"@ + json_string(sub)
        + ",\"aud\":"@ + json_string(aud) + ",\"exp\":"@ + signed_decimal(exp) + ",\"token_exp\":"@
        + signed_decimal(token_exp) + "}"@);
}

impl Claims {
    /// The claims of a JWT of channel `channel_id` made at `utc_now` (seconds
    /// since the Unix epoch): issued by and about the channel, for LINE's API,
    /// expiring 30 minutes later, asking for a token valid 30 days.
    pub fn for_channel(channel_id: &str, utc_now: i64) -> (claims: Claims)
        requires
            utc_now <= UTC_MAX_SECS - JWT_LIFETIME_SECS,
        ensures
            claims.iss@ == channel_id@,
            claims.sub@ == channel_id@,
            claims.aud@ == LINE_AUDIENCE@,
            claims.exp == utc_now + JWT_LIFETIME_SECS,
            claims.token_exp == CHANNEL_TOKEN_LIFETIME_SECS,
    {
        Claims {
            iss: channel_id.to_string(),
            sub: channel_id.to_string(),
            aud: LINE_AUDIENCE.to_string(),
            exp: utc_now + JWT_LIFETIME_SECS,
            token_exp: CHANNEL_TOKEN_LIFETIME_SECS,
        }
    }

    /// The claims as a compact JSON object.
    pub fn to_json(&self) -> (json: String)
        ensures
            json@ == claims_json(self.iss@, self.sub@, self.aud@, self.exp as int, self.token_exp as int),
    {
        let mut out = "{\"iss\":".to_string();
        push_json_string(&mut out, self.iss.as_str());
        out.append(",\"sub\":");
        push_json_string(&mut out, self.sub.as_str());
        out.append(",\"aud\":");
        push_json_string(&mut out, self.aud.as_str());
        out.append(",\"exp\":");
        push_signed_decimal(&mut out, self.exp);
        out.append(",\"token_exp\":");
        push_signed_decimal(&mut out, self.token_exp);
        out.append("}");
        out
    }
}

/// What comes before the signature in the compact JWS that
/// `jsonwebtoken::encode` makes with an RS256 header of key id `kid` and type
/// `typ` over the claims JSON `claims_json`: the base64url header, a dot, the
/// base64url claims.
pub uninterp spec fn rs256_signing_input(kid: Seq<char>, typ: Seq<char>, claims_json: Seq<char>) -> Seq<char>;

/// The signature that `jsonwebtoken::crypto::sign` makes with RS256
/// (RSASSA-PKCS1-v1_5 over SHA-256, which draws no randomness) with `key`
/// over `signing_input`, in base64url.
pub uninterp spec fn rs256_signature(key: jsonwebtoken::EncodingKey, signing_input: Seq<char>) -> Seq<char>;

/// Whether `jsonwebtoken::encode` succeeds with an RS256 header of key id
/// `kid` and type `typ`, the claims JSON `claims_json` and `key`: it fails
/// when the key is not an RSA key or the signer rejects it.
pub uninterp spec fn rs256_encodes(key: jsonwebtoken::EncodingKey, kid: Seq<char>, typ: Seq<char>, claims_json: Seq<char>) -> bool;

/// The compact JWS of that header and those claims signed with `key`: the
/// signing input, a dot, the signature.
pub open spec fn rs256_token(key: jsonwebtoken::EncodingKey, kid: Seq<char>, typ: Seq<char>, claims_json: Seq<char>) -> Seq<char> {
    rs256_signing_input(kid, typ, claims_json) + seq!['.'] + rs256_signature(key, rs256_signing_input(kid, typ, claims_json))
}

/// Calls `jsonwebtoken::encode` with the header `Header::new(RS256)` given
/// `kid` and `typ`, over the claims JSON passed through unchanged as a
/// `serde_json` raw value. Success, the signing input and the signature each
/// depend on the arguments alone and are named.
#[verifier::external_body]
fn encode_rs256(kid: &str, typ: &str, claims_json: &str, key: &jsonwebtoken::EncodingKey) -> (res: Result<String, jsonwebtoken::errors::Error>)
    ensures
        res is Ok <==> rs256_encodes(*key, kid@, typ@, claims_json@),
        res matches Ok(token) ==> token@ == rs256_signing_input(kid@, typ@, claims_json@) + seq!['.']
            + rs256_signature(*key, rs256_signing_input(kid@, typ@, claims_json@)),
{
    let mut header = jsonwebtoken::Header::new(jsonwebtoken::Algorithm::RS256);
    header.kid = Some(kid.to_string());
    header.typ = Some(typ.to_string());
    let claims = serde_json::value::RawValue::from_string(claims_json.to_string())?;
    jsonwebtoken::encode(&header, &claims, key)
}

/// A signed JWT, kept as its compact text.
#[derive(Debug)]
pub struct ChannelJwt {
    token: String,
}

impl View for ChannelJwt {
    type V = Seq<char>;

    closed spec fn view(&self) -> Seq<char> {
        self.token@
    }
}

impl ChannelJwt {
    /// Wraps a token.
    pub fn new(token: String) -> (jwt: Self)
        ensures
            jwt@ == token@,
    {
        Self { token }
    }

    /// The token's text.
    pub fn token(&self) -> (token: &str)
        ensures
            token@ == self@,
    {
        self.token.as_str()
    }

    /// Turns what the JWT encoder answered into a JWT or the library's error.
    pub fn from_encoded(encoded: Result<String, jsonwebtoken::errors::Error>) -> (res: Result<Self, ServerError>)
        ensures
            encoded is Ok <==> res is Ok,
            encoded matches Ok(token) ==> res->Ok_0@ == token@,
            res is Err ==> res->Err_0 is InvalidEncode,
    {
        match encoded {
            Ok(token) => Ok(ChannelJwt::new(token)),
            Err(e) => Err(ServerError::InvalidEncode(e)),
        }
    }

    /// Makes and signs the JWT of channel `channel_id` with key id `kid` at
    /// time `utc_now` (seconds since the Unix epoch), with the channel's
    /// private key.
    pub fn create(channel_id: String, kid: String, utc_now: i64, key: &jsonwebtoken::EncodingKey) -> (res: Result<Self, ServerError>)
        requires
            UTC_MIN_SECS <= utc_now <= UTC_MAX_SECS - JWT_LIFETIME_SECS,
        ensures
            res is Ok <==> rs256_encodes(*key, kid@, JWT_TYPE@, channel_claims_json(channel_id@, utc_now as int)),
            res matches Ok(jwt) ==> jwt@ == rs256_token(*key, kid@, JWT_TYPE@, channel_claims_json(channel_id@, utc_now as int)),
            res is Err ==> res->Err_0 is InvalidEncode,
    {
        let claims = Claims::for_channel(channel_id.as_str(), utc_now);
        let claims_json = claims.to_json();
        let encoded = encode_rs256(kid.as_str(), JWT_TYPE, claims_json.as_str(), key);
        assert(claims_json@ == channel_claims_json(channel_id@, utc_now as int));
        ChannelJwt::from_encoded(encoded)
    }
}

} // verus!
