//! Core logic of a LINE notification server: JWT construction for channel
//! access tokens, LINE message requests, webhook handling and the queue of
//! scheduled messages.

pub mod auth;
pub mod database;
pub mod error;
pub mod http;
pub mod message;
pub mod model;
pub mod router;
pub mod schedule;
pub mod services;
pub mod text;
pub mod types;

use vstd::prelude::*;
use crate::auth::KeySet;
use crate::auth::channel_access_token::{token_form, AccessTokenRequest, TOKEN_ENDPOINT};
use crate::auth::channel_jwt::{channel_claims_json, rs256_encodes, rs256_token, ChannelJwt, JWT_LIFETIME_SECS, JWT_TYPE, UTC_MAX_SECS, UTC_MIN_SECS};
use crate::error::ServerError;
use crate::http::{form_decode, form_pairs, HttpRequest, FORM_CONTENT_TYPE};

verus! {

/// The server's settings, read from the environment.
#[derive(Debug, Clone)]
pub struct Config {
    pub access_token: String,
    pub database_url: String,
    pub private_key_path: String,
    pub public_key_path: String,
    pub kid: String,
    pub channel_id: String,
}

/// The request that asks LINE for a fresh channel access token at time
/// `utc_now` (seconds since the Unix epoch): a JWT of the configured channel
/// and key id, signed with the channel's private key, sent as a token form.
/// Without a key set there is nothing to sign with.
pub fn channel_token_request(config: &Config, utc_now: i64, keys: Option<&KeySet>) -> (res: Result<HttpRequest, ServerError>)
    requires
        UTC_MIN_SECS <= utc_now <= UTC_MAX_SECS - JWT_LIFETIME_SECS,
    ensures
        res matches Err(ServerError::InvalidKeySet) <==> keys is None,
        keys matches Some(k) ==> (res is Ok <==> rs256_encodes(k.encoding_key, config.kid@, JWT_TYPE@,
            channel_claims_json(config.channel_id@, utc_now as int))),
        res is Err ==> res->Err_0 is InvalidKeySet || res->Err_0 is InvalidEncode,
        res matches Ok(req) ==> keys matches Some(k) && req.url@ == TOKEN_ENDPOINT@ && req.bearer_token is None
            && req.content_type@ == FORM_CONTENT_TYPE@
            && req.body@ == form_pairs(token_form(rs256_token(k.encoding_key, config.kid@, JWT_TYPE@,
                channel_claims_json(config.channel_id@, utc_now as int)))),
        res matches Ok(req) ==> keys matches Some(k) && form_decode(req.body@).len() == 3
            && form_decode(req.body@)[2] == ("client_assertion"@, rs256_token(k.encoding_key, config.kid@, JWT_TYPE@,
                channel_claims_json(config.channel_id@, utc_now as int))),
{
    let keys = match keys {
        Some(keys) => keys,
        None => return Err(ServerError::InvalidKeySet),
    };
    let jwt = ChannelJwt::create(config.channel_id.clone(), config.kid.clone(), utc_now, &keys.encoding_key)?;
    let request = AccessTokenRequest::new(jwt);
    Ok(request.token_request())
}

} // verus!
