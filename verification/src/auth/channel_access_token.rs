//! Asking LINE for a channel access token with a signed channel JWT.

use vstd::prelude::*;
use crate::auth::channel_jwt::ChannelJwt;
use crate::http::{form_decode, form_pairs, form_urlencode, lemma_form_body_decodes_to_its_pairs, pair_views, HttpRequest, FORM_CONTENT_TYPE};

verus! {

/// Where channel access tokens are issued.
pub const TOKEN_ENDPOINT: &'static str = "https://api.line.me/oauth2/v2.1/token";

/// How often the channel access token is renewed: every 30 days, in
/// seconds, the lifetime asked for in the channel JWT.
pub const TOKEN_REFRESH_SECS: u64 = 2592000;

/// The OAuth grant type of the token request.
pub const GRANT_TYPE: &'static str = "client_credentials";

/// The OAuth client assertion type of the token request: a JWT bearer.
pub const CLIENT_ASSERTION_TYPE: &'static str = "urn:ietf:params:oauth:client-assertion-type:jwt-bearer";

/// A channel access token as LINE issues it.
#[derive(Debug)]
pub struct ChannelAccessToken {
    pub access_token: String,
    pub expires_in: u64,
    pub key_id: String,
}

/// A request for a channel access token, carrying the signed channel JWT.
#[derive(Debug)]
pub struct AccessTokenRequest {
    jwt: ChannelJwt,
}

impl View for AccessTokenRequest {
    type V = Seq<char>;

    /// The text of the JWT that the request carries.
    closed spec fn view(&self) -> Seq<char> {
        self.jwt@
    }
}

/// The form fields of a token request carrying the JWT `jwt`, in order.
pub open spec fn token_form(jwt: Seq<char>) -> Seq<(Seq<char>, Seq<char>)> {
    seq![
        ("grant_type"@, GRANT_TYPE@),
        ("client_assertion_type"@, CLIENT_ASSERTION_TYPE@),
        ("client_assertion"@, jwt),
    ]
}

/// The token form reads back as its three fields, the last of which is the
/// whole JWT, unchanged, whatever its length.
pub proof fn lemma_token_form_carries_the_whole_jwt(jwt: Seq<char>)
    ensures
        form_decode(form_pairs(token_form(jwt))) == seq![
            ("grant_type"@, GRANT_TYPE@),
            ("client_assertion_type"@, CLIENT_ASSERTION_TYPE@),
            ("client_assertion"@, jwt),
        ],
{
    lemma_form_body_decodes_to_its_pairs(token_form(jwt));
}

impl AccessTokenRequest {
    /// A request that carries `jwt`.
    pub fn new(jwt: ChannelJwt) -> (req: Self)
        ensures
            req@ == jwt@,
    {
        Self { jwt }
    }

    /// The form fields of the request.
    pub fn form_params(&self) -> (params: Vec<(String, String)>)
        ensures
            pair_views(params@) == token_form(self@),
            params@.len() == 3,
            params@[2].0@ == "client_assertion"@,
            params@[2].1@ == self@,
    {
        let mut params: Vec<(String, String)> = Vec::new();
        params.push(("grant_type".to_string(), GRANT_TYPE.to_string()));
        params.push(("client_assertion_type".to_string(), CLIENT_ASSERTION_TYPE.to_string()));
        params.push(("client_assertion".to_string(), self.jwt.token().to_string()));
        assert(pair_views(params@) =~= token_form(self@));
        params
    }

    /// The HTTP request that asks for the token: a form `POST` to the token
    /// endpoint, without bearer token.
    pub fn token_request(&self) -> (req: HttpRequest)
        ensures
            req.url@ == TOKEN_ENDPOINT@,
            req.bearer_token is None,
            req.content_type@ == FORM_CONTENT_TYPE@,
            req.body@ == form_pairs(token_form(self@)),
            form_decode(req.body@) == seq![
                ("grant_type"@, GRANT_TYPE@),
                ("client_assertion_type"@, CLIENT_ASSERTION_TYPE@),
                ("client_assertion"@, self@),
            ],
    {
        let params = self.form_params();
        let body = match form_urlencode(&params) {
            Ok(body) => body,
            Err(_) => String::new(),
        };
        proof {
            lemma_token_form_carries_the_whole_jwt(self@);
        }
        HttpRequest {
            url: TOKEN_ENDPOINT.to_string(),
            bearer_token: None,
            content_type: FORM_CONTENT_TYPE.to_string(),
            body,
        }
    }
}

} // verus!
