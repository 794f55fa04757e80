//! The authentication side: the request for the current user, and the
//! claims that the bearer token carries.

use crate::codec::{claims_of_segment, segment_claims, JsonObject};
use crate::error::SupabaseError;
use crate::header::{pairs_of, text_of, Pairs};
use crate::token::{lemma_payload_of_joined, payload, payload_segment, segments, DOT};
use vstd::prelude::*;
use vstd::string::StringExecFns;
use vstd::utf8::encode_utf8;

verus! {

/// The profile of a user, as the service describes it.
#[derive(Debug, Clone)]
pub struct SupabaseUser {
    pub id: String,
    pub aud: String,
    pub role: String,
    pub email: String,
    pub email_confirmed_at: String,
    pub phone: String,
    pub confirmation_sent_at: String,
    pub confirmed_at: String,
    pub last_sign_in_at: String,
    pub app_metadata: JsonObject,
    pub user_metadata: JsonObject,
    pub identities: Vec<JsonObject>,
    pub created_at: String,
    pub updated_at: String,
    pub is_anonymous: bool,
}

/// An HTTP GET: where it goes and the headers it carries.
#[derive(Debug, Clone)]
pub struct Request {
    pub url: String,
    pub headers: Vec<(String, String)>,
}

/// A client for the authentication service.
#[derive(Debug, Clone)]
pub struct AuthClient {
    pub headers: Option<http::HeaderMap>,
    pub url: String,
    bearer: Option<String>,
}

/// What an `AuthClient` holds.
pub struct AuthClientView {
    pub url: Seq<char>,
    pub headers: Option<http::HeaderMap>,
    pub bearer: Option<Seq<char>>,
}

impl View for AuthClient {
    type V = AuthClientView;

    closed spec fn view(&self) -> AuthClientView {
        AuthClientView {
            url: self.url@,
            headers: self.headers,
            bearer: text_of(self.bearer),
        }
    }
}

/// The headers of the request for the current user: `Authorization` with
/// the bearer token as it is configured, or with nothing where none is.
pub open spec fn user_headers(bearer: Option<Seq<char>>) -> Pairs {
    seq![
        (
            "Authorization"@,
            match bearer {
                Some(token) => token,
                None => Seq::empty(),
            },
        ),
    ]
}

/// The claims of a bearer token: its second dot-separated segment, decoded.
pub open spec fn token_claims(bearer: Option<Seq<char>>) -> Result<
    Map<String, serde_json::Value>,
    SupabaseError,
> {
    match bearer {
        None => Err(SupabaseError::NoToken),
        Some(token) => match payload(encode_utf8(token)) {
            None => Err(SupabaseError::MalformedToken),
            Some(segment) => claims_of_segment(segment),
        },
    }
}

/// What asking for the claims yields, given what the request for the user
/// came to: its failure comes first.
pub open spec fn claims_outcome(
    user: Result<SupabaseUser, SupabaseError>,
    bearer: Option<Seq<char>>,
) -> Result<Map<String, serde_json::Value>, SupabaseError> {
    match user {
        Err(e) => Err(e),
        Ok(_) => token_claims(bearer),
    }
}

impl AuthClient {
    /// A client for the service at `url`.
    pub fn new(url: &str, headers: Option<http::HeaderMap>, bearer: Option<String>) -> (r: Self)
        ensures
            r@ == (AuthClientView { url: url@, headers, bearer: text_of(bearer) }),
    {
        Self { headers, url: String::from_str(url), bearer }
    }

    /// The request that asks the service for the current user. It goes to
    /// `user` under the client's address and carries one header,
    /// `Authorization`, with the bearer token. The headers that the client
    /// was made with are the caller's to use: they are no part of it.
    pub fn user_request(&self) -> (r: Request)
        ensures
            r.url@ == self@.url + "/user"@,
            pairs_of(r.headers@) == user_headers(self@.bearer),
    {
        let url = self.url.clone().concat("/user");
        let value = match &self.bearer {
            Some(token) => token.clone(),
            None => String::new(),
        };
        let mut headers: Vec<(String, String)> = Vec::new();
        headers.push((String::from_str("Authorization"), value));
        Request { url, headers }
    }

    /// The claims of the configured bearer token. `user` is what the
    /// request for the current user came to, which is made first to see
    /// that the service accepts the token: where it failed, that failure is
    /// returned.
    pub fn get_claims(&self, user: Result<SupabaseUser, SupabaseError>) -> (r: Result<
        JsonObject,
        SupabaseError,
    >)
        ensures
            match r {
                Ok(claims) => claims_outcome(user, self@.bearer) matches Ok(c) && c
                    == claims@,
                Err(e) => claims_outcome(user, self@.bearer) matches Err(x) && x == e,
            },
    {
        match user {
            Err(e) => Err(e),
            Ok(_) => match &self.bearer {
                None => Err(SupabaseError::NoToken),
                Some(bearer) => match payload_segment(bearer.as_str().as_bytes()) {
                    None => Err(SupabaseError::MalformedToken),
                    Some(segment) => segment_claims(segment.as_slice()),
                },
            },
        }
    }
}

/// A token of fewer than two dot-separated segments has no claims: once the
/// service has answered for the user, asking for them fails on its structure.
pub proof fn lemma_short_token_is_malformed(
    user: Result<SupabaseUser, SupabaseError>,
    token: Seq<char>,
)
    requires
        user is Ok,
        segments(encode_utf8(token)).len() < 2,
    ensures
        claims_outcome(user, Some(token)) == Err::<Map<String, serde_json::Value>, _>(
            SupabaseError::MalformedToken,
        ),
{
}

/// The claims of a token are those of its second segment: for a token made
/// of a head and a segment, or of a head, a segment and a tail, with dots
/// between them, where the head and the segment hold no dot.
pub proof fn lemma_claims_of_second_segment(
    user: Result<SupabaseUser, SupabaseError>,
    token: Seq<char>,
    head: Seq<u8>,
    segment: Seq<u8>,
    tail: Seq<u8>,
)
    requires
        user is Ok,
        forall|i: int| 0 <= i < head.len() ==> head[i] != DOT,
        forall|i: int| 0 <= i < segment.len() ==> segment[i] != DOT,
        encode_utf8(token) == head + seq![DOT] + segment
            || encode_utf8(token) == head + seq![DOT] + segment + seq![DOT] + tail,
    ensures
        claims_outcome(user, Some(token)) == claims_of_segment(segment),
{
    lemma_payload_of_joined(head, segment, tail);
}

} // verus!
