//! The client: its configuration, and the query builders it hands out for a
//! table or a remote procedure.

use crate::auth::{AuthClient, AuthClientView};
use crate::error::SupabaseError;
use crate::header::{
    applied, entry_error, first_error, header_value_ok, is_header_name, is_header_value,
    lemma_applied_entry, lemma_applied_size, lemma_first_error_at, lemma_lookup_last,
    lemma_lookup_none, lemma_no_first_error, lemma_some_first_error, lower_case, lookup,
    pairs_of, pairs_of_list, parse_header_name, text_of, Headers, Pairs, MAX_HEADERS,
};
use crate::options::{ClientAuthOptions, ClientDbOptions, ClientGlobalOptions};
use crate::query::{
    accept_name, authorization_name, authorize, builder_body, builder_headers, builder_posts,
    builder_url, client_headers, client_url, insert_header, json_type, new_client, rpc_builder,
    table_builder,
};
use crate::token::{scheme_word, strip_scheme, without_scheme};
use vstd::prelude::*;
use vstd::string::StringExecFns;
use vstd::utf8::encode_utf8;

verus! {

/// A client of one project of the service.
#[derive(Debug, Clone)]
pub struct Client {
    url: String,
    api_key: String,
    bearer: Option<String>,
    db_options: ClientDbOptions,
    auth_options: ClientAuthOptions,
    global_options: ClientGlobalOptions,
    pub auth: AuthClient,
}

/// What a `Client` holds.
pub struct ClientView {
    /// The address of the REST interface.
    pub url: Seq<char>,
    pub api_key: Seq<char>,
    pub bearer: Option<Seq<char>>,
    pub schema: Seq<char>,
    pub auto_refresh_token: bool,
    pub persist_session: bool,
    pub headers: Option<Pairs>,
    pub auth: AuthClientView,
}

impl View for Client {
    type V = ClientView;

    closed spec fn view(&self) -> ClientView {
        ClientView {
            url: self.url@,
            api_key: self.api_key@,
            bearer: text_of(self.bearer),
            schema: self.db_options.schema@,
            auto_refresh_token: self.auth_options.auto_refresh_token,
            persist_session: self.auth_options.persist_session,
            headers: pairs_of_list(self.global_options.headers),
            auth: self.auth@,
        }
    }
}

impl ClientView {
    /// The configured headers; none where the group holds no list.
    pub open spec fn custom(self) -> Pairs {
        match self.headers {
            Some(pairs) => pairs,
            None => Seq::empty(),
        }
    }

    /// The token of a request for a table: the value of a configured
    /// `Authorization` header without the scheme word in front, where there
    /// is such a header, and the API key else.
    pub open spec fn table_token(self) -> Seq<char> {
        match lookup(self.custom(), "Authorization"@) {
            Some(value) => without_scheme(value),
            None => self.api_key,
        }
    }

    /// The token of a call of a remote procedure: the API key.
    pub open spec fn rpc_token(self) -> Seq<char> {
        self.api_key
    }
}

/// Why the configured headers cannot be sent, if they cannot: the list is
/// longer than the header map of a request is sure to take, or an entry of
/// it is no header.
pub open spec fn custom_error(pairs: Pairs) -> Option<SupabaseError> {
    if pairs.len() > MAX_HEADERS {
        Some(SupabaseError::TooManyHeaders)
    } else {
        first_error(pairs)
    }
}

/// Why no request can be built from the configured headers and the token,
/// if none can: the headers are looked at before the token.
pub open spec fn request_error(pairs: Pairs, token: Seq<char>) -> Option<SupabaseError> {
    if custom_error(pairs) is Some {
        custom_error(pairs)
    } else if !is_header_value(encode_utf8(token)) {
        Some(SupabaseError::InvalidHeaderValue)
    } else {
        None
    }
}

/// The headers of a request: the configured ones, then the `Accept` header
/// of the query builder, then `Authorization` with the token behind the
/// scheme word.
pub open spec fn request_headers(pairs: Pairs, token: Seq<char>) -> Headers {
    applied(pairs).insert(accept_name(), json_type()).insert(
        authorization_name(),
        encode_utf8(scheme_word() + token),
    )
}

impl Client {
    /// A client for the project at `url`, with the defaults of every option
    /// group. Its REST interface is at `/rest/v1` under `url`, and its
    /// `auth` client speaks to `/auth/v1` under `url` with the same bearer
    /// token.
    pub fn new(url: String, api_key: String, bearer_auth: Option<String>) -> (r: Self)
        ensures
            r@ == (ClientView {
                url: url@ + "/rest/v1"@,
                api_key: api_key@,
                bearer: text_of(bearer_auth),
                schema: "public"@,
                auto_refresh_token: true,
                persist_session: false,
                headers: None,
                auth: AuthClientView {
                    url: url@ + "/auth/v1"@,
                    headers: None,
                    bearer: text_of(bearer_auth),
                },
            }),
    {
        let auth_bearer = match &bearer_auth {
            Some(token) => Some(token.clone()),
            None => None,
        };
        let auth_url = url.clone().concat("/auth/v1");
        Self {
            url: url.concat("/rest/v1"),
            api_key,
            bearer: bearer_auth,
            db_options: ClientDbOptions::default(),
            auth_options: ClientAuthOptions::default(),
            global_options: ClientGlobalOptions::default(),
            auth: AuthClient::new(auth_url.as_str(), None, auth_bearer),
        }
    }

    /// The client with `options` in place of its database options.
    pub fn with_db_options(self, options: ClientDbOptions) -> (r: Self)
        ensures
            r@ == (ClientView { schema: options.schema@, ..self@ }),
    {
        let mut client = self;
        client.db_options = options;
        client
    }

    /// The client with `options` in place of its session options.
    pub fn with_auth_options(self, options: ClientAuthOptions) -> (r: Self)
        ensures
            r@ == (ClientView {
                auto_refresh_token: options.auto_refresh_token,
                persist_session: options.persist_session,
                ..self@
            }),
    {
        let mut client = self;
        client.auth_options = options;
        client
    }

    /// The client with `options` in place of its global options.
    pub fn with_global_options(self, options: ClientGlobalOptions) -> (r: Self)
        ensures
            r@ == (ClientView { headers: pairs_of_list(options.headers), ..self@ }),
    {
        let mut client = self;
        client.global_options = options;
        client
    }

    /// The client for the authentication service.
    pub fn auth(&self) -> (r: &AuthClient)
        ensures
            r@ == self@.auth,
    {
        &self.auth
    }

    /// A query client for the REST interface that holds the configured
    /// headers.
    fn query_client(&self) -> (r: Result<postgrest::Postgrest, SupabaseError>)
        ensures
            match r {
                Ok(client) => {
                    &&& custom_error(self@.custom()) is None
                    &&& client_url(client) == self@.url
                    &&& client_headers(client) == applied(self@.custom())
                },
                Err(e) => custom_error(self@.custom()) == Some(e),
            },
    {
        let mut client = new_client(self.url.as_str());
        match &self.global_options.headers {
            None => {},
            Some(list) => {
                if list.len() > MAX_HEADERS {
                    return Err(SupabaseError::TooManyHeaders);
                }
                let ghost pairs = pairs_of(list@);
                let mut i: usize = 0;
                while i < list.len()
                    invariant
                        i <= list.len() <= MAX_HEADERS,
                        pairs == pairs_of(list@),
                        self@.custom() == pairs,
                        client_url(client) == self@.url,
                        client_headers(client) == applied(pairs.take(i as int)),
                        forall|j: int| 0 <= j < i ==> entry_error(#[trigger] pairs[j]) is None,
                    decreases list.len() - i,
                {
                    let name = match parse_header_name(list[i].0.as_str()) {
                        Ok(name) => name,
                        Err(_) => {
                            proof {
                                lemma_first_error_at(pairs, i as int);
                            }
                            return Err(SupabaseError::InvalidHeaderName);
                        },
                    };
                    if !header_value_ok(list[i].1.as_str().as_bytes()) {
                        proof {
                            lemma_first_error_at(pairs, i as int);
                        }
                        return Err(SupabaseError::InvalidHeaderValue);
                    }
                    proof {
                        lemma_applied_size(pairs.take(i as int));
                        assert(pairs.take(i + 1).drop_last() =~= pairs.take(i as int));
                    }
                    client = insert_header(client, name, list[i].1.as_str());
                    i += 1;
                }
                proof {
                    assert(pairs.take(i as int) =~= pairs);
                    lemma_no_first_error(pairs);
                }
            },
        }
        Ok(client)
    }

    /// The token of a request for a table.
    fn table_token(&self) -> (r: &str)
        ensures
            r@ == self@.table_token(),
    {
        match &self.global_options.headers {
            None => self.api_key.as_str(),
            Some(list) => {
                let name = String::from_str("Authorization");
                let ghost pairs = pairs_of(list@);
                let mut i: usize = list.len();
                proof {
                    assert(pairs.take(i as int) =~= pairs);
                }
                while i > 0
                    invariant
                        i <= list.len(),
                        pairs == pairs_of(list@),
                        self@.custom() == pairs,
                        name@ == "Authorization"@,
                        lookup(pairs, name@) == lookup(pairs.take(i as int), name@),
                    decreases i,
                {
                    i -= 1;
                    proof {
                        assert(pairs.take(i + 1).drop_last() =~= pairs.take(i as int));
                    }
                    if list[i].0 == name {
                        return strip_scheme(list[i].1.as_str());
                    }
                }
                self.api_key.as_str()
            },
        }
    }

    /// A builder for requests on `table`, a GET without a body until the
    /// caller says otherwise. It carries the configured headers, and for
    /// its token the value of a configured `Authorization` header without
    /// the scheme word in front, or the API key where none is configured.
    ///
    /// # Panics
    ///
    /// Every call makes an HTTP client of its own for the builder. That
    /// panics on a machine where no TLS backend can be set up or the
    /// resolver cannot load the system's configuration; no argument and no
    /// configuration of the client brings it about or prevents it.
    pub fn from(&self, table: &str) -> (r: Result<postgrest::Builder, SupabaseError>)
        ensures
            match r {
                Ok(builder) => {
                    &&& request_error(self@.custom(), self@.table_token()) is None
                    &&& builder_url(builder) == self@.url + seq!['/'] + table@
                    &&& builder_headers(builder) == request_headers(
                        self@.custom(),
                        self@.table_token(),
                    )
                    &&& builder_body(builder) is None
                    &&& !builder_posts(builder)
                },
                Err(e) => request_error(self@.custom(), self@.table_token()) == Some(e),
            },
    {
        let client = self.query_client()?;
        let token = self.table_token();
        if !header_value_ok(token.as_bytes()) {
            return Err(SupabaseError::InvalidHeaderValue);
        }
        proof {
            lemma_applied_size(self@.custom());
        }
        let builder = table_builder(&client, table);
        Ok(authorize(builder, token))
    }

    /// A builder for a call of the remote procedure `function` with the
    /// serialised arguments `params`: a POST with `params` as its body. It
    /// carries the configured headers, and the API key for its token.
    ///
    /// # Panics
    ///
    /// Every call makes an HTTP client of its own for the builder. That
    /// panics on a machine where no TLS backend can be set up or the
    /// resolver cannot load the system's configuration; no argument and no
    /// configuration of the client brings it about or prevents it.
    pub fn rpc(&self, function: &str, params: &str) -> (r: Result<
        postgrest::Builder,
        SupabaseError,
    >)
        ensures
            match r {
                Ok(builder) => {
                    &&& request_error(self@.custom(), self@.rpc_token()) is None
                    &&& builder_url(builder) == self@.url + "/rpc/"@ + function@
                    &&& builder_headers(builder) == request_headers(
                        self@.custom(),
                        self@.rpc_token(),
                    )
                    &&& builder_body(builder) == Some(params@)
                    &&& builder_posts(builder)
                },
                Err(e) => request_error(self@.custom(), self@.rpc_token()) == Some(e),
            },
    {
        let client = self.query_client()?;
        if !header_value_ok(self.api_key.as_str().as_bytes()) {
            return Err(SupabaseError::InvalidHeaderValue);
        }
        proof {
            lemma_applied_size(self@.custom());
        }
        let builder = rpc_builder(&client, function, params);
        Ok(authorize(builder, self.api_key.as_str()))
    }
}

/// Every request carries one credential: `Authorization` holds the scheme
/// word and the token, whatever the configured headers say.
pub proof fn lemma_one_authorization(pairs: Pairs, token: Seq<char>)
    ensures
        request_headers(pairs, token).contains_pair(
            authorization_name(),
            encode_utf8(scheme_word() + token),
        ),
{
}

/// A configured header is carried by every request: its name in lower case
/// has its value. This holds of an entry whose name no later entry has, up
/// to case, and which is named neither `Accept` nor `Authorization`: those
/// two the request sets itself.
pub proof fn lemma_custom_header_is_carried(pairs: Pairs, token: Seq<char>, i: int)
    requires
        0 <= i < pairs.len(),
        forall|j: int|
            i < j < pairs.len() ==> lower_case(encode_utf8(#[trigger] pairs[j].0)) != lower_case(
                encode_utf8(pairs[i].0),
            ),
        lower_case(encode_utf8(pairs[i].0)) != accept_name(),
        lower_case(encode_utf8(pairs[i].0)) != authorization_name(),
    ensures
        request_headers(pairs, token).contains_pair(
            lower_case(encode_utf8(pairs[i].0)),
            encode_utf8(pairs[i].1),
        ),
{
    lemma_applied_entry(pairs, i);
}

/// Whether no two entries of `pairs` have one name, up to case, and none is
/// named `Accept` or `Authorization`.
pub open spec fn names_are_free(pairs: Pairs) -> bool {
    &&& forall|i: int, j: int|
        0 <= i < j < pairs.len() ==> lower_case(encode_utf8(#[trigger] pairs[i].0))
            != lower_case(encode_utf8(#[trigger] pairs[j].0))
    &&& forall|i: int|
        0 <= i < pairs.len() ==> {
            &&& lower_case(encode_utf8(#[trigger] pairs[i].0)) != accept_name()
            &&& lower_case(encode_utf8(pairs[i].0)) != authorization_name()
        }
}

/// Every configured header is carried by every request, where the names
/// differ from one another and from the two that the request sets itself.
pub proof fn lemma_every_custom_header_is_carried(pairs: Pairs, token: Seq<char>)
    requires
        names_are_free(pairs),
    ensures
        forall|i: int|
            0 <= i < pairs.len() ==> request_headers(pairs, token).contains_pair(
                lower_case(encode_utf8(#[trigger] pairs[i].0)),
                encode_utf8(pairs[i].1),
            ),
{
    assert forall|i: int| 0 <= i < pairs.len() implies request_headers(
        pairs,
        token,
    ).contains_pair(lower_case(encode_utf8(#[trigger] pairs[i].0)), encode_utf8(pairs[i].1)) by {
        lemma_custom_header_is_carried(pairs, token, i);
    }
}

/// A configured `Authorization` header goes before the API key: the token
/// of a request for a table is the value of the last entry of that name,
/// without the scheme word in front, and the API key only where no entry
/// has that name.
pub proof fn lemma_authorization_precedence(client: ClientView, i: int)
    requires
        0 <= i < client.custom().len(),
        client.custom()[i].0 == "Authorization"@,
        forall|j: int|
            i < j < client.custom().len() ==> (#[trigger] client.custom()[j]).0
                != "Authorization"@,
    ensures
        client.table_token() == without_scheme(client.custom()[i].1),
{
    lemma_lookup_last(client.custom(), "Authorization"@, i);
}

/// Without a configured `Authorization` header the token of a request for a
/// table is the API key.
pub proof fn lemma_token_is_api_key(client: ClientView)
    requires
        forall|j: int|
            0 <= j < client.custom().len() ==> (#[trigger] client.custom()[j]).0
                != "Authorization"@,
    ensures
        client.table_token() == client.api_key,
{
    lemma_lookup_none(client.custom(), "Authorization"@);
}

/// A request is built exactly for a valid configuration: a list of no more
/// entries than a request is sure to take, each with a header name and a
/// header value, and a token that is a header value.
pub proof fn lemma_request_is_built(pairs: Pairs, token: Seq<char>)
    ensures
        request_error(pairs, token) is None <==> {
            &&& pairs.len() <= MAX_HEADERS
            &&& forall|j: int| 0 <= j < pairs.len() ==> entry_error(#[trigger] pairs[j]) is None
            &&& is_header_value(encode_utf8(token))
        },
{
    if forall|j: int| 0 <= j < pairs.len() ==> entry_error(#[trigger] pairs[j]) is None {
        lemma_no_first_error(pairs);
    } else {
        let j = choose|j: int| 0 <= j < pairs.len() && entry_error(#[trigger] pairs[j]) is Some;
        lemma_some_first_error(pairs, j);
    }
}

/// A configured header whose name is no header name makes every request
/// fail.
pub proof fn lemma_invalid_name_is_refused(pairs: Pairs, token: Seq<char>, i: int)
    requires
        0 <= i < pairs.len(),
        !is_header_name(encode_utf8(pairs[i].0)),
    ensures
        request_error(pairs, token) is Some,
{
    lemma_some_first_error(pairs, i);
}

} // verus!
