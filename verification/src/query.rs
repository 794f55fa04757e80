//! The query builder that requests are handed to, as far as this library
//! looks into it: where a request goes, which headers it carries, and what
//! body it has.

use crate::header::{header_name_text, is_header_value, Headers};
use crate::token::scheme_word;
use vstd::prelude::*;
use vstd::string::StringSliceAdditionalSpecFns;
use vstd::utf8::encode_utf8;

verus! {

/// The query client of the `postgrest` crate: an address and the headers
/// for the requests under it.
#[verifier::external_type_specification]
#[verifier::external_body]
pub struct ExPostgrest(postgrest::Postgrest);

/// The query builder of the `postgrest` crate: one request in the making.
#[verifier::external_type_specification]
#[verifier::external_body]
pub struct ExBuilder(postgrest::Builder);

/// How many entries a header set may hold when one more is inserted. The
/// header map of the `http` crate panics on an insertion only when its
/// table, grown to its limit of 32768 slots, would have to double once
/// more. It doubles the table when three quarters of the slots are in use,
/// which is 24576 entries there, or, after many collisions, when a fifth of
/// them are, which is 6554. A set of at most 6553 entries is therefore sure
/// to take one more.
pub const HEADER_ROOM: usize = 6553;

/// The base address that a query client was made with.
pub uninterp spec fn client_url(client: postgrest::Postgrest) -> Seq<char>;

/// The headers that a query client hands to each builder it makes.
pub uninterp spec fn client_headers(client: postgrest::Postgrest) -> Headers;

/// The address that a builder's request goes to.
pub uninterp spec fn builder_url(builder: postgrest::Builder) -> Seq<char>;

/// The headers that a builder holds.
pub uninterp spec fn builder_headers(builder: postgrest::Builder) -> Headers;

/// The body that a builder holds, if it holds one.
pub uninterp spec fn builder_body(builder: postgrest::Builder) -> Option<Seq<char>>;

/// Whether a builder's request is a POST; it is a GET else.
pub uninterp spec fn builder_posts(builder: postgrest::Builder) -> bool;

/// The name of the header that says which answers a request takes.
pub open spec fn accept_name() -> Seq<u8> {
    "accept".spec_bytes()
}

/// The value that every builder gives that header.
pub open spec fn json_type() -> Seq<u8> {
    "application/json".spec_bytes()
}

/// The name of the header that carries the credential.
pub open spec fn authorization_name() -> Seq<u8> {
    "authorization".spec_bytes()
}

/// Whether `headers` takes one more entry.
pub open spec fn has_room(headers: Headers) -> bool {
    headers.dom().finite() && headers.dom().len() <= HEADER_ROOM
}

/// `Postgrest::new`: a client for `url` that holds no header yet. It makes
/// an HTTP client, which panics on a machine where no TLS backend can be
/// set up or the resolver cannot load the system's configuration: that
/// hangs on the machine and on no argument.
#[verifier::external_body]
pub(crate) fn new_client(url: &str) -> (r: postgrest::Postgrest)
    ensures
        client_url(r) == url@,
        client_headers(r) == Headers::empty(),
{
    postgrest::Postgrest::new(url)
}

/// `Postgrest::insert_header`: the client with `value` under `name`, in
/// place of what stood under that name before. It panics on a value that is
/// no header value, and when the header map is full.
#[verifier::external_body]
pub(crate) fn insert_header(
    client: postgrest::Postgrest,
    name: http::header::HeaderName,
    value: &str,
) -> (r: postgrest::Postgrest)
    requires
        is_header_value(value.spec_bytes()),
        has_room(client_headers(client)),
    ensures
        client_url(r) == client_url(client),
        client_headers(r) == client_headers(client).insert(
            header_name_text(name),
            value.spec_bytes(),
        ),
{
    client.insert_header(name, value)
}

/// `Postgrest::from`: a builder of a GET for the address of `table` under
/// the client's, with the client's headers and `Accept: application/json`,
/// and without a body. It panics when the header map is full.
#[verifier::external_body]
pub(crate) fn table_builder(client: &postgrest::Postgrest, table: &str) -> (r: postgrest::Builder)
    requires
        has_room(client_headers(*client)),
    ensures
        builder_url(r) == client_url(*client) + seq!['/'] + table@,
        builder_headers(r) == client_headers(*client).insert(accept_name(), json_type()),
        builder_body(r) is None,
        !builder_posts(r),
{
    client.from(table)
}

/// `Postgrest::rpc`: a builder of a POST for the address of `function`
/// under `rpc` under the client's, with the client's headers and
/// `Accept: application/json`, and with `params` as its body. It panics
/// when the header map is full.
#[verifier::external_body]
pub(crate) fn rpc_builder(client: &postgrest::Postgrest, function: &str, params: &str) -> (r:
    postgrest::Builder)
    requires
        has_room(client_headers(*client)),
    ensures
        builder_url(r) == client_url(*client) + "/rpc/"@ + function@,
        builder_headers(r) == client_headers(*client).insert(accept_name(), json_type()),
        builder_body(r) == Some(params@),
        builder_posts(r),
{
    client.rpc(function, params)
}

/// `Builder::auth`: the builder with the scheme word and `token` behind it
/// as the value of its `Authorization` header, and nothing else changed. It
/// panics on a token that is no header value, and when the header map is
/// full.
#[verifier::external_body]
pub(crate) fn authorize(builder: postgrest::Builder, token: &str) -> (r: postgrest::Builder)
    requires
        is_header_value(token.spec_bytes()),
        has_room(builder_headers(builder)),
    ensures
        builder_url(r) == builder_url(builder),
        builder_body(r) == builder_body(builder),
        builder_posts(r) == builder_posts(builder),
        builder_headers(r) == builder_headers(builder).insert(
            authorization_name(),
            encode_utf8(scheme_word() + token@),
        ),
{
    builder.auth(token)
}

} // verus!
