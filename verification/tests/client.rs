use supabase::error::SupabaseError;
use supabase::header::MAX_HEADERS;
use supabase::{Client, ClientAuthOptions, ClientDbOptions, ClientGlobalOptions};

fn client() -> Client {
    Client::new("https://proj.example".to_owned(), "key123".to_owned(), None)
}

fn with_headers(headers: &[(&str, &str)]) -> Client {
    let list = headers.iter().map(|(k, v)| (k.to_string(), v.to_string())).collect();
    client().with_global_options(ClientGlobalOptions { headers: Some(list) })
}

fn request(builder: postgrest::Builder) -> reqwest::Request {
    builder.build().build().unwrap()
}

fn header(request: &reqwest::Request, name: &str) -> Option<Vec<u8>> {
    request.headers().get(name).map(|value| value.as_bytes().to_vec())
}

fn names(request: &reqwest::Request) -> Vec<String> {
    let mut names: Vec<String> = request.headers().keys().map(|k| k.as_str().to_owned()).collect();
    names.sort();
    names
}

fn table_error(headers: &[(&str, &str)]) -> Option<SupabaseError> {
    with_headers(headers).from("todos").err()
}

fn rpc_error(headers: &[(&str, &str)]) -> Option<SupabaseError> {
    with_headers(headers).rpc("add", "{}").err()
}

#[test]
fn a_table_builder_of_a_new_client() {
    let request = request(client().from("todos").unwrap());
    assert_eq!(request.method(), reqwest::Method::GET);
    assert_eq!(request.url().as_str(), "https://proj.example/rest/v1/todos");
    assert_eq!(header(&request, "authorization"), Some(b"Bearer key123".to_vec()));
    assert_eq!(header(&request, "accept"), Some(b"application/json".to_vec()));
    assert_eq!(names(&request), ["accept", "authorization"]);
    assert_eq!(request.headers().len(), 2);
    assert!(request.body().map_or(true, |body| body.as_bytes() == Some(b"".as_slice())));
}

#[test]
fn a_procedure_builder_of_a_new_client() {
    let request = request(client().rpc("add", "{\"a\": 1, \"b\": 2}").unwrap());
    assert_eq!(request.method(), reqwest::Method::POST);
    assert_eq!(request.url().as_str(), "https://proj.example/rest/v1/rpc/add");
    assert_eq!(header(&request, "authorization"), Some(b"Bearer key123".to_vec()));
    assert_eq!(header(&request, "accept"), Some(b"application/json".to_vec()));
    assert_eq!(names(&request), ["accept", "authorization", "content-type"]);
    assert_eq!(
        request.body().and_then(|body| body.as_bytes()),
        Some(b"{\"a\": 1, \"b\": 2}".as_slice())
    );
}

#[test]
fn the_auth_client_of_a_new_client() {
    let client = Client::new(
        "https://proj.example".to_owned(),
        "key123".to_owned(),
        Some("x.eyJhIjoxfQ.y".to_owned()),
    );
    assert_eq!(client.auth.url, "https://proj.example/auth/v1");
    assert!(client.auth.headers.is_none());
    let request = client.auth.user_request();
    assert_eq!(request.url, "https://proj.example/auth/v1/user");
    assert_eq!(request.headers, vec![("Authorization".to_owned(), "x.eyJhIjoxfQ.y".to_owned())]);
}

#[test]
fn the_bearer_token_is_not_the_credential_of_a_builder() {
    let client = Client::new(
        "https://proj.example".to_owned(),
        "key123".to_owned(),
        Some("x.y.z".to_owned()),
    );
    let request = request(client.from("todos").unwrap());
    assert_eq!(header(&request, "authorization"), Some(b"Bearer key123".to_vec()));
}

#[test]
fn configured_headers_are_carried() {
    let client = with_headers(&[("X-Client-Info", "tests/1"), ("x-region", "eu")]);
    let table = request(client.from("todos").unwrap());
    assert_eq!(header(&table, "x-client-info"), Some(b"tests/1".to_vec()));
    assert_eq!(header(&table, "x-region"), Some(b"eu".to_vec()));
    assert_eq!(header(&table, "authorization"), Some(b"Bearer key123".to_vec()));
    assert_eq!(names(&table), ["accept", "authorization", "x-client-info", "x-region"]);
    let call = request(client.rpc("add", "{}").unwrap());
    assert_eq!(header(&call, "x-client-info"), Some(b"tests/1".to_vec()));
    assert_eq!(header(&call, "x-region"), Some(b"eu".to_vec()));
    assert_eq!(header(&call, "authorization"), Some(b"Bearer key123".to_vec()));
    assert_eq!(
        names(&call),
        ["accept", "authorization", "content-type", "x-client-info", "x-region"]
    );
}

#[test]
fn header_names_are_held_in_lower_case() {
    let request = request(with_headers(&[("X-UPPER", "v")]).from("todos").unwrap());
    assert!(names(&request).contains(&"x-upper".to_owned()));
    assert!(!names(&request).contains(&"X-UPPER".to_owned()));
}

#[test]
fn header_values_keep_their_bytes() {
    let request = request(with_headers(&[("x-name", "Zo\u{eb}\t\u{4e2d} ~")]).from("t").unwrap());
    assert_eq!(header(&request, "x-name"), Some("Zo\u{eb}\t\u{4e2d} ~".as_bytes().to_vec()));
}

#[test]
fn a_later_header_replaces_an_earlier_one() {
    let request = request(
        with_headers(&[("x-a", "1"), ("x-b", "2"), ("X-A", "3")]).from("todos").unwrap(),
    );
    assert_eq!(header(&request, "x-a"), Some(b"3".to_vec()));
    assert_eq!(request.headers().get_all("x-a").iter().count(), 1);
    assert_eq!(request.headers().len(), 4);
}

#[test]
fn a_configured_authorization_goes_before_the_api_key() {
    let request = request(with_headers(&[("Authorization", "Bearer abc.def")]).from("t").unwrap());
    assert_eq!(header(&request, "authorization"), Some(b"Bearer abc.def".to_vec()));
    assert_eq!(request.headers().get_all("authorization").iter().count(), 1);
    assert_eq!(names(&request), ["accept", "authorization"]);
}

#[test]
fn a_configured_authorization_without_the_scheme_word_gets_it() {
    let request = request(with_headers(&[("Authorization", "abc.def")]).from("t").unwrap());
    assert_eq!(header(&request, "authorization"), Some(b"Bearer abc.def".to_vec()));
}

#[test]
fn the_scheme_word_is_taken_off_the_front_only() {
    let request = request(
        with_headers(&[("Authorization", "Bearer Bearer aBearer b")]).from("t").unwrap(),
    );
    assert_eq!(header(&request, "authorization"), Some(b"Bearer Bearer aBearer b".to_vec()));
    let request = self::request(with_headers(&[("Authorization", "xBearer a")]).from("t").unwrap());
    assert_eq!(header(&request, "authorization"), Some(b"Bearer xBearer a".to_vec()));
}

#[test]
fn the_api_key_is_the_token_as_it_is() {
    let key = Client::new("https://p.example".to_owned(), "Bearer key".to_owned(), None);
    let request = request(key.from("t").unwrap());
    assert_eq!(header(&request, "authorization"), Some(b"Bearer Bearer key".to_vec()));
}

#[test]
fn a_token_may_hold_any_text_that_a_header_takes() {
    let request =
        request(with_headers(&[("Authorization", "Bearer Zo\u{eb}\t\u{4e2d}")]).from("t").unwrap());
    assert_eq!(
        header(&request, "authorization"),
        Some("Bearer Zo\u{eb}\t\u{4e2d}".as_bytes().to_vec())
    );
}

#[test]
fn the_last_configured_authorization_counts() {
    let request = request(
        with_headers(&[("Authorization", "one"), ("x", "y"), ("Authorization", "two")])
            .from("t")
            .unwrap(),
    );
    assert_eq!(header(&request, "authorization"), Some(b"Bearer two".to_vec()));
}

#[test]
fn only_the_exact_name_is_looked_up_for_the_credential() {
    let request = request(with_headers(&[("authorization", "Bearer abc")]).from("t").unwrap());
    assert_eq!(header(&request, "authorization"), Some(b"Bearer key123".to_vec()));
}

#[test]
fn a_procedure_call_is_authorized_with_the_api_key() {
    let request = request(with_headers(&[("Authorization", "Bearer abc")]).rpc("f", "{}").unwrap());
    assert_eq!(header(&request, "authorization"), Some(b"Bearer key123".to_vec()));
    let key = Client::new("https://p.example".to_owned(), "Bearer key".to_owned(), None);
    let request = self::request(key.rpc("f", "{}").unwrap());
    assert_eq!(header(&request, "authorization"), Some(b"Bearer Bearer key".to_vec()));
}

#[test]
fn the_accept_header_is_set_by_the_builder() {
    let request = request(with_headers(&[("Accept", "text/csv")]).from("todos").unwrap());
    assert_eq!(header(&request, "accept"), Some(b"application/json".to_vec()));
}

#[test]
fn an_invalid_header_name_is_an_error() {
    assert_eq!(table_error(&[("bad name", "v")]), Some(SupabaseError::InvalidHeaderName));
    assert_eq!(rpc_error(&[("bad name", "v")]), Some(SupabaseError::InvalidHeaderName));
    assert_eq!(table_error(&[("", "v")]), Some(SupabaseError::InvalidHeaderName));
    assert_eq!(table_error(&[("a:b", "v")]), Some(SupabaseError::InvalidHeaderName));
    assert_eq!(table_error(&[("n\u{e4}me", "v")]), Some(SupabaseError::InvalidHeaderName));
    assert_eq!(
        table_error(&[("x-ok", "v"), ("x-ok2", "w"), ("not ok", "u")]),
        Some(SupabaseError::InvalidHeaderName)
    );
}

#[test]
fn an_invalid_header_value_is_an_error() {
    assert_eq!(table_error(&[("x-a", "line\nbreak")]), Some(SupabaseError::InvalidHeaderValue));
    assert_eq!(rpc_error(&[("x-a", "line\nbreak")]), Some(SupabaseError::InvalidHeaderValue));
    assert_eq!(table_error(&[("x-a", "\u{7f}")]), Some(SupabaseError::InvalidHeaderValue));
    assert_eq!(table_error(&[("x-a", "")]), None);
}

#[test]
fn the_first_bad_entry_decides_the_error() {
    assert_eq!(
        table_error(&[("x-a", "\r"), ("bad name", "v")]),
        Some(SupabaseError::InvalidHeaderValue)
    );
    assert_eq!(
        table_error(&[("bad name", "v"), ("x-a", "\r")]),
        Some(SupabaseError::InvalidHeaderName)
    );
    assert_eq!(table_error(&[("bad name", "\r")]), Some(SupabaseError::InvalidHeaderName));
}

#[test]
fn an_invalid_credential_is_an_error() {
    let key = Client::new("https://p.example".to_owned(), "key\n123".to_owned(), None);
    assert_eq!(key.from("t").err(), Some(SupabaseError::InvalidHeaderValue));
    assert_eq!(key.rpc("f", "{}").err(), Some(SupabaseError::InvalidHeaderValue));
    assert_eq!(
        table_error(&[("Authorization", "Bearer a\u{0}b")]),
        Some(SupabaseError::InvalidHeaderValue)
    );
}

#[test]
fn a_bad_api_key_does_not_matter_behind_a_configured_authorization() {
    let key = Client::new("https://p.example".to_owned(), "key\n123".to_owned(), None)
        .with_global_options(ClientGlobalOptions {
            headers: Some(vec![("Authorization".to_owned(), "Bearer abc".to_owned())]),
        });
    let request = request(key.from("t").unwrap());
    assert_eq!(header(&request, "authorization"), Some(b"Bearer abc".to_vec()));
    assert_eq!(key.rpc("f", "{}").err(), Some(SupabaseError::InvalidHeaderValue));
}

#[test]
fn bad_headers_come_before_a_bad_credential() {
    let key = Client::new("https://p.example".to_owned(), "key\n123".to_owned(), None)
        .with_global_options(ClientGlobalOptions {
            headers: Some(vec![("bad name".to_owned(), "v".to_owned())]),
        });
    assert_eq!(key.from("t").err(), Some(SupabaseError::InvalidHeaderName));
    assert_eq!(key.rpc("f", "{}").err(), Some(SupabaseError::InvalidHeaderName));
}

#[test]
fn as_many_headers_as_allowed_are_carried() {
    let list: Vec<(String, String)> =
        (0..MAX_HEADERS).map(|i| (format!("x-h{i}"), format!("v{i}"))).collect();
    let client = client().with_global_options(ClientGlobalOptions { headers: Some(list) });
    let table = request(client.from("todos").unwrap());
    assert_eq!(table.headers().len(), MAX_HEADERS + 2);
    assert_eq!(header(&table, "x-h0"), Some(b"v0".to_vec()));
    let last = MAX_HEADERS - 1;
    assert_eq!(header(&table, &format!("x-h{last}")), Some(format!("v{last}").into_bytes()));
    let call = request(client.rpc("f", "{}").unwrap());
    assert_eq!(call.headers().len(), MAX_HEADERS + 3);
}

#[test]
fn too_many_headers_are_an_error() {
    let list: Vec<(String, String)> =
        (0..MAX_HEADERS + 1).map(|_| ("bad name".to_owned(), "v".to_owned())).collect();
    let client = client().with_global_options(ClientGlobalOptions { headers: Some(list) });
    assert_eq!(client.from("todos").err(), Some(SupabaseError::TooManyHeaders));
    assert_eq!(client.rpc("f", "{}").err(), Some(SupabaseError::TooManyHeaders));
}

#[test]
fn lists_well_beyond_two_thousand_headers_are_carried() {
    for count in [2049usize, 4096, 6000] {
        let list: Vec<(String, String)> =
            (0..count).map(|i| (format!("X-H{i}"), format!("v{i}"))).collect();
        let client = client().with_global_options(ClientGlobalOptions { headers: Some(list) });
        let table = request(client.from("todos").unwrap());
        assert_eq!(table.headers().len(), count + 2);
        assert_eq!(header(&table, "x-h2048"), Some(b"v2048".to_vec()));
        assert_eq!(header(&table, "authorization"), Some(b"Bearer key123".to_vec()));
        let call = request(client.rpc("f", "{}").unwrap());
        assert_eq!(call.headers().len(), count + 3);
        assert_eq!(header(&call, "authorization"), Some(b"Bearer key123".to_vec()));
    }
}

#[test]
fn the_limit_counts_entries_not_names() {
    let list: Vec<(String, String)> =
        (0..MAX_HEADERS + 1).map(|i| ("x-same".to_owned(), format!("v{i}"))).collect();
    let client = client().with_global_options(ClientGlobalOptions { headers: Some(list) });
    assert_eq!(client.from("todos").err(), Some(SupabaseError::TooManyHeaders));
}

#[test]
fn the_auth_client_is_reached_by_a_method_too() {
    let client = Client::new(
        "https://proj.example".to_owned(),
        "key123".to_owned(),
        Some("x.y.z".to_owned()),
    );
    assert_eq!(client.auth().url, "https://proj.example/auth/v1");
    assert_eq!(client.auth().user_request().headers, client.auth.user_request().headers);
    assert_eq!(client.auth().user_request().url, "https://proj.example/auth/v1/user");
}

#[test]
fn an_empty_header_list_is_like_none() {
    let request = request(with_headers(&[]).from("todos").unwrap());
    assert_eq!(names(&request), ["accept", "authorization"]);
}

#[test]
fn option_groups_are_replaced_one_by_one() {
    let client = client()
        .with_db_options(ClientDbOptions { schema: "private".to_owned() })
        .with_auth_options(ClientAuthOptions { auto_refresh_token: false, persist_session: true })
        .with_global_options(ClientGlobalOptions {
            headers: Some(vec![("x-a".to_owned(), "1".to_owned())]),
        })
        .with_global_options(ClientGlobalOptions {
            headers: Some(vec![("x-b".to_owned(), "2".to_owned())]),
        });
    let request = request(client.from("todos").unwrap());
    assert_eq!(names(&request), ["accept", "authorization", "x-b"]);
    assert_eq!(request.url().as_str(), "https://proj.example/rest/v1/todos");
    let reset = client.with_global_options(ClientGlobalOptions::default());
    assert_eq!(names(&self::request(reset.from("todos").unwrap())), ["accept", "authorization"]);
}

#[test]
fn a_client_can_be_cloned() {
    let first = with_headers(&[("x-a", "1")]);
    let second = first.clone();
    assert_eq!(
        names(&request(first.from("t").unwrap())),
        names(&request(second.from("t").unwrap()))
    );
}

#[test]
fn the_table_name_is_appended_as_it_is() {
    let request = request(client().from("a b").unwrap());
    assert_eq!(request.url().as_str(), "https://proj.example/rest/v1/a%20b");
    let builder = client().from("");
    assert_eq!(self::request(builder.unwrap()).url().as_str(), "https://proj.example/rest/v1/");
}
