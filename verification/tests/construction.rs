use gamma_client::{Client, Error, Location, PRODUCTION_HOST};
use reqwest::header::{HeaderMap, HeaderValue};

#[test]
fn new_accepts_an_absolute_url_and_normalizes_it() {
    let client = Client::new("https://gamma-api.polymarket.com").unwrap();
    assert_eq!(client.host(), "https://gamma-api.polymarket.com/");
}

#[test]
fn new_keeps_a_normalized_host_as_it_is() {
    let client = Client::new("https://example.com/api/").unwrap();
    assert_eq!(client.host(), "https://example.com/api/");
}

#[test]
fn new_lowercases_scheme_and_host() {
    let client = Client::new("HTTPS://Example.COM:443/Api").unwrap();
    assert_eq!(client.host(), "https://example.com/Api");
}

#[test]
fn new_agrees_with_the_url_parser() {
    for host in ["http://localhost:8080", "https://example.com/a b", "data:text/plain,x"] {
        let client = Client::new(host).unwrap();
        assert_eq!(client.host(), url::Url::parse(host).unwrap().as_str());
    }
}

#[test]
fn new_refuses_a_relative_url() {
    let error = Client::new("gamma-api.polymarket.com").unwrap_err();
    assert_eq!(
        error,
        Error::Configuration { cause: "relative URL without a base".to_string() }
    );
}

#[test]
fn new_refuses_the_empty_string() {
    let error = Client::new("").unwrap_err();
    assert_eq!(
        error,
        Error::Configuration { cause: "relative URL without a base".to_string() }
    );
}

#[test]
fn new_refuses_a_url_without_host() {
    let error = Client::new("https://").unwrap_err();
    assert_eq!(error, Error::Configuration { cause: "empty host".to_string() });
}

#[test]
fn new_refuses_a_port_out_of_range() {
    let error = Client::new("https://example.com:99999").unwrap_err();
    assert_eq!(error, Error::Configuration { cause: "invalid port number".to_string() });
}

#[test]
fn new_reports_the_parser_s_own_message() {
    for host in ["", "/tags", "http://[::1", "https://exa mple.com"] {
        let expected = url::Url::parse(host).unwrap_err().to_string();
        assert_eq!(Client::new(host).unwrap_err(), Error::Configuration { cause: expected });
    }
}

#[test]
fn new_configures_the_default_headers() {
    let client = Client::new("https://example.com").unwrap();
    let mut expected = HeaderMap::new();
    expected.insert("User-Agent", HeaderValue::from_static("rs_clob_client"));
    expected.insert("Accept", HeaderValue::from_static("*/*"));
    expected.insert("Connection", HeaderValue::from_static("keep-alive"));
    expected.insert("Content-Type", HeaderValue::from_static("application/json"));
    assert_eq!(client.headers(), &expected);
}

#[test]
fn default_headers_are_kept_under_lower_case_names() {
    let client = Client::new("https://example.com").unwrap();
    let headers = client.headers();
    assert_eq!(headers.len(), 4);
    assert_eq!(headers.keys_len(), 4);
    let names: Vec<&str> = headers.keys().map(|name| name.as_str()).collect();
    assert_eq!(names, vec!["user-agent", "accept", "connection", "content-type"]);
    assert_eq!(headers["user-agent"].as_bytes(), b"rs_clob_client");
    assert_eq!(headers["accept"].as_bytes(), b"*/*");
    assert_eq!(headers["connection"].as_bytes(), b"keep-alive");
    assert_eq!(headers["content-type"].as_bytes(), b"application/json");
    assert_eq!(headers.get_all("accept").iter().count(), 1);
}

#[test]
fn production_binds_to_the_production_host() {
    assert_eq!(PRODUCTION_HOST, "https://gamma-api.polymarket.com");
    let client = Client::production().unwrap();
    assert_eq!(client.host(), "https://gamma-api.polymarket.com/");
}

#[test]
fn bind_takes_the_url_of_a_parsed_host() {
    let parsed = Ok(Location { text: "https://example.com/".to_string(), path: "/".to_string() });
    let client = Client::bind(parsed).unwrap();
    assert_eq!(client.host(), "https://example.com/");
    assert_eq!(client.headers().len(), 4);
}

#[test]
fn bind_turns_a_refusal_into_a_configuration_error() {
    let error = Client::bind(Err("empty host".to_string())).unwrap_err();
    assert_eq!(error, Error::Configuration { cause: "empty host".to_string() });
}

#[test]
fn clone_keeps_host_and_headers() {
    let client = Client::new("https://example.com/v1/").unwrap();
    let copy = client.clone();
    assert_eq!(copy.host(), client.host());
    assert_eq!(copy.headers(), client.headers());
}

fn shared_between_threads<T: Send + Sync + Clone>() {}

#[test]
fn client_can_be_shared() {
    shared_between_threads::<Client>();
    shared_between_threads::<gamma_client::Request>();
}
