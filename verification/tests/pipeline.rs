use std::collections::BTreeMap;

use gamma_client::{Call, Client, Error, Exchange, Filter, Method, Progress, Request};

const NOT_FOUND: &str = "Unable to find requested resource";

fn client() -> Client {
    Client::new("https://gamma-api.polymarket.com").unwrap()
}

fn request() -> Request {
    client().tag_by_id(42, None).unwrap()
}

fn answer<T>(status: u16, text: Option<&str>, decoded: Result<Option<T>, String>) -> Exchange<T> {
    Exchange { sent: Ok(status), text: text.map(str::to_string), decoded }
}

fn decode<T: serde::de::DeserializeOwned>(body: &str) -> Result<Option<T>, String> {
    serde_json::from_str::<Option<T>>(body).map_err(|error| error.to_string())
}

fn status_error(code: u16, path: &str, message: &str) -> Error {
    Error::Status {
        code,
        method: Method::Get,
        path: path.to_string(),
        message: message.to_string(),
    }
}

#[test]
fn value_of_a_success_comes_back_unchanged() {
    let fixture: BTreeMap<String, String> = [
        ("id".to_string(), "42".to_string()),
        ("label".to_string(), "Politics".to_string()),
        ("slug".to_string(), "politics".to_string()),
    ]
    .into_iter()
    .collect();
    let body = serde_json::to_string(&fixture).unwrap();
    let result = client().execute(&request(), answer(200, None, decode(&body)));
    assert_eq!(result, Ok(fixture));
}

#[test]
fn every_success_status_yields_the_value() {
    for status in [200u16, 201, 204, 250, 299] {
        let result = client().execute(&request(), answer(status, None, Ok(Some(7u32))));
        assert_eq!(result, Ok(7));
    }
}

#[test]
fn null_body_of_a_success_is_not_found() {
    let result = client().execute(&request(), answer::<u32>(200, None, decode("null")));
    assert_eq!(result, Err(status_error(404, "/tags/42", NOT_FOUND)));
}

#[test]
fn null_body_is_not_found_whatever_the_path() {
    let client = client();
    let requests = [
        client.sports().unwrap(),
        client.tags(&Filter::new()).unwrap(),
        client.tag_by_slug("politics", None).unwrap(),
    ];
    for request in requests {
        let result = client.execute::<Vec<u32>>(&request, answer(200, None, decode(" null ")));
        assert_eq!(result, Err(status_error(404, &request.path, NOT_FOUND)));
    }
}

#[test]
fn failure_status_carries_code_and_body() {
    let result = client().execute::<u32>(
        &request(),
        answer(500, Some("{\"error\":\"boom\"}"), Ok(Some(1))),
    );
    assert_eq!(result, Err(status_error(500, "/tags/42", "{\"error\":\"boom\"}")));
}

#[test]
fn failure_status_with_empty_body_has_an_empty_message() {
    let result = client().execute::<u32>(&request(), answer(404, Some(""), Ok(None)));
    assert_eq!(result, Err(status_error(404, "/tags/42", "")));
}

#[test]
fn failure_status_with_unreadable_body_has_an_empty_message() {
    let result = client().execute::<u32>(&request(), answer(503, None, Ok(None)));
    assert_eq!(result, Err(status_error(503, "/tags/42", "")));
}

#[test]
fn statuses_next_to_the_success_range_are_failures() {
    for status in [0u16, 100, 199, 300, 301, 400, 404, 999, u16::MAX] {
        let result = client().execute::<u32>(&request(), answer(status, Some("x"), Ok(Some(1))));
        assert_eq!(result, Err(status_error(status, "/tags/42", "x")));
    }
}

#[test]
fn undecodable_body_is_a_decode_error() {
    let decoded = decode::<Vec<u32>>("{\"id\": 1}");
    let cause = decoded.clone().unwrap_err();
    let result = client().execute(&request(), answer(200, None, decoded));
    assert_eq!(
        result,
        Err(Error::Decode { cause, method: Method::Get, path: "/tags/42".to_string() })
    );
}

#[test]
fn empty_body_of_a_success_is_a_decode_error() {
    let result = client().execute::<u32>(&request(), answer(200, None, decode("")));
    assert!(matches!(result, Err(Error::Decode { method: Method::Get, .. })));
}

#[test]
fn truncated_body_yields_no_partial_value() {
    let result = client().execute::<Vec<u32>>(&request(), answer(200, None, decode("[1, 2,")));
    assert!(matches!(result, Err(Error::Decode { .. })));
}

#[test]
fn transport_failure_is_a_transport_error() {
    let exchange: Exchange<u32> = Exchange {
        sent: Err("connection refused".to_string()),
        text: Some("ignored".to_string()),
        decoded: Ok(Some(1)),
    };
    assert_eq!(
        client().execute(&request(), exchange),
        Err(Error::Transport { cause: "connection refused".to_string() })
    );
}

#[test]
fn related_tags_come_back_in_response_order() {
    let client = client();
    let request = client
        .related_tags_by_slug(&gamma_client::RelatedTagsBySlugRequest {
            slug: "politics".to_string(),
            filter: Filter::new().with_number("depth", Some(1)),
        })
        .unwrap();
    let body = "[{\"id\":\"2\",\"slug\":\"elections\"},{\"id\":\"1\",\"slug\":\"congress\"}]";
    let tags: Vec<BTreeMap<String, String>> =
        client.execute(&request, answer(200, None, decode(body))).unwrap();
    assert_eq!(tags.len(), 2);
    assert_eq!(tags[0]["slug"], "elections");
    assert_eq!(tags[0]["id"], "2");
    assert_eq!(tags[1]["slug"], "congress");
    assert_eq!(tags[1]["id"], "1");
}

#[test]
fn repeated_call_has_the_same_result() {
    let client = client();
    let body = "[3, 1, 2]";
    let first = client.execute::<Vec<u32>>(&request(), answer(200, None, decode(body)));
    let second = client.execute::<Vec<u32>>(&request(), answer(200, None, decode(body)));
    assert_eq!(first, Ok(vec![3, 1, 2]));
    assert_eq!(first, second);
    let first = client.execute::<u32>(&request(), answer(502, Some("bad gateway"), Ok(None)));
    let second = client.execute::<u32>(&request(), answer(502, Some("bad gateway"), Ok(None)));
    assert_eq!(first, second);
    assert_eq!(client.host(), "https://gamma-api.polymarket.com/");
}

#[test]
fn error_carries_the_method_of_the_request() {
    let mut request = request();
    request.method = Method::Post;
    let result = client().execute::<u32>(&request, answer(200, None, Ok(None)));
    assert_eq!(
        result,
        Err(Error::Status {
            code: 404,
            method: Method::Post,
            path: "/tags/42".to_string(),
            message: NOT_FOUND.to_string(),
        })
    );
}

#[test]
fn steps_of_a_rejected_call() {
    let call = Call::begin(&request());
    match call.on_response(Ok(429)) {
        Progress::Rejected(rejected) => {
            let error = rejected.on_text(Some("slow down".to_string()));
            assert_eq!(error, status_error(429, "/tags/42", "slow down"));
        }
        other => panic!("{:?}", other),
    }
}

#[test]
fn steps_of_an_accepted_call() {
    let call = Call::begin(&request());
    match call.on_response(Ok(200)) {
        Progress::Accepted(accepted) => {
            assert_eq!(accepted.on_json(Ok(Some("tag".to_string()))), Ok("tag".to_string()));
        }
        other => panic!("{:?}", other),
    }
    match Call::begin(&request()).on_response(Ok(299)) {
        Progress::Accepted(accepted) => {
            assert_eq!(
                accepted.on_json::<u32>(Ok(None)),
                Err(status_error(404, "/tags/42", NOT_FOUND))
            );
        }
        other => panic!("{:?}", other),
    }
    match Call::begin(&request()).on_response(Ok(200)) {
        Progress::Accepted(accepted) => {
            assert_eq!(
                accepted.on_json::<u32>(Err("expected value at line 1 column 1".to_string())),
                Err(Error::Decode {
                    cause: "expected value at line 1 column 1".to_string(),
                    method: Method::Get,
                    path: "/tags/42".to_string(),
                })
            );
        }
        other => panic!("{:?}", other),
    }
}

#[test]
fn steps_of_a_call_without_response() {
    match Call::begin(&request()).on_response(Err("dns error".to_string())) {
        Progress::Failed(error) => {
            assert_eq!(error, Error::Transport { cause: "dns error".to_string() });
        }
        other => panic!("{:?}", other),
    }
}

#[test]
fn steps_split_at_the_bounds_of_the_success_range() {
    for (status, accepted) in [(199u16, false), (200, true), (299, true), (300, false)] {
        let progress = Call::begin(&request()).on_response(Ok(status));
        assert_eq!(matches!(progress, Progress::Accepted(_)), accepted);
        assert_eq!(matches!(progress, Progress::Rejected(_)), !accepted);
    }
}
