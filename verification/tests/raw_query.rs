use restcore::client::Client;
use restcore::error::{ApiError, BodyError};
use restcore::mock::{MockBody, MockClient, MockEndpoint, MockError};
use restcore::params::QueryParams;
use restcore::query::{finish_raw, prepare, url_to_http_uri, Prepared, Query};
use restcore::raw;
use restcore::types::{Method, StatusCode};

#[test]
fn raw_query_returns_success_bytes_unchanged() {
    let endpoint = MockEndpoint {
        method: Method::Get,
        path: String::from("/widgets/7"),
        body: MockBody::Empty,
    };
    let client = MockClient {
        url: url::Url::parse("https://example.com/api/widgets/7").unwrap(),
        reject: None,
        status: 200,
        body: b"{\"id\":7}".to_vec(),
        fail: None,
    };
    match raw(endpoint).query(&client) {
        Ok(v) => assert_eq!(v, b"{\"id\":7}".to_vec()),
        Err(_) => panic!("expected the raw body bytes"),
    }
}

#[test]
fn non_success_status_is_unstructured_server_failure() {
    let endpoint = MockEndpoint {
        method: Method::Get,
        path: String::from("/widgets/7"),
        body: MockBody::Empty,
    };
    let client = MockClient {
        url: url::Url::parse("https://example.com/api/widgets/7").unwrap(),
        reject: None,
        status: 404,
        body: b"not found".to_vec(),
        fail: None,
    };
    match raw(endpoint).query(&client) {
        Err(ApiError::ServerService { status, data }) => {
            assert_eq!(status.code, 404);
            assert_eq!(data, b"not found".to_vec());
        }
        _ => panic!("expected the unstructured server failure"),
    }
}

#[test]
fn error_body_bytes_pass_through_even_when_not_utf8() {
    let endpoint = MockEndpoint {
        method: Method::Get,
        path: String::from("/widgets"),
        body: MockBody::Empty,
    };
    let client = MockClient {
        url: url::Url::parse("https://example.com/api/widgets").unwrap(),
        reject: None,
        status: 500,
        body: vec![0xff, 0x00, 0x9c, 0xfe],
        fail: None,
    };
    match raw(endpoint).query(&client) {
        Err(ApiError::ServerService { status, data }) => {
            assert_eq!(status.code, 500);
            assert_eq!(data, vec![0xff, 0x00, 0x9c, 0xfe]);
        }
        _ => panic!("expected the unstructured server failure"),
    }
}

#[test]
fn transport_failure_carries_the_client_error_unchanged() {
    let endpoint = MockEndpoint {
        method: Method::Get,
        path: String::from("/widgets"),
        body: MockBody::Empty,
    };
    let client = MockClient {
        url: url::Url::parse("https://example.com/api/widgets").unwrap(),
        reject: None,
        status: 200,
        body: Vec::new(),
        fail: Some(MockError { code: 9 }),
    };
    match raw(endpoint).query(&client) {
        Err(ApiError::Client { source }) => assert_eq!(source, MockError { code: 9 }),
        _ => panic!("expected the transport failure"),
    }
}

#[test]
fn url_resolution_failure_propagates_unchanged() {
    let parse_error = url::Url::parse("/relative").unwrap_err();
    let endpoint = MockEndpoint {
        method: Method::Get,
        path: String::from("/widgets"),
        body: MockBody::Empty,
    };
    let client = MockClient {
        url: url::Url::parse("https://example.com/api/widgets").unwrap(),
        reject: Some(parse_error),
        status: 200,
        body: Vec::new(),
        fail: None,
    };
    match raw(endpoint).query(&client) {
        Err(ApiError::UrlParse { source }) => assert_eq!(source, parse_error),
        _ => panic!("expected the URL-parse failure"),
    }
}

#[test]
fn failing_body_producer_classifies_as_body_error() {
    let encode_error =
        <serde_urlencoded::ser::Error as serde::ser::Error>::custom("refused to encode");
    let endpoint = MockEndpoint {
        method: Method::Post,
        path: String::from("/widgets"),
        body: MockBody::FailsToEncode { error: encode_error },
    };
    let client = MockClient {
        url: url::Url::parse("https://example.com/api/widgets").unwrap(),
        reject: None,
        status: 200,
        body: Vec::new(),
        fail: None,
    };
    match raw(endpoint).query(&client) {
        Err(ApiError::Body { source: BodyError::UrlEncoded { source } }) => {
            assert_eq!(
                source,
                <serde_urlencoded::ser::Error as serde::ser::Error>::custom("refused to encode")
            );
        }
        _ => panic!("expected the body-encoding failure"),
    }
}

#[test]
fn failing_body_producer_never_reaches_transport() {
    let encode_error =
        <serde_urlencoded::ser::Error as serde::ser::Error>::custom("refused to encode");
    let endpoint = MockEndpoint {
        method: Method::Post,
        path: String::from("/widgets"),
        body: MockBody::FailsToEncode { error: encode_error },
    };
    let client = MockClient {
        url: url::Url::parse("https://example.com/api/widgets").unwrap(),
        reject: None,
        status: 200,
        body: Vec::new(),
        fail: None,
    };
    match prepare(&endpoint, &client) {
        Prepared::Abort(e) => assert!(matches!(e, ApiError::Body { .. })),
        Prepared::Transfer(_, _) => panic!("the call must abort before any transfer"),
    }
}

#[test]
fn declared_body_rides_with_its_content_type() {
    let endpoint = MockEndpoint {
        method: Method::Post,
        path: String::from("/widgets"),
        body: MockBody::Payload {
            mime: String::from("application/x-www-form-urlencoded"),
            data: b"name=widget".to_vec(),
        },
    };
    let client = MockClient {
        url: url::Url::parse("https://example.com/api/widgets").unwrap(),
        reject: None,
        status: 201,
        body: Vec::new(),
        fail: None,
    };
    match prepare(&endpoint, &client) {
        Prepared::Transfer(req, payload) => {
            assert_eq!(req.method, Method::Post);
            assert_eq!(req.content_type, Some(String::from("application/x-www-form-urlencoded")));
            assert_eq!(payload, b"name=widget".to_vec());
        }
        Prepared::Abort(_) => panic!("expected a transfer"),
    }
}

#[test]
fn no_body_means_empty_payload_and_no_content_type() {
    let endpoint = MockEndpoint {
        method: Method::Get,
        path: String::from("/widgets/7"),
        body: MockBody::Empty,
    };
    let client = MockClient {
        url: url::Url::parse("https://example.com/api/widgets/7").unwrap(),
        reject: None,
        status: 200,
        body: Vec::new(),
        fail: None,
    };
    match prepare(&endpoint, &client) {
        Prepared::Transfer(req, payload) => {
            assert_eq!(req.method, Method::Get);
            assert_eq!(req.content_type, None);
            assert!(payload.is_empty());
        }
        Prepared::Abort(_) => panic!("expected a transfer"),
    }
}

#[test]
fn blocking_and_staged_execution_agree_on_failure() {
    let client = MockClient {
        url: url::Url::parse("https://example.com/api/widgets/7").unwrap(),
        reject: None,
        status: 404,
        body: b"not found".to_vec(),
        fail: None,
    };
    let blocking = raw(MockEndpoint {
        method: Method::Get,
        path: String::from("/widgets/7"),
        body: MockBody::Empty,
    })
    .query(&client);
    let staged_endpoint = MockEndpoint {
        method: Method::Get,
        path: String::from("/widgets/7"),
        body: MockBody::Empty,
    };
    let staged = match prepare(&staged_endpoint, &client) {
        Prepared::Abort(e) => Err(e),
        Prepared::Transfer(req, payload) => finish_raw(client.rest(req, payload)),
    };
    match (blocking, staged) {
        (
            Err(ApiError::ServerService { status: s1, data: d1 }),
            Err(ApiError::ServerService { status: s2, data: d2 }),
        ) => {
            assert_eq!(s1, s2);
            assert_eq!(d1, d2);
        }
        _ => panic!("both strategies must classify the response identically"),
    }
}

#[test]
fn blocking_and_staged_execution_agree_on_success() {
    let client = MockClient {
        url: url::Url::parse("https://example.com/api/widgets/7").unwrap(),
        reject: None,
        status: 200,
        body: b"{\"id\":7}".to_vec(),
        fail: None,
    };
    let blocking = raw(MockEndpoint {
        method: Method::Get,
        path: String::from("/widgets/7"),
        body: MockBody::Empty,
    })
    .query(&client);
    let staged_endpoint = MockEndpoint {
        method: Method::Get,
        path: String::from("/widgets/7"),
        body: MockBody::Empty,
    };
    let staged = match prepare(&staged_endpoint, &client) {
        Prepared::Abort(e) => Err(e),
        Prepared::Transfer(req, payload) => finish_raw(client.rest(req, payload)),
    };
    match (blocking, staged) {
        (Ok(b1), Ok(b2)) => {
            assert_eq!(b1, b2);
            assert_eq!(b1, b"{\"id\":7}".to_vec());
        }
        _ => panic!("both strategies must yield the same success bytes"),
    }
}

#[test]
fn status_success_is_exactly_the_2xx_class() {
    assert!(!StatusCode { code: 199 }.is_success());
    assert!(StatusCode { code: 200 }.is_success());
    assert!(StatusCode { code: 204 }.is_success());
    assert!(StatusCode { code: 299 }.is_success());
    assert!(!StatusCode { code: 300 }.is_success());
    assert!(!StatusCode { code: 404 }.is_success());
}

#[test]
fn query_parameters_append_in_order_with_encoding() {
    let mut params = QueryParams::new();
    params.push(String::from("a"), String::from("b c"));
    params.push(String::from("q"), String::from("1&2"));
    let mut url = url::Url::parse("https://example.com/x").unwrap();
    assert!(params.try_add_to_url(&mut url));
    assert_eq!(url.as_str(), "https://example.com/x?a=b+c&q=1%262");
}

#[test]
fn url_serialization_reparses_as_uri() {
    let url = url::Url::parse("https://example.com/x?a=b").unwrap();
    let uri = url_to_http_uri(url);
    assert_eq!(uri, Some("https://example.com/x?a=b".parse::<http::Uri>().unwrap()));
}

#[test]
fn uri_conversion_rejects_unacceptable_urls() {
    let url = url::Url::parse("data:text/plain,hi").unwrap();
    assert_eq!(url_to_http_uri(url), None);
}

#[test]
fn request_targets_the_resolved_url() {
    let endpoint = MockEndpoint {
        method: Method::Get,
        path: String::from("/widgets/7"),
        body: MockBody::Empty,
    };
    let client = MockClient {
        url: url::Url::parse("https://example.com/api/widgets/7").unwrap(),
        reject: None,
        status: 200,
        body: Vec::new(),
        fail: None,
    };
    match prepare(&endpoint, &client) {
        Prepared::Transfer(req, _payload) => {
            assert_eq!(req.url.as_str(), "https://example.com/api/widgets/7");
            assert_eq!(
                req.uri(),
                Some("https://example.com/api/widgets/7".parse::<http::Uri>().unwrap())
            );
        }
        Prepared::Abort(_) => panic!("expected a transfer"),
    }
}

#[test]
fn raw_owns_the_wrapped_endpoint() {
    let wrapped = raw(MockEndpoint {
        method: Method::Get,
        path: String::from("/widgets/7"),
        body: MockBody::Empty,
    });
    assert_eq!(wrapped.endpoint.path, "/widgets/7");
    assert_eq!(wrapped.endpoint.method, Method::Get);
}
