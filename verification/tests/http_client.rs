//! Requests and responses as plain values

use infra_smoke_tests::assertion::expect_success;
use infra_smoke_tests::assertion::is_redirect;
use infra_smoke_tests::assertion::redirects_to;
use infra_smoke_tests::assertion::summarize;
use infra_smoke_tests::http_client::custom_http_client;
use infra_smoke_tests::http_client::Client;
use infra_smoke_tests::http_client::Header;
use infra_smoke_tests::http_client::Method;
use infra_smoke_tests::http_client::Outcome;
use infra_smoke_tests::http_client::Response;
use infra_smoke_tests::http_client::Status;
use infra_smoke_tests::http_client::USER_AGENT_HEADER;
use infra_smoke_tests::test::TestResult;

fn response(code: u16, headers: Vec<Header>) -> Response {
    Response {
        status: Status::new(code).expect("a status code"),
        headers,
        url: String::from("https://example.com/"),
        body: Ok(String::new()),
    }
}

fn header(name: &str, value: &[u8]) -> Header {
    Header {
        name: String::from(name),
        value: value.to_vec(),
    }
}

#[test]
fn a_status_is_a_number_from_100_to_999() {
    assert!(Status::new(0).is_none());
    assert!(Status::new(99).is_none());
    assert_eq!(Some(100), Status::new(100).map(|status| status.as_u16()));
    assert_eq!(Some(999), Status::new(999).map(|status| status.as_u16()));
    assert!(Status::new(1000).is_none());
    assert!(Status::new(u16::MAX).is_none());
    assert_eq!(200, Status::ok().as_u16());
    assert_eq!(403, Status::forbidden().as_u16());
}

#[test]
fn a_status_is_shown_as_the_http_library_shows_it() {
    for code in 0..=u16::MAX {
        match (Status::new(code), reqwest::StatusCode::from_u16(code)) {
            (Some(status), Ok(theirs)) => {
                assert_eq!(theirs.to_string(), status.to_string());
                assert_eq!(theirs.is_success(), status.is_success());
                assert_eq!(theirs.is_redirection(), status.is_redirection());
                assert_eq!(theirs.as_u16(), status.as_u16());
            }
            (None, Err(_)) => {}
            _ => panic!("{code} is a status for one and none for the other"),
        }
    }
}

#[test]
fn a_status_is_shown_with_its_reason() {
    assert_eq!("200 OK", Status::ok().to_string());
    assert_eq!("403 Forbidden", Status::forbidden().to_string());
    assert_eq!(
        "307 Temporary Redirect",
        Status::new(307).expect("a status code").to_string()
    );
    assert_eq!(
        "999 <unknown status code>",
        Status::new(999).expect("a status code").to_string()
    );
}

#[test]
fn a_status_says_success_from_200_to_299() {
    let is_success = |code| Status::new(code).expect("a status code").is_success();

    assert!(!is_success(199));
    assert!(is_success(200));
    assert!(is_success(299));
    assert!(!is_success(300));
}

#[test]
fn a_status_is_a_redirection_from_300_to_399() {
    let is_redirection = |code| Status::new(code).expect("a status code").is_redirection();

    assert!(!is_redirection(299));
    assert!(is_redirection(300));
    assert!(is_redirection(399));
    assert!(!is_redirection(400));

    assert!(is_redirect(&response(301, vec![])));
    assert!(!is_redirect(&response(200, vec![])));
}

#[test]
fn a_header_is_found_by_its_name() {
    let response = response(
        200,
        vec![
            Header::new("content-type", "text/html"),
            Header::new("location", "/first"),
            Header::new("location", "/second"),
        ],
    );

    assert_eq!(Some(String::from("text/html")), response.header("content-type"));
    assert_eq!(Some(String::from("/first")), response.header("location"));
    assert_eq!(None, response.header("content-length"));
    assert_eq!(None, response.header("Location"));
    assert_eq!(None, response.header(""));
}

#[test]
fn a_header_is_text_if_it_is_made_of_visible_characters() {
    let text_of = |value: &[u8]| response(200, vec![header("x", value)]).header("x");

    assert_eq!(Some(String::new()), text_of(b""));
    assert_eq!(Some(String::from("a b\tc~")), text_of(b"a b\tc~"));
    assert_eq!(Some(String::from(" ")), text_of(&[32]));
    assert_eq!(Some(String::from("~")), text_of(&[126]));
    assert_eq!(None, text_of(&[127]));
    assert_eq!(None, text_of(&[31]));
    assert_eq!(None, text_of(b"a\nb"));
    assert_eq!(None, text_of(&[0]));
    assert_eq!(None, text_of(&[128]));
    assert_eq!(None, text_of(&[b'a', 255, b'b']));
    assert_eq!(None, text_of("é".as_bytes()));
}

#[test]
fn a_header_is_text_where_the_http_library_says_so() {
    for byte in 0..=u8::MAX {
        let value = [b'a', byte, b'z'];
        let theirs = reqwest::header::HeaderValue::from_bytes(&value)
            .ok()
            .and_then(|value| value.to_str().ok().map(String::from));

        assert_eq!(theirs, response(200, vec![header("x", &value)]).header("x"));
    }
}

#[test]
fn the_first_header_of_a_name_decides() {
    let response = response(
        302,
        vec![header("location", &[255]), Header::new("location", "/stable/")],
    );

    assert_eq!(None, response.header("location"));
    assert!(!redirects_to(&response, "/stable/"));
}

#[test]
fn a_response_redirects_to_its_location() {
    let response = response(302, vec![Header::new("location", "/stable/")]);

    assert!(redirects_to(&response, "/stable/"));
    assert!(!redirects_to(&response, "/stable"));
    assert!(!redirects_to(&response, ""));
    assert!(!redirects_to(&self::response(302, vec![]), "/stable/"));
    assert!(!redirects_to(&self::response(302, vec![]), ""));
}

#[test]
fn a_client_follows_redirects_and_sends_no_headers() {
    let request = Client::new().get(String::from("https://example.com/"));

    assert_eq!(Method::Get, request.method);
    assert_eq!("https://example.com/", request.url);
    assert!(request.headers.is_empty());
    assert!(request.follow_redirects);
    assert!(!request.read_body);

    let request = Client::new().head(String::from("https://example.com/"));

    assert_eq!(Method::Head, request.method);
    assert!(request.follow_redirects);
}

#[test]
fn the_custom_client_names_itself() {
    let client = custom_http_client();

    assert_eq!("rust-lang/infra-smoke-tests", USER_AGENT_HEADER);
    assert_eq!(vec![Header::new("user-agent", USER_AGENT_HEADER)], client.headers);
    assert!(client.follow_redirects);
}

#[test]
fn default_headers_are_addative() {
    let client = custom_http_client().default_header("via", "test");

    let request = client.get(String::from("http://127.0.0.1:1234"));

    assert_eq!(
        vec![
            Header::new("user-agent", "rust-lang/infra-smoke-tests"),
            Header::new("via", "test"),
        ],
        request.headers
    );
    assert_eq!(b"test".to_vec(), request.headers[1].value);
}

#[test]
fn a_client_can_be_told_not_to_follow_redirects() {
    let client = custom_http_client().no_redirects();
    let request = client.head(String::from("https://example.com/")).with_body();

    assert!(!request.follow_redirects);
    assert!(request.read_body);
    assert_eq!(1, request.headers.len());
}

#[test]
fn success_is_expected_of_the_status() {
    let outcome = |code| Outcome::Received(response(code, vec![]));

    assert_eq!(
        TestResult::passed("test"),
        expect_success("test", "Expected HTTP 200, got HTTP ", &outcome(204))
    );
    assert_eq!(
        TestResult::failed("test", String::from("Expected HTTP 200, got HTTP 302 Found")),
        expect_success("test", "Expected HTTP 200, got HTTP ", &outcome(302))
    );
    assert_eq!(
        TestResult::failed("test", String::from("dns error")),
        expect_success(
            "test",
            "Expected HTTP 200, got HTTP ",
            &Outcome::Failed(String::from("dns error"))
        )
    );
}

#[test]
fn the_first_failure_sums_up_a_test() {
    let first = TestResult::failed("test", String::from("first"));
    let second = TestResult::failed("other", String::from("second"));

    assert_eq!(TestResult::passed("test"), summarize("test", &vec![]));
    assert_eq!(
        TestResult::passed("test"),
        summarize("test", &vec![TestResult::passed("a"), TestResult::passed("b")])
    );
    assert_eq!(
        first,
        summarize(
            "test",
            &vec![TestResult::passed("a"), first.clone(), second.clone()]
        )
    );
    assert_eq!(second, summarize("test", &vec![second.clone(), first.clone()]));
}
