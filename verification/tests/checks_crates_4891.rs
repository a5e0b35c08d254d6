//! The checks for rust-lang/crates.io#4891 on given responses

use std::sync::Arc;

use infra_smoke_tests::crates::crates_4891;
use infra_smoke_tests::crates::crates_4891::Crates4891;
use infra_smoke_tests::crates::issue_4891;
use infra_smoke_tests::crates::issue_4891::Issue4891;
use infra_smoke_tests::environment::Environment;
use infra_smoke_tests::http_client::Header;
use infra_smoke_tests::http_client::Method;
use infra_smoke_tests::http_client::Outcome;
use infra_smoke_tests::http_client::Request;
use infra_smoke_tests::http_client::Response;
use infra_smoke_tests::http_client::Status;
use infra_smoke_tests::test::Test;
use infra_smoke_tests::test::TestGroup;
use infra_smoke_tests::test::TestResult;

const SERVER: &str = "http://127.0.0.1:1234";

/// A response with the given status, headers and body
fn response(code: u16, headers: &[(&str, &str)], body: &str) -> Outcome {
    Outcome::Received(Response {
        status: Status::new(code).expect("a status code"),
        headers: headers
            .iter()
            .map(|(name, value)| Header::new(name, value))
            .collect(),
        url: String::from(SERVER),
        body: Ok(String::from(body)),
    })
}

/// The one request of a test, after a look at its method
fn only_request(mut requests: Vec<Request>, method: Method) -> Request {
    assert_eq!(1, requests.len());
    let request = requests.remove(0);
    assert_eq!(method, request.method);
    request
}

const KRATE: &str = "rust-cratesio-4891";

fn setup(krate: &'static str, version: &'static str) -> crates_4891::Config {
    crates_4891::Config::new(
        krate.into(),
        version.into(),
        SERVER.into(),
        SERVER.into(),
    )
}

fn setup_issue(krate: &'static str, version: &'static str) -> issue_4891::Config {
    issue_4891::Config::new(krate, version, SERVER, SERVER)
}

/// Run a test that makes one request for `path` on the response with the status `code`
fn run_on<T: Test>(test: &T, path: &str, code: u16) -> TestResult {
    let request = only_request(test.requests(), Method::Get);
    assert_eq!(format!("{SERVER}{path}"), request.url);
    assert!(request.headers.is_empty());
    assert!(request.follow_redirects);
    assert!(!request.read_body);

    test.run(&vec![response(code, &[], "")])
}

#[test]
fn cloudfront_encoded_succeeds_with_http_200_response() {
    const VERSION: &str = "0.1.0%2B1";

    let config = setup(KRATE, VERSION);
    let path = format!("/crates/{KRATE}/{KRATE}-{VERSION}.crate");
    let result = run_on(&crates_4891::CloudfrontEncoded::new(&config), &path, 200);

    assert!(result.success());

    let config = setup_issue(KRATE, "0.1.0+1");
    let encoded_version = "0.1.0+1".replace('+', "%2B");
    let path = format!("/crates/{KRATE}/{KRATE}-{encoded_version}.crate");
    let result = run_on(&issue_4891::CloudfrontEncoded::new(&config), &path, 200);

    assert!(result.success());
}

#[test]
fn cloudfront_encoded_fails_with_other_http_responses() {
    const VERSION: &str = "0.1.0%2B1";

    let config = setup(KRATE, VERSION);
    let path = format!("/crates/{KRATE}/{KRATE}-{VERSION}.crate");
    let result = run_on(&crates_4891::CloudfrontEncoded::new(&config), &path, 403);

    assert!(!result.success());
    assert_eq!(
        &Some(String::from("Expected HTTP 200 OK, got HTTP 403 Forbidden")),
        result.message()
    );

    let config = setup_issue(KRATE, "0.1.0+1");
    let path = format!("/crates/{KRATE}/{KRATE}-0.1.0%2B1.crate");
    let result = run_on(&issue_4891::CloudfrontEncoded::new(&config), &path, 403);

    assert!(!result.success());
    assert_eq!(
        &Some(String::from("Expected HTTP 200 OK, got HTTP 403 Forbidden")),
        result.message()
    );
}

#[test]
fn cloudfront_encoded_replaces_each_plus_sign() {
    let config = setup("a+b", "1.0.0+build+1");
    let path = "/crates/a%2Bb/a%2Bb-1.0.0%2Bbuild%2B1.crate";
    let result = run_on(&crates_4891::CloudfrontEncoded::new(&config), path, 200);

    assert_eq!(TestResult::passed("CloudFront encoded"), result);
}

#[test]
fn cloudfront_unencoded_succeeds_with_http_200_response() {
    const VERSION: &str = "0.1.0+1";

    let config = setup(KRATE, VERSION);
    let path = format!("/crates/{KRATE}/{KRATE}-{VERSION}.crate");
    let result = run_on(&crates_4891::CloudfrontUnencoded::new(&config), &path, 200);

    assert!(result.success());

    let config = setup_issue(KRATE, VERSION);
    let test = issue_4891::CloudfrontUnencoded::try_new(&config).expect("the URL is an address");
    let result = run_on(&test, &path, 200);

    assert!(result.success());
}

#[test]
fn cloudfront_unencoded_fails_with_other_http_responses() {
    const VERSION: &str = "0.1.0+1";

    let config = setup(KRATE, VERSION);
    let path = format!("/crates/{KRATE}/{KRATE}-{VERSION}.crate");
    let result = run_on(&crates_4891::CloudfrontUnencoded::new(&config), &path, 403);

    assert!(!result.success());

    let config = setup_issue(KRATE, VERSION);
    let test = issue_4891::CloudfrontUnencoded::try_new(&config).expect("the URL is an address");
    let result = run_on(&test, &path, 403);

    assert!(!result.success());
    assert_eq!(
        &Some(String::from("Expected HTTP 200 OK, got HTTP 403 Forbidden")),
        result.message()
    );
}

#[test]
fn cloudfront_unencoded_requests_the_address_in_its_normal_form() {
    // The address is parsed before it is requested: the host is put in lower case, and a
    // space in the path is encoded
    let config = issue_4891::Config::new(KRATE, "0.1.0 1", "HTTP://EXAMPLE.com", SERVER);
    let test = issue_4891::CloudfrontUnencoded::try_new(&config).expect("the URL is an address");
    let request = only_request(test.requests(), Method::Get);

    assert_eq!(
        format!("http://example.com/crates/{KRATE}/{KRATE}-0.1.0%201.crate"),
        request.url
    );
}

#[test]
fn cloudfront_unencoded_needs_an_address() {
    let config = issue_4891::Config::new(KRATE, "0.1.0+1", "not an address", SERVER);

    assert!(issue_4891::CloudfrontUnencoded::try_new(&config).is_none());
    assert!(issue_4891::CloudfrontUnencoded::try_new(&issue_4891::Config::default()).is_none());
}

#[test]
fn cloudfront_space_succeeds_with_http_403_response() {
    const VERSION: &str = "0.1.0 1";

    let config = setup(KRATE, VERSION);
    let path = format!("/crates/{KRATE}/{KRATE}-{VERSION}.crate");
    let result = run_on(&crates_4891::CloudfrontSpace::new(Arc::new(config)), &path, 403);

    assert!(result.success());

    let config = setup_issue(KRATE, "0.1.0+1");
    let result = run_on(&issue_4891::CloudfrontSpace::new(&config), &path, 403);

    assert!(result.success());
}

#[test]
fn cloudfront_space_fails_with_other_http_responses() {
    const VERSION: &str = "0.1.0 1";

    let config = setup(KRATE, VERSION);
    let path = format!("/crates/{KRATE}/{KRATE}-{VERSION}.crate");
    let result = run_on(&crates_4891::CloudfrontSpace::new(Arc::new(config)), &path, 200);

    assert!(!result.success());
    assert_eq!(
        &Some(String::from("Expected HTTP 403 Forbidden, got HTTP 200 OK")),
        result.message()
    );

    let config = setup_issue(KRATE, "0.1.0+1");
    let result = run_on(&issue_4891::CloudfrontSpace::new(&config), &path, 200);

    assert!(!result.success());
    assert_eq!(
        &Some(String::from("Expected HTTP 403 Forbidden, got HTTP 200 OK")),
        result.message()
    );
}

#[test]
fn fastly_encoded_succeeds_with_http_200_response() {
    const VERSION: &str = "0.1.0%2B1";

    let config = setup(KRATE, VERSION);
    let path = format!("/crates/{KRATE}/{KRATE}-{VERSION}.crate");
    let result = run_on(&crates_4891::FastlyEncoded::new(Arc::new(config)), &path, 200);

    assert!(result.success());
}

#[test]
fn fastly_encoded_fails_with_other_http_responses() {
    const VERSION: &str = "0.1.0%2B1";

    let config = setup(KRATE, VERSION);
    let path = format!("/crates/{KRATE}/{KRATE}-{VERSION}.crate");
    let result = run_on(&crates_4891::FastlyEncoded::new(Arc::new(config)), &path, 403);

    assert!(!result.success());
}

#[test]
fn fastly_space_succeeds_with_http_403_response() {
    const VERSION: &str = "0.1.0 1";

    let config = setup(KRATE, VERSION);
    let path = format!("/crates/{KRATE}/{KRATE}-{VERSION}.crate");
    let result = run_on(&crates_4891::FastlySpace::new(&config), &path, 403);

    assert!(result.success());
}

#[test]
fn fastly_space_fails_with_other_http_responses() {
    const VERSION: &str = "0.1.0 1";

    let config = setup(KRATE, VERSION);
    let path = format!("/crates/{KRATE}/{KRATE}-{VERSION}.crate");
    let result = run_on(&crates_4891::FastlySpace::new(&config), &path, 200);

    assert!(!result.success());
}

#[test]
fn fastly_unencoded_succeeds_with_http_200_response() {
    const VERSION: &str = "0.1.0+1";

    let config = setup(KRATE, VERSION);
    let path = format!("/crates/{KRATE}/{KRATE}-{VERSION}.crate");
    let result = run_on(&crates_4891::FastlyUnencoded::new(&config), &path, 200);

    assert!(result.success());
}

#[test]
fn fastly_unencoded_fails_with_other_http_responses() {
    const VERSION: &str = "0.1.0+1";

    let config = setup(KRATE, VERSION);
    let path = format!("/crates/{KRATE}/{KRATE}-{VERSION}.crate");
    let result = run_on(&crates_4891::FastlyUnencoded::new(&config), &path, 403);

    assert!(!result.success());
}

#[test]
fn a_test_fails_with_the_description_of_a_transport_error() {
    let config = setup(KRATE, "0.1.0+1");
    let error = "error sending request for url (http://127.0.0.1:1234/): connection refused";
    let result = crates_4891::FastlyUnencoded::new(&config)
        .run(&vec![Outcome::Failed(String::from(error))]);

    assert_eq!(TestResult::failed("Fastly unencoded", String::from(error)), result);
}

#[test]
fn the_tests_cover_both_networks() {
    let config = crates_4891::Config::new(
        "k".into(),
        "1+2".into(),
        "https://cloudfront".into(),
        "https://fastly".into(),
    );
    let url = |requests: Vec<Request>| only_request(requests, Method::Get).url;

    assert_eq!(
        "https://cloudfront/crates/k/k-1%2B2.crate",
        url(crates_4891::CloudfrontEncoded::new(&config).requests())
    );
    assert_eq!(
        "https://cloudfront/crates/k/k-1+2.crate",
        url(crates_4891::CloudfrontUnencoded::new(&config).requests())
    );
    assert_eq!(
        "https://cloudfront/crates/k/k-1 2.crate",
        url(crates_4891::CloudfrontSpace::new(Arc::new(config.clone())).requests())
    );
    assert_eq!(
        "https://fastly/crates/k/k-1%2B2.crate",
        url(crates_4891::FastlyEncoded::new(Arc::new(config.clone())).requests())
    );
    assert_eq!(
        "https://fastly/crates/k/k-1+2.crate",
        url(crates_4891::FastlyUnencoded::new(&config).requests())
    );
    assert_eq!(
        "https://fastly/crates/k/k-1 2.crate",
        url(crates_4891::FastlySpace::new(&config).requests())
    );
}

#[test]
fn the_group_runs_its_six_tests() {
    let group = Crates4891::new(Environment::Production);
    let requests = group.requests();

    let urls: Vec<&str> = requests
        .iter()
        .map(|requests| {
            assert_eq!(1, requests.len());
            requests[0].url.as_str()
        })
        .collect();
    assert_eq!(
        vec![
            "https://cloudfront-static.crates.io/crates/libgit2-sys/libgit2-sys-0.12.25%2B1.3.0.crate",
            "https://cloudfront-static.crates.io/crates/libgit2-sys/libgit2-sys-0.12.25+1.3.0.crate",
            "https://cloudfront-static.crates.io/crates/libgit2-sys/libgit2-sys-0.12.25 1.3.0.crate",
            "https://fastly-static.crates.io/crates/libgit2-sys/libgit2-sys-0.12.25%2B1.3.0.crate",
            "https://fastly-static.crates.io/crates/libgit2-sys/libgit2-sys-0.12.25+1.3.0.crate",
            "https://fastly-static.crates.io/crates/libgit2-sys/libgit2-sys-0.12.25 1.3.0.crate",
        ],
        urls
    );

    let outcomes = vec![
        vec![response(200, &[], "")],
        vec![response(200, &[], "")],
        vec![response(403, &[], "")],
        vec![response(200, &[], "")],
        vec![response(404, &[], "")],
        vec![response(403, &[], "")],
    ];
    let result = group.run(&outcomes);

    assert_eq!("rust-lang/crates.io#4891", result.name());
    assert!(!result.success());
    assert_eq!(
        &vec![
            TestResult::passed("CloudFront encoded"),
            TestResult::passed("CloudFront unencoded"),
            TestResult::passed("CloudFront with space"),
            TestResult::passed("Fastly encoded"),
            TestResult::failed(
                "Fastly unencoded",
                String::from("Expected HTTP 200 OK, got HTTP 404 Not Found")
            ),
            TestResult::passed("Fastly with space"),
        ],
        result.results()
    );
}

#[test]
fn the_first_group_runs_its_three_tests() {
    let group = Issue4891::try_new(Environment::Staging).expect("the URL is an address");
    let requests = group.requests();

    let urls: Vec<&str> = requests
        .iter()
        .map(|requests| {
            assert_eq!(1, requests.len());
            requests[0].url.as_str()
        })
        .collect();
    assert_eq!(
        vec![
            "https://cloudfront-static.staging.crates.io/crates/rust-cratesio-4891/rust-cratesio-4891-0.1.0%2B1.crate",
            "https://cloudfront-static.staging.crates.io/crates/rust-cratesio-4891/rust-cratesio-4891-0.1.0+1.crate",
            "https://cloudfront-static.staging.crates.io/crates/rust-cratesio-4891/rust-cratesio-4891-0.1.0 1.crate",
        ],
        urls
    );

    let outcomes = vec![
        vec![response(200, &[], "")],
        vec![response(204, &[], "")],
        vec![response(403, &[], "")],
    ];
    let result = group.run(&outcomes);

    assert_eq!("rust-lang/crates.io#4891", result.name());
    assert!(result.success());
    assert_eq!(3, result.results().len());
    assert!(Issue4891::try_new(Environment::Production).is_some());
}
