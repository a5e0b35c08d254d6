//! The checks for the release archives on given responses

use std::sync::Arc;

use infra_smoke_tests::environment::Environment;
use infra_smoke_tests::http_client::Header;
use infra_smoke_tests::http_client::Method;
use infra_smoke_tests::http_client::Outcome;
use infra_smoke_tests::http_client::Request;
use infra_smoke_tests::http_client::Response;
use infra_smoke_tests::http_client::Status;
use infra_smoke_tests::releases::doc_router;
use infra_smoke_tests::releases::doc_router::DocRouter;
use infra_smoke_tests::releases::doc_router::RedirectMinorVersions;
use infra_smoke_tests::releases::doc_router::RedirectRoot;
use infra_smoke_tests::releases::list_files;
use infra_smoke_tests::releases::list_files::ListFiles;
use infra_smoke_tests::releases::rustup_sh;
use infra_smoke_tests::releases::rustup_sh::RustupSh;
use infra_smoke_tests::releases::Releases;
use infra_smoke_tests::test::Test;
use infra_smoke_tests::test::TestGroup;
use infra_smoke_tests::test::TestResult;
use infra_smoke_tests::test::TestSuite;

const SERVER: &str = "http://127.0.0.1:1234";

/// A response with the given status, headers and body
fn response(code: u16, headers: &[(&str, &str)], body: &str) -> Outcome {
    Outcome::Received(Response {
        status: Status::new(code).expect("a status code"),
        headers: headers
            .iter()
            .map(|(name, value)| Header::new(name, value))
            .collect(),
        url: String::from(SERVER),
        body: Ok(String::from(body)),
    })
}

/// The one request of a test, after a look at its method
fn only_request(mut requests: Vec<Request>, method: Method) -> Request {
    assert_eq!(1, requests.len());
    let request = requests.remove(0);
    assert_eq!(method, request.method);
    request
}

/// Whether the request names the test suite in its `user-agent` header
fn names_itself(request: &Request) -> bool {
    request.headers == vec![Header::new("user-agent", "rust-lang/infra-smoke-tests")]
}

const MOVED: &str = "#!/bin/bash
echo \"The location of rustup.sh has moved.\"
echo \"Run the following command to install from the new location:\"
echo \"    curl https://sh.rustup.rs -sSf | sh\"
";

const LISTING: &str = "
                Loading directory contents...
            ";

fn doc_router_config() -> Arc<doc_router::Config> {
    Arc::new(doc_router::Config::new(SERVER.into()))
}

fn list_files_config() -> Arc<list_files::Config> {
    Arc::new(list_files::Config::new(SERVER.into(), SERVER.into(), "2024-09-11".into()))
}

fn rustup_sh_config() -> rustup_sh::Config {
    rustup_sh::Config::new(SERVER.into(), SERVER.into())
}

#[test]
fn redirect_minor_versions_succeeds_with_redirect_and_body() {
    let test = RedirectMinorVersions::new(doc_router_config());

    let request = only_request(test.requests(), Method::Get);
    assert_eq!(format!("{SERVER}/1.65/std/boxed/struct.Box.html"), request.url);
    assert!(!request.follow_redirects);
    assert!(names_itself(&request));

    let result = test.run(&vec![response(
        302,
        &[("location", "/1.65.0/std/boxed/struct.Box.html")],
        "",
    )]);

    assert_eq!(&None, result.message());
    assert!(result.success());
}

#[test]
fn redirect_minor_versions_fails_without_redirect() {
    let test = RedirectMinorVersions::new(doc_router_config());
    let result = test.run(&vec![response(200, &[], "")]);

    assert!(!result.success());
    assert_eq!(
        TestResult::failed(
            "Redirect minor versions",
            String::from(
                "Expected a redirect to /1.65.0/std/boxed/struct.Box.html, got <empty location header>"
            )
        ),
        result
    );
}

#[test]
fn redirect_minor_versions_fails_with_another_location() {
    let test = RedirectMinorVersions::new(doc_router_config());
    let result = test.run(&vec![response(302, &[("location", "/stable/")], "")]);

    assert_eq!(
        &Some(String::from(
            "Expected a redirect to /1.65.0/std/boxed/struct.Box.html, got /stable/"
        )),
        result.message()
    );
}

#[test]
fn redirect_root_succeeds_with_redirect_and_body() {
    let test = RedirectRoot::new(doc_router_config());

    let request = only_request(test.requests(), Method::Get);
    assert_eq!(format!("{SERVER}/"), request.url);
    assert!(!request.follow_redirects);

    let result = test.run(&vec![response(302, &[("location", "/stable/")], "")]);

    assert_eq!(&None, result.message());
    assert!(result.success());
}

#[test]
fn redirect_root_fails_without_redirect() {
    let test = RedirectRoot::new(doc_router_config());
    let result = test.run(&vec![response(200, &[], "")]);

    assert!(!result.success());
}

#[test]
fn redirect_root_fails_with_the_location_but_no_redirect() {
    let test = RedirectRoot::new(doc_router_config());
    let result = test.run(&vec![response(200, &[("location", "/stable/")], "")]);

    assert_eq!(
        TestResult::failed(
            "Redirect root path",
            String::from("Expected a redirect to /stable/, got /stable/")
        ),
        result
    );
}

#[test]
fn the_router_is_tested_on_both_paths() {
    let group = DocRouter::new(Environment::Production);
    let requests = group.requests();

    assert_eq!(2, requests.len());
    assert_eq!(
        "https://doc.rust-lang.org/1.65/std/boxed/struct.Box.html",
        requests[0][0].url
    );
    assert_eq!("https://doc.rust-lang.org/", requests[1][0].url);
    assert_eq!(
        "https://dev-doc.rust-lang.org/",
        DocRouter::new(Environment::Staging).requests()[1][0].url
    );

    let result = group.run(&vec![
        vec![response(301, &[("location", "/1.65.0/std/boxed/struct.Box.html")], "")],
        vec![response(404, &[], "")],
    ]);

    assert_eq!("doc-router", result.name());
    assert!(!result.success());
    assert!(result.results()[0].success());
    assert_eq!("Redirect root path", result.results()[1].name());
}

#[test]
fn cloudfront_succeeds_when_listing_files() {
    let test = list_files::CloudFront::new(list_files_config());

    let request = only_request(test.requests(), Method::Get);
    assert_eq!(format!("{SERVER}/dist/2024-09-11/index.html"), request.url);
    assert!(request.read_body);
    assert!(request.headers.is_empty());

    let result = test.run(&vec![response(200, &[], LISTING)]);

    assert_eq!(&None, result.message());
    assert!(result.success());
}

#[test]
fn cloudfront_fails_otherwise() {
    let test = list_files::CloudFront::new(list_files_config());
    let result = test.run(&vec![response(404, &[], "")]);

    assert!(!result.success());
    assert_eq!(
        TestResult::failed(
            "CloudFront",
            String::from("Expected body to load directory contents")
        ),
        result
    );
}

#[test]
fn fastly_succeeds_when_listing_files() {
    let test = list_files::Fastly::new(list_files_config());

    let request = only_request(test.requests(), Method::Get);
    assert_eq!(format!("{SERVER}/dist/2024-09-11/index.html"), request.url);

    let result = test.run(&vec![response(200, &[], LISTING)]);

    assert_eq!(&None, result.message());
    assert!(result.success());
}

#[test]
fn fastly_fails_otherwise() {
    let test = list_files::Fastly::new(list_files_config());
    let result = test.run(&vec![response(404, &[], "")]);

    assert!(!result.success());
    assert_eq!("Fastly", result.name());
}

#[test]
fn listing_files_fails_with_the_error_of_the_body() {
    let test = list_files::Fastly::new(list_files_config());
    let result = test.run(&vec![Outcome::Received(Response {
        status: Status::ok(),
        headers: vec![],
        url: String::from(SERVER),
        body: Err(String::from("error decoding response body")),
    })]);

    assert_eq!(
        TestResult::failed("Fastly", String::from("error decoding response body")),
        result
    );
}

#[test]
fn the_files_are_listed_on_both_networks() {
    let group = ListFiles::new(Environment::Staging);
    let requests = group.requests();

    assert_eq!(2, requests.len());
    assert_eq!(
        "https://cloudfront-dev-static.rust-lang.org/dist/2024-09-03/index.html",
        requests[0][0].url
    );
    assert_eq!(
        "https://fastly-dev-static.rust-lang.org/dist/2024-09-03/index.html",
        requests[1][0].url
    );
    assert_eq!(
        "https://fastly-static.rust-lang.org/dist/2024-09-11/index.html",
        ListFiles::new(Environment::Production).requests()[1][0].url
    );

    let result = group.run(&vec![
        vec![response(200, &[], LISTING)],
        vec![response(200, &[], LISTING)],
    ]);

    assert_eq!("list-files.html", result.name());
    assert!(result.success());
}

#[test]
fn cloudfront_succeeds_with_redirect_and_body() {
    let test = rustup_sh::CloudFront::new(Arc::new(rustup_sh_config()));

    let request = only_request(test.requests(), Method::Get);
    assert_eq!(format!("{SERVER}/rustup.sh"), request.url);
    assert!(!request.follow_redirects);
    assert!(request.read_body);
    assert!(names_itself(&request));

    let result = test.run(&vec![response(
        307,
        &[("location", "https://sh.rustup.rs")],
        MOVED,
    )]);

    assert_eq!(&None, result.message());
    assert!(result.success());
}

#[test]
fn cloudfront_fails_without_redirect() {
    let test = rustup_sh::CloudFront::new(Arc::new(rustup_sh_config()));
    let result = test.run(&vec![response(200, &[], MOVED)]);

    assert!(!result.success());
    assert_eq!(
        TestResult::failed(
            "CloudFront",
            format!("Expected a redirect to https://sh.rustup.rs, got {SERVER}")
        ),
        result
    );
}

#[test]
fn cloudfront_fails_without_body() {
    let test = rustup_sh::CloudFront::new(Arc::new(rustup_sh_config()));
    let result = test.run(&vec![response(
        307,
        &[("location", "https://sh.rustup.rs")],
        "",
    )]);

    assert!(!result.success());
    assert_eq!(
        &Some(String::from("Expected body to link to sh.rustup.rs")),
        result.message()
    );
}

#[test]
fn fastly_succeeds_with_redirect_and_body() {
    let config = rustup_sh_config();
    let test = rustup_sh::Fastly::new(&config);

    let request = only_request(test.requests(), Method::Get);
    assert_eq!(format!("{SERVER}/rustup.sh"), request.url);

    let result = test.run(&vec![response(
        307,
        &[("location", "https://sh.rustup.rs")],
        MOVED,
    )]);

    assert_eq!(&None, result.message());
    assert!(result.success());
}

#[test]
fn fastly_fails_without_body() {
    let config = rustup_sh_config();
    let test = rustup_sh::Fastly::new(&config);
    let result = test.run(&vec![response(
        307,
        &[("location", "https://sh.rustup.rs")],
        "",
    )]);

    assert!(!result.success());
}

#[test]
fn the_redirect_is_looked_at_before_the_body() {
    let config = rustup_sh_config();
    let test = rustup_sh::Fastly::new(&config);
    let unread = |code: u16, headers: Vec<Header>| {
        Outcome::Received(Response {
            status: Status::new(code).expect("a status code"),
            headers,
            url: format!("{SERVER}/rustup.sh"),
            body: Err(String::from("error decoding response body")),
        })
    };

    let result = test.run(&vec![unread(200, vec![])]);
    assert_eq!(
        &Some(format!(
            "Expected a redirect to https://sh.rustup.rs, got {SERVER}/rustup.sh"
        )),
        result.message()
    );

    let result = test.run(&vec![unread(
        307,
        vec![Header::new("location", "https://sh.rustup.rs")],
    )]);
    assert_eq!(
        TestResult::failed("Fastly", String::from("error decoding response body")),
        result
    );
}

#[test]
fn the_script_is_tested_on_both_networks() {
    let group = RustupSh::new(Environment::Production);
    let requests = group.requests();

    assert_eq!(2, requests.len());
    assert_eq!(
        "https://cloudfront-static.rust-lang.org/rustup.sh",
        requests[0][0].url
    );
    assert_eq!(
        "https://fastly-static.rust-lang.org/rustup.sh",
        requests[1][0].url
    );

    let result = group.run(&vec![
        vec![response(307, &[("location", "https://sh.rustup.rs")], MOVED)],
        vec![Outcome::Failed(String::from("connection refused"))],
    ]);

    assert_eq!("rustup.sh", result.name());
    assert_eq!(
        &vec![
            TestResult::passed("CloudFront"),
            TestResult::failed("Fastly", String::from("connection refused")),
        ],
        result.results()
    );
}

#[test]
fn the_suite_runs_its_two_groups() {
    let suite = Releases::new(Environment::Staging);
    let requests = suite.requests();

    assert_eq!(2, requests.len());
    assert_eq!(2, requests[0].len());
    assert_eq!(2, requests[1].len());

    let result = suite.run(&vec![
        vec![
            vec![response(200, &[], LISTING)],
            vec![response(200, &[], LISTING)],
        ],
        vec![
            vec![response(307, &[("location", "https://sh.rustup.rs")], MOVED)],
            vec![response(307, &[("location", "https://sh.rustup.rs")], MOVED)],
        ],
    ]);

    assert!(result.success());
    assert_eq!(
        "✅ Rust releases\n  ✅ list-files.html\n    ✅ CloudFront\n    ✅ Fastly\n  ✅ rustup.sh\n    ✅ CloudFront\n    ✅ Fastly\n",
        result.to_string()
    );
}

#[test]
fn fastly_for_rustup_sh_fails_without_redirect() {
    let config = rustup_sh_config();
    let test = rustup_sh::Fastly::new(&config);
    let result = test.run(&vec![response(200, &[], MOVED)]);

    assert!(!result.success());
    assert_eq!("Fastly", result.name());
}
