//! The names under which suites, groups and tests appear in the report

use std::sync::Arc;

use infra_smoke_tests::cli::Cli;
use infra_smoke_tests::crates::crates_4891::Crates4891;
use infra_smoke_tests::crates::crates_6164::Crates6164;
use infra_smoke_tests::crates::crates_api::CratesApi;
use infra_smoke_tests::crates::crates_index::CratesIndex;
use infra_smoke_tests::crates::db_dump::DbDump;
use infra_smoke_tests::crates::issue_4891::Issue4891;
use infra_smoke_tests::crates::utils::crate_url;
use infra_smoke_tests::crates::Crates;
use infra_smoke_tests::environment::Environment;
use infra_smoke_tests::releases::doc_router;
use infra_smoke_tests::releases::doc_router::DocRouter;
use infra_smoke_tests::releases::doc_router::RedirectMinorVersions;
use infra_smoke_tests::releases::doc_router::RedirectRoot;
use infra_smoke_tests::releases::list_files::ListFiles;
use infra_smoke_tests::releases::rustup_sh::RustupSh;
use infra_smoke_tests::releases::Releases;
use infra_smoke_tests::rustup::win_rustup_rs::WinRustupRs;
use infra_smoke_tests::rustup::Rustup;

#[test]
fn trait_default() {
    assert_eq!(Environment::Staging, Environment::default());
}

#[test]
fn cli_defaults_to_staging() {
    assert_eq!(Environment::Staging, Cli::default().env());
    assert_eq!(Environment::Production, Cli::new(Environment::Production).env());
}

#[test]
fn crate_url_constructs_correct_url() {
    let base_url = "https://example.com";
    let krate = "example";
    let version = "1.0.0";

    let expected = "https://example.com/crates/example/example-1.0.0.crate";
    let actual = crate_url(base_url, krate, version);

    assert_eq!(expected, actual);
}

#[test]
fn mod_trait_display() {
    let crates_4891 = Crates4891::new(Environment::Staging);
    assert_eq!("rust-lang/crates.io#4891", crates_4891.to_string());

    let crates_6164 = Crates6164::new(Environment::Staging);
    assert_eq!(
        "rust-lang/crates.io#6164 - CORS headers",
        crates_6164.to_string()
    );

    let crates_api = CratesApi::new(Environment::Staging);
    assert_eq!("crates.io API", crates_api.to_string());

    let crates_index = CratesIndex::new(Environment::Staging);
    assert_eq!("Index domains", crates_index.to_string());

    let db_dump = DbDump::new(Environment::Staging);
    assert_eq!("Database dumps", db_dump.to_string());

    let issue_4891 = Issue4891::try_new(Environment::Staging).expect("the URL is an address");
    assert_eq!("rust-lang/crates.io#4891", issue_4891.to_string());

    let crates = Crates::default();
    assert_eq!("crates.io", crates.to_string());

    let list_files = ListFiles::new(Environment::Staging);
    assert_eq!("list-files.html", list_files.to_string());

    let releases = Releases::default();
    assert_eq!("Rust releases", releases.to_string());

    let rustup_sh = RustupSh::new(Environment::Staging);
    assert_eq!("rustup.sh", rustup_sh.to_string());

    let rustup_sh = WinRustupRs::new(Environment::Staging);
    assert_eq!("win.rustup.rs", rustup_sh.to_string());

    let rustup = Rustup::default();
    assert_eq!("rustup", rustup.to_string());
}

#[test]
fn doc_router_names() {
    assert_eq!("doc-router", DocRouter::new(Environment::Staging).to_string());

    let config = Arc::new(doc_router::Config::for_env(Environment::Staging));
    assert_eq!(
        "Redirect minor versions",
        RedirectMinorVersions::new(config.clone()).to_string()
    );
    assert_eq!("Redirect root path", RedirectRoot::new(config).to_string());
}

#[test]
fn suites_default_to_staging() {
    assert_eq!(Crates::new(Environment::Staging), Crates::default());
    assert_eq!(Releases::new(Environment::Staging), Releases::default());
    assert_eq!(Rustup::new(Environment::Staging), Rustup::default());
    assert_ne!(Rustup::new(Environment::Production), Rustup::default());
}
