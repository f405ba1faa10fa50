use gem_installer::archive::{ExtractError, FileEntry};
use gem_installer::download::{check_fetch_status, download_url, gem_file_name, gem_stem, FetchError};
use gem_installer::gem_version::GemVersion;
use gem_installer::parser::Gem;
use gem_installer::text::{file_name, file_stem};
use gem_installer::{install_gems, install_single_gem, GemOutcome, InstallError};

fn installed(name: &str, gemfile: Option<&str>) -> GemOutcome {
    GemOutcome::Installed {
        gem_name: name.to_string(),
        gemfile_path: gemfile.map(|p| p.to_string()),
        files: Vec::new(),
    }
}

fn failed(name: &str, error: InstallError) -> GemOutcome {
    GemOutcome::Failed { gem_name: name.to_string(), error }
}

#[test]
fn report_records_every_successful_package_once() {
    let outcomes = vec![
        installed("c-3.0.0", None),
        installed("a-1.0.0", Some("target/gems/a-1.0.0/Gemfile")),
        installed("b-2.0.0", None),
    ];
    let report = install_gems(&outcomes);
    assert_eq!(report.install_gems, vec!["c-3.0.0", "a-1.0.0", "b-2.0.0"]);
    assert_eq!(report.find_gemfiles.len(), 1);
    assert_eq!(report.find_gemfiles[0].gem_name, "a-1.0.0");
    assert_eq!(report.find_gemfiles[0].gemfile_path, "target/gems/a-1.0.0/Gemfile");
    assert!(report.failed_gems.is_empty());
}

#[test]
fn report_separates_failures_from_installs() {
    let outcomes = vec![
        installed("a-1.0.0", None),
        failed("b-2.0.0", InstallError::Fetch(FetchError::Status { code: 404 })),
        installed("c-3.0.0", None),
        failed("d-4.0.0", InstallError::Extract(ExtractError::GzipDecode)),
    ];
    let report = install_gems(&outcomes);
    assert_eq!(report.install_gems, vec!["a-1.0.0", "c-3.0.0"]);
    assert_eq!(report.failed_gems.len(), 2);
    assert_eq!(report.failed_gems[0].gem_name, "b-2.0.0");
    assert_eq!(
        report.failed_gems[0].error,
        InstallError::Fetch(FetchError::Status { code: 404 })
    );
    assert_eq!(report.failed_gems[1].gem_name, "d-4.0.0");
    assert_eq!(
        report.failed_gems[1].error,
        InstallError::Extract(ExtractError::GzipDecode)
    );
}

#[test]
fn report_on_empty_run_is_empty() {
    let report = install_gems(&Vec::new());
    assert!(report.install_gems.is_empty());
    assert!(report.find_gemfiles.is_empty());
    assert!(report.failed_gems.is_empty());
}

#[test]
fn fetch_failure_becomes_failed_outcome() {
    let gem = Gem { name: "alpha".to_string(), version: "1.0.0".to_string() };
    let outcome = install_single_gem(&gem, Err(FetchError::Transport), "target/gems");
    match outcome {
        GemOutcome::Failed { gem_name, error } => {
            assert_eq!(gem_name, "alpha-1.0.0");
            assert_eq!(error, InstallError::Fetch(FetchError::Transport));
        },
        GemOutcome::Installed { .. } => panic!("pipeline unexpectedly succeeded"),
    }
}

#[test]
fn download_url_follows_template() {
    let gem = Gem { name: "rake".to_string(), version: "13.0.1".to_string() };
    assert_eq!(gem_stem(&gem), "rake-13.0.1");
    assert_eq!(gem_file_name(&gem), "rake-13.0.1.gem");
    assert_eq!(
        download_url("https://rubygems.org", &gem),
        "https://rubygems.org/downloads/rake-13.0.1.gem"
    );
}

#[test]
fn version_url_follows_template() {
    assert_eq!(
        GemVersion::version_url("https://rubygems.org", "rake"),
        "https://rubygems.org/api/v1/gems/rake.json"
    );
}

#[test]
fn only_status_200_is_a_successful_fetch() {
    assert!(check_fetch_status(200).is_ok());
    assert_eq!(
        check_fetch_status(404),
        Err(FetchError::Status { code: 404 })
    );
    assert_eq!(
        check_fetch_status(500),
        Err(FetchError::Status { code: 500 })
    );
}

#[test]
fn path_helpers_follow_std_conventions() {
    assert_eq!(file_name("lib/sub/Gemfile"), "Gemfile");
    assert_eq!(file_name("Gemfile"), "Gemfile");
    assert_eq!(file_name("a/b/"), "");
    assert_eq!(file_stem("data.tar.gz"), "data.tar");
    assert_eq!(file_stem("rake-13.0.1.gem"), "rake-13.0.1");
    assert_eq!(file_stem("plain"), "plain");
    assert_eq!(file_stem(".hidden"), ".hidden");
}

#[test]
fn file_entries_keep_their_bytes() {
    let entry = FileEntry { path: "a/b".to_string(), data: vec![1, 2, 3] };
    assert_eq!(entry.path, "a/b");
    assert_eq!(entry.data, vec![1, 2, 3]);
}
