use autopkg::config::{ApplicationConfig, FetcherConfig, InstallerConfig, InstallerConfigShape};
use autopkg::config::normalize_installer_config;
use autopkg::error::ConfigError;
use autopkg::fetcher::{create_fetcher, FetchPlan, Fetcher, GitHubFetcher, Release, ReleaseAsset};
use autopkg::installer::{
    choose_elevation, create_installer, install_command, parse_status_version, DebInstaller,
    Elevation, ElevationError, Installer, PackageQuery,
};
use autopkg::runner::{process_application, record_outcome, Event, Outcome, Phase, Step};
use autopkg::types::UpdateCheck;

fn app(name: &str, pattern: Option<&str>) -> ApplicationConfig {
    ApplicationConfig {
        name: name.to_string(),
        fetcher: FetcherConfig {
            kind: "github".to_string(),
            repo: Some(format!("acme/{}", name)),
            file_pattern: pattern.map(|p| p.to_string()),
        },
        installer: InstallerConfig { kind: "deb".to_string() },
        package_name: None,
        pinned: None,
    }
}

fn github(f: Fetcher) -> GitHubFetcher {
    match f {
        Fetcher::GitHub(g) => g,
    }
}

fn asset(name: &str) -> ReleaseAsset {
    ReleaseAsset {
        name: name.to_string(),
        download_url: format!("https://example.org/dl/{}", name),
    }
}

fn release(tag: &str, names: &[&str]) -> Release {
    Release { tag_name: tag.to_string(), assets: names.iter().map(|n| asset(n)).collect() }
}

#[test]
fn installer_shapes_agree() {
    let a = normalize_installer_config(InstallerConfigShape::Shorthand("deb".to_string()));
    let b = normalize_installer_config(InstallerConfigShape::Full { kind: "deb".to_string() });
    assert_eq!(a.kind, "deb");
    assert_eq!(a.kind, b.kind);
}

#[test]
fn selects_first_matching_asset() {
    let a = app("app", Some("*.deb"));
    let f = GitHubFetcher::new(&a.fetcher, &a).unwrap();
    let assets = vec![asset("app.tar.gz"), asset("app-1.2.3.deb")];
    assert_eq!(f.select_asset(&assets), Some(1));
    let twice = vec![asset("app-1.2.3.deb"), asset("other.deb")];
    assert_eq!(f.select_asset(&twice), Some(0));
}

#[test]
fn no_matching_asset_is_no_update() {
    let a = app("app", Some("*.deb"));
    let f = GitHubFetcher::new(&a.fetcher, &a).unwrap();
    let rel = release("v2.0.0", &["app.tar.gz", "app.zip"]);
    assert!(matches!(f.plan_fetch("1.0.0", &rel), FetchPlan::NoMatchingAsset));
}

#[test]
fn plan_downloads_matching_asset() {
    let a = app("app", Some("*.deb"));
    let f = GitHubFetcher::new(&a.fetcher, &a).unwrap();
    let rel = release("v1.2.3", &["app.tar.gz", "app-1.2.3.deb"]);
    match f.plan_fetch("1.2.0", &rel) {
        FetchPlan::Download { url, file_name } => {
            assert_eq!(url, "https://example.org/dl/app-1.2.3.deb");
            assert_eq!(file_name, "autopkg-app-app-1.2.3.deb");
        }
        other => panic!("unexpected plan {:?}", other),
    }
    assert!(matches!(f.plan_fetch("v1.2.3", &rel), FetchPlan::UpToDate));
}

#[test]
fn default_pattern_matches_any_asset() {
    let a = app("tool", None);
    let f = github(create_fetcher(&a.fetcher, &a).unwrap());
    assert_eq!(f.file_pattern, "*");
    assert_eq!(f.select_asset(&vec![asset("tool.tar.gz")]), Some(0));
}

#[test]
fn fetcher_addresses() {
    let a = app("tool", None);
    let f = github(create_fetcher(&a.fetcher, &a).unwrap());
    assert_eq!(f.owner, "acme");
    assert_eq!(f.repo, "tool");
    assert_eq!(f.release_url(), "https://api.github.com/repos/acme/tool/releases/latest");
    assert_eq!(f.download_file_name("x.deb"), "autopkg-tool-x.deb");
}

#[test]
fn repo_must_be_owner_slash_name() {
    for bad in ["/tool", "acme/", "/", "acme/tools/extra", "acme//tool"] {
        let mut a = app("tool", None);
        a.fetcher.repo = Some(bad.to_string());
        assert_eq!(
            GitHubFetcher::new(&a.fetcher, &a).unwrap_err(),
            ConfigError::MalformedRepo(bad.to_string())
        );
    }
    let mut a = app("tool", None);
    a.fetcher.repo = Some("a/b".to_string());
    let f = GitHubFetcher::new(&a.fetcher, &a).unwrap();
    assert_eq!(f.owner, "a");
    assert_eq!(f.repo, "b");
}

#[test]
fn fetcher_dispatches_to_variant() {
    let a = app("tool", Some("*.deb"));
    let f = create_fetcher(&a.fetcher, &a).unwrap();
    assert_eq!(f.release_url(), "https://api.github.com/repos/acme/tool/releases/latest");
    let rel = release("v1.0.0", &["tool.deb"]);
    assert!(matches!(f.plan_fetch("0.9", &rel), FetchPlan::Download { .. }));
}

#[test]
fn fetcher_setting_errors() {
    let mut a = app("tool", None);
    a.fetcher.kind = "gitlab".to_string();
    assert_eq!(create_fetcher(&a.fetcher, &a).unwrap_err(), ConfigError::UnknownFetcher("gitlab".to_string()));
    let mut b = app("tool", None);
    b.fetcher.repo = None;
    assert_eq!(create_fetcher(&b.fetcher, &b).unwrap_err(), ConfigError::MissingRepo);
    let mut c = app("tool", None);
    c.fetcher.repo = Some("acme-tool".to_string());
    assert_eq!(create_fetcher(&c.fetcher, &c).unwrap_err(), ConfigError::MalformedRepo("acme-tool".to_string()));
    let d = app("tool", Some("***"));
    assert_eq!(create_fetcher(&d.fetcher, &d).unwrap_err(), ConfigError::InvalidPattern("***".to_string()));
}

#[test]
fn error_messages() {
    assert_eq!(ConfigError::UnknownFetcher("x".to_string()).message(), "Unknown fetcher type: x");
    assert_eq!(ConfigError::UnknownInstaller("rpm".to_string()).message(), "Unknown installer type: rpm");
    assert_eq!(ConfigError::MissingRepo.message(), "GitHub fetcher requires `repo` field");
    assert_eq!(
        ConfigError::MalformedRepo("x".to_string()).message(),
        "GitHub repo must be in form `owner/repo`: x"
    );
    assert_eq!(ConfigError::InvalidPattern("***".to_string()).message(), "Invalid glob pattern: ***");
    assert_eq!(
        ElevationError::NoSudo.message(),
        "Not running as root and sudo is not available in PATH"
    );
    assert_eq!(
        ElevationError::NoTerminal.message(),
        "Not running as root and no terminal available for sudo password prompt"
    );
}

#[test]
fn installer_settings() {
    let mut a = app("tool", None);
    let d = DebInstaller::new(&a).unwrap();
    assert_eq!(d.package_name, "tool");
    assert!(!d.pinned);
    a.package_name = Some("tool-bin".to_string());
    a.pinned = Some(true);
    let i = create_installer(&a.installer, &a).unwrap();
    assert_eq!(i.package_name(), "tool-bin");
    assert!(i.should_skip());
    let Installer::Deb(d) = i;
    assert_eq!(d.package_name, "tool-bin");
    assert!(d.pinned);
    a.installer.kind = "rpm".to_string();
    assert_eq!(create_installer(&a.installer, &a).unwrap_err(), ConfigError::UnknownInstaller("rpm".to_string()));
}

#[test]
fn status_report_version() {
    let report = "Package: tool\nStatus: install ok installed\nVersion:  1.4.2-1 \r\nDepends: libc6\n";
    assert_eq!(parse_status_version(report), Some("1.4.2-1".to_string()));
    assert_eq!(parse_status_version("Package: tool\nVersion: 2\nVersion: 3\n"), Some("2".to_string()));
    assert_eq!(parse_status_version("Package: tool\nConfig-Version: 9\n"), None);
    assert_eq!(parse_status_version(""), None);
    assert_eq!(parse_status_version("Version:"), Some(String::new()));
}

#[test]
fn not_installed_checks_against_zero() {
    let d = DebInstaller::new(&app("tool", None)).unwrap();
    let v = DebInstaller::installed_version(&PackageQuery::Failed);
    assert_eq!(v, None);
    assert!(matches!(d.should_check_for_update(v), UpdateCheck::Yes(s) if s == "0.0.0"));
    let v = DebInstaller::installed_version(&PackageQuery::ToolMissing);
    assert!(matches!(d.should_check_for_update(v), UpdateCheck::Yes(s) if s == "0.0.0"));
    let v = DebInstaller::installed_version(&PackageQuery::Report("Version: 1.1\n".to_string()));
    assert!(matches!(d.should_check_for_update(v), UpdateCheck::Yes(s) if s == "1.1"));
}

#[test]
fn not_installed_then_any_release_downloads() {
    let a = app("tool", Some("*.deb"));
    let (mut run, step) = process_application(&a, false).unwrap();
    assert!(matches!(step, Step::QueryPackage(p) if p == "tool"));
    let step = run.advance(Event::Package(PackageQuery::Failed));
    assert_eq!(run.current_version, "0.0.0");
    assert!(matches!(step, Step::FetchRelease(_)));
    let step = run.advance(Event::Latest(release("v0.1.0", &["tool_0.1.0.deb"])));
    assert!(matches!(step, Step::Download { .. }));
}

#[test]
fn pinned_application_is_skipped() {
    let mut a = app("tool", None);
    a.pinned = Some(true);
    let (run, step) = process_application(&a, false).unwrap();
    assert!(matches!(step, Step::Finished(Outcome::Skipped)));
    assert_eq!(run.phase, Phase::Done);
    let d = DebInstaller::new(&a).unwrap();
    let v = Some("1.0".to_string());
    assert!(matches!(d.should_check_for_update(v), UpdateCheck::No));
    assert!(matches!(d.should_check_for_update(None), UpdateCheck::No));
}

#[test]
fn dry_run_downloads_but_does_not_install() {
    let mut a = app("tool", Some("*.deb"));
    let (mut run, _) = process_application(&a, true).unwrap();
    run.advance(Event::Package(PackageQuery::Report("Version: 1.0.0\n".to_string())));
    let step = run.advance(Event::Latest(release("v1.1.0", &["tool_1.1.0.deb"])));
    assert!(matches!(step, Step::Download { ref file_name, .. } if file_name == "autopkg-tool-tool_1.1.0.deb"));
    let step = run.advance(Event::Downloaded("/tmp/autopkg-tool-tool_1.1.0.deb".to_string()));
    let outcome = match step {
        Step::Finished(o) => o,
        other => panic!("unexpected step {:?}", other),
    };
    assert!(matches!(&outcome, Outcome::Downloaded(p) if p == "/tmp/autopkg-tool-tool_1.1.0.deb"));
    let mut updated = false;
    record_outcome(&mut a, &outcome, &mut updated);
    assert!(!updated);
    assert_eq!(a.package_name, None);
}

#[test]
fn up_to_date_finishes() {
    let a = app("tool", None);
    let (mut run, _) = process_application(&a, false).unwrap();
    run.advance(Event::Package(PackageQuery::Report("Version: 2.0\n".to_string())));
    let step = run.advance(Event::Latest(release("v2.0.0", &["tool.deb"])));
    assert!(matches!(step, Step::Finished(Outcome::UpToDate)));
    assert_eq!(run.phase, Phase::Done);
}

#[test]
fn accepts_only_expected_event() {
    let a = app("tool", None);
    let (run, _) = process_application(&a, false).unwrap();
    assert!(run.accepts(&Event::Package(PackageQuery::Failed)));
    assert!(!run.accepts(&Event::InstallDone));
}

#[test]
fn batch_isolates_failure_and_saves_once() {
    let mut apps = vec![app("first", Some("*.deb")), app("second", Some("*.deb"))];
    let mut updated = false;
    let mut saves = 0;

    // First application: the release request fails, so its run ends there.
    let (mut run, _) = process_application(&apps[0], false).unwrap();
    let step = run.advance(Event::Package(PackageQuery::Failed));
    assert!(matches!(step, Step::FetchRelease(_)));

    // Second application: newer release, downloaded and installed.
    let (mut run, _) = process_application(&apps[1], false).unwrap();
    run.advance(Event::Package(PackageQuery::Failed));
    run.advance(Event::Latest(release("v1.0.0", &["second_1.0.0.deb"])));
    let step = run.advance(Event::Downloaded("/tmp/autopkg-second-second_1.0.0.deb".to_string()));
    assert!(matches!(step, Step::Install(ref p) if p == "/tmp/autopkg-second-second_1.0.0.deb"));
    let outcome = match run.advance(Event::InstallDone) {
        Step::Finished(o) => o,
        other => panic!("unexpected step {:?}", other),
    };
    record_outcome(&mut apps[1], &outcome, &mut updated);
    if updated {
        saves += 1;
    }
    assert_eq!(saves, 1);
    assert_eq!(apps[0].package_name, None);
    assert_eq!(apps[1].package_name, Some("second".to_string()));

    // A later run reads the inferred name back and changes nothing.
    let mut again = false;
    record_outcome(&mut apps[1], &Outcome::Installed, &mut again);
    assert!(!again);
    assert_eq!(apps[1].package_name, Some("second".to_string()));
}

#[test]
fn elevation_policy() {
    assert_eq!(choose_elevation(true, false, false), Ok(Elevation::Direct));
    assert_eq!(choose_elevation(false, false, true), Err(ElevationError::NoSudo));
    assert_eq!(choose_elevation(false, true, false), Err(ElevationError::NoTerminal));
    assert_eq!(choose_elevation(false, true, true), Ok(Elevation::Sudo));
}

#[test]
fn install_command_lines() {
    assert_eq!(install_command("/tmp/a.deb", Elevation::Direct), vec!["dpkg", "-i", "/tmp/a.deb"]);
    assert_eq!(install_command("/tmp/a.deb", Elevation::Sudo), vec!["sudo", "dpkg", "-i", "/tmp/a.deb"]);
}

#[test]
fn status_version_trims_unicode_white_space() {
    assert_eq!(
        parse_status_version("Version:\u{a0}\u{3000}2.1\u{2028}\u{85}\n"),
        Some("2.1".to_string())
    );
    assert_eq!(parse_status_version("Version: \u{200b}2.1\n"), Some("\u{200b}2.1".to_string()));
    for c in ['\t', '\n', '\u{b}', '\u{c}', '\r', ' ', '\u{85}', '\u{a0}', '\u{1680}', '\u{2000}', '\u{200a}', '\u{2028}', '\u{2029}', '\u{202f}', '\u{205f}', '\u{3000}'] {
        assert!(c.is_whitespace());
    }
    assert!(!'\u{200b}'.is_whitespace());
}
