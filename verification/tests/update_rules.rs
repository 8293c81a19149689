use flair_bloom::lock::UpdateLock;
use flair_bloom::update::{
    auto_update_from_setting, configured_update_endpoints, github_proxy_prefix, is_github_host,
    normalize_proxy_prefix, parse_url, plan_after_check, proxied_update_endpoints,
    proxy_github_download_url, proxy_github_url, proxy_host, CheckOutcome, CheckTrigger,
    DownloadProgress, UpdaterConfig, DEFAULT_GITHUB_PROXY,
};
use flair_bloom::weburl::WebUrl;
use std::sync::atomic::AtomicBool;

#[test]
fn proxies_github_release_url() {
    let url =
        WebUrl::parse("https://github.com/x-wink/flair-bloom/releases/download/v1/a.zip").unwrap();

    assert_eq!(
        proxy_github_url(&url, "https://gh-proxy.com/").as_str(),
        "https://gh-proxy.com/https://github.com/x-wink/flair-bloom/releases/download/v1/a.zip"
    );
}

#[test]
fn leaves_non_github_url_unchanged() {
    let url = WebUrl::parse("https://example.com/latest.json").unwrap();

    assert_eq!(proxy_github_url(&url, "https://gh-proxy.com/"), url);
}

#[test]
fn does_not_proxy_proxy_url_again() {
    let url = WebUrl::parse(
        "https://gh-proxy.com/https://github.com/x-wink/flair-bloom/releases/latest/download/latest.json",
    )
    .unwrap();

    assert_eq!(proxy_github_url(&url, "https://gh-proxy.com/"), url);
}

#[test]
fn proxy_adds_missing_slash_to_prefix() {
    let url = WebUrl::parse("https://objects.githubusercontent.com/x").unwrap();
    assert_eq!(
        proxy_github_url(&url, "https://gh-proxy.com").as_str(),
        "https://gh-proxy.com/https://objects.githubusercontent.com/x"
    );
}

#[test]
fn proxy_ignores_case_of_proxy_host() {
    let url = WebUrl::parse("https://gh-proxy.com/https://github.com/a").unwrap();
    assert_eq!(proxy_github_url(&url, "https://GH-PROXY.com/"), url);
}

#[test]
fn proxy_leaves_url_without_host() {
    let url = WebUrl::parse("data:text/plain,github.com").unwrap();
    assert_eq!(url.host_str(), None);
    assert_eq!(proxy_github_url(&url, "https://gh-proxy.com/"), url);
}

#[test]
fn proxying_twice_changes_nothing_more() {
    let url = WebUrl::parse("https://github.com/a/b").unwrap();
    let once = proxy_github_url(&url, DEFAULT_GITHUB_PROXY);
    assert_ne!(once, url);
    assert_eq!(proxy_github_url(&once, DEFAULT_GITHUB_PROXY), once);
}

#[test]
fn normalize_proxy_prefix_appends_one_slash() {
    assert_eq!(normalize_proxy_prefix("https://p.example"), "https://p.example/");
    assert_eq!(normalize_proxy_prefix("https://p.example/"), "https://p.example/");
    assert_eq!(normalize_proxy_prefix(""), "/");
    let once = normalize_proxy_prefix("x");
    assert_eq!(normalize_proxy_prefix(&once), once);
}

#[test]
fn github_hosts_are_recognised() {
    assert!(is_github_host("github.com"));
    assert!(is_github_host("GitHub.COM"));
    assert!(is_github_host("www.github.com"));
    assert!(is_github_host("api.github.com"));
    assert!(is_github_host("codeload.github.com"));
    assert!(is_github_host("objects.githubusercontent.com"));
    assert!(!is_github_host("objects.GITHUBUSERCONTENT.com"));
    assert!(!is_github_host("github.com.example"));
    assert!(!is_github_host("example.com"));
    assert!(!is_github_host(""));
}

#[test]
fn proxy_host_reads_the_prefix_host() {
    assert_eq!(proxy_host("https://gh-proxy.com/"), Some("gh-proxy.com".to_string()));
    assert_eq!(proxy_host("not a url"), None);
    assert_eq!(github_proxy_prefix(), Some(DEFAULT_GITHUB_PROXY.to_string()));
}

#[test]
fn download_url_is_routed_through_the_proxy() {
    let mut url = WebUrl::parse("https://github.com/x/y/releases/download/v1/setup.exe").unwrap();
    assert!(proxy_github_download_url(&mut url));
    assert_eq!(
        url.as_str(),
        "https://gh-proxy.com/https://github.com/x/y/releases/download/v1/setup.exe"
    );
    assert!(!proxy_github_download_url(&mut url));

    let mut other = WebUrl::parse("https://example.com/setup.exe").unwrap();
    assert!(!proxy_github_download_url(&mut other));
    assert_eq!(other.as_str(), "https://example.com/setup.exe");
}

#[test]
fn parse_url_reports_the_reason() {
    assert_eq!(parse_url("https://a.example/x").unwrap().as_str(), "https://a.example/x");
    assert_eq!(
        parse_url("latest.json").unwrap_err(),
        "无效的更新地址: relative URL without a base"
    );
}

#[test]
fn configured_endpoints_need_the_updater_section() {
    assert_eq!(
        configured_update_endpoints(None).unwrap_err(),
        "缺少 updater 配置"
    );
    let cfg = UpdaterConfig { endpoints: None };
    assert_eq!(
        configured_update_endpoints(Some(&cfg)).unwrap_err(),
        "缺少 updater.endpoints 配置"
    );
}

#[test]
fn configured_endpoints_skip_non_strings_and_stop_at_bad_ones() {
    let cfg = UpdaterConfig {
        endpoints: Some(vec![
            Some("https://github.com/o/r/releases/latest/download/latest.json".to_string()),
            None,
            Some("https://example.com/latest.json".to_string()),
        ]),
    };
    let urls = configured_update_endpoints(Some(&cfg)).unwrap();
    assert_eq!(urls.len(), 2);
    assert_eq!(urls[1].as_str(), "https://example.com/latest.json");

    let bad = UpdaterConfig {
        endpoints: Some(vec![
            Some("https://example.com/a".to_string()),
            Some("nope".to_string()),
            Some("::".to_string()),
        ]),
    };
    assert_eq!(
        configured_update_endpoints(Some(&bad)).unwrap_err(),
        "无效的更新地址: relative URL without a base"
    );
}

#[test]
fn proxied_endpoints_route_github_only() {
    let cfg = UpdaterConfig {
        endpoints: Some(vec![
            Some("https://github.com/o/r/releases/latest/download/latest.json".to_string()),
            Some("https://example.com/latest.json".to_string()),
        ]),
    };
    let urls = proxied_update_endpoints(Some(&cfg), DEFAULT_GITHUB_PROXY).unwrap();
    assert_eq!(
        urls[0].as_str(),
        "https://gh-proxy.com/https://github.com/o/r/releases/latest/download/latest.json"
    );
    assert_eq!(urls[1].as_str(), "https://example.com/latest.json");
    assert!(proxied_update_endpoints(None, DEFAULT_GITHUB_PROXY).is_err());
}

#[test]
fn progress_emits_when_percent_rises() {
    let mut p = DownloadProgress::new();
    assert!(p.record_chunk(10, Some(1000), false));
    assert_eq!(p.last_percent, Some(1));
    assert!(!p.record_chunk(5, Some(1000), false));
    assert_eq!(p.downloaded, 15);
    assert_eq!(p.last_percent, Some(1));
    assert!(p.record_chunk(5, Some(1000), false));
    assert_eq!(p.last_percent, Some(2));
    assert!(p.record_chunk(0, Some(1000), true));
    assert_eq!(p.last_percent, Some(2));
}

#[test]
fn progress_without_total_waits_for_the_interval() {
    let mut p = DownloadProgress::new();
    assert!(!p.record_chunk(100, None, false));
    assert!(!p.record_chunk(100, Some(0), false));
    assert!(p.record_chunk(100, None, true));
    assert_eq!(p.last_percent, None);
    assert_eq!(p.downloaded, 300);
    assert_eq!(p.final_sizes(300), (300, Some(300)));
}

#[test]
fn progress_saturates() {
    let mut p = DownloadProgress::new();
    p.record_chunk(u64::MAX - 1, Some(u64::MAX), false);
    p.record_chunk(10, Some(u64::MAX), false);
    assert_eq!(p.downloaded, u64::MAX);
    assert_eq!(p.last_percent, Some(1));
    assert_eq!(p.final_sizes(7), (7, Some(u64::MAX)));
}

#[test]
fn plan_after_check_follows_the_trigger() {
    assert_eq!(plan_after_check(CheckTrigger::Startup, false, true), CheckOutcome::StayQuiet);
    assert_eq!(plan_after_check(CheckTrigger::Manual, false, false), CheckOutcome::AnnounceUpToDate);
    assert_eq!(plan_after_check(CheckTrigger::Startup, true, false), CheckOutcome::AnnounceAvailable);
    assert_eq!(plan_after_check(CheckTrigger::Startup, true, true), CheckOutcome::Download { silent: true });
    assert_eq!(plan_after_check(CheckTrigger::Manual, true, false), CheckOutcome::Download { silent: false });
    assert_eq!(plan_after_check(CheckTrigger::Manual, true, true), CheckOutcome::Download { silent: false });
    assert!(CheckTrigger::Startup.consults_auto_update());
    assert!(!CheckTrigger::Manual.consults_auto_update());
}

#[test]
fn auto_update_defaults_to_on() {
    assert!(auto_update_from_setting(None));
    assert!(auto_update_from_setting(Some(true)));
    assert!(!auto_update_from_setting(Some(false)));
}

#[test]
fn update_lock_admits_one_holder() {
    let lock = UpdateLock(AtomicBool::new(false));
    let first = lock.acquire();
    assert!(first.is_some());
    assert!(lock.acquire().is_none());
    drop(first);
    assert!(lock.acquire().is_some());
}
