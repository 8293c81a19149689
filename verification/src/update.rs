//! Decisions of the update check: routing GitHub downloads through a proxy,
//! reading the configured endpoints, throttling download progress events,
//! what to do once the update server has answered, and the single-update lock.

use vstd::prelude::*;
use crate::text::{
    eq_ignore_ascii_case, eq_ignore_ascii_case_spec, ends_with, ends_with_char, has_suffix,
};
use crate::weburl::{opt_text, url_parse, WebUrl};

verus! {

/// The proxy prefix put in front of GitHub addresses.
pub const DEFAULT_GITHUB_PROXY: &'static str = "https://gh-proxy.com/";

/// Event: download progress.
pub const UPDATE_DOWNLOAD_PROGRESS_EVENT: &'static str = "update-download-progress";

/// Event: the download failed.
pub const UPDATE_DOWNLOAD_FAILED_EVENT: &'static str = "update-download-failed";

/// Event: an update exists but is not downloaded, as the user asked.
pub const UPDATE_AVAILABLE_EVENT: &'static str = "update-available";

/// Key of the "automatic updates" switch in the settings store.
pub const AUTO_UPDATE_KEY: &'static str = "autoUpdate";

// ---------------------------------------------------------------------------
// GitHub proxy routing
// ---------------------------------------------------------------------------

/// A proxy prefix that ends in `/`.
pub open spec fn normalized_prefix(prefix: Seq<char>) -> Seq<char> {
    if prefix.len() > 0 && prefix.last() == '/' {
        prefix
    } else {
        prefix.push('/')
    }
}

/// Hosts that serve GitHub releases and their downloads.
pub open spec fn is_github_host_spec(host: Seq<char>) -> bool {
    ||| eq_ignore_ascii_case_spec(host, "github.com"@)
    ||| eq_ignore_ascii_case_spec(host, "www.github.com"@)
    ||| eq_ignore_ascii_case_spec(host, "api.github.com"@)
    ||| eq_ignore_ascii_case_spec(host, "codeload.github.com"@)
    ||| has_suffix(host, ".githubusercontent.com"@)
}

/// The host of the proxy prefix, when the prefix parses as an address.
pub open spec fn proxy_host_spec(prefix: Seq<char>) -> Option<Seq<char>> {
    match url_parse(prefix) {
        Ok(u) => u.1,
        Err(_) => None,
    }
}

/// `host` is the proxy's own host (ASCII case ignored).
pub open spec fn is_proxy_host(host: Seq<char>, prefix: Seq<char>) -> bool {
    proxy_host_spec(prefix) matches Some(p) && eq_ignore_ascii_case_spec(host, p)
}

/// The address that a download of `u` goes to: GitHub addresses are put
/// behind the proxy prefix; an address without host, one already on the
/// proxy's host, one off GitHub, or one whose proxied form does not parse
/// stays as it is.
pub open spec fn proxied_url(
    u: (Seq<char>, Option<Seq<char>>),
    prefix: Seq<char>,
) -> (Seq<char>, Option<Seq<char>>) {
    match u.1 {
        None => u,
        Some(host) => if is_proxy_host(host, prefix) || !is_github_host_spec(host) {
            u
        } else {
            match url_parse(normalized_prefix(prefix) + u.0) {
                Ok(p) => p,
                Err(_) => u,
            }
        },
    }
}

/// Makes sure a proxy prefix ends in `/`.
pub fn normalize_proxy_prefix(prefix: &str) -> (r: String)
    ensures
        r@ == normalized_prefix(prefix@),
{
    let mut out = String::from_str(prefix);
    if !ends_with_char(prefix, '/') {
        crate::text::push_char(&mut out, '/');
    }
    out
}

/// Whether `host` serves GitHub releases or their downloads.
pub fn is_github_host(host: &str) -> (r: bool)
    ensures
        r == is_github_host_spec(host@),
{
    eq_ignore_ascii_case(host, "github.com") || eq_ignore_ascii_case(host, "www.github.com")
        || eq_ignore_ascii_case(host, "api.github.com") || eq_ignore_ascii_case(
        host,
        "codeload.github.com",
    ) || ends_with(host, ".githubusercontent.com")
}

/// The host of the proxy prefix, when the prefix parses as an address.
pub fn proxy_host(proxy_prefix: &str) -> (r: Option<String>)
    ensures
        opt_text(r) == proxy_host_spec(proxy_prefix@),
{
    match WebUrl::parse(proxy_prefix) {
        Ok(u) => match u.host_str() {
            Some(h) => Some(String::from_str(h)),
            None => None,
        },
        Err(_) => None,
    }
}

/// The proxy prefix that downloads go through.
pub fn github_proxy_prefix() -> (r: Option<String>)
    ensures
        opt_text(r) == Some(DEFAULT_GITHUB_PROXY@),
{
    Some(String::from_str(DEFAULT_GITHUB_PROXY))
}

/// Puts a GitHub address behind the proxy prefix (see [`proxied_url`]).
pub fn proxy_github_url(url: &WebUrl, proxy_prefix: &str) -> (r: WebUrl)
    ensures
        r@ == proxied_url(url@, proxy_prefix@),
{
    let host = match url.host_str() {
        Some(h) => h,
        None => return url.clone(),
    };
    let own = match proxy_host(proxy_prefix) {
        Some(p) => eq_ignore_ascii_case(host, p.as_str()),
        None => false,
    };
    if own || !is_github_host(host) {
        return url.clone();
    }
    let mut target = normalize_proxy_prefix(proxy_prefix);
    target.append(url.as_str());
    match WebUrl::parse(target.as_str()) {
        Ok(p) => p,
        Err(_) => url.clone(),
    }
}

/// Routes an update's download address through the GitHub proxy. Returns
/// whether the address changed; when it did, it now holds the proxied
/// address.
pub fn proxy_github_download_url(download_url: &mut WebUrl) -> (r: bool)
    ensures
        r == (proxied_url(old(download_url)@, DEFAULT_GITHUB_PROXY@).0 != old(download_url)@.0),
        r ==> final(download_url)@ == proxied_url(old(download_url)@, DEFAULT_GITHUB_PROXY@),
        !r ==> final(download_url)@ == old(download_url)@,
{
    let prefix = match github_proxy_prefix() {
        Some(p) => p,
        None => return false,
    };
    let proxied = proxy_github_url(download_url, prefix.as_str());
    if crate::text::same_text(proxied.as_str(), download_url.as_str()) {
        false
    } else {
        *download_url = proxied;
        true
    }
}

/// A proxied address is never proxied again: an address on the proxy's own
/// host is left as it is.
pub proof fn proxy_never_wraps_twice(u: (Seq<char>, Option<Seq<char>>), prefix: Seq<char>)
    requires
        u.1 matches Some(h) && is_proxy_host(h, prefix),
    ensures
        proxied_url(u, prefix) == u,
{
}

/// Addresses off GitHub, and addresses without a host, are left as they are.
pub proof fn proxy_leaves_other_hosts(u: (Seq<char>, Option<Seq<char>>), prefix: Seq<char>)
    requires
        u.1 matches Some(h) ==> !is_github_host_spec(h),
    ensures
        proxied_url(u, prefix) == u,
{
}

/// A GitHub address off the proxy's host becomes the proxy prefix (ending in
/// `/`) followed by the whole address, whenever that parses.
pub proof fn proxy_prefixes_github_urls(u: (Seq<char>, Option<Seq<char>>), prefix: Seq<char>)
    requires
        u.1 matches Some(h) && is_github_host_spec(h) && !is_proxy_host(h, prefix),
        url_parse(normalized_prefix(prefix) + u.0) is Ok,
    ensures
        Ok::<(Seq<char>, Option<Seq<char>>), Seq<char>>(proxied_url(u, prefix)) == url_parse(
            normalized_prefix(prefix) + u.0,
        ),
{
}

/// Routing is idempotent whenever the proxied address lies on the proxy's
/// host: routing the result again leaves it as it is.
pub proof fn proxy_is_idempotent(u: (Seq<char>, Option<Seq<char>>), prefix: Seq<char>)
    requires
        forall|p: (Seq<char>, Option<Seq<char>>)|
            url_parse(normalized_prefix(prefix) + u.0) == Ok::<(Seq<char>, Option<Seq<char>>), Seq<char>>(p)
                ==> p.1 == proxy_host_spec(prefix),
    ensures
        proxied_url(proxied_url(u, prefix), prefix) == proxied_url(u, prefix),
{
    let r = proxied_url(u, prefix);
    if r != u {
        assert(url_parse(normalized_prefix(prefix) + u.0) == Ok::<
            (Seq<char>, Option<Seq<char>>),
            Seq<char>,
        >(r));
        assert(r.1 == proxy_host_spec(prefix));
        if let Some(h) = r.1 {
            assert(eq_ignore_ascii_case_spec(h, h));
        }
    }
}

/// Normalizing a prefix twice changes nothing more; the result ends in `/`.
pub proof fn normalized_prefix_is_stable(prefix: Seq<char>)
    ensures
        normalized_prefix(normalized_prefix(prefix)) == normalized_prefix(prefix),
        normalized_prefix(prefix).last() == '/',
{
}


// ---------------------------------------------------------------------------
// Configured endpoints
// ---------------------------------------------------------------------------

/// The updater section of the application's configuration, as far as update
/// checks read it: its `endpoints` array when it is one, each entry's text
/// when the entry is a string.
pub struct UpdaterConfig {
    pub endpoints: Option<Vec<Option<String>>>,
}

/// The view of a parsed address.
pub type UrlView = (Seq<char>, Option<Seq<char>>);

/// The message for an endpoint that does not parse.
pub open spec fn invalid_endpoint_message(err: Seq<char>) -> Seq<char> {
    "无效的更新地址: "@ + err
}

/// Parses the string entries in order, skipping entries that are not
/// strings; the first entry that does not parse decides the error.
pub open spec fn parse_endpoints(entries: Seq<Option<Seq<char>>>) -> Result<Seq<UrlView>, Seq<char>>
    decreases entries.len(),
{
    if entries.len() == 0 {
        Ok(seq![])
    } else {
        match entries[0] {
            None => parse_endpoints(entries.drop_first()),
            Some(t) => match url_parse(t) {
                Err(e) => Err(invalid_endpoint_message(e)),
                Ok(u) => match parse_endpoints(entries.drop_first()) {
                    Ok(rest) => Ok(seq![u] + rest),
                    Err(e) => Err(e),
                },
            },
        }
    }
}

/// The view of the entries of an endpoints array.
pub open spec fn entries_view(v: Seq<Option<String>>) -> Seq<Option<Seq<char>>> {
    v.map_values(|o: Option<String>| opt_text(o))
}

/// The endpoints an update check asks, or why there are none.
pub open spec fn configured_endpoints_spec(updater: Option<&UpdaterConfig>) -> Result<Seq<UrlView>, Seq<char>> {
    match updater {
        None => Err("缺少 updater 配置"@),
        Some(c) => match c.endpoints {
            None => Err("缺少 updater.endpoints 配置"@),
            Some(v) => parse_endpoints(entries_view(v@)),
        },
    }
}

/// The views of a list of addresses.
pub open spec fn urls_view(v: Seq<WebUrl>) -> Seq<UrlView> {
    v.map_values(|u: WebUrl| u@)
}

/// Parses an update endpoint; a failure is reported with the parser's reason.
pub fn parse_url(url: &str) -> (r: Result<WebUrl, String>)
    ensures
        match url_parse(url@) {
            Ok(u) => r matches Ok(w) && w@ == u,
            Err(e) => r matches Err(m) && m@ == invalid_endpoint_message(e),
        },
{
    match WebUrl::parse(url) {
        Ok(u) => Ok(u),
        Err(e) => {
            let mut m = String::from_str("无效的更新地址: ");
            m.append(e.as_str());
            Err(m)
        },
    }
}

/// The update endpoints of the configuration, parsed.
pub fn configured_update_endpoints(updater: Option<&UpdaterConfig>) -> (r: Result<Vec<WebUrl>, String>)
    ensures
        match configured_endpoints_spec(updater) {
            Ok(v) => r matches Ok(w) && urls_view(w@) == v,
            Err(e) => r matches Err(m) && m@ == e,
        },
{
    let cfg = match updater {
        None => return Err(String::from_str("缺少 updater 配置")),
        Some(c) => c,
    };
    let entries = match &cfg.endpoints {
        None => return Err(String::from_str("缺少 updater.endpoints 配置")),
        Some(v) => v,
    };
    let ghost ev = entries_view(entries@);
    assert(configured_endpoints_spec(updater) == parse_endpoints(ev));
    let mut out: Vec<WebUrl> = Vec::new();
    let mut i: usize = 0;
    assert(ev.skip(0) =~= ev);
    while i < entries.len()
        invariant
            i <= entries.len(),
            ev == entries_view(entries@),
            configured_endpoints_spec(updater) == parse_endpoints(ev),
            parse_endpoints(ev) == match parse_endpoints(ev.skip(i as int)) {
                Ok(rest) => Ok(urls_view(out@) + rest),
                Err(e) => Err::<Seq<UrlView>, Seq<char>>(e),
            },
        decreases entries.len() - i,
    {
        assert(ev.skip(i as int).drop_first() =~= ev.skip(i + 1));
        assert(ev.skip(i as int)[0] == opt_text(entries@[i as int]));
        match &entries[i] {
            None => {},
            Some(t) => match parse_url(t.as_str()) {
                Ok(u) => {
                    let ghost before = urls_view(out@);
                    out.push(u);
                    assert(urls_view(out@) =~= before.push(u@));
                    assert forall|rest: Seq<UrlView>| #![auto]
                        before + (seq![u@] + rest) == urls_view(out@) + rest by {
                        assert(before + (seq![u@] + rest) =~= before.push(u@) + rest);
                    }
                },
                Err(e) => {
                    assert(ev.skip(i as int)[0] == Some(t@));
                    assert(parse_endpoints(ev.skip(i as int)) == Err::<Seq<UrlView>, Seq<char>>(
                        e@,
                    ));
                    return Err(e);
                },
            },
        }
        i = i + 1;
    }
    assert(ev.skip(i as int) =~= Seq::<Option<Seq<char>>>::empty());
    assert(urls_view(out@) + Seq::<UrlView>::empty() =~= urls_view(out@));
    Ok(out)
}

/// The update endpoints of the configuration, each routed through the
/// GitHub proxy.
pub fn proxied_update_endpoints(updater: Option<&UpdaterConfig>, proxy_prefix: &str) -> (r: Result<
    Vec<WebUrl>,
    String,
>)
    ensures
        match configured_endpoints_spec(updater) {
            Ok(v) => r matches Ok(w) && urls_view(w@) == v.map_values(
                |u: UrlView| proxied_url(u, proxy_prefix@),
            ),
            Err(e) => r matches Err(m) && m@ == e,
        },
{
    let urls = match configured_update_endpoints(updater) {
        Ok(u) => u,
        Err(e) => return Err(e),
    };
    let ghost v = urls_view(urls@);
    let mut out: Vec<WebUrl> = Vec::new();
    let mut i: usize = 0;
    while i < urls.len()
        invariant
            i <= urls.len(),
            v == urls_view(urls@),
            urls_view(out@) == v.take(i as int).map_values(|u: UrlView| proxied_url(u, proxy_prefix@)),
        decreases urls.len() - i,
    {
        let p = proxy_github_url(&urls[i], proxy_prefix);
        let ghost before = urls_view(out@);
        assert(v[i as int] == urls@[i as int]@);
        out.push(p);
        assert(urls_view(out@) =~= before.push(p@));
        assert(urls_view(out@) =~= v.take(i + 1).map_values(
            |u: UrlView| proxied_url(u, proxy_prefix@),
        ));
        i = i + 1;
    }
    assert(v.take(urls.len() as int) =~= v);
    Ok(out)
}

// ---------------------------------------------------------------------------
// Download progress
// ---------------------------------------------------------------------------

/// `downloaded * 100`, saturating at `u64::MAX`.
pub open spec fn saturating_hundredfold(downloaded: u64) -> u64 {
    if downloaded * 100 > u64::MAX {
        u64::MAX
    } else {
        (downloaded * 100) as u64
    }
}

/// The whole percentage downloaded, when the total size is known and not zero.
pub open spec fn progress_percent(downloaded: u64, total: Option<u64>) -> Option<u64> {
    match total {
        Some(t) => if t == 0 {
            None
        } else {
            Some(saturating_hundredfold(downloaded) / t)
        },
        None => None,
    }
}

/// The percentage rose since the last reported one (a first known
/// percentage counts as a rise).
pub open spec fn percent_rose(current: Option<u64>, last: Option<u64>) -> bool {
    match (current, last) {
        (Some(c), Some(l)) => c > l,
        (Some(_), None) => true,
        _ => false,
    }
}

/// `a + b`, saturating at `u64::MAX`.
pub open spec fn saturating_sum(a: u64, b: u64) -> u64 {
    if a + b > u64::MAX {
        u64::MAX
    } else {
        (a + b) as u64
    }
}

/// The running state of a download, deciding when a progress event is due.
pub struct DownloadProgress {
    pub downloaded: u64,
    pub last_total: Option<u64>,
    pub last_percent: Option<u64>,
}

impl DownloadProgress {
    /// Nothing downloaded and nothing reported yet.
    pub fn new() -> (r: DownloadProgress)
        ensures
            r.downloaded == 0,
            r.last_total is None,
            r.last_percent is None,
    {
        DownloadProgress { downloaded: 0, last_total: None, last_percent: None }
    }

    /// Records a downloaded chunk; returns whether a progress event is due:
    /// when the percentage rose, or when `interval_elapsed` says that the
    /// minimum time between events has passed. A due event with a known
    /// percentage becomes the last reported one.
    pub fn record_chunk(&mut self, chunk: u64, total: Option<u64>, interval_elapsed: bool) -> (emit:
        bool)
        ensures
            ({
                let d = saturating_sum(old(self).downloaded, chunk);
                let p = progress_percent(d, total);
                &&& final(self).downloaded == d
                &&& final(self).last_total == total
                &&& emit == (percent_rose(p, old(self).last_percent) || interval_elapsed)
                &&& final(self).last_percent == if emit && p is Some {
                    p
                } else {
                    old(self).last_percent
                }
            }),
            final(self).downloaded >= old(self).downloaded,
    {
        self.downloaded = self.downloaded.saturating_add(chunk);
        self.last_total = total;
        let hundredfold: u64 = if self.downloaded > u64::MAX / 100 {
            u64::MAX
        } else {
            self.downloaded * 100
        };
        let percent: Option<u64> = match total {
            Some(t) => hundredfold.checked_div(t),
            None => None,
        };
        let rose = match (percent, self.last_percent) {
            (Some(c), Some(l)) => c > l,
            (Some(_), None) => true,
            _ => false,
        };
        let emit = rose || interval_elapsed;
        if emit && percent.is_some() {
            self.last_percent = percent;
        }
        emit
    }

    /// The sizes of the final event once `final_size` bytes arrived: the
    /// downloaded size, and the announced total (the final size when none
    /// was announced).
    pub fn final_sizes(&self, final_size: u64) -> (r: (u64, Option<u64>))
        ensures
            r.0 == final_size,
            r.1 == match self.last_total {
                Some(t) => Some(t),
                None => Some(final_size),
            },
    {
        match self.last_total {
            Some(t) => (final_size, Some(t)),
            None => (final_size, Some(final_size)),
        }
    }
}

// ---------------------------------------------------------------------------
// What a check leads to
// ---------------------------------------------------------------------------

/// Where an update check came from; decides whether to download and whether
/// "already up to date" is said aloud.
#[derive(Debug, Clone, Copy, PartialEq, Eq, Structural)]
pub enum CheckTrigger {
    /// The check at start-up: downloads only with automatic updates on, and
    /// stays quiet when there is no update.
    Startup,
    /// A check the user asked for: always downloads.
    Manual,
}

/// What follows once the update server answered.
#[derive(Debug, Clone, Copy, PartialEq, Eq, Structural)]
pub enum CheckOutcome {
    /// No update, and nothing to say.
    StayQuiet,
    /// No update; tell the user the application is up to date.
    AnnounceUpToDate,
    /// An update exists but is only announced.
    AnnounceAvailable,
    /// Download the update; `silent` downloads draw only a progress bar.
    Download { silent: bool },
}

/// The outcome of a check.
pub open spec fn plan_spec(trigger: CheckTrigger, update_found: bool, auto_update: bool) -> CheckOutcome {
    if !update_found {
        if trigger == CheckTrigger::Manual {
            CheckOutcome::AnnounceUpToDate
        } else {
            CheckOutcome::StayQuiet
        }
    } else if trigger == CheckTrigger::Manual || auto_update {
        (CheckOutcome::Download { silent: trigger == CheckTrigger::Startup })
    } else {
        CheckOutcome::AnnounceAvailable
    }
}

impl CheckTrigger {
    /// Whether the "automatic updates" switch has a say: only for the
    /// start-up check.
    pub fn consults_auto_update(&self) -> (r: bool)
        ensures
            r == (*self == CheckTrigger::Startup),
    {
        match self {
            CheckTrigger::Startup => true,
            CheckTrigger::Manual => false,
        }
    }
}

/// Decides what follows a check, from where it came from, whether the server
/// offered an update and the "automatic updates" switch.
pub fn plan_after_check(trigger: CheckTrigger, update_found: bool, auto_update: bool) -> (r:
    CheckOutcome)
    ensures
        r == plan_spec(trigger, update_found, auto_update),
{
    if !update_found {
        match trigger {
            CheckTrigger::Manual => CheckOutcome::AnnounceUpToDate,
            CheckTrigger::Startup => CheckOutcome::StayQuiet,
        }
    } else {
        let manual = match trigger {
            CheckTrigger::Manual => true,
            CheckTrigger::Startup => false,
        };
        if manual || auto_update {
            CheckOutcome::Download { silent: !manual }
        } else {
            CheckOutcome::AnnounceAvailable
        }
    }
}

/// What each outcome of a check means: "up to date" is said exactly after
/// a manual check that found nothing, and silence follows exactly a
/// start-up check that found nothing, whatever the switch says; an update
/// is downloaded exactly when one was found and the check was manual or the
/// switch is on, silently exactly when the check ran at start-up; otherwise
/// a found update is only announced.
pub proof fn check_outcomes_mean(trigger: CheckTrigger, update_found: bool, auto_update: bool)
    ensures
        (plan_spec(trigger, update_found, auto_update) == CheckOutcome::AnnounceUpToDate) <==> (
        !update_found && trigger == CheckTrigger::Manual),
        (plan_spec(trigger, update_found, auto_update) == CheckOutcome::StayQuiet) <==> (
        !update_found && trigger == CheckTrigger::Startup),
        (plan_spec(trigger, update_found, auto_update) is Download) <==> (update_found && (trigger
            == CheckTrigger::Manual || auto_update)),
        plan_spec(trigger, update_found, auto_update) matches CheckOutcome::Download { silent } ==> (
        silent <==> trigger == CheckTrigger::Startup),
        (plan_spec(trigger, update_found, auto_update) == CheckOutcome::AnnounceAvailable) <==> (
        update_found && trigger == CheckTrigger::Startup && !auto_update),
        !update_found ==> plan_spec(trigger, update_found, auto_update) == plan_spec(
            trigger,
            update_found,
            !auto_update,
        ),
{
}

/// The "automatic updates" switch as stored; a missing value means on.
pub fn auto_update_from_setting(stored: Option<bool>) -> (r: bool)
    ensures
        r == match stored {
            Some(b) => b,
            None => true,
        },
{
    match stored {
        Some(b) => b,
        None => true,
    }
}

/// A check the user asked for downloads any update it finds, in the open,
/// whatever the switch says; a start-up check never says "up to date".
pub proof fn manual_checks_always_download(update_found: bool, auto_update: bool)
    ensures
        update_found ==> plan_spec(CheckTrigger::Manual, update_found, auto_update)
            == (CheckOutcome::Download { silent: false }),
        plan_spec(CheckTrigger::Startup, update_found, auto_update)
            != CheckOutcome::AnnounceUpToDate,
        update_found && auto_update ==> plan_spec(CheckTrigger::Startup, update_found, auto_update)
            == (CheckOutcome::Download { silent: true }),
{
}

} // verus!
