//! Browser/system proxy tampering check.
//!
//! Data source: `HKCU\Software\Microsoft\Windows\CurrentVersion\Internet
//! Settings` (`ProxyEnable`, `ProxyServer`, `AutoConfigURL`), whose values
//! are handed in - the WinINET settings that Edge, Chrome, and most other
//! Windows apps inherit unless a browser overrides them independently.
//! Deliberately scoped to this system proxy configuration only, not full
//! per-browser extension/policy auditing.

use super::{
    finding, finding_with, make_result, result_model, ActionModel, CheckKind, CheckResult, CheckResultModel,
    Finding, FindingModel, RemediationAction, Severity,
};
use crate::text::{
    before, chars_of, find, find_char_in, lower_in, lower_seq, same_text, split, split_in, starts_with,
    starts_with_in, string_of_all, trim, trim_in,
};
use vstd::prelude::*;

verus! {

pub open spec fn proxy_action() -> FindingModel {
    finding_with(
        "Fix this"@,
        "Open Proxy settings to review or turn off the configured proxy/PAC script."@,
        ActionModel::DeepLink { uri: "ms-settings:network-proxy"@, label: "Open Proxy settings"@ },
    )
}

fn open_proxy_action() -> (f: Finding)
    ensures
        f.deep_view() == proxy_action(),
{
    Finding::with_action(
        "Fix this",
        "Open Proxy settings to review or turn off the configured proxy/PAC script.",
        RemediationAction::DeepLink {
            uri: String::from_str("ms-settings:network-proxy"),
            label: String::from_str("Open Proxy settings"),
        },
    )
}

pub struct ProxyTamperingCheck;

pub const DATA_SOURCE: &'static str = "HKCU\\Software\\Microsoft\\Windows\\CurrentVersion\\Internet Settings";

pub struct ProxyModel {
    pub proxy_enabled: bool,
    pub proxy_server: Option<Seq<char>>,
    pub auto_config_url: Option<Seq<char>>,
}

#[derive(Debug, Clone, PartialEq, Eq)]
pub struct ProxyState {
    pub proxy_enabled: bool,
    pub proxy_server: Option<String>,
    pub auto_config_url: Option<String>,
}

impl DeepView for ProxyState {
    type V = ProxyModel;

    open spec fn deep_view(&self) -> ProxyModel {
        ProxyModel {
            proxy_enabled: self.proxy_enabled,
            proxy_server: self.proxy_server.deep_view(),
            auto_config_url: self.auto_config_url.deep_view(),
        }
    }
}

impl Default for ProxyState {
    fn default() -> (r: ProxyState)
        ensures
            !r.proxy_enabled,
            r.proxy_server is None,
            r.auto_config_url is None,
    {
        ProxyState { proxy_enabled: false, proxy_server: None, auto_config_url: None }
    }
}

/// A registry string value that is absent or blank counts as unset.
pub open spec fn set_value(v: Option<Seq<char>>) -> Option<Seq<char>> {
    match v {
        Some(s) => if trim(s).len() > 0 {
            Some(s)
        } else {
            None
        },
        None => None,
    }
}

fn set_value_of(v: Option<String>) -> (r: Option<String>)
    ensures
        r.deep_view() == set_value(v.deep_view()),
{
    match v {
        Some(s) => {
            let c = chars_of(s.as_str());
            assert(c@.subrange(0, c@.len() as int) =~= c@);
            let (a, b) = trim_in(&c, 0, c.len());
            if a < b {
                Some(s)
            } else {
                None
            }
        },
        None => None,
    }
}

impl ProxyState {
    /// The state for the `ProxyEnable`, `ProxyServer` and `AutoConfigURL`
    /// values read from the registry (`None` where one could not be read):
    /// the proxy counts as enabled only when `ProxyEnable` is 1, and a blank
    /// server or URL as unset.
    pub fn from_registry(proxy_enable: Option<u32>, proxy_server: Option<String>, auto_config_url: Option<String>) -> (s:
        ProxyState)
        ensures
            s.proxy_enabled == (proxy_enable == Some(1u32)),
            s.proxy_server.deep_view() == set_value(proxy_server.deep_view()),
            s.auto_config_url.deep_view() == set_value(auto_config_url.deep_view()),
    {
        let proxy_enabled = match proxy_enable {
            Some(n) => n == 1,
            None => false,
        };
        ProxyState {
            proxy_enabled,
            proxy_server: set_value_of(proxy_server),
            auto_config_url: set_value_of(auto_config_url),
        }
    }
}

/// The first host of a `ProxyServer` value, which can be `host:port` or a
/// per-protocol list like `http=host:80;https=host:443`: the first entry,
/// after its last `=`, before its first `:`, trimmed and lower-cased.
pub open spec fn host_spec(proxy_server: Seq<char>) -> Seq<char> {
    let first_entry = before(proxy_server, seq![';']);
    let after_eq = split(first_entry, seq!['=']).last();
    lower_seq(trim(before(after_eq, seq![':'])))
}

pub fn host_of(proxy_server: &str) -> (h: String)
    ensures
        h@ == host_spec(proxy_server@),
{
    let v = chars_of(proxy_server);
    assert(v@.subrange(0, v@.len() as int) =~= v@);
    let e1 = match find_char_in(&v, 0, v.len(), ';') {
        Some(i) => i,
        None => v.len(),
    };
    assert(v@.subrange(0, e1 as int) == before(v@, seq![';']));
    let eq = vec!['='];
    assert(eq@ =~= seq!['=']);
    let parts = split_in(&v, 0, e1, &eq);
    let ghost ps = split(v@.subrange(0, e1 as int), seq!['=']);
    assert(ps.len() > 0);
    let (a, b) = parts[parts.len() - 1];
    assert(ps.last() == v@.subrange(a as int, b as int));
    let e2 = match find_char_in(&v, a, b, ':') {
        Some(i) => i,
        None => b,
    };
    assert(v@.subrange(a as int, e2 as int) == before(v@.subrange(a as int, b as int), seq![':']));
    let (ta, tb) = trim_in(&v, a, e2);
    string_of_all(&lower_in(&v, ta, tb))
}

pub open spec fn loopback_host(host: Seq<char>) -> bool {
    host.len() == 0 || host == "127.0.0.1"@ || host == "localhost"@ || host == "::1"@
}

pub open spec fn local_pac(url: Seq<char>) -> bool {
    starts_with(lower_seq(url), "http://127.0.0.1"@) || starts_with(lower_seq(url), "http://localhost"@)
}

pub open spec fn proxy_spec(st: ProxyModel) -> (Severity, Seq<FindingModel>, Seq<char>) {
    let f0 = seq![finding("Proxy enabled"@, if st.proxy_enabled { "Yes"@ } else { "No"@ })];
    let f1 = match st.proxy_server {
        Some(s) => f0.push(finding("Proxy server"@, s)),
        None => f0,
    };
    let fs = match st.auto_config_url {
        Some(u) => f1.push(finding("Auto-configuration (PAC) URL"@, u)),
        None => f1,
    };
    let proxy_suspicious = st.proxy_enabled && match st.proxy_server {
        Some(s) => !loopback_host(host_spec(s)),
        None => false,
    };
    let pac_suspicious = match st.auto_config_url {
        Some(u) => !local_pac(u),
        None => false,
    };
    if proxy_suspicious {
        (Severity::AtRisk, fs, "A system proxy server is configured, which routes this device's traffic through a third party."@)
    } else if pac_suspicious {
        (Severity::Caution, fs, "A proxy auto-configuration (PAC) script is configured for this device."@)
    } else {
        (Severity::Okay, fs, "No unexpected system proxy or auto-configuration script is set."@)
    }
}

fn is_loopback_host(host: &str) -> (b: bool)
    ensures
        b == loopback_host(host@),
{
    chars_of(host).len() == 0 || same_text(host, "127.0.0.1") || same_text(host, "localhost") || same_text(host, "::1")
}

fn is_local_pac(url: &str) -> (b: bool)
    ensures
        b == local_pac(url@),
{
    let v = chars_of(url);
    assert(v@.subrange(0, v@.len() as int) =~= v@);
    let lower = lower_in(&v, 0, v.len());
    assert(lower@.subrange(0, lower@.len() as int) =~= lower@);
    starts_with_in(&lower, 0, lower.len(), &chars_of("http://127.0.0.1")) || starts_with_in(
        &lower,
        0,
        lower.len(),
        &chars_of("http://localhost"),
    )
}

pub fn evaluate(state: &ProxyState) -> (r: (Severity, Vec<Finding>, String))
    ensures
        (r.0, r.1.deep_view(), r.2@) == proxy_spec(state.deep_view()),
{
    let mut findings = vec![Finding::new("Proxy enabled", if state.proxy_enabled { "Yes" } else { "No" })];
    if let Some(server) = &state.proxy_server {
        findings.push(Finding::of(String::from_str("Proxy server"), server.clone()));
    }
    if let Some(pac) = &state.auto_config_url {
        findings.push(Finding::of(String::from_str("Auto-configuration (PAC) URL"), pac.clone()));
    }
    assert(findings.deep_view() =~= proxy_spec(state.deep_view()).1);
    let proxy_host_is_suspicious = state.proxy_enabled && match &state.proxy_server {
        Some(s) => !is_loopback_host(host_of(s.as_str()).as_str()),
        None => false,
    };
    let pac_is_suspicious = match &state.auto_config_url {
        Some(url) => !is_local_pac(url.as_str()),
        None => false,
    };
    if proxy_host_is_suspicious {
        (
            Severity::AtRisk,
            findings,
            String::from_str("A system proxy server is configured, which routes this device's traffic through a third party."),
        )
    } else if pac_is_suspicious {
        (
            Severity::Caution,
            findings,
            String::from_str("A proxy auto-configuration (PAC) script is configured for this device."),
        )
    } else {
        (Severity::Okay, findings, String::from_str("No unexpected system proxy or auto-configuration script is set."))
    }
}

pub open spec fn proxy_result(st: ProxyModel) -> CheckResultModel {
    let (sev, fs, verdict) = proxy_spec(st);
    if sev != Severity::Okay {
        result_model(
            CheckKind::ProxyTampering,
            sev,
            verdict,
            fs.push(proxy_action()),
            Some("Open Settings > Network & Internet > Proxy and confirm the proxy server or PAC script shown is one you configured (e.g. a known corporate proxy). If not, disable it."@),
            DATA_SOURCE@,
            seq![],
        )
    } else {
        result_model(CheckKind::ProxyTampering, sev, verdict, fs, None, DATA_SOURCE@, seq![])
    }
}

impl ProxyTamperingCheck {
    pub fn id(&self) -> (r: &'static str)
        ensures
            r@ == CheckKind::ProxyTampering.spec_id(),
    {
        CheckKind::ProxyTampering.id()
    }

    pub fn name(&self) -> (r: &'static str)
        ensures
            r@ == CheckKind::ProxyTampering.spec_name(),
    {
        CheckKind::ProxyTampering.name()
    }

    /// Evaluates the proxy settings read from the registry.
    pub fn run(&self, state: &ProxyState) -> (r: CheckResult)
        ensures
            r.deep_view() == proxy_result(state.deep_view()),
    {
        let (severity, findings, verdict) = evaluate(state);
        let ghost ev = proxy_spec(state.deep_view());
        let mut findings = findings;
        let remediation = if severity != Severity::Okay {
            findings.push(open_proxy_action());
            assert(findings.deep_view() =~= ev.1.push(proxy_action()));
            Some(String::from_str("Open Settings > Network & Internet > Proxy and confirm the proxy server or PAC script shown is one you configured (e.g. a known corporate proxy). If not, disable it."))
        } else {
            None
        };
        let raw_keys: Vec<String> = Vec::new();
        assert(raw_keys.deep_view() =~= seq![]);
        make_result(CheckKind::ProxyTampering, severity, verdict, findings, remediation, DATA_SOURCE, raw_keys)
    }
}

/// An enabled proxy whose host is not loopback is `AtRisk`, whatever the
/// PAC script; otherwise a non-local PAC script is `Caution`, and with
/// neither the result is `Okay`.
pub proof fn law_proxy_server_outranks_pac(st: ProxyModel)
    ensures
        st.proxy_enabled && st.proxy_server is Some && !loopback_host(host_spec(st.proxy_server->0)) ==> proxy_spec(
            st,
        ).0 == Severity::AtRisk,
        !(st.proxy_enabled && st.proxy_server is Some && !loopback_host(host_spec(st.proxy_server->0)))
            && st.auto_config_url is Some && !local_pac(st.auto_config_url->0) ==> proxy_spec(st).0
            == Severity::Caution,
        !(st.proxy_enabled && st.proxy_server is Some && !loopback_host(host_spec(st.proxy_server->0))) && !(
        st.auto_config_url is Some && !local_pac(st.auto_config_url->0)) ==> proxy_spec(st).0 == Severity::Okay,
{
}

} // verus!
