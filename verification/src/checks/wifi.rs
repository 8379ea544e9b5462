//! Wi-Fi security posture check.
//!
//! Data source: `netsh wlan show interfaces` (no elevation required). We
//! parse the `State`, `SSID` and `Authentication` fields of the active
//! interface.

use super::{finding, make_result, result_model, CheckKind, CheckResult, CheckResultModel, Finding, FindingModel, Severity};
use super::dns_gateway::str_result;
use crate::text::{
    chars_of, concat3, contains, contains_lower_in, eq_lower_in, find, find_char_in, line_ranges, lines,
    lower_seq, push_str, ranges_text, str_texts, string_of, trim, trim_in, valid_ranges,
};
use vstd::prelude::*;

verus! {

pub struct WifiSecurityCheck;

pub const DATA_SOURCE: &'static str = "netsh wlan show interfaces";

/// SSID substrings that suggest a public / default-router network, used as
/// a lightweight heuristic only - not a definitive signal.
pub open spec fn suspect_ssid_hints() -> Seq<Seq<char>> {
    seq![
        "free"@, "public"@, "guest"@, "airport"@, "cafe"@, "coffee"@, "hotel"@, "xfinitywifi"@,
        "attwifi"@, "linksys"@, "netgear"@, "dlink"@, "tp-link"@, "default"@,
    ]
}

fn hint_list() -> (v: Vec<&'static str>)
    ensures
        str_texts(v@) == suspect_ssid_hints(),
{
    let v = vec![
        "free", "public", "guest", "airport", "cafe", "coffee", "hotel", "xfinitywifi",
        "attwifi", "linksys", "netgear", "dlink", "tp-link", "default",
    ];
    assert(str_texts(v@) =~= suspect_ssid_hints());
    v
}

pub struct WifiModel {
    pub state: Seq<char>,
    pub ssid: Option<Seq<char>>,
    pub authentication: Option<Seq<char>>,
}

#[derive(Debug, Clone, PartialEq, Eq)]
pub struct WifiInterfaceInfo {
    pub state: String,
    pub ssid: Option<String>,
    pub authentication: Option<String>,
}

impl DeepView for WifiInterfaceInfo {
    type V = WifiModel;

    open spec fn deep_view(&self) -> WifiModel {
        WifiModel {
            state: self.state@,
            ssid: self.ssid.deep_view(),
            authentication: self.authentication.deep_view(),
        }
    }
}

/// The values of the `state`, `ssid` and `authentication` keys read so far.
pub type WifiFields = (Option<Seq<char>>, Option<Seq<char>>, Option<Seq<char>>);

/// One `key : value` line (split at the first `:`; key compared
/// lower-cased and trimmed, value trimmed); a later value for a key
/// replaces an earlier one.
pub open spec fn wifi_step(f: WifiFields, line: Seq<char>) -> WifiFields {
    match find(line, seq![':']) {
        None => f,
        Some(idx) => {
            let key = lower_seq(trim(line.subrange(0, idx)));
            let value = trim(line.subrange(idx + 1, line.len() as int));
            if key == "state"@ {
                (Some(value), f.1, f.2)
            } else if key == "ssid"@ {
                (f.0, Some(value), f.2)
            } else if key == "authentication"@ {
                (f.0, f.1, Some(value))
            } else {
                f
            }
        },
    }
}

pub open spec fn wifi_fold(ls: Seq<Seq<char>>) -> WifiFields
    decreases ls.len(),
{
    if ls.len() == 0 {
        (None, None, None)
    } else {
        wifi_step(wifi_fold(ls.drop_last()), ls.last())
    }
}

pub open spec fn non_empty(o: Option<Seq<char>>) -> Option<Seq<char>> {
    match o {
        Some(s) => if s.len() > 0 {
            Some(s)
        } else {
            None
        },
        None => None,
    }
}

/// The interface described by `netsh wlan show interfaces`, when it reports
/// a state; an empty SSID or authentication counts as absent.
pub open spec fn parse_wifi_spec(output: Seq<char>) -> Option<WifiModel> {
    let f = wifi_fold(lines(output));
    match f.0 {
        None => None,
        Some(state) => Some(WifiModel { state, ssid: non_empty(f.1), authentication: non_empty(f.2) }),
    }
}

fn kept(v: &Vec<char>, r: Option<(usize, usize)>) -> (s: Option<String>)
    requires
        r matches Some(p) ==> p.0 <= p.1 <= v.len(),
    ensures
        s.deep_view() == non_empty(match r {
            Some(p) => Some(v@.subrange(p.0 as int, p.1 as int)),
            None => None,
        }),
{
    match r {
        Some((a, b)) => if a < b {
            Some(string_of(v, a, b))
        } else {
            None
        },
        None => None,
    }
}

/// Parses the key/value block output of `netsh wlan show interfaces` for a
/// single interface. Defensive against missing fields, extra whitespace,
/// and localized colons inside values (splits only on the *first* `:`).
pub fn parse_wifi_interfaces(output: &str) -> (r: Option<WifiInterfaceInfo>)
    ensures
        r.deep_view() == parse_wifi_spec(output@),
{
    let v = chars_of(output);
    let ls = line_ranges(&v);
    let p_state = chars_of("state");
    let p_ssid = chars_of("ssid");
    let p_auth = chars_of("authentication");
    let mut state: Option<(usize, usize)> = None;
    let mut ssid: Option<(usize, usize)> = None;
    let mut auth: Option<(usize, usize)> = None;
    let mut k: usize = 0;
    while k < ls.len()
        invariant
            k <= ls@.len(),
            valid_ranges(v@, ls@),
            ranges_text(v@, ls@) == lines(v@),
            v@ == output@,
            p_state@ == "state"@,
            p_ssid@ == "ssid"@,
            p_auth@ == "authentication"@,
            state matches Some(p) ==> p.0 <= p.1 <= v@.len(),
            ssid matches Some(p) ==> p.0 <= p.1 <= v@.len(),
            auth matches Some(p) ==> p.0 <= p.1 <= v@.len(),
            wifi_fold(lines(v@).take(k as int)) == (
                match state {
                    Some(p) => Some(v@.subrange(p.0 as int, p.1 as int)),
                    None => None,
                },
                match ssid {
                    Some(p) => Some(v@.subrange(p.0 as int, p.1 as int)),
                    None => None,
                },
                match auth {
                    Some(p) => Some(v@.subrange(p.0 as int, p.1 as int)),
                    None => None,
                },
            ),
        decreases ls@.len() - k,
    {
        let ghost raw = lines(v@)[k as int];
        assert(lines(v@).take(k + 1).drop_last() =~= lines(v@).take(k as int));
        assert(lines(v@).take(k + 1).last() == raw);
        let (a, b) = ls[k];
        assert(raw == v@.subrange(a as int, b as int));
        match find_char_in(&v, a, b, ':') {
            Some(idx) => {
                assert(raw.subrange(0, idx - a) =~= v@.subrange(a as int, idx as int));
                assert(raw.subrange(idx - a + 1, raw.len() as int) =~= v@.subrange(idx + 1, b as int));
                let (ka, kb) = trim_in(&v, a, idx);
                let value = trim_in(&v, idx + 1, b);
                if eq_lower_in(&v, ka, kb, &p_state) {
                    state = Some(value);
                } else if eq_lower_in(&v, ka, kb, &p_ssid) {
                    ssid = Some(value);
                } else if eq_lower_in(&v, ka, kb, &p_auth) {
                    auth = Some(value);
                }
            },
            None => {},
        }
        k = k + 1;
    }
    assert(lines(v@).take(k as int) =~= lines(v@));
    match state {
        None => None,
        Some((a, b)) => Some(
            WifiInterfaceInfo { state: string_of(&v, a, b), ssid: kept(&v, ssid), authentication: kept(&v, auth) },
        ),
    }
}

pub open spec fn looks_public(ssid: Seq<char>) -> bool {
    exists|i: int| 0 <= i < suspect_ssid_hints().len() && contains(lower_seq(ssid), #[trigger] suspect_ssid_hints()[i])
}

fn looks_like_public_ssid(ssid: &str) -> (b: bool)
    ensures
        b == looks_public(ssid@),
{
    let v = chars_of(ssid);
    assert(v@.subrange(0, v@.len() as int) =~= v@);
    let hints = hint_list();
    let mut k: usize = 0;
    while k < hints.len()
        invariant
            k <= hints@.len(),
            str_texts(hints@) == suspect_ssid_hints(),
            v@ == ssid@,
            v@.subrange(0, v@.len() as int) == v@,
            forall|i: int| 0 <= i < k ==> !contains(lower_seq(ssid@), #[trigger] suspect_ssid_hints()[i]),
        decreases hints@.len() - k,
    {
        let h = chars_of(hints[k]);
        assert(suspect_ssid_hints()[k as int] == hints@[k as int]@);
        if contains_lower_in(&v, 0, v.len(), &h) {
            return true;
        }
        k = k + 1;
    }
    false
}

pub open spec fn quoted(ssid: Seq<char>) -> Seq<char> {
    "Connected to \""@ + ssid + "\""@
}

/// The severity, verdict, findings and remediation for the interface.
pub open spec fn wifi_spec(info: Option<WifiModel>) -> (Severity, Seq<char>, Seq<FindingModel>, Option<Seq<char>>) {
    match info {
        None => (
            Severity::Okay,
            "No active Wi-Fi interface detected (likely on wired Ethernet)."@,
            seq![finding("Wi-Fi interface"@, "No connected wireless interface was reported by netsh."@)],
            None,
        ),
        Some(i) => if lower_seq(i.state) != "connected"@ {
            (
                Severity::Okay,
                "Wi-Fi adapter present but not connected (state: "@ + i.state + ")."@,
                seq![finding("Adapter state"@, i.state)],
                None,
            )
        } else {
            let ssid = match i.ssid {
                Some(s) => s,
                None => "(unknown SSID)"@,
            };
            let auth = match i.authentication {
                Some(s) => s,
                None => "unknown"@,
            };
            let base = seq![finding("SSID"@, ssid), finding("Authentication"@, auth)];
            if contains(lower_seq(auth), "open"@) {
                (
                    Severity::AtRisk,
                    quoted(ssid) + " with no encryption (Open network)."@,
                    base.push(finding("Risk"@, "Open networks send all traffic unencrypted and allow anyone nearby to read it."@)),
                    Some("Avoid transmitting sensitive data on this network. Prefer a WPA2/WPA3 network or use a trusted VPN."@),
                )
            } else if contains(lower_seq(auth), "wep"@) {
                (
                    Severity::AtRisk,
                    quoted(ssid) + " using WEP, an obsolete and broken encryption standard."@,
                    base.push(finding("Risk"@, "WEP encryption is broken and can be cracked in minutes with widely available tools."@)),
                    Some("Reconnect using a WPA2 or WPA3 network, or ask the network owner to upgrade their router."@),
                )
            } else if looks_public(ssid) {
                (
                    Severity::Caution,
                    quoted(ssid) + " ("@ + auth + ") - the network name suggests a public or default-configured hotspot."@,
                    base.push(finding("Heuristic"@, "SSID name resembles a public hotspot or default router name."@)),
                    Some("Public and default-named networks are more likely to be poorly secured or shared with strangers. Consider a VPN."@),
                )
            } else {
                (Severity::Okay, quoted(ssid) + " using "@ + auth + "."@, base, None)
            }
        },
    }
}

/// Pure evaluation logic, separated from OS interaction.
pub fn evaluate(info: Option<&WifiInterfaceInfo>) -> (r: (Severity, String, Vec<Finding>, Option<String>))
    ensures
        (r.0, r.1@, r.2.deep_view(), r.3.deep_view()) == wifi_spec(
            match info {
                Some(i) => Some(i.deep_view()),
                None => None,
            },
        ),
{
    let info = match info {
        None => {
            let findings = vec![Finding::new("Wi-Fi interface", "No connected wireless interface was reported by netsh.")];
            assert(findings.deep_view() =~= seq![
                finding("Wi-Fi interface"@, "No connected wireless interface was reported by netsh."@)
            ]);
            return (
                Severity::Okay,
                String::from_str("No active Wi-Fi interface detected (likely on wired Ethernet)."),
                findings,
                None,
            );
        },
        Some(i) => i,
    };
    let sv = chars_of(info.state.as_str());
    assert(sv@.subrange(0, sv@.len() as int) =~= sv@);
    if !eq_lower_in(&sv, 0, sv.len(), &chars_of("connected")) {
        let findings = vec![Finding::of(String::from_str("Adapter state"), info.state.clone())];
        assert(findings.deep_view() =~= seq![finding("Adapter state"@, info.state@)]);
        return (
            Severity::Okay,
            concat3("Wi-Fi adapter present but not connected (state: ", info.state.as_str(), ")."),
            findings,
            None,
        );
    }
    let ssid: &str = match &info.ssid {
        Some(s) => s.as_str(),
        None => "(unknown SSID)",
    };
    let auth: &str = match &info.authentication {
        Some(s) => s.as_str(),
        None => "unknown",
    };
    let av = chars_of(auth);
    assert(av@.subrange(0, av@.len() as int) =~= av@);
    let mut findings = vec![
        Finding::of(String::from_str("SSID"), String::from_str(ssid)),
        Finding::of(String::from_str("Authentication"), String::from_str(auth)),
    ];
    let ghost base = seq![finding("SSID"@, ssid@), finding("Authentication"@, auth@)];
    assert(findings.deep_view() =~= base);
    let mut verdict = concat3("Connected to \"", ssid, "\"");
    if contains_lower_in(&av, 0, av.len(), &chars_of("open")) {
        findings.push(
            Finding::new("Risk", "Open networks send all traffic unencrypted and allow anyone nearby to read it."),
        );
        push_str(&mut verdict, " with no encryption (Open network).");
        return (
            Severity::AtRisk,
            verdict,
            findings,
            Some(String::from_str("Avoid transmitting sensitive data on this network. Prefer a WPA2/WPA3 network or use a trusted VPN.")),
        );
    }
    if contains_lower_in(&av, 0, av.len(), &chars_of("wep")) {
        findings.push(
            Finding::new("Risk", "WEP encryption is broken and can be cracked in minutes with widely available tools."),
        );
        push_str(&mut verdict, " using WEP, an obsolete and broken encryption standard.");
        return (
            Severity::AtRisk,
            verdict,
            findings,
            Some(String::from_str("Reconnect using a WPA2 or WPA3 network, or ask the network owner to upgrade their router.")),
        );
    }
    if looks_like_public_ssid(ssid) {
        findings.push(Finding::new("Heuristic", "SSID name resembles a public hotspot or default router name."));
        push_str(&mut verdict, " (");
        push_str(&mut verdict, auth);
        push_str(&mut verdict, ") - the network name suggests a public or default-configured hotspot.");
        return (
            Severity::Caution,
            verdict,
            findings,
            Some(String::from_str("Public and default-named networks are more likely to be poorly secured or shared with strangers. Consider a VPN.")),
        );
    }
    push_str(&mut verdict, " using ");
    push_str(&mut verdict, auth);
    push_str(&mut verdict, ".");
    (Severity::Okay, verdict, findings, None)
}

pub open spec fn wifi_result(out: Result<Seq<char>, Seq<char>>) -> CheckResultModel {
    let info = match out {
        Ok(o) => parse_wifi_spec(o),
        Err(_) => None,
    };
    let (sev, verdict, fs, rem) = wifi_spec(info);
    result_model(CheckKind::Wifi, sev, verdict, fs, rem, DATA_SOURCE@, seq![])
}

impl WifiSecurityCheck {
    pub fn id(&self) -> (r: &'static str)
        ensures
            r@ == CheckKind::Wifi.spec_id(),
    {
        CheckKind::Wifi.id()
    }

    pub fn name(&self) -> (r: &'static str)
        ensures
            r@ == CheckKind::Wifi.spec_name(),
    {
        CheckKind::Wifi.name()
    }

    /// Evaluates the output of `netsh wlan show interfaces`; an error
    /// running it counts as no interface.
    pub fn run(&self, output: Result<String, String>) -> (r: CheckResult)
        ensures
            r.deep_view() == wifi_result(str_result(output)),
    {
        let info = match output {
            Ok(out) => parse_wifi_interfaces(out.as_str()),
            Err(_) => None,
        };
        let (severity, verdict, findings, remediation) = match &info {
            Some(i) => evaluate(Some(i)),
            None => evaluate(None),
        };
        let raw_keys: Vec<String> = Vec::new();
        assert(raw_keys.deep_view() =~= seq![]);
        make_result(CheckKind::Wifi, severity, verdict, findings, remediation, DATA_SOURCE, raw_keys)
    }
}

} // verus!
