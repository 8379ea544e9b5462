//! Default gateway / DNS / hosts file integrity check.
//!
//! Data sources: `ipconfig /all` (DNS servers + default gateway) and the
//! Windows hosts file at `%SystemRoot%\System32\drivers\etc\hosts`.

use super::{
    finding, make_result, result_model, CheckKind, CheckResult, CheckResultModel, Finding, FindingModel,
    Severity,
};
use crate::text::{
    chars_of, collect, concat2, concat3, contains, contains_lower_in, count_string, decimal, ends_with,
    ends_with_in, eq_in, find, find_char_in, is_alphabetic, join, join_strings, line_ranges, lines,
    lower_seq, parse_uint, parse_uint_in, push_str, ranges_text, same_text, split, split_in, starts_with,
    starts_with_in, string_of, texts, to_lowercase, trim, trim_end, trim_end_in, trim_in, unicode_alphabetic, str_texts, in_list, push_char, lemma_texts_deep_view,
    unicode_lowercase, valid_ranges, word_ranges, words, before, has_string,
};
use vstd::prelude::*;

verus! {

pub struct DnsGatewayCheck;

pub const DATA_SOURCE: &'static str = "ipconfig /all; %SystemRoot%\\System32\\drivers\\etc\\hosts";

/// Well-known public resolvers that are not treated as suspicious even
/// though they aren't private addresses.
pub open spec fn known_public_resolvers() -> Seq<Seq<char>> {
    seq![
        "8.8.8.8"@, "8.8.4.4"@,
        "1.1.1.1"@, "1.0.0.1"@,
        "9.9.9.9"@, "149.112.112.112"@,
        "208.67.222.222"@, "208.67.220.220"@,
    ]
}

/// A representative sample of high-value domains that hosts-file hijacks
/// commonly target.
pub open spec fn sensitive_domains() -> Seq<Seq<char>> {
    seq![
        "google.com"@,
        "login.microsoftonline.com"@,
        "login.live.com"@,
        "windowsupdate.com"@,
        "update.microsoft.com"@,
        "paypal.com"@,
        "chase.com"@,
        "bankofamerica.com"@,
        "wellsfargo.com"@,
        "apple.com"@,
        "icloud.com"@,
    ]
}

fn resolver_list() -> (v: Vec<&'static str>)
    ensures
        str_texts(v@) == known_public_resolvers(),
{
    let v = vec![
        "8.8.8.8", "8.8.4.4",
        "1.1.1.1", "1.0.0.1",
        "9.9.9.9", "149.112.112.112",
        "208.67.222.222", "208.67.220.220",
    ];
    assert(str_texts(v@) =~= known_public_resolvers());
    v
}

fn domain_list() -> (v: Vec<&'static str>)
    ensures
        str_texts(v@) == sensitive_domains(),
{
    let v = vec![
        "google.com",
        "login.microsoftonline.com",
        "login.live.com",
        "windowsupdate.com",
        "update.microsoft.com",
        "paypal.com",
        "chase.com",
        "bankofamerica.com",
        "wellsfargo.com",
        "apple.com",
        "icloud.com",
    ];
    assert(str_texts(v@) =~= sensitive_domains());
    v
}

// ---------------------------------------------------------------------------
// ipconfig
// ---------------------------------------------------------------------------

pub struct IpConfigModel {
    pub dns_servers: Seq<Seq<char>>,
    pub default_gateways: Seq<Seq<char>>,
}

#[derive(Debug, Clone)]
pub struct IpConfigInfo {
    pub dns_servers: Vec<String>,
    pub default_gateways: Vec<String>,
}

impl DeepView for IpConfigInfo {
    type V = IpConfigModel;

    open spec fn deep_view(&self) -> IpConfigModel {
        IpConfigModel { dns_servers: self.dns_servers.deep_view(), default_gateways: self.default_gateways.deep_view() }
    }
}

pub open spec fn is_hex_digit(c: char) -> bool {
    ('0' <= c && c <= '9') || ('a' <= c && c <= 'f') || ('A' <= c && c <= 'F')
}

/// An IPv4 or IPv6 literal, loosely: non-empty, only hex digits, `.`, `:`
/// and `%`.
pub open spec fn is_ip_like(s: Seq<char>) -> bool {
    s.len() > 0 && forall|i: int| 0 <= i < s.len() ==> is_hex_digit(#[trigger] s[i]) || s[i] == '.' || s[i] == ':'
        || s[i] == '%'
}

pub open spec fn has_alphabetic(s: Seq<char>) -> bool {
    exists|i: int| 0 <= i < s.len() && unicode_alphabetic(#[trigger] s[i])
}

/// The text before the first `:` of a line is a label when it holds a
/// letter and is not itself an IP literal (an IPv6 address such as
/// `fe80::1%5` on a continuation line has hex letters before its first
/// colon).
pub open spec fn is_label(s: Seq<char>) -> bool {
    has_alphabetic(s) && !is_ip_like(s)
}

/// One line of `ipconfig /all`, applied to what was parsed so far and to
/// whether the previous line was part of a "DNS Servers" block.
pub open spec fn ipconfig_step(st: (IpConfigModel, bool), raw: Seq<char>) -> (IpConfigModel, bool) {
    let info = st.0;
    let in_dns = st.1;
    let line = trim_end(raw);
    let t = trim(line);
    if t.len() == 0 {
        (info, false)
    } else if find(line, seq![':']) is Some && is_label(trim(line.subrange(0, find(line, seq![':'])->0))) {
        let idx = find(line, seq![':'])->0;
        let label = lower_seq(trim(line.subrange(0, idx)));
        let value = trim(line.subrange(idx + 1, line.len() as int));
        if contains(label, "dns servers"@) {
            (
                IpConfigModel {
                    dns_servers: if is_ip_like(value) {
                        info.dns_servers.push(value)
                    } else {
                        info.dns_servers
                    },
                    default_gateways: info.default_gateways,
                },
                true,
            )
        } else if contains(label, "default gateway"@) {
            (
                IpConfigModel {
                    dns_servers: info.dns_servers,
                    default_gateways: if is_ip_like(value) {
                        info.default_gateways.push(value)
                    } else {
                        info.default_gateways
                    },
                },
                false,
            )
        } else {
            (info, false)
        }
    } else if in_dns && is_ip_like(t) {
        (IpConfigModel { dns_servers: info.dns_servers.push(t), default_gateways: info.default_gateways }, in_dns)
    } else {
        (info, in_dns)
    }
}

pub open spec fn ipconfig_fold(ls: Seq<Seq<char>>) -> (IpConfigModel, bool)
    decreases ls.len(),
{
    if ls.len() == 0 {
        (IpConfigModel { dns_servers: seq![], default_gateways: seq![] }, false)
    } else {
        ipconfig_step(ipconfig_fold(ls.drop_last()), ls.last())
    }
}

/// DNS servers and default gateways listed by `ipconfig /all`, over all
/// adapters, in order; a DNS server list may continue on following lines.
pub open spec fn parse_ipconfig_spec(output: Seq<char>) -> IpConfigModel {
    ipconfig_fold(lines(output)).0
}

fn ip_like_in(v: &Vec<char>, lo: usize, hi: usize) -> (b: bool)
    requires
        lo <= hi <= v.len(),
    ensures
        b == is_ip_like(v@.subrange(lo as int, hi as int)),
{
    let ghost s = v@.subrange(lo as int, hi as int);
    if lo == hi {
        return false;
    }
    let mut k = lo;
    while k < hi
        invariant
            lo <= k <= hi <= v.len(),
            s == v@.subrange(lo as int, hi as int),
            forall|i: int| 0 <= i < k - lo ==> is_hex_digit(#[trigger] s[i]) || s[i] == '.' || s[i] == ':' || s[i] == '%',
        decreases hi - k,
    {
        let c = v[k];
        assert(s[k - lo] == c);
        if !(('0' <= c && c <= '9') || ('a' <= c && c <= 'f') || ('A' <= c && c <= 'F') || c == '.' || c == ':'
            || c == '%') {
            return false;
        }
        k = k + 1;
    }
    true
}

fn alphabetic_in(v: &Vec<char>, lo: usize, hi: usize) -> (b: bool)
    requires
        lo <= hi <= v.len(),
    ensures
        b == has_alphabetic(v@.subrange(lo as int, hi as int)),
{
    let ghost s = v@.subrange(lo as int, hi as int);
    let mut k = lo;
    while k < hi
        invariant
            lo <= k <= hi <= v.len(),
            s == v@.subrange(lo as int, hi as int),
            forall|i: int| 0 <= i < k - lo ==> !unicode_alphabetic(#[trigger] s[i]),
        decreases hi - k,
    {
        assert(s[k - lo] == v@[k as int]);
        if is_alphabetic(v[k]) {
            return true;
        }
        k = k + 1;
    }
    false
}

/// Parses `ipconfig /all` output: DNS Servers can span multiple lines
/// (continuation lines have no `label :` prefix; an IPv6 address there is
/// not a label), and there can be several adapters.
pub fn parse_ipconfig(output: &str) -> (info: IpConfigInfo)
    ensures
        info.deep_view() == parse_ipconfig_spec(output@),
{
    let v = chars_of(output);
    let ls = line_ranges(&v);
    let dns_pat = chars_of("dns servers");
    let gw_pat = chars_of("default gateway");
    let mut info = IpConfigInfo { dns_servers: Vec::new(), default_gateways: Vec::new() };
    let mut in_dns = false;
    let mut k: usize = 0;
    assert(info.dns_servers.deep_view() =~= seq![]);
    assert(info.default_gateways.deep_view() =~= seq![]);
    while k < ls.len()
        invariant
            k <= ls@.len(),
            valid_ranges(v@, ls@),
            ranges_text(v@, ls@) == lines(v@),
            v@ == output@,
            dns_pat@ == "dns servers"@,
            gw_pat@ == "default gateway"@,
            (info.deep_view(), in_dns) == ipconfig_fold(lines(v@).take(k as int)),
        decreases ls@.len() - k,
    {
        let ghost raw = lines(v@)[k as int];
        assert(lines(v@).take(k + 1).drop_last() =~= lines(v@).take(k as int));
        assert(lines(v@).take(k + 1).last() == raw);
        let (a, b) = ls[k];
        assert(raw == v@.subrange(a as int, b as int));
        let e = trim_end_in(&v, a, b);
        let ghost line = v@.subrange(a as int, e as int);
        let (ta, tb) = trim_in(&v, a, e);
        if ta == tb {
            in_dns = false;
        } else {
            let colon = find_char_in(&v, a, e, ':');
            let mut labeled = false;
            match colon {
                Some(idx) => {
                    assert(line.subrange(0, idx - a) =~= v@.subrange(a as int, idx as int));
                    let (la, lb) = trim_in(&v, a, idx);
                    if alphabetic_in(&v, la, lb) && !ip_like_in(&v, la, lb) {
                        labeled = true;
                        assert(line.subrange(idx - a + 1, line.len() as int) =~= v@.subrange(idx + 1, e as int));
                        let (va, vb) = trim_in(&v, idx + 1, e);
                        let keep = ip_like_in(&v, va, vb);
                        let ghost before = info.deep_view();
                        if contains_lower_in(&v, la, lb, &dns_pat) {
                            if keep {
                                info.dns_servers.push(string_of(&v, va, vb));
                            }
                            in_dns = true;
                        } else if contains_lower_in(&v, la, lb, &gw_pat) {
                            if keep {
                                info.default_gateways.push(string_of(&v, va, vb));
                            }
                            in_dns = false;
                        } else {
                            in_dns = false;
                        }
                        assert(info.dns_servers.deep_view() =~= if keep && contains(
                            lower_seq(v@.subrange(la as int, lb as int)),
                            "dns servers"@,
                        ) {
                            before.dns_servers.push(v@.subrange(va as int, vb as int))
                        } else {
                            before.dns_servers
                        });
                        assert(info.default_gateways.deep_view() =~= if keep && !contains(
                            lower_seq(v@.subrange(la as int, lb as int)),
                            "dns servers"@,
                        ) && contains(lower_seq(v@.subrange(la as int, lb as int)), "default gateway"@) {
                            before.default_gateways.push(v@.subrange(va as int, vb as int))
                        } else {
                            before.default_gateways
                        });
                    }
                },
                None => {},
            }
            if !labeled {
                if in_dns && ip_like_in(&v, ta, tb) {
                    let ghost before = info.deep_view();
                    info.dns_servers.push(string_of(&v, ta, tb));
                    assert(info.dns_servers.deep_view() =~= before.dns_servers.push(v@.subrange(ta as int, tb as int)));
                }
            }
        }
        k = k + 1;
    }
    assert(lines(v@).take(k as int) =~= lines(v@));
    info
}

// ---------------------------------------------------------------------------
// Addresses
// ---------------------------------------------------------------------------

/// Whether an address is private or local: IPv6 link-local (`fe80...`) or
/// `::1`; IPv4 `10.x`, `172.16-31.x`, `192.168.x` or `127.x`.
pub open spec fn is_private_or_local_spec(ip: Seq<char>) -> bool {
    if contains(ip, seq![':']) {
        starts_with(ip, "fe80"@) || ip == "::1"@
    } else {
        let octets = split(ip, seq!['.']);
        if octets.len() != 4 {
            false
        } else {
            match parse_uint(octets[0], 255) {
                Some(n) => if n == 10 || n == 127 {
                    true
                } else if n == 172 {
                    match parse_uint(octets[1], 255) {
                        Some(m) => 16 <= m <= 31,
                        None => false,
                    }
                } else if n == 192 {
                    octets[1] == "168"@
                } else {
                    false
                },
                None => false,
            }
        }
    }
}

pub fn is_private_or_local(ip: &str) -> (b: bool)
    ensures
        b == is_private_or_local_spec(ip@),
{
    let v = chars_of(ip);
    let n = v.len();
    assert(v@.subrange(0, n as int) =~= v@);
    if find_char_in(&v, 0, n, ':').is_some() {
        return starts_with_in(&v, 0, n, &chars_of("fe80")) || eq_in(&v, 0, n, &chars_of("::1"));
    }
    let dot = vec!['.'];
    assert(dot@ =~= seq!['.']);
    let octets = split_in(&v, 0, n, &dot);
    if octets.len() != 4 {
        return false;
    }
    let (a0, b0) = octets[0];
    let (a1, b1) = octets[1];
    assert(ranges_text(v@, octets@)[0] == v@.subrange(a0 as int, b0 as int));
    assert(ranges_text(v@, octets@)[1] == v@.subrange(a1 as int, b1 as int));
    match parse_uint_in(&v, a0, b0, 255) {
        Some(first) => {
            if first == 10 || first == 127 {
                true
            } else if first == 172 {
                match parse_uint_in(&v, a1, b1, 255) {
                    Some(second) => 16 <= second && second <= 31,
                    None => false,
                }
            } else if first == 192 {
                eq_in(&v, a1, b1, &chars_of("168"))
            } else {
                false
            }
        },
        None => false,
    }
}

// ---------------------------------------------------------------------------
// hosts file
// ---------------------------------------------------------------------------

pub struct HostsModel {
    pub ip: Seq<char>,
    pub hostname: Seq<char>,
}

/// One parsed, non-comment `hosts` file entry.
#[derive(Debug, Clone, PartialEq, Eq)]
pub struct HostsEntry {
    pub ip: String,
    pub hostname: String,
}

impl DeepView for HostsEntry {
    type V = HostsModel;

    open spec fn deep_view(&self) -> HostsModel {
        HostsModel { ip: self.ip@, hostname: self.hostname@ }
    }
}

/// A hosts line: `IP hostname [...]` with anything after `#` ignored; the
/// host name is lower-cased.
pub open spec fn hosts_line(line: Seq<char>) -> Option<HostsModel> {
    let ws = words(trim(before(line, seq!['#'])));
    if ws.len() >= 2 {
        Some(HostsModel { ip: ws[0], hostname: unicode_lowercase(ws[1]) })
    } else {
        None
    }
}

pub open spec fn parse_hosts_spec(content: Seq<char>) -> Seq<HostsModel> {
    collect(lines(content), |l: Seq<char>| hosts_line(l))
}

/// Parses the Windows hosts file format: `IP hostname [# comment]`, `#`
/// full-line comments, blank lines ignored.
pub fn parse_hosts_file(content: &str) -> (entries: Vec<HostsEntry>)
    ensures
        entries.deep_view() == parse_hosts_spec(content@),
{
    let v = chars_of(content);
    let ls = line_ranges(&v);
    let mut entries: Vec<HostsEntry> = Vec::new();
    let mut k: usize = 0;
    while k < ls.len()
        invariant
            k <= ls@.len(),
            valid_ranges(v@, ls@),
            ranges_text(v@, ls@) == lines(v@),
            v@ == content@,
            entries.deep_view() == collect(lines(v@).take(k as int), |l: Seq<char>| hosts_line(l)),
        decreases ls@.len() - k,
    {
        let ghost raw = lines(v@)[k as int];
        assert(lines(v@).take(k + 1).drop_last() =~= lines(v@).take(k as int));
        assert(lines(v@).take(k + 1).last() == raw);
        let (a, b) = ls[k];
        assert(raw == v@.subrange(a as int, b as int));
        let cut = match find_char_in(&v, a, b, '#') {
            Some(j) => j,
            None => b,
        };
        assert(before(raw, seq!['#']) =~= v@.subrange(a as int, cut as int));
        let (ta, tb) = trim_in(&v, a, cut);
        let ws = word_ranges(&v, ta, tb);
        let ghost before_entries = entries.deep_view();
        if ws.len() >= 2 {
            let (ia, ib) = ws[0];
            let (ha, hb) = ws[1];
            assert(ranges_text(v@, ws@)[0] == v@.subrange(ia as int, ib as int));
            assert(ranges_text(v@, ws@)[1] == v@.subrange(ha as int, hb as int));
            let host = string_of(&v, ha, hb);
            let entry = HostsEntry { ip: string_of(&v, ia, ib), hostname: to_lowercase(host.as_str()) };
            entries.push(entry);
            assert(entries.deep_view() =~= before_entries + seq![entry.deep_view()]);
        } else {
            assert(entries.deep_view() =~= before_entries + seq![]);
        }
        k = k + 1;
    }
    assert(lines(v@).take(k as int) =~= lines(v@));
    entries
}

pub open spec fn is_loopback_ip(ip: Seq<char>) -> bool {
    ip == "127.0.0.1"@ || ip == "::1"@ || ip == "0.0.0.0"@
}

pub open spec fn redirects(hostname: Seq<char>, domain: Seq<char>) -> bool {
    hostname == domain || ends_with(hostname, seq!['.'] + domain)
}

pub open spec fn hosts_redirect_finding(e: HostsModel) -> FindingModel {
    finding("Suspicious hosts entry"@, e.hostname + " is redirected to "@ + e.ip + " via the hosts file"@)
}

/// Findings for one entry, one per sensitive domain it redirects.
pub open spec fn entry_findings(e: HostsModel, domains: Seq<Seq<char>>) -> Seq<FindingModel>
    decreases domains.len(),
{
    if domains.len() == 0 {
        seq![]
    } else {
        entry_findings(e, domains.drop_last()) + if redirects(e.hostname, domains.last()) {
            seq![hosts_redirect_finding(e)]
        } else {
            seq![]
        }
    }
}

/// Findings for every non-loopback entry that redirects a sensitive domain
/// (or one of its sub-domains).
pub open spec fn hosts_findings(entries: Seq<HostsModel>) -> Seq<FindingModel>
    decreases entries.len(),
{
    if entries.len() == 0 {
        seq![]
    } else {
        hosts_findings(entries.drop_last()) + if is_loopback_ip(entries.last().ip) {
            seq![]
        } else {
            entry_findings(entries.last(), sensitive_domains())
        }
    }
}

pub fn evaluate_hosts(entries: &Vec<HostsEntry>) -> (findings: Vec<Finding>)
    ensures
        findings.deep_view() == hosts_findings(entries.deep_view()),
{
    let domains = domain_list();
    let mut findings: Vec<Finding> = Vec::new();
    let mut k: usize = 0;
    while k < entries.len()
        invariant
            k <= entries@.len(),
            str_texts(domains@) == sensitive_domains(),
            findings.deep_view() == hosts_findings(entries.deep_view().take(k as int)),
        decreases entries@.len() - k,
    {
        let ghost ents = entries.deep_view();
        assert(ents.take(k + 1).drop_last() =~= ents.take(k as int));
        let entry = &entries[k];
        let ghost e = entry.deep_view();
        assert(ents.take(k + 1).last() == e);
        let ip = entry.ip.as_str();
        let loopback = same_text(ip, "127.0.0.1") || same_text(ip, "::1") || same_text(ip, "0.0.0.0");
        if !loopback {
            let host = chars_of(entry.hostname.as_str());
            let hn = host.len();
            assert(host@.subrange(0, hn as int) =~= host@);
            let mut d: usize = 0;
            let ghost base = findings.deep_view();
            while d < domains.len()
                invariant
                    d <= domains@.len(),
                    str_texts(domains@) == sensitive_domains(),
                    host@ == e.hostname,
                    ip@ == e.ip,
                    hn == host@.len(),
                    host@.subrange(0, hn as int) == host@,
                    e == entry.deep_view(),
                    findings.deep_view() == base + entry_findings(e, sensitive_domains().take(d as int)),
                decreases domains@.len() - d,
            {
                assert(sensitive_domains().take(d + 1).drop_last() =~= sensitive_domains().take(d as int));
                assert(sensitive_domains().take(d + 1).last() == domains@[d as int]@);
                let dom = domains[d];
                assert(str_texts(domains@)[d as int] == dom@);
                let mut dotted = String::new();
                push_char(&mut dotted, '.');
                push_str(&mut dotted, dom);
                assert(dotted@ =~= seq!['.'] + dom@);
                let hit = same_text(entry.hostname.as_str(), dom) || ends_with_in(&host, 0, hn, &chars_of(dotted.as_str()));
                assert(hit == redirects(e.hostname, sensitive_domains()[d as int]));
                let ghost before_d = findings.deep_view();
                if hit {
                    let mut detail = entry.hostname.clone();
                    push_str(&mut detail, " is redirected to ");
                    push_str(&mut detail, ip);
                    push_str(&mut detail, " via the hosts file");
                    let ghost before = findings.deep_view();
                    findings.push(Finding::of(String::from_str("Suspicious hosts entry"), detail));
                    assert(findings.deep_view() =~= before + seq![hosts_redirect_finding(e)]);
                } else {
                    assert(findings.deep_view() =~= before_d + seq![]);
                }
                d = d + 1;
            }
            assert(sensitive_domains().take(d as int) =~= sensitive_domains());
        }
        k = k + 1;
    }
    assert(entries.deep_view().take(k as int) =~= entries.deep_view());
    findings
}

// ---------------------------------------------------------------------------
// The check
// ---------------------------------------------------------------------------

pub open spec fn unexpected_dns(dns: Seq<Seq<char>>, gateways: Seq<Seq<char>>) -> Seq<Seq<char>>
    decreases dns.len(),
{
    if dns.len() == 0 {
        seq![]
    } else {
        let d = dns.last();
        unexpected_dns(dns.drop_last(), gateways) + if !is_private_or_local_spec(d) && !known_public_resolvers().contains(d)
            && !gateways.contains(d) {
            seq![d]
        } else {
            seq![]
        }
    }
}

pub open spec fn dns_remediation() -> Seq<char> {
    "Verify this DNS server is one you (or your VPN/router) intentionally configured. Unexpected DNS servers can redirect you to malicious sites."@
}

pub open spec fn hosts_remediation() -> Seq<char> {
    "Open the hosts file (System32\\drivers\\etc\\hosts) as Administrator and remove any entries you did not add."@
}

/// What the `ipconfig` part contributes: findings, severity, verdict parts
/// and remediation.
pub open spec fn dns_part(ipconfig: Result<Seq<char>, Seq<char>>) -> (Seq<FindingModel>, Severity, Seq<Seq<char>>, Option<Seq<char>>) {
    match ipconfig {
        Ok(out) => {
            let info = parse_ipconfig_spec(out);
            let f1 = if info.dns_servers.len() == 0 {
                seq![finding("DNS servers"@, "None reported"@)]
            } else {
                seq![finding("DNS servers"@, join(info.dns_servers, ", "@))]
            };
            let f2 = if info.default_gateways.len() > 0 {
                seq![finding("Default gateway"@, join(info.default_gateways, ", "@))]
            } else {
                seq![]
            };
            let unexpected = unexpected_dns(info.dns_servers, info.default_gateways);
            if unexpected.len() > 0 {
                let list = join(unexpected, ", "@);
                (
                    f1 + f2 + seq![finding("Unfamiliar DNS server"@, list + " is a public IP not on the router/known-resolver list"@)],
                    Severity::Caution,
                    seq!["Using an unfamiliar DNS server ("@ + list + ")."@],
                    Some(dns_remediation()),
                )
            } else {
                (f1 + f2, Severity::Okay, seq![], None)
            }
        },
        Err(e) => (
            seq![finding("ipconfig error"@, e)],
            Severity::Okay,
            seq!["Could not read network configuration."@],
            None,
        ),
    }
}

/// The result of the check for the output of `ipconfig /all` and the
/// content of the hosts file (or the error reading either).
pub open spec fn dns_result(ipconfig: Result<Seq<char>, Seq<char>>, hosts: Result<Seq<char>, Seq<char>>) -> CheckResultModel {
    let (f, sev, parts, rem) = dns_part(ipconfig);
    let hf = match hosts {
        Ok(content) => hosts_findings(parse_hosts_spec(content)),
        Err(_) => seq![],
    };
    let redirected = hosts is Ok && hf.len() > 0;
    let findings = match hosts {
        Ok(_) => f + hf,
        Err(e) => f + seq![finding("hosts file"@, "could not be read: "@ + e)],
    };
    let parts2 = if redirected {
        parts + seq![decimal(hf.len()) + " suspicious hosts file redirect(s) found."@]
    } else {
        parts
    };
    let verdict = if parts2.len() == 0 {
        "DNS servers and hosts file look normal."@
    } else {
        join(parts2, " "@)
    };
    result_model(
        CheckKind::DnsGateway,
        if redirected { Severity::AtRisk } else { sev },
        verdict,
        findings,
        if redirected { Some(hosts_remediation()) } else { rem },
        DATA_SOURCE@,
        seq![],
    )
}

pub open spec fn str_result(r: Result<String, String>) -> Result<Seq<char>, Seq<char>> {
    match r {
        Ok(s) => Ok(s@),
        Err(e) => Err(e@),
    }
}

impl DnsGatewayCheck {
    pub fn id(&self) -> (r: &'static str)
        ensures
            r@ == CheckKind::DnsGateway.spec_id(),
    {
        CheckKind::DnsGateway.id()
    }

    pub fn name(&self) -> (r: &'static str)
        ensures
            r@ == CheckKind::DnsGateway.spec_name(),
    {
        CheckKind::DnsGateway.name()
    }

    /// Evaluates the output of `ipconfig /all` and the content of the hosts
    /// file (or the error that reading either gave).
    pub fn run(&self, ipconfig: Result<String, String>, hosts: Result<String, String>) -> (r: CheckResult)
        ensures
            r.deep_view() == dns_result(str_result(ipconfig), str_result(hosts)),
    {
        let mut findings: Vec<Finding> = Vec::new();
        let mut severity = Severity::Okay;
        let mut parts: Vec<String> = Vec::new();
        let mut remediation: Option<String> = None;
        let ghost ipc = str_result(ipconfig);
        match ipconfig {
            Ok(output) => {
                let info = parse_ipconfig(output.as_str());
                proof {
                    lemma_texts_deep_view(info.dns_servers);
                    lemma_texts_deep_view(info.default_gateways);
                }
                if info.dns_servers.len() == 0 {
                    findings.push(Finding::new("DNS servers", "None reported"));
                } else {
                    findings.push(Finding::of(String::from_str("DNS servers"), join_strings(&info.dns_servers, ", ")));
                }
                if info.default_gateways.len() > 0 {
                    findings.push(
                        Finding::of(String::from_str("Default gateway"), join_strings(&info.default_gateways, ", ")),
                    );
                }
                let unexpected = unexpected_servers(&info.dns_servers, &info.default_gateways);
                proof {
                    lemma_texts_deep_view(unexpected);
                }
                if unexpected.len() > 0 {
                    severity = Severity::Caution;
                    let list = join_strings(&unexpected, ", ");
                    findings.push(
                        Finding::of(
                            String::from_str("Unfamiliar DNS server"),
                            concat2(list.as_str(), " is a public IP not on the router/known-resolver list"),
                        ),
                    );
                    parts.push(concat3("Using an unfamiliar DNS server (", list.as_str(), ")."));
                    remediation = Some(String::from_str("Verify this DNS server is one you (or your VPN/router) intentionally configured. Unexpected DNS servers can redirect you to malicious sites."));
                }
            },
            Err(e) => {
                findings.push(Finding::of(String::from_str("ipconfig error"), e));
                parts.push(String::from_str("Could not read network configuration."));
            },
        }
        let ghost dp = dns_part(ipc);
        assert(findings.deep_view() =~= dp.0);
        assert(texts(parts@) =~= dp.2);
        assert(severity == dp.1);
        assert(remediation.deep_view() == dp.3);
        let ghost hs = str_result(hosts);
        match hosts {
            Ok(content) => {
                let hf = evaluate_hosts(&parse_hosts_file(content.as_str()));
                if hf.len() > 0 {
                    severity = Severity::AtRisk;
                    parts.push(concat2(count_string(hf.len()).as_str(), " suspicious hosts file redirect(s) found."));
                    remediation = Some(String::from_str("Open the hosts file (System32\\drivers\\etc\\hosts) as Administrator and remove any entries you did not add."));
                    let ghost before = findings.deep_view();
                    let ghost hfd = hf.deep_view();
                    let mut hf = hf;
                    findings.append(&mut hf);
                    assert(findings.deep_view() =~= before + hfd);
                } else {
                    assert(findings.deep_view() =~= findings.deep_view() + hf.deep_view());
                }
            },
            Err(e) => {
                let mut detail = String::from_str("could not be read: ");
                push_str(&mut detail, e.as_str());
                findings.push(Finding::of(String::from_str("hosts file"), detail));
            },
        }
        let ghost hf_spec = match hs {
            Ok(content) => hosts_findings(parse_hosts_spec(content)),
            Err(_) => seq![],
        };
        let ghost redirected = hs is Ok && hf_spec.len() > 0;
        assert(severity == if redirected { Severity::AtRisk } else { dp.1 });
        assert(remediation.deep_view() == if redirected { Some(hosts_remediation()) } else { dp.3 });
        assert(findings.deep_view() == match hs {
            Ok(_) => dp.0 + hf_spec,
            Err(e) => dp.0 + seq![finding("hosts file"@, "could not be read: "@ + e)],
        });
        assert(texts(parts@) == if redirected {
            dp.2 + seq![decimal(hf_spec.len()) + " suspicious hosts file redirect(s) found."@]
        } else {
            dp.2
        });
        let verdict = if parts.len() == 0 {
            String::from_str("DNS servers and hosts file look normal.")
        } else {
            join_strings(&parts, " ")
        };
        let raw_keys: Vec<String> = Vec::new();
        assert(raw_keys.deep_view() =~= seq![]);
        make_result(CheckKind::DnsGateway, severity, verdict, findings, remediation, DATA_SOURCE, raw_keys)
    }
}

fn unexpected_servers(dns: &Vec<String>, gateways: &Vec<String>) -> (r: Vec<String>)
    ensures
        texts(r@) == unexpected_dns(texts(dns@), texts(gateways@)),
{
    let resolvers = resolver_list();
    let mut r: Vec<String> = Vec::new();
    let mut k: usize = 0;
    while k < dns.len()
        invariant
            k <= dns@.len(),
            str_texts(resolvers@) == known_public_resolvers(),
            texts(r@) == unexpected_dns(texts(dns@).take(k as int), texts(gateways@)),
        decreases dns@.len() - k,
    {
        let ghost all = texts(dns@);
        assert(all.take(k + 1).drop_last() =~= all.take(k as int));
        assert(all.take(k + 1).last() == dns@[k as int]@);
        let d = dns[k].as_str();
        let known = in_list(&resolvers, d);
        let ghost before = r@;
        if !is_private_or_local(d) && !known && !has_string(gateways, d) {
            r.push(dns[k].clone());
            assert(texts(r@) =~= texts(before) + seq![d@]);
        } else {
            assert(texts(r@) =~= texts(before) + seq![]);
        }
        k = k + 1;
    }
    assert(texts(dns@).take(k as int) =~= texts(dns@));
    r
}

/// A DNS server that is public, not a known resolver and not a gateway.
pub open spec fn unfamiliar_server(d: Seq<char>, gateways: Seq<Seq<char>>) -> bool {
    !is_private_or_local_spec(d) && !known_public_resolvers().contains(d) && !gateways.contains(d)
}

proof fn lemma_unexpected_nonempty(dns: Seq<Seq<char>>, gateways: Seq<Seq<char>>)
    ensures
        unexpected_dns(dns, gateways).len() > 0 <==> exists|i: int|
            0 <= i < dns.len() && unfamiliar_server(#[trigger] dns[i], gateways),
    decreases dns.len(),
{
    if dns.len() > 0 {
        let init = dns.drop_last();
        lemma_unexpected_nonempty(init, gateways);
        if exists|i: int| 0 <= i < init.len() && unfamiliar_server(#[trigger] init[i], gateways) {
            let i = choose|i: int| 0 <= i < init.len() && unfamiliar_server(#[trigger] init[i], gateways);
            assert(dns[i] == init[i]);
        }
        if exists|i: int| 0 <= i < dns.len() && unfamiliar_server(#[trigger] dns[i], gateways) {
            let i = choose|i: int| 0 <= i < dns.len() && unfamiliar_server(#[trigger] dns[i], gateways);
            if i < init.len() {
                assert(init[i] == dns[i]);
            }
        }
    }
}

/// Whether the hosts file, when read, redirects a sensitive domain.
pub open spec fn hosts_redirect(hosts: Result<Seq<char>, Seq<char>>) -> bool {
    match hosts {
        Ok(content) => hosts_findings(parse_hosts_spec(content)).len() > 0,
        Err(_) => false,
    }
}

/// When `ipconfig` lists a DNS server that is public, not a known resolver
/// and not a gateway, the check is never `Okay`: it is `Caution`, or
/// `AtRisk` when the hosts file also redirects a sensitive domain. A hosts
/// redirect alone makes it `AtRisk`; with neither the result is `Okay`.
pub proof fn law_unfamiliar_dns_is_flagged(out: Seq<char>, hosts: Result<Seq<char>, Seq<char>>)
    ensures
        ({
            let info = parse_ipconfig_spec(out);
            (exists|i: int|
                0 <= i < info.dns_servers.len() && unfamiliar_server(
                    #[trigger] info.dns_servers[i],
                    info.default_gateways,
                )) ==> dns_result(Ok(out), hosts).severity == if hosts_redirect(hosts) {
                Severity::AtRisk
            } else {
                Severity::Caution
            }
        }),
        ({
            let info = parse_ipconfig_spec(out);
            !(exists|i: int|
                0 <= i < info.dns_servers.len() && unfamiliar_server(
                    #[trigger] info.dns_servers[i],
                    info.default_gateways,
                )) ==> dns_result(Ok(out), hosts).severity == if hosts_redirect(hosts) {
                Severity::AtRisk
            } else {
                Severity::Okay
            }
        }),
{
    let info = parse_ipconfig_spec(out);
    lemma_unexpected_nonempty(info.dns_servers, info.default_gateways);
}

} // verus!
