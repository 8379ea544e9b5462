//! Shared types for all NetGuard security check-agents.
//!
//! Every check-agent is an independent, rule-based module: it reads what it
//! needs from the output of one Windows tool (handed to it as text) or from
//! the read-only [`ScanContext`], and turns that into a [`CheckResult`].

pub mod arp;
pub mod bitlocker;
pub mod credential_protection;
pub mod defender;
pub mod dns_gateway;
pub mod drivers;
pub mod firewall;
pub mod memory_integrity;
pub mod outbound;
pub mod persistence;
pub mod ports;
pub mod process_baseline;
pub mod proxy_tampering;
pub mod rat_signatures;
pub mod rdp_exposure;
pub mod wifi;
pub mod windows_update;


pub use process_baseline::{ProcessInfo, ProcessModel};
use crate::text::{concat3, decimal, decimal_string, same_text};
use vstd::prelude::*;

verus! {

/// High level grouping used for UI iconography / filtering.
#[derive(Debug, Clone, Copy, PartialEq, Eq, Structural)]
pub enum CheckCategory {
    Network,
    Process,
    Persistence,
    System,
}

/// The OS-level capability a check-agent requires.
#[derive(Debug, Clone, Copy, PartialEq, Eq, Structural)]
pub enum PermissionKind {
    WifiProfile,
    DnsHostsConfig,
    ArpCache,
    ListeningPorts,
    OutboundConnections,
    ProcessList,
    RatSignatures,
    RegistryRunKeys,
    FirewallStatus,
    DefenderStatus,
    DriverList,
    DiskEncryption,
    MemoryIntegrity,
    RdpExposure,
    ProxySettings,
    CredentialProtection,
    UpdateStatus,
}

/// Severity of a single finding / overall check result, ordered
/// `Ok < Caution < AtRisk`.
#[derive(Debug, Clone, Copy, PartialEq, Eq, PartialOrd, Ord, Structural)]
pub enum Severity {
    Okay,
    Caution,
    AtRisk,
}

impl Severity {
    /// Position of the severity in the order `Ok < Caution < AtRisk`.
    pub open spec fn rank(self) -> nat {
        match self {
            Severity::Okay => 0,
            Severity::Caution => 1,
            Severity::AtRisk => 2,
        }
    }

    pub fn level(&self) -> (r: u8)
        ensures
            r == self.rank(),
    {
        match self {
            Severity::Okay => 0,
            Severity::Caution => 1,
            Severity::AtRisk => 2,
        }
    }

    /// The more severe of two severities.
    pub fn max(self, other: Severity) -> (r: Severity)
        ensures
            r == max_severity(self, other),
    {
        if other.level() > self.level() {
            other
        } else {
            self
        }
    }
}

pub open spec fn max_severity(a: Severity, b: Severity) -> Severity {
    if b.rank() > a.rank() {
        b
    } else {
        a
    }
}

impl DeepView for CheckCategory {
    type V = CheckCategory;

    open spec fn deep_view(&self) -> CheckCategory {
        *self
    }
}

impl DeepView for PermissionKind {
    type V = PermissionKind;

    open spec fn deep_view(&self) -> PermissionKind {
        *self
    }
}

impl DeepView for Severity {
    type V = Severity;

    open spec fn deep_view(&self) -> Severity {
        *self
    }
}

/// Model of a remediation action.
pub enum ActionModel {
    DirectFix { action_id: Seq<char>, label: Seq<char>, params: Seq<(Seq<char>, Seq<char>)> },
    DeepLink { uri: Seq<char>, label: Seq<char> },
}

/// One in-app remediation action offered on a finding.
///
/// - `DirectFix`: NetGuard performs the change itself, after an explicit
///   per-action confirmation. `params` holds named parameters, each name at
///   most once, in the order they were set.
/// - `DeepLink`: NetGuard opens a Windows settings page so the user makes
///   the change themselves.
#[derive(Debug, Clone)]
pub enum RemediationAction {
    DirectFix { action_id: String, label: String, params: Vec<(String, String)> },
    DeepLink { uri: String, label: String },
}

impl DeepView for RemediationAction {
    type V = ActionModel;

    open spec fn deep_view(&self) -> ActionModel {
        match self {
            RemediationAction::DirectFix { action_id, label, params } => ActionModel::DirectFix {
                action_id: action_id@,
                label: label@,
                params: params.deep_view(),
            },
            RemediationAction::DeepLink { uri, label } => ActionModel::DeepLink {
                uri: uri@,
                label: label@,
            },
        }
    }
}

/// Model of a finding.
pub struct FindingModel {
    pub label: Seq<char>,
    pub detail: Seq<char>,
    pub action: Option<ActionModel>,
}

/// A single structured fact discovered by a check.
#[derive(Debug, Clone)]
pub struct Finding {
    pub label: String,
    pub detail: String,
    /// An optional remediation action tied to this specific finding.
    pub action: Option<RemediationAction>,
}

impl DeepView for Finding {
    type V = FindingModel;

    open spec fn deep_view(&self) -> FindingModel {
        FindingModel { label: self.label@, detail: self.detail@, action: self.action.deep_view() }
    }
}

pub open spec fn finding(label: Seq<char>, detail: Seq<char>) -> FindingModel {
    FindingModel { label, detail, action: None }
}

pub open spec fn finding_with(label: Seq<char>, detail: Seq<char>, a: ActionModel) -> FindingModel {
    FindingModel { label, detail, action: Some(a) }
}

impl Finding {
    pub fn new(label: &str, detail: &str) -> (f: Finding)
        ensures
            f.deep_view() == finding(label@, detail@),
    {
        Finding { label: String::from_str(label), detail: String::from_str(detail), action: None }
    }

    pub fn with_action(label: &str, detail: &str, action: RemediationAction) -> (f: Finding)
        ensures
            f.deep_view() == finding_with(label@, detail@, action.deep_view()),
    {
        Finding {
            label: String::from_str(label),
            detail: String::from_str(detail),
            action: Some(action),
        }
    }

    /// A finding without an action, taking ownership of its texts.
    pub fn of(label: String, detail: String) -> (f: Finding)
        ensures
            f.deep_view() == finding(label@, detail@),
    {
        Finding { label, detail, action: None }
    }
}

/// Model of a check result.
pub struct CheckResultModel {
    pub id: Seq<char>,
    pub name: Seq<char>,
    pub category: CheckCategory,
    pub severity: Severity,
    pub verdict: Seq<char>,
    pub findings: Seq<FindingModel>,
    pub remediation: Option<Seq<char>>,
    pub data_source: Seq<char>,
    pub raw_keys: Seq<Seq<char>>,
}

/// The outcome of running one check-agent.
#[derive(Debug, Clone)]
pub struct CheckResult {
    pub id: String,
    pub name: String,
    pub category: CheckCategory,
    pub severity: Severity,
    pub verdict: String,
    pub findings: Vec<Finding>,
    pub remediation: Option<String>,
    /// Exactly which data source was read (a command / API / registry path).
    pub data_source: String,
    /// Stable per-entry identifiers, used only for next-scan baseline
    /// diffing (see [`ScanContext::previous_keys`]).
    pub raw_keys: Vec<String>,
}

impl DeepView for CheckResult {
    type V = CheckResultModel;

    open spec fn deep_view(&self) -> CheckResultModel {
        CheckResultModel {
            id: self.id@,
            name: self.name@,
            category: self.category,
            severity: self.severity,
            verdict: self.verdict@,
            findings: self.findings.deep_view(),
            remediation: self.remediation.deep_view(),
            data_source: self.data_source@,
            raw_keys: self.raw_keys.deep_view(),
        }
    }
}

/// The model of a result of check `kind`.
pub open spec fn result_model(
    kind: CheckKind,
    severity: Severity,
    verdict: Seq<char>,
    findings: Seq<FindingModel>,
    remediation: Option<Seq<char>>,
    data_source: Seq<char>,
    raw_keys: Seq<Seq<char>>,
) -> CheckResultModel {
    CheckResultModel {
        id: kind.spec_id(),
        name: kind.spec_name(),
        category: kind.spec_category(),
        severity,
        verdict,
        findings,
        remediation,
        data_source,
        raw_keys,
    }
}

/// Assembles the result of check `kind`.
pub fn make_result(
    kind: CheckKind,
    severity: Severity,
    verdict: String,
    findings: Vec<Finding>,
    remediation: Option<String>,
    data_source: &str,
    raw_keys: Vec<String>,
) -> (r: CheckResult)
    ensures
        r.deep_view() == result_model(
            kind,
            severity,
            verdict@,
            findings.deep_view(),
            remediation.deep_view(),
            data_source@,
            raw_keys.deep_view(),
        ),
{
    CheckResult {
        id: String::from_str(kind.id()),
        name: String::from_str(kind.name()),
        category: kind.category(),
        severity,
        verdict,
        findings,
        remediation,
        data_source: String::from_str(data_source),
        raw_keys,
    }
}

/// Model of a check outcome.
pub enum OutcomeModel {
    Completed(CheckResultModel),
    PermissionDenied { id: Seq<char>, name: Seq<char>, category: CheckCategory },
    Error { id: Seq<char>, name: Seq<char>, category: CheckCategory, message: Seq<char> },
}

/// Distinct state shown for a check that completed, was not run because
/// permission was denied or is pending, or failed for another reason.
#[derive(Debug, Clone)]
pub enum CheckOutcome {
    Completed(CheckResult),
    /// The check was not executed for lack of permission.
    PermissionDenied { id: String, name: String, category: CheckCategory },
    /// The check failed to run for a reason other than permissions.
    Error { id: String, name: String, category: CheckCategory, message: String },
}

impl DeepView for CheckOutcome {
    type V = OutcomeModel;

    open spec fn deep_view(&self) -> OutcomeModel {
        match self {
            CheckOutcome::Completed(r) => OutcomeModel::Completed(r.deep_view()),
            CheckOutcome::PermissionDenied { id, name, category } => OutcomeModel::PermissionDenied {
                id: id@,
                name: name@,
                category: *category,
            },
            CheckOutcome::Error { id, name, category, message } => OutcomeModel::Error {
                id: id@,
                name: name@,
                category: *category,
                message: message@,
            },
        }
    }
}

impl OutcomeModel {
    pub open spec fn id(self) -> Seq<char> {
        match self {
            OutcomeModel::Completed(r) => r.id,
            OutcomeModel::PermissionDenied { id, .. } => id,
            OutcomeModel::Error { id, .. } => id,
        }
    }

    /// Severity used for the overall rollup: only completed checks have one.
    pub open spec fn severity(self) -> Option<Severity> {
        match self {
            OutcomeModel::Completed(r) => Some(r.severity),
            _ => None,
        }
    }

    pub open spec fn category(self) -> CheckCategory {
        match self {
            OutcomeModel::Completed(r) => r.category,
            OutcomeModel::PermissionDenied { category, .. } => category,
            OutcomeModel::Error { category, .. } => category,
        }
    }
}

impl CheckOutcome {
    pub fn id(&self) -> (r: &str)
        ensures
            r@ == self.deep_view().id(),
    {
        match self {
            CheckOutcome::Completed(r) => r.id.as_str(),
            CheckOutcome::PermissionDenied { id, .. } => id.as_str(),
            CheckOutcome::Error { id, .. } => id.as_str(),
        }
    }

    /// Severity used for the overall rollup. Skipped/errored checks return
    /// `None` so they never silently count as `Ok`.
    pub fn severity(&self) -> (r: Option<Severity>)
        ensures
            r == self.deep_view().severity(),
    {
        match self {
            CheckOutcome::Completed(r) => Some(r.severity),
            _ => None,
        }
    }

    pub fn category(&self) -> (r: CheckCategory)
        ensures
            r == self.deep_view().category(),
    {
        match self {
            CheckOutcome::Completed(r) => r.category,
            CheckOutcome::PermissionDenied { category, .. } => *category,
            CheckOutcome::Error { category, .. } => *category,
        }
    }
}

/// Read-only shared context passed to every check: the process table
/// captured once per scan, and the raw entry keys of the previous scan's
/// completed checks.
pub struct ScanContext {
    /// The process table, one entry per running process.
    pub processes: Vec<ProcessInfo>,
    /// `CheckResult::raw_keys` of the previous scan's `Completed` outcomes,
    /// keyed by check id (a later pair for the same id replaces an earlier
    /// one). Empty on the first-ever scan. A check reading this treats an
    /// empty or absent entry as "nothing to diff against", not as
    /// "everything is new", so a first scan behaves as one (see
    /// [`ScanContext::previous_keys`]).
    pub previous_raw_keys: Vec<(String, Vec<String>)>,
}

/// The value stored for `key` in a list of pairs where a later pair for the
/// same key replaces an earlier one.
pub open spec fn lookup_last<V>(pairs: Seq<(Seq<char>, V)>, key: Seq<char>) -> Option<V>
    decreases pairs.len(),
{
    if pairs.len() == 0 {
        None
    } else if pairs.last().0 == key {
        Some(pairs.last().1)
    } else {
        lookup_last(pairs.drop_last(), key)
    }
}

/// The keys to diff against for `key`: the stored entry when it holds at
/// least one key; `None` (nothing to diff against) when it is empty or
/// absent.
pub open spec fn diff_base<T>(pairs: Seq<(Seq<char>, Seq<T>)>, key: Seq<char>) -> Option<Seq<T>> {
    match lookup_last(pairs, key) {
        Some(keys) => if keys.len() > 0 {
            Some(keys)
        } else {
            None
        },
        None => None,
    }
}

/// The first process in the table with the given pid.
pub open spec fn process_with_pid(ps: Seq<ProcessModel>, pid: u32) -> Option<ProcessModel>
    decreases ps.len(),
{
    if ps.len() == 0 {
        None
    } else if ps[0].pid == pid {
        Some(ps[0])
    } else {
        process_with_pid(ps.drop_first(), pid)
    }
}

/// The name of the process `pid`, or a note that it exited.
pub open spec fn process_label(ps: Seq<ProcessModel>, pid: u32) -> Seq<char> {
    match process_with_pid(ps, pid) {
        Some(p) => p.name,
        None => "PID "@ + decimal(pid as nat) + " (process exited)"@,
    }
}

impl ScanContext {
    /// The name of the process `pid` in the process table, or a note that it
    /// exited.
    pub fn process_name(&self, pid: u32) -> (r: String)
        ensures
            r@ == process_label(self.processes.deep_view(), pid),
    {
        let ghost ps = self.processes.deep_view();
        let mut k: usize = 0;
        assert(ps.subrange(0, ps.len() as int) =~= ps);
        while k < self.processes.len()
            invariant
                k <= self.processes@.len(),
                ps == self.processes.deep_view(),
                process_with_pid(ps, pid) == process_with_pid(ps.subrange(k as int, ps.len() as int), pid),
            decreases self.processes@.len() - k,
        {
            assert(ps.subrange(k as int, ps.len() as int).drop_first() =~= ps.subrange(k + 1, ps.len() as int));
            assert(ps.subrange(k as int, ps.len() as int)[0] == ps[k as int]);
            if self.processes[k].pid == pid {
                return self.processes[k].name.clone();
            }
            k = k + 1;
        }
        concat3("PID ", decimal_string(pid as u64).as_str(), " (process exited)")
    }

    /// A context with an empty process table and no previous scan.
    pub fn new() -> (c: ScanContext)
        ensures
            c.processes@.len() == 0,
            c.previous_raw_keys@.len() == 0,
    {
        ScanContext { processes: Vec::new(), previous_raw_keys: Vec::new() }
    }

    /// A context holding the given process table and previous-scan keys.
    pub fn with_previous(processes: Vec<ProcessInfo>, previous_raw_keys: Vec<(String, Vec<String>)>) -> (c:
        ScanContext)
        ensures
            c.processes == processes,
            c.previous_raw_keys == previous_raw_keys,
    {
        ScanContext { processes, previous_raw_keys }
    }

    /// The previous scan's raw keys for the check `id` to diff against:
    /// `None` when that scan did not complete the check or recorded no keys
    /// for it (nothing to diff against).
    pub fn previous_keys(&self, id: &str) -> (r: Option<&Vec<String>>)
        ensures
            r.deep_view() == diff_base(self.previous_raw_keys.deep_view(), id@),
    {
        let mut i = self.previous_raw_keys.len();
        assert(self.previous_raw_keys.deep_view().take(i as int) =~= self.previous_raw_keys.deep_view());
        while i > 0
            invariant
                i <= self.previous_raw_keys.len(),
                lookup_last(self.previous_raw_keys.deep_view(), id@) == lookup_last(
                    self.previous_raw_keys.deep_view().take(i as int),
                    id@,
                ),
            decreases i,
        {
            let ghost t = self.previous_raw_keys.deep_view().take(i as int);
            assert(t.drop_last() =~= self.previous_raw_keys.deep_view().take(i - 1));
            assert(t.last() == self.previous_raw_keys[i - 1].deep_view());
            let k = &self.previous_raw_keys[i - 1].0;
            if same_text(k.as_str(), id) {
                let keys = &self.previous_raw_keys[i - 1].1;
                if keys.len() > 0 {
                    return Some(keys);
                } else {
                    return None;
                }
            }
            i = i - 1;
        }
        None
    }
}

/// Every check-agent of the catalog.
#[derive(Debug, Clone, Copy, PartialEq, Eq, Structural)]
pub enum CheckKind {
    Wifi,
    DnsGateway,
    Arp,
    Ports,
    Outbound,
    ProcessBaseline,
    RatSignatures,
    Persistence,
    Firewall,
    Defender,
    Drivers,
    BitLocker,
    MemoryIntegrity,
    RdpExposure,
    ProxyTampering,
    CredentialProtection,
    WindowsUpdate,
}

impl CheckKind {
    pub open spec fn spec_id(self) -> Seq<char> {
        match self {
            CheckKind::Wifi => "wifi_security_posture"@,
            CheckKind::DnsGateway => "dns_gateway_integrity"@,
            CheckKind::Arp => "arp_anomaly_heuristic"@,
            CheckKind::Ports => "open_listening_ports"@,
            CheckKind::Outbound => "unusual_outbound_connections"@,
            CheckKind::ProcessBaseline => "process_baseline_diff"@,
            CheckKind::RatSignatures => "rat_signature_scan"@,
            CheckKind::Persistence => "startup_persistence_entries"@,
            CheckKind::Firewall => "firewall_status"@,
            CheckKind::Defender => "defender_status"@,
            CheckKind::Drivers => "driver_certificate_anomalies"@,
            CheckKind::BitLocker => "bitlocker_status"@,
            CheckKind::MemoryIntegrity => "memory_integrity"@,
            CheckKind::RdpExposure => "rdp_exposure"@,
            CheckKind::ProxyTampering => "browser_proxy_tampering"@,
            CheckKind::CredentialProtection => "credential_protection"@,
            CheckKind::WindowsUpdate => "windows_update_currency"@,
        }
    }

    pub open spec fn spec_name(self) -> Seq<char> {
        match self {
            CheckKind::Wifi => "Wi-Fi Security Posture"@,
            CheckKind::DnsGateway => "DNS & Gateway Integrity"@,
            CheckKind::Arp => "ARP Table Anomaly Check"@,
            CheckKind::Ports => "Open Listening Ports"@,
            CheckKind::Outbound => "Unusual Outbound Connections"@,
            CheckKind::ProcessBaseline => "Running Process Baseline"@,
            CheckKind::RatSignatures => "Remote-Access Tool Signatures"@,
            CheckKind::Persistence => "Startup & Persistence Entries"@,
            CheckKind::Firewall => "Windows Firewall Status"@,
            CheckKind::Defender => "Windows Defender Status"@,
            CheckKind::Drivers => "Driver Signature & Location Anomalies"@,
            CheckKind::BitLocker => "Disk Encryption (BitLocker)"@,
            CheckKind::MemoryIntegrity => "Memory Integrity (HVCI)"@,
            CheckKind::RdpExposure => "Remote Desktop Exposure"@,
            CheckKind::ProxyTampering => "System Proxy Configuration"@,
            CheckKind::CredentialProtection => "Credential & LSASS Protection"@,
            CheckKind::WindowsUpdate => "Windows Update Currency"@,
        }
    }

    pub open spec fn spec_description(self) -> Seq<char> {
        match self {
            CheckKind::Wifi => "Reads the security type (Open/WEP/WPA2/WPA3) and name of the Wi-Fi network you're currently connected to, via `netsh wlan show interfaces`."@,
            CheckKind::DnsGateway => "Reads your configured DNS servers and default gateway via `ipconfig /all`, and reads the local hosts file for unauthorized redirects."@,
            CheckKind::Arp => "Reads the local ARP cache (`arp -a`) to look for signs of ARP spoofing, such as the gateway address resolving to more than one MAC address."@,
            CheckKind::Ports => "Enumerates locally listening TCP/UDP ports and the process that owns each one, via `netstat -ano`."@,
            CheckKind::Outbound => "Lists active outbound network connections and their owning process, via `netstat -ano`, and compares destination ports against known remote-access-tool patterns."@,
            CheckKind::ProcessBaseline => "Reads the list of currently running processes and their executable paths to flag unfamiliar processes running from suspicious locations like Temp folders."@,
            CheckKind::RatSignatures => "Compares running process names against a curated list of common remote-access tools (e.g. TeamViewer, AnyDesk) so you can confirm you installed them intentionally."@,
            CheckKind::Persistence => "Reads the registry Run/RunOnce autostart keys and enumerates scheduled tasks to flag entries that launch from unusual locations like a Temp folder."@,
            CheckKind::Firewall => "Reads whether Windows Firewall is enabled for each network profile, via `netsh advfirewall show allprofiles state`."@,
            CheckKind::Defender => "Reads whether Windows Defender real-time protection is enabled via PowerShell's Get-MpComputerStatus. This is a status read only - not a virus scan."@,
            CheckKind::Drivers => "Lists loaded drivers via `driverquery`, verifies each one's Authenticode signature via WinVerifyTrust, and flags unsigned/invalid signatures or unusual install locations."@,
            CheckKind::BitLocker => "Reads BitLocker encryption and protection status for the system volume via `manage-bde -status`. Requires administrator privileges to return a definitive answer; if it can't be determined, this is reported as needing attention rather than silently passing."@,
            CheckKind::MemoryIntegrity => "Reads whether Hypervisor-protected Code Integrity (memory integrity) is configured and running, via the read-only Win32_DeviceGuard CIM class."@,
            CheckKind::RdpExposure => "Reads whether Remote Desktop is enabled, whether Network Level Authentication is required, and whether a firewall rule allows it through, via the registry and `netsh advfirewall`."@,
            CheckKind::ProxyTampering => "Reads the current user's system proxy and PAC (auto-configuration) settings from the registry, to catch traffic silently being redirected through a proxy. Does not audit individual browser extensions or policies."@,
            CheckKind::CredentialProtection => "Reads whether LSASS is running as a protected process (RunAsPPL) and whether Credential Guard is active, via the registry and the read-only Win32_DeviceGuard CIM class."@,
            CheckKind::WindowsUpdate => "Reads the install date of the most recently installed update via PowerShell's Get-HotFix, to flag a device that hasn't received updates in a while."@,
        }
    }

    pub open spec fn spec_category(self) -> CheckCategory {
        match self {
            CheckKind::Wifi => CheckCategory::Network,
            CheckKind::DnsGateway => CheckCategory::Network,
            CheckKind::Arp => CheckCategory::Network,
            CheckKind::Ports => CheckCategory::Network,
            CheckKind::Outbound => CheckCategory::Network,
            CheckKind::ProcessBaseline => CheckCategory::Process,
            CheckKind::RatSignatures => CheckCategory::Process,
            CheckKind::Persistence => CheckCategory::Persistence,
            CheckKind::Firewall => CheckCategory::System,
            CheckKind::Defender => CheckCategory::System,
            CheckKind::Drivers => CheckCategory::System,
            CheckKind::BitLocker => CheckCategory::System,
            CheckKind::MemoryIntegrity => CheckCategory::System,
            CheckKind::RdpExposure => CheckCategory::Network,
            CheckKind::ProxyTampering => CheckCategory::Network,
            CheckKind::CredentialProtection => CheckCategory::System,
            CheckKind::WindowsUpdate => CheckCategory::System,
        }
    }

    pub open spec fn spec_permission(self) -> PermissionKind {
        match self {
            CheckKind::Wifi => PermissionKind::WifiProfile,
            CheckKind::DnsGateway => PermissionKind::DnsHostsConfig,
            CheckKind::Arp => PermissionKind::ArpCache,
            CheckKind::Ports => PermissionKind::ListeningPorts,
            CheckKind::Outbound => PermissionKind::OutboundConnections,
            CheckKind::ProcessBaseline => PermissionKind::ProcessList,
            CheckKind::RatSignatures => PermissionKind::RatSignatures,
            CheckKind::Persistence => PermissionKind::RegistryRunKeys,
            CheckKind::Firewall => PermissionKind::FirewallStatus,
            CheckKind::Defender => PermissionKind::DefenderStatus,
            CheckKind::Drivers => PermissionKind::DriverList,
            CheckKind::BitLocker => PermissionKind::DiskEncryption,
            CheckKind::MemoryIntegrity => PermissionKind::MemoryIntegrity,
            CheckKind::RdpExposure => PermissionKind::RdpExposure,
            CheckKind::ProxyTampering => PermissionKind::ProxySettings,
            CheckKind::CredentialProtection => PermissionKind::CredentialProtection,
            CheckKind::WindowsUpdate => PermissionKind::UpdateStatus,
        }
    }

    /// Stable identifier of the check.
    pub fn id(&self) -> (r: &'static str)
        ensures
            r@ == self.spec_id(),
    {
        match self {
            CheckKind::Wifi => "wifi_security_posture",
            CheckKind::DnsGateway => "dns_gateway_integrity",
            CheckKind::Arp => "arp_anomaly_heuristic",
            CheckKind::Ports => "open_listening_ports",
            CheckKind::Outbound => "unusual_outbound_connections",
            CheckKind::ProcessBaseline => "process_baseline_diff",
            CheckKind::RatSignatures => "rat_signature_scan",
            CheckKind::Persistence => "startup_persistence_entries",
            CheckKind::Firewall => "firewall_status",
            CheckKind::Defender => "defender_status",
            CheckKind::Drivers => "driver_certificate_anomalies",
            CheckKind::BitLocker => "bitlocker_status",
            CheckKind::MemoryIntegrity => "memory_integrity",
            CheckKind::RdpExposure => "rdp_exposure",
            CheckKind::ProxyTampering => "browser_proxy_tampering",
            CheckKind::CredentialProtection => "credential_protection",
            CheckKind::WindowsUpdate => "windows_update_currency",
        }
    }

    /// User-facing name of the check.
    pub fn name(&self) -> (r: &'static str)
        ensures
            r@ == self.spec_name(),
    {
        match self {
            CheckKind::Wifi => "Wi-Fi Security Posture",
            CheckKind::DnsGateway => "DNS & Gateway Integrity",
            CheckKind::Arp => "ARP Table Anomaly Check",
            CheckKind::Ports => "Open Listening Ports",
            CheckKind::Outbound => "Unusual Outbound Connections",
            CheckKind::ProcessBaseline => "Running Process Baseline",
            CheckKind::RatSignatures => "Remote-Access Tool Signatures",
            CheckKind::Persistence => "Startup & Persistence Entries",
            CheckKind::Firewall => "Windows Firewall Status",
            CheckKind::Defender => "Windows Defender Status",
            CheckKind::Drivers => "Driver Signature & Location Anomalies",
            CheckKind::BitLocker => "Disk Encryption (BitLocker)",
            CheckKind::MemoryIntegrity => "Memory Integrity (HVCI)",
            CheckKind::RdpExposure => "Remote Desktop Exposure",
            CheckKind::ProxyTampering => "System Proxy Configuration",
            CheckKind::CredentialProtection => "Credential & LSASS Protection",
            CheckKind::WindowsUpdate => "Windows Update Currency",
        }
    }

    /// What OS-level access the check needs and why.
    pub fn permission_description(&self) -> (r: &'static str)
        ensures
            r@ == self.spec_description(),
    {
        match self {
            CheckKind::Wifi => "Reads the security type (Open/WEP/WPA2/WPA3) and name of the Wi-Fi network you're currently connected to, via `netsh wlan show interfaces`.",
            CheckKind::DnsGateway => "Reads your configured DNS servers and default gateway via `ipconfig /all`, and reads the local hosts file for unauthorized redirects.",
            CheckKind::Arp => "Reads the local ARP cache (`arp -a`) to look for signs of ARP spoofing, such as the gateway address resolving to more than one MAC address.",
            CheckKind::Ports => "Enumerates locally listening TCP/UDP ports and the process that owns each one, via `netstat -ano`.",
            CheckKind::Outbound => "Lists active outbound network connections and their owning process, via `netstat -ano`, and compares destination ports against known remote-access-tool patterns.",
            CheckKind::ProcessBaseline => "Reads the list of currently running processes and their executable paths to flag unfamiliar processes running from suspicious locations like Temp folders.",
            CheckKind::RatSignatures => "Compares running process names against a curated list of common remote-access tools (e.g. TeamViewer, AnyDesk) so you can confirm you installed them intentionally.",
            CheckKind::Persistence => "Reads the registry Run/RunOnce autostart keys and enumerates scheduled tasks to flag entries that launch from unusual locations like a Temp folder.",
            CheckKind::Firewall => "Reads whether Windows Firewall is enabled for each network profile, via `netsh advfirewall show allprofiles state`.",
            CheckKind::Defender => "Reads whether Windows Defender real-time protection is enabled via PowerShell's Get-MpComputerStatus. This is a status read only - not a virus scan.",
            CheckKind::Drivers => "Lists loaded drivers via `driverquery`, verifies each one's Authenticode signature via WinVerifyTrust, and flags unsigned/invalid signatures or unusual install locations.",
            CheckKind::BitLocker => "Reads BitLocker encryption and protection status for the system volume via `manage-bde -status`. Requires administrator privileges to return a definitive answer; if it can't be determined, this is reported as needing attention rather than silently passing.",
            CheckKind::MemoryIntegrity => "Reads whether Hypervisor-protected Code Integrity (memory integrity) is configured and running, via the read-only Win32_DeviceGuard CIM class.",
            CheckKind::RdpExposure => "Reads whether Remote Desktop is enabled, whether Network Level Authentication is required, and whether a firewall rule allows it through, via the registry and `netsh advfirewall`.",
            CheckKind::ProxyTampering => "Reads the current user's system proxy and PAC (auto-configuration) settings from the registry, to catch traffic silently being redirected through a proxy. Does not audit individual browser extensions or policies.",
            CheckKind::CredentialProtection => "Reads whether LSASS is running as a protected process (RunAsPPL) and whether Credential Guard is active, via the registry and the read-only Win32_DeviceGuard CIM class.",
            CheckKind::WindowsUpdate => "Reads the install date of the most recently installed update via PowerShell's Get-HotFix, to flag a device that hasn't received updates in a while.",
        }
    }

    pub fn category(&self) -> (r: CheckCategory)
        ensures
            r == self.spec_category(),
    {
        match self {
            CheckKind::Wifi => CheckCategory::Network,
            CheckKind::DnsGateway => CheckCategory::Network,
            CheckKind::Arp => CheckCategory::Network,
            CheckKind::Ports => CheckCategory::Network,
            CheckKind::Outbound => CheckCategory::Network,
            CheckKind::ProcessBaseline => CheckCategory::Process,
            CheckKind::RatSignatures => CheckCategory::Process,
            CheckKind::Persistence => CheckCategory::Persistence,
            CheckKind::Firewall => CheckCategory::System,
            CheckKind::Defender => CheckCategory::System,
            CheckKind::Drivers => CheckCategory::System,
            CheckKind::BitLocker => CheckCategory::System,
            CheckKind::MemoryIntegrity => CheckCategory::System,
            CheckKind::RdpExposure => CheckCategory::Network,
            CheckKind::ProxyTampering => CheckCategory::Network,
            CheckKind::CredentialProtection => CheckCategory::System,
            CheckKind::WindowsUpdate => CheckCategory::System,
        }
    }

    pub fn required_permission(&self) -> (r: PermissionKind)
        ensures
            r == self.spec_permission(),
    {
        match self {
            CheckKind::Wifi => PermissionKind::WifiProfile,
            CheckKind::DnsGateway => PermissionKind::DnsHostsConfig,
            CheckKind::Arp => PermissionKind::ArpCache,
            CheckKind::Ports => PermissionKind::ListeningPorts,
            CheckKind::Outbound => PermissionKind::OutboundConnections,
            CheckKind::ProcessBaseline => PermissionKind::ProcessList,
            CheckKind::RatSignatures => PermissionKind::RatSignatures,
            CheckKind::Persistence => PermissionKind::RegistryRunKeys,
            CheckKind::Firewall => PermissionKind::FirewallStatus,
            CheckKind::Defender => PermissionKind::DefenderStatus,
            CheckKind::Drivers => PermissionKind::DriverList,
            CheckKind::BitLocker => PermissionKind::DiskEncryption,
            CheckKind::MemoryIntegrity => PermissionKind::MemoryIntegrity,
            CheckKind::RdpExposure => PermissionKind::RdpExposure,
            CheckKind::ProxyTampering => PermissionKind::ProxySettings,
            CheckKind::CredentialProtection => PermissionKind::CredentialProtection,
            CheckKind::WindowsUpdate => PermissionKind::UpdateStatus,
        }
    }
}

/// The standard catalog, in the order checks run and are displayed.
pub open spec fn catalog_spec() -> Seq<CheckKind> {
    seq![CheckKind::Wifi, CheckKind::DnsGateway, CheckKind::Arp, CheckKind::Ports, CheckKind::Outbound, CheckKind::ProcessBaseline, CheckKind::RatSignatures, CheckKind::Persistence, CheckKind::Firewall, CheckKind::Defender, CheckKind::Drivers, CheckKind::BitLocker, CheckKind::MemoryIntegrity, CheckKind::RdpExposure, CheckKind::ProxyTampering, CheckKind::CredentialProtection, CheckKind::WindowsUpdate]
}

/// Returns every check-agent in the standard catalog, in the order they
/// should run / display.
pub fn all_checks() -> (r: Vec<CheckKind>)
    ensures
        r@ == catalog_spec(),
{
    let mut r: Vec<CheckKind> = Vec::new();
    r.push(CheckKind::Wifi);
    r.push(CheckKind::DnsGateway);
    r.push(CheckKind::Arp);
    r.push(CheckKind::Ports);
    r.push(CheckKind::Outbound);
    r.push(CheckKind::ProcessBaseline);
    r.push(CheckKind::RatSignatures);
    r.push(CheckKind::Persistence);
    r.push(CheckKind::Firewall);
    r.push(CheckKind::Defender);
    r.push(CheckKind::Drivers);
    r.push(CheckKind::BitLocker);
    r.push(CheckKind::MemoryIntegrity);
    r.push(CheckKind::RdpExposure);
    r.push(CheckKind::ProxyTampering);
    r.push(CheckKind::CredentialProtection);
    r.push(CheckKind::WindowsUpdate);
    assert(r@ =~= catalog_spec());
    r
}

} // verus!
