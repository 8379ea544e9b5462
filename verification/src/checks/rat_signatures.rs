//! Known remote-access-tool signature check.
//!
//! Data source: the live process table. Presence of these tools isn't proof
//! of compromise - they are legitimate, widely used software - so a match
//! is always `Caution`, worth a manual review, never `AtRisk` on its own.

use super::{finding, make_result, result_model, CheckKind, CheckResult, CheckResultModel, Finding, FindingModel, ScanContext, Severity};
use super::process_baseline::ProcessModel;
use crate::text::{chars_of, concat2, count_string, decimal, decimal_string, lower_in, lower_seq, push_str, same_text, string_of_all};
use vstd::prelude::*;

verus! {

pub struct RatSignatureCheck;

pub const DATA_SOURCE: &'static str = "live process table (sysinfo)";

/// Curated list of common, legitimate-but-often-abused remote-access tool
/// process names (lowercase, without path), with the tool's name.
pub open spec fn known_tools() -> Seq<(Seq<char>, Seq<char>)> {
    seq![
        ("teamviewer.exe"@, "TeamViewer"@),
        ("anydesk.exe"@, "AnyDesk"@),
        ("ammyy.exe"@, "Ammyy Admin"@),
        ("radmin.exe"@, "Radmin"@),
        ("vncserver.exe"@, "VNC Server"@),
        ("winvnc.exe"@, "VNC Server"@),
        ("tvnserver.exe"@, "TightVNC Server"@),
        ("ultraviewer_desktop.exe"@, "UltraViewer"@),
        ("remotepc.exe"@, "RemotePC"@),
        ("splashtop.exe"@, "Splashtop"@),
        ("screenconnect.exe"@, "ScreenConnect / ConnectWise Control"@),
        ("logmein.exe"@, "LogMeIn"@),
        ("dwagent.exe"@, "DWAgent"@),
        ("supremo.exe"@, "Supremo Remote Desktop"@),
        ("gotoassist.exe"@, "GoToAssist"@),
    ]
}

fn tool_list() -> (v: Vec<(&'static str, &'static str)>)
    ensures
        v@.len() == known_tools().len(),
        forall|i: int| 0 <= i < v@.len() ==> (#[trigger] v@[i]).0@ == known_tools()[i].0 && v@[i].1@ == known_tools()[i].1,
{
    let v = vec![
        ("teamviewer.exe", "TeamViewer"),
        ("anydesk.exe", "AnyDesk"),
        ("ammyy.exe", "Ammyy Admin"),
        ("radmin.exe", "Radmin"),
        ("vncserver.exe", "VNC Server"),
        ("winvnc.exe", "VNC Server"),
        ("tvnserver.exe", "TightVNC Server"),
        ("ultraviewer_desktop.exe", "UltraViewer"),
        ("remotepc.exe", "RemotePC"),
        ("splashtop.exe", "Splashtop"),
        ("screenconnect.exe", "ScreenConnect / ConnectWise Control"),
        ("logmein.exe", "LogMeIn"),
        ("dwagent.exe", "DWAgent"),
        ("supremo.exe", "Supremo Remote Desktop"),
        ("gotoassist.exe", "GoToAssist"),
    ];
    v
}

/// The label of the first pair whose key is `key`.
pub open spec fn first_label(pairs: Seq<(Seq<char>, Seq<char>)>, key: Seq<char>) -> Option<Seq<char>>
    decreases pairs.len(),
{
    if pairs.len() == 0 {
        None
    } else if pairs[0].0 == key {
        Some(pairs[0].1)
    } else {
        first_label(pairs.drop_first(), key)
    }
}

fn tool_label(lower: &str) -> (r: Option<&'static str>)
    ensures
        match (r, first_label(known_tools(), lower@)) {
            (Some(l), Some(s)) => l@ == s,
            (None, None) => true,
            _ => false,
        },
{
    let tools = tool_list();
    let ghost kt = known_tools();
    let mut k: usize = 0;
    assert(kt.subrange(0, kt.len() as int) =~= kt);
    while k < tools.len()
        invariant
            k <= tools@.len(),
            kt == known_tools(),
            tools@.len() == kt.len(),
            forall|i: int| 0 <= i < tools@.len() ==> (#[trigger] tools@[i]).0@ == kt[i].0 && tools@[i].1@ == kt[i].1,
            first_label(kt, lower@) == first_label(kt.subrange(k as int, kt.len() as int), lower@),
        decreases tools@.len() - k,
    {
        assert(kt.subrange(k as int, kt.len() as int).drop_first() =~= kt.subrange(k + 1, kt.len() as int));
        assert(kt.subrange(k as int, kt.len() as int)[0] == kt[k as int]);
        let (exe, label) = tools[k];
        assert(tools@[k as int].0@ == kt[k as int].0);
        if same_text(exe, lower) {
            return Some(label);
        }
        k = k + 1;
    }
    None
}

pub struct NameModel {
    pub pid: u32,
    pub name: Seq<char>,
}

#[derive(Debug, Clone)]
pub struct ProcessNameInfo {
    pub pid: u32,
    pub name: String,
}

impl DeepView for ProcessNameInfo {
    type V = NameModel;

    open spec fn deep_view(&self) -> NameModel {
        NameModel { pid: self.pid, name: self.name@ }
    }
}

pub open spec fn tool_finding(p: NameModel, label: Seq<char>) -> FindingModel {
    finding(
        label + " detected"@,
        "Process "@ + p.name + " (PID "@ + decimal(p.pid as nat) + ") matches a known remote-access tool signature"@,
    )
}

/// A finding for each process whose lower-cased name is a known tool.
pub open spec fn tool_findings(ps: Seq<NameModel>) -> Seq<FindingModel>
    decreases ps.len(),
{
    if ps.len() == 0 {
        seq![]
    } else {
        tool_findings(ps.drop_last()) + match first_label(known_tools(), lower_seq(ps.last().name)) {
            Some(label) => seq![tool_finding(ps.last(), label)],
            None => seq![],
        }
    }
}

/// `Caution` with a finding per match, or `Okay` with a summary finding.
pub open spec fn rat_spec(ps: Seq<NameModel>) -> (Severity, Seq<FindingModel>) {
    let f = tool_findings(ps);
    if f.len() == 0 {
        (Severity::Okay, seq![finding("Result"@, "No known remote-access tool processes found"@)])
    } else {
        (Severity::Caution, f)
    }
}

pub fn evaluate(processes: &Vec<ProcessNameInfo>) -> (r: (Severity, Vec<Finding>))
    ensures
        (r.0, r.1.deep_view()) == rat_spec(processes.deep_view()),
{
    let ghost ps = processes.deep_view();
    let mut findings: Vec<Finding> = Vec::new();
    let mut k: usize = 0;
    while k < processes.len()
        invariant
            k <= processes@.len(),
            ps == processes.deep_view(),
            findings.deep_view() == tool_findings(ps.take(k as int)),
        decreases processes@.len() - k,
    {
        assert(ps.take(k + 1).drop_last() =~= ps.take(k as int));
        assert(ps.take(k + 1).last() == ps[k as int]);
        let p = &processes[k];
        let nv = chars_of(p.name.as_str());
        assert(nv@.subrange(0, nv@.len() as int) =~= nv@);
        let lower = string_of_all(&lower_in(&nv, 0, nv.len()));
        let ghost before = findings.deep_view();
        match tool_label(lower.as_str()) {
            Some(label) => {
                let mut detail = concat2("Process ", p.name.as_str());
                push_str(&mut detail, " (PID ");
                push_str(&mut detail, decimal_string(p.pid as u64).as_str());
                push_str(&mut detail, ") matches a known remote-access tool signature");
                findings.push(Finding::of(concat2(label, " detected"), detail));
                assert(findings.deep_view() =~= before + seq![tool_finding(ps[k as int], label@)]);
            },
            None => {
                assert(findings.deep_view() =~= before + seq![]);
            },
        }
        k = k + 1;
    }
    assert(ps.take(k as int) =~= ps);
    let severity = if findings.len() == 0 {
        Severity::Okay
    } else {
        Severity::Caution
    };
    if findings.len() == 0 {
        findings.push(Finding::new("Result", "No known remote-access tool processes found"));
        assert(findings.deep_view() =~= seq![finding("Result"@, "No known remote-access tool processes found"@)]);
    }
    (severity, findings)
}

pub open spec fn rat_result(procs: Seq<ProcessModel>) -> CheckResultModel {
    let (sev, fs) = rat_spec(Seq::new(procs.len(), |i: int| NameModel { pid: procs[i].pid, name: procs[i].name }));
    result_model(
        CheckKind::RatSignatures,
        sev,
        if sev == Severity::Okay {
            "No known remote-access tool processes found."@
        } else {
            decimal(fs.len()) + " known remote-access tool process(es) found - confirm you installed them."@
        },
        fs,
        if sev != Severity::Okay {
            Some("If you recognize and use this tool, no action is needed. If not, uninstall it and change your passwords, since remote-access tools are a common way attackers maintain access."@)
        } else {
            None
        },
        DATA_SOURCE@,
        seq![],
    )
}

/// A remote-access tool is legitimate software, so a match is worth a
/// review but never `AtRisk` on its own.
pub proof fn law_rat_never_at_risk(ps: Seq<NameModel>)
    ensures
        rat_spec(ps).0 != Severity::AtRisk,
        rat_spec(ps).0 == Severity::Caution <==> tool_findings(ps).len() > 0,
{
}

impl RatSignatureCheck {
    pub fn id(&self) -> (r: &'static str)
        ensures
            r@ == CheckKind::RatSignatures.spec_id(),
    {
        CheckKind::RatSignatures.id()
    }

    pub fn name(&self) -> (r: &'static str)
        ensures
            r@ == CheckKind::RatSignatures.spec_name(),
    {
        CheckKind::RatSignatures.name()
    }

    /// Evaluates the process names of the scan context's process table.
    pub fn run(&self, ctx: &ScanContext) -> (r: CheckResult)
        ensures
            r.deep_view() == rat_result(ctx.processes.deep_view()),
    {
        let ghost procs = ctx.processes.deep_view();
        let mut processes: Vec<ProcessNameInfo> = Vec::new();
        let mut k: usize = 0;
        while k < ctx.processes.len()
            invariant
                k <= ctx.processes@.len(),
                procs == ctx.processes.deep_view(),
                processes.deep_view() =~= Seq::new(k as nat, |i: int| NameModel { pid: procs[i].pid, name: procs[i].name }),
            decreases ctx.processes@.len() - k,
        {
            let ghost before = processes.deep_view();
            processes.push(ProcessNameInfo { pid: ctx.processes[k].pid, name: ctx.processes[k].name.clone() });
            assert(processes.deep_view() =~= before.push(NameModel { pid: procs[k as int].pid, name: procs[k as int].name }));
            k = k + 1;
        }
        let (severity, findings) = evaluate(&processes);
        let verdict = if severity == Severity::Okay {
            String::from_str("No known remote-access tool processes found.")
        } else {
            concat2(
                count_string(findings.len()).as_str(),
                " known remote-access tool process(es) found - confirm you installed them.",
            )
        };
        let remediation = if severity != Severity::Okay {
            Some(String::from_str("If you recognize and use this tool, no action is needed. If not, uninstall it and change your passwords, since remote-access tools are a common way attackers maintain access."))
        } else {
            None
        };
        let raw_keys: Vec<String> = Vec::new();
        assert(raw_keys.deep_view() =~= seq![]);
        make_result(CheckKind::RatSignatures, severity, verdict, findings, remediation, DATA_SOURCE, raw_keys)
    }
}

} // verus!
