//! BitLocker / disk encryption status check.
//!
//! Data source: `manage-bde -status` (the classic BitLocker CLI tool, present
//! on every Windows edition that ships BitLocker). Flags the OS volume
//! specifically, since a Data volume being unencrypted is a materially
//! different risk than the boot volume.

use super::{
    finding, finding_with, make_result, result_model, ActionModel, CheckKind, CheckResult, CheckResultModel,
    Finding, FindingModel, RemediationAction, Severity,
};
use crate::text::{
    chars_of, concat2, contains, contains_in, contains_lower_in, eq_lower_in, find, find_char_in, line_ranges,
    lines, lower_seq, push_str, ranges_text, starts_with, starts_with_in, string_of, trim, trim_in, upper_in,
    upper_seq, valid_ranges,
};
use vstd::prelude::*;

verus! {

pub open spec fn bitlocker_action() -> FindingModel {
    finding_with(
        "Fix this"@,
        "Open BitLocker Drive Encryption to turn on or resume protection."@,
        ActionModel::DeepLink { uri: "ms-settings:deviceencryption"@, label: "Open BitLocker settings"@ },
    )
}

fn open_bitlocker_action() -> (f: Finding)
    ensures
        f.deep_view() == bitlocker_action(),
{
    Finding::with_action(
        "Fix this",
        "Open BitLocker Drive Encryption to turn on or resume protection.",
        RemediationAction::DeepLink {
            uri: String::from_str("ms-settings:deviceencryption"),
            label: String::from_str("Open BitLocker settings"),
        },
    )
}

pub struct BitLockerCheck;

pub const DATA_SOURCE: &'static str = "manage-bde -status";

pub struct VolumeModel {
    pub label: Seq<char>,
    pub is_os_volume: bool,
    pub conversion_status: Option<Seq<char>>,
    pub protection_status: Option<Seq<char>>,
}

#[derive(Debug, Clone, PartialEq, Eq)]
pub struct VolumeStatus {
    pub label: String,
    pub is_os_volume: bool,
    pub conversion_status: Option<String>,
    pub protection_status: Option<String>,
}

impl DeepView for VolumeStatus {
    type V = VolumeModel;

    open spec fn deep_view(&self) -> VolumeModel {
        VolumeModel {
            label: self.label@,
            is_os_volume: self.is_os_volume,
            conversion_status: self.conversion_status.deep_view(),
            protection_status: self.protection_status.deep_view(),
        }
    }
}

/// What was parsed so far: the finished volumes and the one being read.
pub type BdeState = (Seq<VolumeModel>, Option<VolumeModel>);

/// A `key: value` line applied to the volume being read.
pub open spec fn bde_field(v: VolumeModel, line: Seq<char>) -> VolumeModel {
    match find(line, seq![':']) {
        None => v,
        Some(idx) => {
            let key = lower_seq(trim(line.subrange(0, idx)));
            let value = trim(line.subrange(idx + 1, line.len() as int));
            if key == "conversion status"@ {
                VolumeModel { conversion_status: Some(value), ..v }
            } else if key == "protection status"@ {
                VolumeModel { protection_status: Some(value), ..v }
            } else {
                v
            }
        },
    }
}

/// One line of `manage-bde -status`: `Volume ...` starts a new volume
/// (an OS volume when it is tagged `[OS]` or `[OS VOLUME]`, in any case);
/// an `[OS Volume]` / `[OS Volumes]` line tags the current one; other
/// lines may set its conversion or protection status.
pub open spec fn bde_step(st: BdeState, raw: Seq<char>) -> BdeState {
    let line = trim(raw);
    if starts_with(line, "Volume "@) {
        let rest = line.subrange(7, line.len() as int);
        let up = upper_seq(rest);
        let os = contains(up, "[OS]"@) || contains(up, "[OS VOLUME]"@);
        let done = match st.1 {
            Some(v) => st.0.push(v),
            None => st.0,
        };
        (done, Some(VolumeModel { label: trim(rest), is_os_volume: os, conversion_status: None, protection_status: None }))
    } else if lower_seq(line) == "[os volumes]"@ || lower_seq(line) == "[os volume]"@ {
        (st.0, match st.1 {
            Some(v) => Some(VolumeModel { is_os_volume: true, ..v }),
            None => None,
        })
    } else {
        (st.0, match st.1 {
            Some(v) => Some(bde_field(v, line)),
            None => None,
        })
    }
}

pub open spec fn bde_fold(ls: Seq<Seq<char>>) -> BdeState
    decreases ls.len(),
{
    if ls.len() == 0 {
        (seq![], None)
    } else {
        bde_step(bde_fold(ls.drop_last()), ls.last())
    }
}

pub open spec fn parse_bde_spec(output: Seq<char>) -> Seq<VolumeModel> {
    let st = bde_fold(lines(output));
    match st.1 {
        Some(v) => st.0.push(v),
        None => st.0,
    }
}

fn text_of(v: &Vec<char>, lo: usize, hi: usize) -> (s: String)
    requires
        lo <= hi <= v.len(),
    ensures
        s@ == v@.subrange(lo as int, hi as int),
{
    string_of(v, lo, hi)
}

/// Parses `manage-bde -status` output into per-volume blocks. Each volume
/// starts with a line like `Volume C: [OS]` or `Volume D: [DATA]`.
pub fn parse_manage_bde_status(output: &str) -> (volumes: Vec<VolumeStatus>)
    ensures
        volumes.deep_view() == parse_bde_spec(output@),
{
    let v = chars_of(output);
    let ls = line_ranges(&v);
    let p_volume = chars_of("Volume ");
    let p_os = chars_of("[OS]");
    let p_os_volume = chars_of("[OS VOLUME]");
    let p_tag1 = chars_of("[os volumes]");
    let p_tag2 = chars_of("[os volume]");
    let p_conv = chars_of("conversion status");
    let p_prot = chars_of("protection status");
    proof {
        reveal_strlit("Volume ");
    }
    let mut volumes: Vec<VolumeStatus> = Vec::new();
    let mut current: Option<VolumeStatus> = None;
    let mut k: usize = 0;
    while k < ls.len()
        invariant
            k <= ls@.len(),
            valid_ranges(v@, ls@),
            ranges_text(v@, ls@) == lines(v@),
            v@ == output@,
            p_volume@ == "Volume "@,
            p_volume@.len() == 7,
            p_os@ == "[OS]"@,
            p_os_volume@ == "[OS VOLUME]"@,
            p_tag1@ == "[os volumes]"@,
            p_tag2@ == "[os volume]"@,
            p_conv@ == "conversion status"@,
            p_prot@ == "protection status"@,
            (volumes.deep_view(), current.deep_view()) == bde_fold(lines(v@).take(k as int)),
        decreases ls@.len() - k,
    {
        let ghost raw = lines(v@)[k as int];
        assert(lines(v@).take(k + 1).drop_last() =~= lines(v@).take(k as int));
        assert(lines(v@).take(k + 1).last() == raw);
        let (a, b) = ls[k];
        assert(raw == v@.subrange(a as int, b as int));
        let (ta, tb) = trim_in(&v, a, b);
        let ghost line = v@.subrange(ta as int, tb as int);
        let ghost st = (volumes.deep_view(), current.deep_view());
        if starts_with_in(&v, ta, tb, &p_volume) {
            let ra = ta + 7;
            assert(line.subrange(7, line.len() as int) =~= v@.subrange(ra as int, tb as int));
            let up = upper_in(&v, ra, tb);
            assert(up@.subrange(0, up@.len() as int) =~= up@);
            let os = contains_in(&up, 0, up.len(), &p_os) || contains_in(&up, 0, up.len(), &p_os_volume);
            let (la, lb) = trim_in(&v, ra, tb);
            match current {
                Some(c) => {
                    volumes.push(c);
                },
                None => {},
            }
            assert(volumes.deep_view() =~= match st.1 {
                Some(c) => st.0.push(c),
                None => st.0,
            });
            current = Some(
                VolumeStatus {
                    label: text_of(&v, la, lb),
                    is_os_volume: os,
                    conversion_status: None,
                    protection_status: None,
                },
            );
        } else if eq_lower_in(&v, ta, tb, &p_tag1) || eq_lower_in(&v, ta, tb, &p_tag2) {
            current = match current {
                Some(c) => Some(
                    VolumeStatus {
                        label: c.label,
                        is_os_volume: true,
                        conversion_status: c.conversion_status,
                        protection_status: c.protection_status,
                    },
                ),
                None => None,
            };
        } else {
            current = match current {
                Some(c) => {
                    let mut c = c;
                    match find_char_in(&v, ta, tb, ':') {
                        Some(idx) => {
                            assert(line.subrange(0, idx - ta) =~= v@.subrange(ta as int, idx as int));
                            assert(line.subrange(idx - ta + 1, line.len() as int) =~= v@.subrange(
                                idx + 1,
                                tb as int,
                            ));
                            let (ka, kb) = trim_in(&v, ta, idx);
                            let (va, vb) = trim_in(&v, idx + 1, tb);
                            if eq_lower_in(&v, ka, kb, &p_conv) {
                                c.conversion_status = Some(text_of(&v, va, vb));
                            } else if eq_lower_in(&v, ka, kb, &p_prot) {
                                c.protection_status = Some(text_of(&v, va, vb));
                            }
                        },
                        None => {},
                    }
                    Some(c)
                },
                None => None,
            };
        }
        k = k + 1;
    }
    assert(lines(v@).take(k as int) =~= lines(v@));
    let ghost st = (volumes.deep_view(), current.deep_view());
    match current {
        Some(c) => {
            volumes.push(c);
        },
        None => {},
    }
    assert(volumes.deep_view() =~= match st.1 {
        Some(c) => st.0.push(c),
        None => st.0,
    });
    volumes
}

pub open spec fn or_unknown(o: Option<Seq<char>>) -> Seq<char> {
    match o {
        Some(s) => s,
        None => "unknown"@,
    }
}

pub open spec fn is_fully_encrypted(v: VolumeModel) -> bool {
    match v.conversion_status {
        Some(s) => contains(lower_seq(s), "fully encrypted"@),
        None => false,
    }
}

pub open spec fn is_protection_on(v: VolumeModel) -> bool {
    match v.protection_status {
        Some(s) => contains(lower_seq(s), "protection on"@),
        None => false,
    }
}

pub open spec fn volume_finding(v: VolumeModel) -> FindingModel {
    finding("Volume "@ + v.label, or_unknown(v.conversion_status) + " / "@ + or_unknown(v.protection_status))
}

/// The first volume tagged as the OS volume.
pub open spec fn first_os(vs: Seq<VolumeModel>) -> Option<VolumeModel>
    decreases vs.len(),
{
    if vs.len() == 0 {
        None
    } else if vs[0].is_os_volume {
        Some(vs[0])
    } else {
        first_os(vs.drop_first())
    }
}

/// The volume whose status decides: the one tagged as the OS volume, or
/// else the first one.
pub open spec fn os_volume(vs: Seq<VolumeModel>) -> Option<VolumeModel> {
    match first_os(vs) {
        Some(v) => Some(v),
        None => if vs.len() > 0 {
            Some(vs[0])
        } else {
            None
        },
    }
}

pub open spec fn evaluate_spec(vs: Seq<VolumeModel>) -> (Severity, Seq<FindingModel>, Seq<char>) {
    let fs = Seq::new(vs.len(), |i: int| volume_finding(vs[i]));
    match os_volume(vs) {
        None => (
            Severity::Caution,
            fs.push(finding("BitLocker"@, "No volumes reported"@)),
            "Could not determine BitLocker status - no volumes were reported."@,
        ),
        Some(v) => if is_fully_encrypted(v) && is_protection_on(v) {
            (Severity::Okay, fs, "The system volume is fully encrypted with BitLocker protection on."@)
        } else {
            (
                Severity::AtRisk,
                fs,
                "The system volume is not fully protected by BitLocker (conversion: "@ + or_unknown(
                    v.conversion_status,
                ) + ", protection: "@ + or_unknown(v.protection_status) + ")."@,
            )
        },
    }
}

fn or_unknown_str(o: &Option<String>) -> (s: &str)
    ensures
        s@ == or_unknown(o.deep_view()),
{
    match o {
        Some(s) => s.as_str(),
        None => "unknown",
    }
}

fn lower_contains(o: &Option<String>, pat: &str) -> (b: bool)
    ensures
        b == match o.deep_view() {
            Some(s) => contains(lower_seq(s), pat@),
            None => false,
        },
{
    match o {
        Some(s) => {
            let v = chars_of(s.as_str());
            let p = chars_of(pat);
            assert(v@.subrange(0, v@.len() as int) =~= v@);
            contains_lower_in(&v, 0, v.len(), &p)
        },
        None => false,
    }
}

fn first_os_index(volumes: &Vec<VolumeStatus>) -> (r: Option<usize>)
    ensures
        match r {
            Some(i) => i < volumes@.len() && first_os(volumes.deep_view()) == Some(volumes.deep_view()[i as int]),
            None => first_os(volumes.deep_view()) is None,
        },
{
    let ghost vs = volumes.deep_view();
    let mut j: usize = 0;
    assert(vs.subrange(0, vs.len() as int) =~= vs);
    while j < volumes.len()
        invariant
            j <= volumes@.len(),
            vs == volumes.deep_view(),
            first_os(vs) == first_os(vs.subrange(j as int, vs.len() as int)),
        decreases volumes@.len() - j,
    {
        assert(vs.subrange(j as int, vs.len() as int).drop_first() =~= vs.subrange(j + 1, vs.len() as int));
        assert(vs.subrange(j as int, vs.len() as int)[0] == vs[j as int]);
        if volumes[j].is_os_volume {
            return Some(j);
        }
        j = j + 1;
    }
    None
}

pub fn evaluate(volumes: &Vec<VolumeStatus>) -> (r: (Severity, Vec<Finding>, String))
    ensures
        (r.0, r.1.deep_view(), r.2@) == evaluate_spec(volumes.deep_view()),
{
    let ghost vs = volumes.deep_view();
    let mut findings: Vec<Finding> = Vec::new();
    let mut k: usize = 0;
    while k < volumes.len()
        invariant
            k <= volumes@.len(),
            vs == volumes.deep_view(),
            findings.deep_view() =~= Seq::new(k as nat, |i: int| volume_finding(vs[i])),
        decreases volumes@.len() - k,
    {
        let v = &volumes[k];
        let mut detail = String::from_str(or_unknown_str(&v.conversion_status));
        push_str(&mut detail, " / ");
        push_str(&mut detail, or_unknown_str(&v.protection_status));
        let ghost before = findings.deep_view();
        findings.push(Finding::of(concat2("Volume ", v.label.as_str()), detail));
        assert(findings.deep_view() =~= before.push(volume_finding(vs[k as int])));
        k = k + 1;
    }
    let found = first_os_index(volumes);
    let idx = match found {
        Some(i) => Some(i),
        None => if volumes.len() > 0 {
            Some(0usize)
        } else {
            None
        },
    };
    match idx {
        None => {
            let ghost before = findings.deep_view();
            findings.push(Finding::new("BitLocker", "No volumes reported"));
            assert(findings.deep_view() =~= before.push(finding("BitLocker"@, "No volumes reported"@)));
            (
                Severity::Caution,
                findings,
                String::from_str("Could not determine BitLocker status - no volumes were reported."),
            )
        },
        Some(i) => {
            let v = &volumes[i];
            assert(os_volume(vs) == Some(vs[i as int]));
            if lower_contains(&v.conversion_status, "fully encrypted") && lower_contains(
                &v.protection_status,
                "protection on",
            ) {
                (
                    Severity::Okay,
                    findings,
                    String::from_str("The system volume is fully encrypted with BitLocker protection on."),
                )
            } else {
                let mut verdict = String::from_str(
                    "The system volume is not fully protected by BitLocker (conversion: ",
                );
                push_str(&mut verdict, or_unknown_str(&v.conversion_status));
                push_str(&mut verdict, ", protection: ");
                push_str(&mut verdict, or_unknown_str(&v.protection_status));
                push_str(&mut verdict, ").");
                (Severity::AtRisk, findings, verdict)
            }
        },
    }
}

pub open spec fn bitlocker_result(out: Result<Seq<char>, Seq<char>>) -> CheckResultModel {
    match out {
        Ok(output) => {
            let vs = parse_bde_spec(output);
            if vs.len() == 0 {
                result_model(
                    CheckKind::BitLocker,
                    Severity::Caution,
                    "Could not read BitLocker status (this usually requires administrator privileges)."@,
                    seq![finding("manage-bde"@, trim(output)), bitlocker_action()],
                    Some("Run NetGuard as an administrator, or check BitLocker status manually via Control Panel > BitLocker Drive Encryption."@),
                    DATA_SOURCE@,
                    seq![],
                )
            } else {
                let (sev, fs, verdict) = evaluate_spec(vs);
                if sev != Severity::Okay {
                    result_model(
                        CheckKind::BitLocker,
                        sev,
                        verdict,
                        fs.push(bitlocker_action()),
                        Some("Open Control Panel > BitLocker Drive Encryption and turn on BitLocker (or resume protection) for the system drive."@),
                        DATA_SOURCE@,
                        seq![],
                    )
                } else {
                    result_model(CheckKind::BitLocker, sev, verdict, fs, None, DATA_SOURCE@, seq![])
                }
            }
        },
        Err(e) => result_model(
            CheckKind::BitLocker,
            Severity::Caution,
            "Could not query BitLocker status."@,
            seq![finding("manage-bde error"@, e)],
            Some("Ensure `manage-bde` is available (Windows Pro/Enterprise/Education) and try running NetGuard as an administrator."@),
            DATA_SOURCE@,
            seq![],
        ),
    }
}

/// BitLocker status that cannot be determined is reported as needing
/// attention rather than silently passing: the check is `Okay` only when
/// the tool ran and the volume that decides is fully encrypted with
/// protection on.
pub proof fn law_bitlocker_ok_only_when_protected(out: Result<Seq<char>, Seq<char>>)
    ensures
        bitlocker_result(out).severity == Severity::Okay ==> (out matches Ok(o) && (os_volume(parse_bde_spec(o))
            matches Some(v) && is_fully_encrypted(v) && is_protection_on(v))),
{
}

impl BitLockerCheck {
    pub fn id(&self) -> (r: &'static str)
        ensures
            r@ == CheckKind::BitLocker.spec_id(),
    {
        CheckKind::BitLocker.id()
    }

    pub fn name(&self) -> (r: &'static str)
        ensures
            r@ == CheckKind::BitLocker.spec_name(),
    {
        CheckKind::BitLocker.name()
    }

    /// Evaluates the output of `manage-bde -status` (or the error running
    /// it).
    pub fn run(&self, output: Result<String, String>) -> (r: CheckResult)
        ensures
            r.deep_view() == bitlocker_result(super::dns_gateway::str_result(output)),
    {
        let raw_keys: Vec<String> = Vec::new();
        assert(raw_keys.deep_view() =~= seq![]);
        match output {
            Ok(out) => {
                assert(super::dns_gateway::str_result(output) == Ok::<Seq<char>, Seq<char>>(out@));
                let volumes = parse_manage_bde_status(out.as_str());
                if volumes.len() == 0 {
                    let v = chars_of(out.as_str());
                    assert(v@.subrange(0, v@.len() as int) =~= v@);
                    let (ta, tb) = trim_in(&v, 0, v.len());
                    let findings = vec![Finding::of(String::from_str("manage-bde"), text_of(&v, ta, tb)), open_bitlocker_action()];
                    assert(findings.deep_view() =~= seq![finding("manage-bde"@, trim(out@)), bitlocker_action()]);
                    return make_result(
                        CheckKind::BitLocker,
                        Severity::Caution,
                        String::from_str("Could not read BitLocker status (this usually requires administrator privileges)."),
                        findings,
                        Some(String::from_str("Run NetGuard as an administrator, or check BitLocker status manually via Control Panel > BitLocker Drive Encryption.")),
                        DATA_SOURCE,
                        raw_keys,
                    );
                }
                let (severity, findings, verdict) = evaluate(&volumes);
                let ghost ev = evaluate_spec(volumes.deep_view());
                assert(ev.0 == severity && ev.1 == findings.deep_view() && ev.2 == verdict@);
                let mut findings = findings;
                let remediation = if severity != Severity::Okay {
                    findings.push(open_bitlocker_action());
                    assert(findings.deep_view() =~= ev.1.push(bitlocker_action()));
                    Some(String::from_str("Open Control Panel > BitLocker Drive Encryption and turn on BitLocker (or resume protection) for the system drive."))
                } else {
                    None
                };
                make_result(CheckKind::BitLocker, severity, verdict, findings, remediation, DATA_SOURCE, raw_keys)
            },
            Err(e) => {
                let ghost em = e@;
                let findings = vec![Finding::of(String::from_str("manage-bde error"), e)];
                assert(findings.deep_view() =~= seq![finding("manage-bde error"@, em)]);
                make_result(
                    CheckKind::BitLocker,
                    Severity::Caution,
                    String::from_str("Could not query BitLocker status."),
                    findings,
                    Some(String::from_str("Ensure `manage-bde` is available (Windows Pro/Enterprise/Education) and try running NetGuard as an administrator.")),
                    DATA_SOURCE,
                    raw_keys,
                )
            },
        }
    }
}

} // verus!
