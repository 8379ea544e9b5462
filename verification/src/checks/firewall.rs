//! Windows Firewall status check.
//!
//! Data source: `netsh advfirewall show allprofiles state`. We check all
//! three profiles (Domain/Private/Public) and flag any disabled profile.

use super::{
    finding, finding_with, make_result, result_model, ActionModel, CheckKind, CheckResult, CheckResultModel,
    Finding, FindingModel, RemediationAction, Severity,
};
use super::dns_gateway::str_result;
use crate::text::{
    chars_of, concat2, concat3, contains, contains_in, ends_with, ends_with_in, join, join_strings,
    lemma_texts_deep_view, line_ranges, lines, lower_in, lower_seq, push_str, ranges_text, starts_with,
    starts_with_in, string_of, string_of_all, texts, trim, trim_in, upper_in, upper_seq, valid_ranges,
};
use vstd::prelude::*;

verus! {

pub struct FirewallStatusCheck;

pub const DATA_SOURCE: &'static str = "netsh advfirewall show allprofiles state";

pub struct ProfileModel {
    pub profile: Seq<char>,
    pub on: bool,
}

#[derive(Debug, Clone, PartialEq, Eq)]
pub struct ProfileState {
    pub profile: String,
    pub on: bool,
}

impl DeepView for ProfileState {
    type V = ProfileModel;

    open spec fn deep_view(&self) -> ProfileModel {
        ProfileModel { profile: self.profile@, on: self.on }
    }
}

/// One line: `<Name> Profile Settings:` opens a profile; the next line
/// starting with `State` closes it, as on when it mentions `ON` and not
/// `OFF` (in any case).
pub open spec fn fw_step(st: (Seq<ProfileModel>, Option<Seq<char>>), raw: Seq<char>) -> (
    Seq<ProfileModel>,
    Option<Seq<char>>,
) {
    let t = trim(raw);
    if ends_with(t, "Profile Settings:"@) {
        (st.0, Some(trim(t.subrange(0, t.len() - 17))))
    } else if starts_with(t, "State"@) && st.1 is Some {
        let up = upper_seq(t);
        (st.0.push(ProfileModel { profile: st.1->0, on: contains(up, "ON"@) && !contains(up, "OFF"@) }), None)
    } else {
        st
    }
}

pub open spec fn fw_fold(ls: Seq<Seq<char>>) -> (Seq<ProfileModel>, Option<Seq<char>>)
    decreases ls.len(),
{
    if ls.len() == 0 {
        (seq![], None)
    } else {
        fw_step(fw_fold(ls.drop_last()), ls.last())
    }
}

pub open spec fn parse_firewall_spec(output: Seq<char>) -> Seq<ProfileModel> {
    fw_fold(lines(output)).0
}

/// Parses `netsh advfirewall show allprofiles state` output.
pub fn parse_firewall_profiles(output: &str) -> (profiles: Vec<ProfileState>)
    ensures
        profiles.deep_view() == parse_firewall_spec(output@),
{
    let v = chars_of(output);
    let ls = line_ranges(&v);
    let p_settings = chars_of("Profile Settings:");
    let p_state = chars_of("State");
    let p_on = chars_of("ON");
    let p_off = chars_of("OFF");
    proof {
        reveal_strlit("Profile Settings:");
    }
    let mut profiles: Vec<ProfileState> = Vec::new();
    let mut current: Option<(usize, usize)> = None;
    let mut k: usize = 0;
    while k < ls.len()
        invariant
            k <= ls@.len(),
            valid_ranges(v@, ls@),
            ranges_text(v@, ls@) == lines(v@),
            v@ == output@,
            p_settings@ == "Profile Settings:"@,
            p_settings@.len() == 17,
            p_state@ == "State"@,
            p_on@ == "ON"@,
            p_off@ == "OFF"@,
            current matches Some(p) ==> p.0 <= p.1 <= v@.len(),
            fw_fold(lines(v@).take(k as int)) == (
                profiles.deep_view(),
                match current {
                    Some(p) => Some(v@.subrange(p.0 as int, p.1 as int)),
                    None => None,
                },
            ),
        decreases ls@.len() - k,
    {
        let ghost raw = lines(v@)[k as int];
        assert(lines(v@).take(k + 1).drop_last() =~= lines(v@).take(k as int));
        assert(lines(v@).take(k + 1).last() == raw);
        let (a, b) = ls[k];
        assert(raw == v@.subrange(a as int, b as int));
        let (ta, tb) = trim_in(&v, a, b);
        let ghost t = v@.subrange(ta as int, tb as int);
        if ends_with_in(&v, ta, tb, &p_settings) {
            assert(t.subrange(0, t.len() - 17) =~= v@.subrange(ta as int, tb - 17));
            current = Some(trim_in(&v, ta, tb - 17));
        } else if starts_with_in(&v, ta, tb, &p_state) && current.is_some() {
            let up = upper_in(&v, ta, tb);
            assert(up@.subrange(0, up@.len() as int) =~= up@);
            let on = contains_in(&up, 0, up.len(), &p_on) && !contains_in(&up, 0, up.len(), &p_off);
            let (ca, cb) = current.unwrap();
            let ghost before = profiles.deep_view();
            profiles.push(ProfileState { profile: string_of(&v, ca, cb), on });
            assert(profiles.deep_view() =~= before.push(
                ProfileModel { profile: v@.subrange(ca as int, cb as int), on },
            ));
            current = None;
        }
        k = k + 1;
    }
    assert(lines(v@).take(k as int) =~= lines(v@));
    profiles
}

pub open spec fn enable_action(profile: Seq<char>) -> ActionModel {
    ActionModel::DirectFix {
        action_id: "firewall_enable_profile"@,
        label: "Turn on the "@ + profile + " firewall profile"@,
        params: seq![("profile"@, lower_seq(profile))],
    }
}

pub open spec fn profile_finding(p: ProfileModel) -> FindingModel {
    if p.on {
        finding(p.profile + " profile"@, "Enabled"@)
    } else {
        finding_with(p.profile + " profile"@, "Disabled"@, enable_action(p.profile))
    }
}

/// The names of the disabled profiles, in order.
pub open spec fn off_profiles(ps: Seq<ProfileModel>) -> Seq<Seq<char>>
    decreases ps.len(),
{
    if ps.len() == 0 {
        seq![]
    } else {
        off_profiles(ps.drop_last()) + if ps.last().on {
            seq![]
        } else {
            seq![ps.last().profile]
        }
    }
}

pub open spec fn firewall_spec(ps: Seq<ProfileModel>) -> (Severity, Seq<FindingModel>, Seq<char>) {
    if ps.len() == 0 {
        (
            Severity::Caution,
            seq![finding("Firewall"@, "Could not determine firewall profile states"@)],
            "Could not read Windows Firewall status."@,
        )
    } else {
        let fs = Seq::new(ps.len(), |i: int| profile_finding(ps[i]));
        let off = off_profiles(ps);
        if off.len() == 0 {
            (Severity::Okay, fs, "Windows Firewall is enabled for all profiles."@)
        } else if off.len() == ps.len() {
            (Severity::AtRisk, fs, "Windows Firewall is disabled for all profiles."@)
        } else {
            (Severity::Caution, fs, "Windows Firewall is disabled for: "@ + join(off, ", "@) + "."@)
        }
    }
}

pub proof fn lemma_off_len(ps: Seq<ProfileModel>)
    ensures
        off_profiles(ps).len() <= ps.len(),
    decreases ps.len(),
{
    if ps.len() > 0 {
        lemma_off_len(ps.drop_last());
    }
}

pub fn evaluate(profiles: &Vec<ProfileState>) -> (r: (Severity, Vec<Finding>, String))
    ensures
        (r.0, r.1.deep_view(), r.2@) == firewall_spec(profiles.deep_view()),
{
    if profiles.len() == 0 {
        let findings = vec![Finding::new("Firewall", "Could not determine firewall profile states")];
        assert(findings.deep_view() =~= seq![finding("Firewall"@, "Could not determine firewall profile states"@)]);
        return (Severity::Caution, findings, String::from_str("Could not read Windows Firewall status."));
    }
    let ghost ps = profiles.deep_view();
    let mut findings: Vec<Finding> = Vec::new();
    let mut off: Vec<String> = Vec::new();
    let mut k: usize = 0;
    while k < profiles.len()
        invariant
            k <= profiles@.len(),
            ps == profiles.deep_view(),
            findings.deep_view() =~= Seq::new(k as nat, |i: int| profile_finding(ps[i])),
            texts(off@) == off_profiles(ps.take(k as int)),
            off@.len() <= k,
        decreases profiles@.len() - k,
    {
        proof {
            lemma_off_len(ps.take(k as int));
        }
        assert(ps.take(k + 1).drop_last() =~= ps.take(k as int));
        assert(ps.take(k + 1).last() == ps[k as int]);
        let p = &profiles[k];
        let ghost before = findings.deep_view();
        let ghost off_before = texts(off@);
        if p.on {
            findings.push(Finding::of(concat2(p.profile.as_str(), " profile"), String::from_str("Enabled")));
            assert(texts(off@) =~= off_before + seq![]);
        } else {
            let pv = chars_of(p.profile.as_str());
            let lower = lower_in(&pv, 0, pv.len());
            assert(pv@.subrange(0, pv@.len() as int) =~= pv@);
            let mut params: Vec<(String, String)> = Vec::new();
            params.push((String::from_str("profile"), string_of_all(&lower)));
            assert(params.deep_view() =~= seq![("profile"@, lower_seq(p.profile@))]);
            let action = RemediationAction::DirectFix {
                action_id: String::from_str("firewall_enable_profile"),
                label: concat3("Turn on the ", p.profile.as_str(), " firewall profile"),
                params,
            };
            findings.push(
                Finding {
                    label: concat2(p.profile.as_str(), " profile"),
                    detail: String::from_str("Disabled"),
                    action: Some(action),
                },
            );
            off.push(p.profile.clone());
            assert(texts(off@) =~= off_before + seq![p.profile@]);
        }
        assert(findings.deep_view() =~= before.push(profile_finding(ps[k as int])));
        k = k + 1;
    }
    assert(ps.take(k as int) =~= ps);
    if off.len() == 0 {
        (Severity::Okay, findings, String::from_str("Windows Firewall is enabled for all profiles."))
    } else if off.len() == profiles.len() {
        (Severity::AtRisk, findings, String::from_str("Windows Firewall is disabled for all profiles."))
    } else {
        let names = join_strings(&off, ", ");
        (Severity::Caution, findings, concat3("Windows Firewall is disabled for: ", names.as_str(), "."))
    }
}

pub open spec fn firewall_result(out: Result<Seq<char>, Seq<char>>) -> CheckResultModel {
    match out {
        Ok(o) => {
            let (sev, fs, verdict) = firewall_spec(parse_firewall_spec(o));
            result_model(
                CheckKind::Firewall,
                sev,
                verdict,
                fs,
                if sev != Severity::Okay {
                    Some("Open Windows Security > Firewall & network protection and turn the firewall on for every network profile."@)
                } else {
                    None
                },
                DATA_SOURCE@,
                seq![],
            )
        },
        Err(e) => result_model(
            CheckKind::Firewall,
            Severity::Caution,
            "Could not read Windows Firewall status."@,
            seq![finding("netsh error"@, e)],
            Some("Ensure `netsh` is available and try again."@),
            DATA_SOURCE@,
            seq![],
        ),
    }
}

impl FirewallStatusCheck {
    pub fn id(&self) -> (r: &'static str)
        ensures
            r@ == CheckKind::Firewall.spec_id(),
    {
        CheckKind::Firewall.id()
    }

    pub fn name(&self) -> (r: &'static str)
        ensures
            r@ == CheckKind::Firewall.spec_name(),
    {
        CheckKind::Firewall.name()
    }

    /// Evaluates the output of `netsh advfirewall show allprofiles state`
    /// (or the error running it).
    pub fn run(&self, output: Result<String, String>) -> (r: CheckResult)
        ensures
            r.deep_view() == firewall_result(str_result(output)),
    {
        let raw_keys: Vec<String> = Vec::new();
        assert(raw_keys.deep_view() =~= seq![]);
        let ghost res = str_result(output);
        match output {
            Ok(out) => {
                let profiles = parse_firewall_profiles(out.as_str());
                let (severity, findings, verdict) = evaluate(&profiles);
                let remediation = if severity != Severity::Okay {
                    Some(String::from_str("Open Windows Security > Firewall & network protection and turn the firewall on for every network profile."))
                } else {
                    None
                };
                assert(res == Ok::<Seq<char>, Seq<char>>(out@));
                make_result(CheckKind::Firewall, severity, verdict, findings, remediation, DATA_SOURCE, raw_keys)
            },
            Err(e) => {
                let ghost em = e@;
                let findings = vec![Finding::of(String::from_str("netsh error"), e)];
                assert(findings.deep_view() =~= seq![finding("netsh error"@, em)]);
                make_result(
                    CheckKind::Firewall,
                    Severity::Caution,
                    String::from_str("Could not read Windows Firewall status."),
                    findings,
                    Some(String::from_str("Ensure `netsh` is available and try again.")),
                    DATA_SOURCE,
                    raw_keys,
                )
            },
        }
    }
}

/// The names of the profiles reported off, in order.
pub open spec fn disabled_names(ps: Seq<ProfileModel>) -> Seq<Seq<char>> {
    ps.filter(|p: ProfileModel| !p.on).map_values(|p: ProfileModel| p.profile)
}

proof fn lemma_off_profiles_are_disabled(ps: Seq<ProfileModel>)
    ensures
        off_profiles(ps) == disabled_names(ps),
        off_profiles(ps).len() == 0 <==> forall|i: int| 0 <= i < ps.len() ==> (#[trigger] ps[i]).on,
        off_profiles(ps).len() == ps.len() <==> forall|i: int| 0 <= i < ps.len() ==> !(#[trigger] ps[i]).on,
    decreases ps.len(),
{
    reveal(Seq::filter);
    if ps.len() > 0 {
        let init = ps.drop_last();
        lemma_off_profiles_are_disabled(init);
        lemma_off_len(init);
        assert(ps.filter(|p: ProfileModel| !p.on) == if !ps.last().on {
            init.filter(|p: ProfileModel| !p.on).push(ps.last())
        } else {
            init.filter(|p: ProfileModel| !p.on)
        });
        assert(off_profiles(ps) =~= disabled_names(ps));
        assert forall|i: int| 0 <= i < init.len() implies #[trigger] init[i] == ps[i] by {}
        if off_profiles(ps).len() == 0 {
            assert forall|i: int| 0 <= i < ps.len() implies (#[trigger] ps[i]).on by {
                if i < init.len() {
                    assert(init[i] == ps[i]);
                }
            }
        }
        if forall|i: int| 0 <= i < ps.len() ==> (#[trigger] ps[i]).on {
            assert forall|i: int| 0 <= i < init.len() implies (#[trigger] init[i]).on by {
                assert(init[i] == ps[i]);
            }
            assert(ps[ps.len() - 1].on);
        }
        if off_profiles(ps).len() == ps.len() {
            assert(!ps.last().on);
            assert forall|i: int| 0 <= i < ps.len() implies !(#[trigger] ps[i]).on by {
                if i < init.len() {
                    assert(init[i] == ps[i]);
                }
            }
        }
        if forall|i: int| 0 <= i < ps.len() ==> !(#[trigger] ps[i]).on {
            assert forall|i: int| 0 <= i < init.len() implies !(#[trigger] init[i]).on by {
                assert(init[i] == ps[i]);
            }
            assert(!ps[ps.len() - 1].on);
        }
    }
}

/// The firewall result follows the profiles reported: `Okay` exactly when
/// every profile is on, `AtRisk` exactly when every profile is off, and
/// when some are on and some off, `Caution` with a verdict naming exactly
/// the disabled profiles, in order. With no profile read it is `Caution`.
pub proof fn law_firewall_severity(ps: Seq<ProfileModel>)
    ensures
        ps.len() == 0 ==> firewall_spec(ps).0 == Severity::Caution,
        ps.len() > 0 ==> ((forall|i: int| 0 <= i < ps.len() ==> (#[trigger] ps[i]).on) <==> firewall_spec(ps).0
            == Severity::Okay),
        ps.len() > 0 ==> ((forall|i: int| 0 <= i < ps.len() ==> !(#[trigger] ps[i]).on) <==> firewall_spec(ps).0
            == Severity::AtRisk),
        (exists|i: int| 0 <= i < ps.len() && (#[trigger] ps[i]).on) && (exists|j: int|
            0 <= j < ps.len() && !(#[trigger] ps[j]).on) ==> firewall_spec(ps).0 == Severity::Caution
            && firewall_spec(ps).2 == "Windows Firewall is disabled for: "@ + join(disabled_names(ps), ", "@) + "."@,
{
    lemma_off_profiles_are_disabled(ps);
}

} // verus!
