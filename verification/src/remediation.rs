//! Direct in-app remediation actions.
//!
//! Every action is either:
//! - a **direct fix**: NetGuard changes system state itself, but only for a
//!   small, explicitly whitelisted set of safe, reversible, non-destructive
//!   actions. [`run_direct_fix`] checks the request and answers with the
//!   [`FixPlan`] to carry out, or with the refusal; the caller carries the
//!   plan out and [`FixPlan::outcome`] words the result. There is no "fix
//!   everything" path.
//! - a **deep link**: NetGuard only opens the right Windows Settings page;
//!   [`deep_link_outcome`] words the result.

use crate::checks::lookup_last;
use crate::checks::persistence::{run_key_paths, run_key_paths_spec};
use crate::text::{chars_of, concat2, concat3, in_list, lower_in, lower_seq, push_str, same_text, str_texts, string_of_all};
use vstd::prelude::*;

verus! {

pub struct OutcomeText {
    pub success: bool,
    pub message: Seq<char>,
}

/// What a remediation request came to.
#[derive(Debug, Clone)]
pub struct RemediationOutcome {
    pub success: bool,
    pub message: String,
}

impl DeepView for RemediationOutcome {
    type V = OutcomeText;

    open spec fn deep_view(&self) -> OutcomeText {
        OutcomeText { success: self.success, message: self.message@ }
    }
}

pub open spec fn ok_text(m: Seq<char>) -> OutcomeText {
    OutcomeText { success: true, message: m }
}

pub open spec fn fail_text(m: Seq<char>) -> OutcomeText {
    OutcomeText { success: false, message: m }
}

impl RemediationOutcome {
    pub fn ok(message: String) -> (r: RemediationOutcome)
        ensures
            r.deep_view() == ok_text(message@),
    {
        RemediationOutcome { success: true, message }
    }

    pub fn fail(message: String) -> (r: RemediationOutcome)
        ensures
            r.deep_view() == fail_text(message@),
    {
        RemediationOutcome { success: false, message }
    }
}

pub enum PlanModel {
    EnableFirewallProfile { profile: Seq<char> },
    DeleteRunValue { hive: Seq<char>, path: Seq<char>, value_name: Seq<char> },
    DisableRdp,
}

/// A checked direct fix, ready to be carried out:
/// - `EnableFirewallProfile`: `netsh advfirewall set <profile>profile state on`;
/// - `DeleteRunValue`: delete one named value from one of the `Run`/`RunOnce`
///   keys of `HKCU` or `HKLM`;
/// - `DisableRdp`: set `fDenyTSConnections = 1` under
///   `HKLM\SYSTEM\CurrentControlSet\Control\Terminal Server`.
#[derive(Debug, Clone)]
pub enum FixPlan {
    EnableFirewallProfile { profile: String },
    DeleteRunValue { hive: String, path: String, value_name: String },
    DisableRdp,
}

impl DeepView for FixPlan {
    type V = PlanModel;

    open spec fn deep_view(&self) -> PlanModel {
        match self {
            FixPlan::EnableFirewallProfile { profile } => PlanModel::EnableFirewallProfile { profile: profile@ },
            FixPlan::DeleteRunValue { hive, path, value_name } => PlanModel::DeleteRunValue {
                hive: hive@,
                path: path@,
                value_name: value_name@,
            },
            FixPlan::DisableRdp => PlanModel::DisableRdp,
        }
    }
}

/// How carrying a plan out failed: opening the registry key, or making the
/// change itself (for the firewall, running `netsh`).
#[derive(Debug, Clone)]
pub enum FixFailure {
    Open(String),
    Change(String),
}

pub open spec fn failure_text(f: FixFailure) -> Seq<char> {
    match f {
        FixFailure::Open(e) => e@,
        FixFailure::Change(e) => e@,
    }
}

/// The model of a plan or refusal.
pub open spec fn plan_view(r: Result<FixPlan, RemediationOutcome>) -> Result<PlanModel, OutcomeText> {
    match r {
        Ok(p) => Ok(p.deep_view()),
        Err(o) => Err(o.deep_view()),
    }
}

pub open spec fn firewall_profiles() -> Seq<Seq<char>> {
    seq!["domain"@, "private"@, "public"@]
}

/// The firewall request: a `profile` parameter that, lower-cased, names one
/// of the three profiles.
pub open spec fn firewall_plan(params: Seq<(Seq<char>, Seq<char>)>) -> Result<PlanModel, OutcomeText> {
    match lookup_last(params, "profile"@) {
        None => Err(fail_text("Missing 'profile' parameter."@)),
        Some(p) => {
            let profile = lower_seq(p);
            if firewall_profiles().contains(profile) {
                Ok(PlanModel::EnableFirewallProfile { profile })
            } else {
                Err(fail_text("Unknown firewall profile '"@ + profile + "'."@))
            }
        },
    }
}

/// The startup-entry request: `hive`, `path` and `valueName` parameters,
/// the path one of the two keys the persistence check reads, the hive
/// `HKCU` or `HKLM`.
pub open spec fn delete_plan(params: Seq<(Seq<char>, Seq<char>)>) -> Result<PlanModel, OutcomeText> {
    match (lookup_last(params, "hive"@), lookup_last(params, "path"@), lookup_last(params, "valueName"@)) {
        (Some(hive), Some(path), Some(value_name)) => if !run_key_paths_spec().contains(path) {
            Err(fail_text("Refusing to modify a registry path outside the known Run/RunOnce keys."@))
        } else if hive == "HKCU"@ || hive == "HKLM"@ {
            Ok(PlanModel::DeleteRunValue { hive, path, value_name })
        } else {
            Err(fail_text("Unknown registry hive '"@ + hive + "'."@))
        },
        _ => Err(fail_text("Missing 'hive', 'path', or 'valueName' parameter."@)),
    }
}

/// The plan for a direct-fix request, or its refusal: only the three known
/// actions can give a plan.
pub open spec fn fix_plan(action_id: Seq<char>, params: Seq<(Seq<char>, Seq<char>)>) -> Result<PlanModel, OutcomeText> {
    if action_id == "firewall_enable_profile"@ {
        firewall_plan(params)
    } else if action_id == "persistence_delete_run_value"@ {
        delete_plan(params)
    } else if action_id == "rdp_disable"@ {
        Ok(PlanModel::DisableRdp)
    } else {
        Err(fail_text("Unknown remediation action '"@ + action_id + "'."@))
    }
}

fn param<'a>(params: &'a Vec<(String, String)>, name: &str) -> (r: Option<&'a String>)
    ensures
        r.deep_view() == lookup_last(params.deep_view(), name@),
{
    let mut i = params.len();
    assert(params.deep_view().take(i as int) =~= params.deep_view());
    while i > 0
        invariant
            i <= params@.len(),
            lookup_last(params.deep_view(), name@) == lookup_last(params.deep_view().take(i as int), name@),
        decreases i,
    {
        let ghost t = params.deep_view().take(i as int);
        assert(t.drop_last() =~= params.deep_view().take(i - 1));
        assert(t.last() == params@[i - 1].deep_view());
        if same_text(params[i - 1].0.as_str(), name) {
            return Some(&params[i - 1].1);
        }
        i = i - 1;
    }
    None
}

/// `netsh advfirewall set <profile>profile state on`, for a known profile.
pub fn enable_firewall_profile(params: &Vec<(String, String)>) -> (r: Result<FixPlan, RemediationOutcome>)
    ensures
        plan_view(r) == firewall_plan(params.deep_view()),
{
    let profile = match param(params, "profile") {
        Some(p) => {
            let v = chars_of(p.as_str());
            assert(v@.subrange(0, v@.len() as int) =~= v@);
            string_of_all(&lower_in(&v, 0, v.len()))
        },
        None => {
            return Err(RemediationOutcome::fail(String::from_str("Missing 'profile' parameter.")));
        },
    };
    let known = vec!["domain", "private", "public"];
    assert(str_texts(known@) =~= firewall_profiles());
    if !in_list(&known, profile.as_str()) {
        return Err(RemediationOutcome::fail(concat3("Unknown firewall profile '", profile.as_str(), "'.")));
    }
    Ok(FixPlan::EnableFirewallProfile { profile })
}

/// Deletes exactly one named value from exactly one of the two Run/RunOnce
/// keys the persistence check reads - never the whole key, never an
/// arbitrary registry path.
pub fn delete_run_value(params: &Vec<(String, String)>) -> (r: Result<FixPlan, RemediationOutcome>)
    ensures
        plan_view(r) == delete_plan(params.deep_view()),
{
    let (hive, path, value_name) = match (param(params, "hive"), param(params, "path"), param(params, "valueName")) {
        (Some(h), Some(p), Some(n)) => (h, p, n),
        _ => {
            return Err(RemediationOutcome::fail(String::from_str("Missing 'hive', 'path', or 'valueName' parameter.")));
        },
    };
    let allowed = run_key_paths();
    if !in_list(&allowed, path.as_str()) {
        return Err(RemediationOutcome::fail(String::from_str("Refusing to modify a registry path outside the known Run/RunOnce keys.")));
    }
    if same_text(hive.as_str(), "HKCU") || same_text(hive.as_str(), "HKLM") {
        Ok(FixPlan::DeleteRunValue { hive: hive.clone(), path: path.clone(), value_name: value_name.clone() })
    } else {
        Err(RemediationOutcome::fail(concat3("Unknown registry hive '", hive.as_str(), "'.")))
    }
}

/// Disabling Remote Desktop needs no parameter.
pub fn disable_rdp() -> (r: Result<FixPlan, RemediationOutcome>)
    ensures
        plan_view(r) == Ok::<PlanModel, OutcomeText>(PlanModel::DisableRdp),
{
    Ok(FixPlan::DisableRdp)
}

/// The plan for a direct-fix request, or why it is refused. Only the
/// whitelisted actions can be planned, a firewall plan only ever names one
/// of the three profiles, and a startup-entry plan only ever a value of
/// the `Run`/`RunOnce` keys of `HKCU` or `HKLM`.
pub fn run_direct_fix(action_id: &str, params: &Vec<(String, String)>) -> (r: Result<FixPlan, RemediationOutcome>)
    ensures
        plan_view(r) == fix_plan(action_id@, params.deep_view()),
        r is Ok ==> action_id@ == "firewall_enable_profile"@ || action_id@ == "persistence_delete_run_value"@
            || action_id@ == "rdp_disable"@,
        r matches Ok(FixPlan::EnableFirewallProfile { profile }) ==> firewall_profiles().contains(profile@),
        r matches Ok(FixPlan::DeleteRunValue { hive, path, .. }) ==> run_key_paths_spec().contains(path@) && (
        hive@ == "HKCU"@ || hive@ == "HKLM"@),
        r is Err ==> !r->Err_0.success,
{
    if same_text(action_id, "firewall_enable_profile") {
        enable_firewall_profile(params)
    } else if same_text(action_id, "persistence_delete_run_value") {
        delete_run_value(params)
    } else if same_text(action_id, "rdp_disable") {
        disable_rdp()
    } else {
        Err(RemediationOutcome::fail(concat3("Unknown remediation action '", action_id, "'.")))
    }
}

/// The words for what carrying a plan out came to.
pub open spec fn plan_outcome(plan: PlanModel, result: Result<(), FixFailure>) -> OutcomeText {
    match plan {
        PlanModel::EnableFirewallProfile { profile } => match result {
            Ok(_) => ok_text("Turned on the "@ + profile + " firewall profile."@),
            Err(f) => fail_text(
                "Could not enable the "@ + profile
                    + " firewall profile (insufficient privileges or netsh unavailable): "@ + failure_text(f),
            ),
        },
        PlanModel::DeleteRunValue { hive, path, value_name } => match result {
            Ok(_) => ok_text("Removed startup entry '"@ + value_name + "' from "@ + hive + "\\"@ + path + "."@),
            Err(FixFailure::Change(e)) => fail_text(
                "Could not remove '"@ + value_name + "' (insufficient privileges, or it was already removed): "@
                    + e@,
            ),
            Err(FixFailure::Open(e)) => fail_text(
                "Could not open "@ + hive + "\\"@ + path + " (insufficient privileges): "@ + e@,
            ),
        },
        PlanModel::DisableRdp => match result {
            Ok(_) => ok_text("Remote Desktop has been disabled."@),
            Err(FixFailure::Change(e)) => fail_text(
                "Could not disable Remote Desktop (insufficient privileges - try running NetGuard as an administrator): "@
                    + e@,
            ),
            Err(FixFailure::Open(e)) => fail_text(
                "Could not open the Terminal Server registry key (insufficient privileges - try running NetGuard as an administrator): "@
                    + e@,
            ),
        },
    }
}

impl FixPlan {
    /// What carrying this plan out came to: success exactly when it worked.
    pub fn outcome(&self, result: Result<(), FixFailure>) -> (r: RemediationOutcome)
        ensures
            r.deep_view() == plan_outcome(self.deep_view(), result),
            r.success == result is Ok,
    {
        match self {
            FixPlan::EnableFirewallProfile { profile } => match result {
                Ok(_) => RemediationOutcome::ok(concat3("Turned on the ", profile.as_str(), " firewall profile.")),
                Err(f) => {
                    let e = match f {
                        FixFailure::Open(e) => e,
                        FixFailure::Change(e) => e,
                    };
                    let mut m = concat3(
                        "Could not enable the ",
                        profile.as_str(),
                        " firewall profile (insufficient privileges or netsh unavailable): ",
                    );
                    push_str(&mut m, e.as_str());
                    RemediationOutcome::fail(m)
                },
            },
            FixPlan::DeleteRunValue { hive, path, value_name } => match result {
                Ok(_) => {
                    let mut m = concat3("Removed startup entry '", value_name.as_str(), "' from ");
                    push_str(&mut m, hive.as_str());
                    push_str(&mut m, "\\");
                    push_str(&mut m, path.as_str());
                    push_str(&mut m, ".");
                    RemediationOutcome::ok(m)
                },
                Err(FixFailure::Change(e)) => {
                    let mut m = concat3(
                        "Could not remove '",
                        value_name.as_str(),
                        "' (insufficient privileges, or it was already removed): ",
                    );
                    push_str(&mut m, e.as_str());
                    RemediationOutcome::fail(m)
                },
                Err(FixFailure::Open(e)) => {
                    let mut m = concat3("Could not open ", hive.as_str(), "\\");
                    push_str(&mut m, path.as_str());
                    push_str(&mut m, " (insufficient privileges): ");
                    push_str(&mut m, e.as_str());
                    RemediationOutcome::fail(m)
                },
            },
            FixPlan::DisableRdp => match result {
                Ok(_) => RemediationOutcome::ok(String::from_str("Remote Desktop has been disabled.")),
                Err(FixFailure::Change(e)) => RemediationOutcome::fail(
                    concat2(
                        "Could not disable Remote Desktop (insufficient privileges - try running NetGuard as an administrator): ",
                        e.as_str(),
                    ),
                ),
                Err(FixFailure::Open(e)) => RemediationOutcome::fail(
                    concat2(
                        "Could not open the Terminal Server registry key (insufficient privileges - try running NetGuard as an administrator): ",
                        e.as_str(),
                    ),
                ),
            },
        }
    }
}

/// What opening a settings page came to.
pub fn deep_link_outcome(uri: &str, result: Result<(), String>) -> (r: RemediationOutcome)
    ensures
        r.deep_view() == match result {
            Ok(_) => ok_text("Opened "@ + uri@ + "."@),
            Err(e) => fail_text("Could not open "@ + uri@ + ": "@ + e@),
        },
{
    match result {
        Ok(_) => RemediationOutcome::ok(concat3("Opened ", uri, ".")),
        Err(e) => {
            let mut m = concat3("Could not open ", uri, ": ");
            push_str(&mut m, e.as_str());
            RemediationOutcome::fail(m)
        },
    }
}

} // verus!
