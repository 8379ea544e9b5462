//! Windows Update / patch currency check.
//!
//! Data source: PowerShell `Get-HotFix | Sort-Object InstalledOn -Descending
//! | Select-Object -First 1`. Dates are handled as Unix timestamps (seconds,
//! UTC); parsing and formatting them is left to `chrono`.

use super::{
    finding, finding_with, make_result, result_model, ActionModel, CheckKind, CheckResult, CheckResultModel,
    Finding, FindingModel, RemediationAction, Severity,
};
use super::dns_gateway::str_result;
use crate::text::{
    chars_of, concat3, decimal, find, find_char_in, is_ws, line_ranges, lines, lower_in, lower_seq, ranges_text,
    starts_with, starts_with_in, string_of, trim, trim_in, trim_start, valid_ranges,
};
use vstd::prelude::*;

verus! {

pub open spec fn update_action() -> FindingModel {
    finding_with(
        "Fix this"@,
        "Open Windows Update to check for and install pending updates."@,
        ActionModel::DeepLink { uri: "ms-settings:windowsupdate"@, label: "Open Windows Update"@ },
    )
}

fn open_windows_update_action() -> (f: Finding)
    ensures
        f.deep_view() == update_action(),
{
    Finding::with_action(
        "Fix this",
        "Open Windows Update to check for and install pending updates.",
        RemediationAction::DeepLink {
            uri: String::from_str("ms-settings:windowsupdate"),
            label: String::from_str("Open Windows Update"),
        },
    )
}

pub struct WindowsUpdateCheck;

pub const DATA_SOURCE: &'static str = "PowerShell Get-HotFix | Sort-Object InstalledOn -Descending | Select-Object -First 1";

pub const CAUTION_DAYS: i64 = 30;

pub const AT_RISK_DAYS: i64 = 90;

pub const SECONDS_PER_DAY: i64 = 86400;

// ---------------------------------------------------------------------------
// chrono
// ---------------------------------------------------------------------------

/// What `NaiveDateTime::parse_from_str(value, fmt)` gives, as a Unix
/// timestamp; `None` when `value` does not match `fmt`.
pub uninterp spec fn chrono_parse_datetime(value: Seq<char>, fmt: Seq<char>) -> Option<i64>;

/// What `NaiveDate::parse_from_str(value, fmt)` gives, at midnight, as a
/// Unix timestamp; `None` when `value` does not match `fmt`.
pub uninterp spec fn chrono_parse_date(value: Seq<char>, fmt: Seq<char>) -> Option<i64>;

/// What `DateTime::from_timestamp(ts, 0)` formatted with `fmt` gives.
pub uninterp spec fn chrono_format(ts: i64, fmt: Seq<char>) -> Seq<char>;

/// Calls `chrono::NaiveDateTime::parse_from_str` and takes the result's
/// Unix timestamp (`and_utc().timestamp()`). The result is named by
/// `chrono_parse_datetime`; nothing more of chrono's format grammar is
/// stated.
#[verifier::external_body]
fn parse_datetime(value: &str, fmt: &str) -> (r: Option<i64>)
    ensures
        r == chrono_parse_datetime(value@, fmt@),
{
    match chrono::NaiveDateTime::parse_from_str(value, fmt) {
        Ok(dt) => Some(dt.and_utc().timestamp()),
        Err(_) => None,
    }
}

/// Calls `chrono::NaiveDate::parse_from_str`, then `and_hms_opt(0, 0, 0)`
/// and the Unix timestamp of that. The result is named by
/// `chrono_parse_date`.
#[verifier::external_body]
fn parse_date(value: &str, fmt: &str) -> (r: Option<i64>)
    ensures
        r == chrono_parse_date(value@, fmt@),
{
    match chrono::NaiveDate::parse_from_str(value, fmt) {
        Ok(d) => d.and_hms_opt(0, 0, 0).map(|dt| dt.and_utc().timestamp()),
        Err(_) => None,
    }
}

/// Calls `chrono::DateTime::from_timestamp(ts, 0)` and formats the result
/// with `fmt` (an empty text for a timestamp outside chrono's range). The
/// result is named by `chrono_format`. `fmt` is the one format this library
/// uses, `%Y-%m-%d`: an invalid format would make `to_string` panic.
#[verifier::external_body]
fn format_timestamp(ts: i64, fmt: &str) -> (r: String)
    requires
        fmt@ == "%Y-%m-%d"@,
    ensures
        r@ == chrono_format(ts, fmt@),
{
    match chrono::DateTime::from_timestamp(ts, 0) {
        Some(dt) => dt.format(fmt).to_string(),
        None => String::new(),
    }
}

// ---------------------------------------------------------------------------
// Parsing
// ---------------------------------------------------------------------------

/// The first line that holds a `:`, with the position of its first `:`.
pub open spec fn first_colon_line(ls: Seq<Seq<char>>) -> Option<(Seq<char>, int)>
    decreases ls.len(),
{
    if ls.len() == 0 {
        None
    } else {
        match find(ls[0], seq![':']) {
            Some(i) => Some((ls[0], i)),
            None => first_colon_line(ls.drop_first()),
        }
    }
}

/// The value of `InstalledOn : <date>`, when the first line holding a `:`
/// is that line.
pub open spec fn hotfix_value(output: Seq<char>) -> Option<Seq<char>> {
    match first_colon_line(lines(output)) {
        Some((line, idx)) => if starts_with(lower_seq(trim_start(line)), "installedon"@) {
            Some(trim(line.subrange(idx + 1, line.len() as int)))
        } else {
            None
        },
        None => None,
    }
}

pub open spec fn datetime_formats() -> Seq<Seq<char>> {
    seq!["%d-%b-%y %I:%M:%S %p"@, "%m/%d/%Y %I:%M:%S %p"@, "%Y-%m-%dT%H:%M:%S"@, "%m/%d/%Y %H:%M:%S"@]
}

pub open spec fn date_formats() -> Seq<Seq<char>> {
    seq!["%d-%b-%y"@, "%m/%d/%Y"@, "%Y-%m-%d"@]
}

/// The first format (in order) that `value` parses with.
pub open spec fn first_parse(value: Seq<char>, fmts: Seq<Seq<char>>, date_only: bool) -> Option<i64>
    decreases fmts.len(),
{
    if fmts.len() == 0 {
        None
    } else {
        match if date_only {
            chrono_parse_date(value, fmts[0])
        } else {
            chrono_parse_datetime(value, fmts[0])
        } {
            Some(t) => Some(t),
            None => first_parse(value, fmts.drop_first(), date_only),
        }
    }
}

/// The install date of the last hotfix: the observed locale format and a
/// couple of common fallbacks with a time, then date-only ones; `None` for
/// a missing, empty or unrecognised value.
pub open spec fn parse_hotfix_spec(output: Seq<char>) -> Option<i64> {
    match hotfix_value(output) {
        None => None,
        Some(v) => if v.len() == 0 {
            None
        } else {
            match first_parse(v, datetime_formats(), false) {
                Some(t) => Some(t),
                None => first_parse(v, date_formats(), true),
            }
        },
    }
}

fn first_parse_exec(value: &str, fmts: &Vec<&'static str>, date_only: bool) -> (r: Option<i64>)
    ensures
        r == first_parse(value@, crate::text::str_texts(fmts@), date_only),
{
    let ghost fs = crate::text::str_texts(fmts@);
    let mut k: usize = 0;
    assert(fs.subrange(0, fs.len() as int) =~= fs);
    while k < fmts.len()
        invariant
            k <= fmts@.len(),
            fs == crate::text::str_texts(fmts@),
            first_parse(value@, fs, date_only) == first_parse(value@, fs.subrange(k as int, fs.len() as int), date_only),
        decreases fmts@.len() - k,
    {
        assert(fs.subrange(k as int, fs.len() as int).drop_first() =~= fs.subrange(k + 1, fs.len() as int));
        assert(fs.subrange(k as int, fs.len() as int)[0] == fmts@[k as int]@);
        let r = if date_only {
            parse_date(value, fmts[k])
        } else {
            parse_datetime(value, fmts[k])
        };
        if r.is_some() {
            return r;
        }
        k = k + 1;
    }
    None
}

fn trim_start_in(v: &Vec<char>, lo: usize, hi: usize) -> (a: usize)
    requires
        lo <= hi <= v.len(),
    ensures
        lo <= a <= hi,
        v@.subrange(a as int, hi as int) == trim_start(v@.subrange(lo as int, hi as int)),
{
    let mut a = lo;
    while a < hi && crate::text::is_ws_char(v[a])
        invariant
            lo <= a <= hi <= v.len(),
            trim_start(v@.subrange(lo as int, hi as int)) == trim_start(v@.subrange(a as int, hi as int)),
        decreases hi - a,
    {
        assert(v@.subrange(a as int, hi as int).drop_first() =~= v@.subrange(a + 1, hi as int));
        a = a + 1;
    }
    a
}

/// The range of the first line of `v` holding a `:`, with the position of
/// that `:`.
fn first_colon(v: &Vec<char>, ls: &Vec<(usize, usize)>) -> (r: Option<(usize, usize, usize)>)
    requires
        valid_ranges(v@, ls@),
        ranges_text(v@, ls@) == lines(v@),
    ensures
        match r {
            Some((a, b, idx)) => a <= idx < b <= v@.len() && first_colon_line(lines(v@)) == Some(
                (v@.subrange(a as int, b as int), idx - a),
            ),
            None => first_colon_line(lines(v@)) is None,
        },
{
    let ghost all = lines(v@);
    let mut k: usize = 0;
    assert(all.subrange(0, all.len() as int) =~= all);
    while k < ls.len()
        invariant
            k <= ls@.len(),
            valid_ranges(v@, ls@),
            ranges_text(v@, ls@) == all,
            all == lines(v@),
            first_colon_line(all) == first_colon_line(all.subrange(k as int, all.len() as int)),
        decreases ls@.len() - k,
    {
        let ghost rest = all.subrange(k as int, all.len() as int);
        assert(rest.drop_first() =~= all.subrange(k + 1, all.len() as int));
        assert(rest[0] == all[k as int]);
        let (a, b) = ls[k];
        assert(all[k as int] == v@.subrange(a as int, b as int));
        match find_char_in(v, a, b, ':') {
            Some(idx) => {
                return Some((a, b, idx));
            },
            None => {},
        }
        k = k + 1;
    }
    None
}

/// Parses the `InstalledOn : <date>` line from `Get-HotFix ... | Format-List
/// InstalledOn` into a Unix timestamp. PowerShell's default date rendering
/// is locale-dependent (observed as `13-Aug-26 12:00:00 AM`); this accepts
/// that format plus a couple of common fallbacks and gives up (returns
/// `None`) rather than guessing on anything else.
pub fn parse_last_hotfix_date(output: &str) -> (r: Option<i64>)
    ensures
        r == parse_hotfix_spec(output@),
{
    let v = chars_of(output);
    let ls = line_ranges(&v);
    let ghost all = lines(v@);
    let (a, b, idx) = match first_colon(&v, &ls) {
        Some(h) => h,
        None => {
            return None;
        },
    };
    let ghost line = v@.subrange(a as int, b as int);
    let s = trim_start_in(&v, a, b);
    let lower = lower_in(&v, s, b);
    assert(lower@.subrange(0, lower@.len() as int) =~= lower@);
    if !starts_with_in(&lower, 0, lower.len(), &chars_of("installedon")) {
        return None;
    }
    assert(line.subrange(idx - a + 1, line.len() as int) =~= v@.subrange(idx + 1, b as int));
    let (va, vb) = trim_in(&v, idx + 1, b);
    if va == vb {
        return None;
    }
    let value = string_of(&v, va, vb);
    let dt_formats = vec!["%d-%b-%y %I:%M:%S %p", "%m/%d/%Y %I:%M:%S %p", "%Y-%m-%dT%H:%M:%S", "%m/%d/%Y %H:%M:%S"];
    assert(crate::text::str_texts(dt_formats@) =~= datetime_formats());
    match first_parse_exec(value.as_str(), &dt_formats, false) {
        Some(t) => Some(t),
        None => {
            let d_formats = vec!["%d-%b-%y", "%m/%d/%Y", "%Y-%m-%d"];
            assert(crate::text::str_texts(d_formats@) =~= date_formats());
            first_parse_exec(value.as_str(), &d_formats, true)
        },
    }
}

// ---------------------------------------------------------------------------
// Evaluation
// ---------------------------------------------------------------------------

/// Whole days from `then` to `now`, and zero when `then` is later.
pub open spec fn age_days(then: i64, now: i64) -> int {
    if now >= then {
        (now - then) / (SECONDS_PER_DAY as int)
    } else {
        0
    }
}

pub open spec fn update_spec(last_installed: Option<i64>, now: i64) -> (Severity, Seq<FindingModel>, Seq<char>) {
    match last_installed {
        None => (
            Severity::AtRisk,
            seq![finding("Last update installed"@, "Could not be determined"@)],
            "Could not determine when Windows Update last installed successfully."@,
        ),
        Some(dt) => {
            let age = age_days(dt, now);
            let fs = seq![
                finding("Last update installed"@, chrono_format(dt, "%Y-%m-%d"@)),
                finding("Days since last update"@, decimal(age as nat)),
            ];
            if age > AT_RISK_DAYS {
                (Severity::AtRisk, fs, "The last Windows Update was installed "@ + decimal(age as nat) + " days ago."@)
            } else if age > CAUTION_DAYS {
                (Severity::Caution, fs, "The last Windows Update was installed "@ + decimal(age as nat) + " days ago."@)
            } else {
                (Severity::Okay, fs, "Windows Update is current (last update "@ + decimal(age as nat) + " day(s) ago)."@)
            }
        },
    }
}

/// The severity for an update installed at `last_installed` (a Unix
/// timestamp; `None` when unknown), as of `now`: `AtRisk` when unknown or
/// more than `AT_RISK_DAYS` old, `Caution` when more than `CAUTION_DAYS`
/// old, else `Okay`.
pub fn evaluate(last_installed: Option<i64>, now: i64) -> (r: (Severity, Vec<Finding>, String))
    ensures
        (r.0, r.1.deep_view(), r.2@) == update_spec(last_installed, now),
{
    match last_installed {
        None => {
            let findings = vec![Finding::new("Last update installed", "Could not be determined")];
            assert(findings.deep_view() =~= seq![finding("Last update installed"@, "Could not be determined"@)]);
            (
                Severity::AtRisk,
                findings,
                String::from_str("Could not determine when Windows Update last installed successfully."),
            )
        },
        Some(dt) => {
            let diff: i128 = now as i128 - dt as i128;
            let age: u64 = if diff >= 0 {
                (diff / (SECONDS_PER_DAY as i128)) as u64
            } else {
                0
            };
            assert(age == age_days(dt, now));
            let days = crate::text::decimal_string(age);
            let findings = vec![
                Finding::of(String::from_str("Last update installed"), format_timestamp(dt, "%Y-%m-%d")),
                Finding::of(String::from_str("Days since last update"), crate::text::decimal_string(age)),
            ];
            assert(findings.deep_view() =~= update_spec(last_installed, now).1);
            if age > AT_RISK_DAYS as u64 {
                (
                    Severity::AtRisk,
                    findings,
                    concat3("The last Windows Update was installed ", days.as_str(), " days ago."),
                )
            } else if age > CAUTION_DAYS as u64 {
                (
                    Severity::Caution,
                    findings,
                    concat3("The last Windows Update was installed ", days.as_str(), " days ago."),
                )
            } else {
                (
                    Severity::Okay,
                    findings,
                    concat3("Windows Update is current (last update ", days.as_str(), " day(s) ago)."),
                )
            }
        },
    }
}

pub open spec fn update_result(out: Result<Seq<char>, Seq<char>>, now: i64) -> CheckResultModel {
    match out {
        Ok(o) => {
            let (sev, fs, verdict) = update_spec(parse_hotfix_spec(o), now);
            if sev != Severity::Okay {
                result_model(
                    CheckKind::WindowsUpdate,
                    sev,
                    verdict,
                    fs.push(update_action()),
                    Some("Open Settings > Windows Update and install any pending updates."@),
                    DATA_SOURCE@,
                    seq![],
                )
            } else {
                result_model(CheckKind::WindowsUpdate, sev, verdict, fs, None, DATA_SOURCE@, seq![])
            }
        },
        Err(e) => result_model(
            CheckKind::WindowsUpdate,
            Severity::AtRisk,
            "Could not determine Windows Update status."@,
            seq![finding("PowerShell error"@, e)],
            Some("Ensure PowerShell is available, then open Settings > Windows Update to check manually."@),
            DATA_SOURCE@,
            seq![],
        ),
    }
}

/// The result is `Okay` exactly when the last update's date is known and
/// at most `CAUTION_DAYS` old, and `AtRisk` when it is unknown or more than
/// `AT_RISK_DAYS` old.
pub proof fn law_update_thresholds(last_installed: Option<i64>, now: i64)
    ensures
        update_spec(last_installed, now).0 == Severity::Okay <==> (last_installed matches Some(t) && age_days(t, now)
            <= CAUTION_DAYS),
        update_spec(last_installed, now).0 == Severity::AtRisk <==> last_installed is None || age_days(
            last_installed->0,
            now,
        ) > AT_RISK_DAYS,
{
}

impl WindowsUpdateCheck {
    pub fn id(&self) -> (r: &'static str)
        ensures
            r@ == CheckKind::WindowsUpdate.spec_id(),
    {
        CheckKind::WindowsUpdate.id()
    }

    pub fn name(&self) -> (r: &'static str)
        ensures
            r@ == CheckKind::WindowsUpdate.spec_name(),
    {
        CheckKind::WindowsUpdate.name()
    }

    /// Evaluates the output of the `Get-HotFix` query (or the error running
    /// it) as of `now` (a Unix timestamp).
    pub fn run(&self, output: Result<String, String>, now: i64) -> (r: CheckResult)
        ensures
            r.deep_view() == update_result(str_result(output), now),
    {
        let raw_keys: Vec<String> = Vec::new();
        assert(raw_keys.deep_view() =~= seq![]);
        let ghost res = str_result(output);
        match output {
            Ok(out) => {
                let last_installed = parse_last_hotfix_date(out.as_str());
                let (severity, findings, verdict) = evaluate(last_installed, now);
                let ghost ev = update_spec(last_installed, now);
                let mut findings = findings;
                let remediation = if severity != Severity::Okay {
                    findings.push(open_windows_update_action());
                    assert(findings.deep_view() =~= ev.1.push(update_action()));
                    Some(String::from_str("Open Settings > Windows Update and install any pending updates."))
                } else {
                    None
                };
                assert(res == Ok::<Seq<char>, Seq<char>>(out@));
                make_result(CheckKind::WindowsUpdate, severity, verdict, findings, remediation, DATA_SOURCE, raw_keys)
            },
            Err(e) => {
                let ghost em = e@;
                let findings = vec![Finding::of(String::from_str("PowerShell error"), e)];
                assert(findings.deep_view() =~= seq![finding("PowerShell error"@, em)]);
                make_result(
                    CheckKind::WindowsUpdate,
                    Severity::AtRisk,
                    String::from_str("Could not determine Windows Update status."),
                    findings,
                    Some(String::from_str("Ensure PowerShell is available, then open Settings > Windows Update to check manually.")),
                    DATA_SOURCE,
                    raw_keys,
                )
            },
        }
    }
}

} // verus!
