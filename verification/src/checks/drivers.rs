//! Driver anomaly check.
//!
//! Data source: `driverquery /fo csv /v` for the loaded-driver list, plus
//! Authenticode signature verification for each driver's on-disk path via
//! the Win32 `WinVerifyTrust` API, whose return code is handed in. An
//! unsigned/invalid signature is the primary `AtRisk` signal; a driver
//! loaded from outside the expected system directories is a secondary
//! `Caution`-level signal.

use super::{
    finding, make_result, max_severity, result_model, CheckKind, CheckResult, CheckResultModel, Finding,
    FindingModel, Severity,
};
use super::dns_gateway::str_result;
use crate::text::{
    chars_of, concat2, contains, contains_lower_in, count_string, decimal, eq_lower_in, find_char_in,
    line_ranges, lines, lower_seq, ranges_text, split, split_in, string_of, trim, trim_in, valid_ranges, collect,
};
use vstd::prelude::*;

verus! {

pub struct DriverAnomalyCheck;

pub const DATA_SOURCE: &'static str = "driverquery /fo csv /v; WinVerifyTrust (Authenticode signature check)";

#[derive(Debug, Clone, Copy, PartialEq, Eq, Structural)]
pub enum SignatureStatus {
    /// `WinVerifyTrust` returned success (`ERROR_SUCCESS`) for a valid,
    /// trusted Authenticode signature chain.
    Trusted,
    /// `WinVerifyTrust` was called and returned a non-success result - the
    /// file is unsigned, the signature doesn't validate, or the chain isn't
    /// trusted.
    Untrusted,
    /// Signature verification wasn't attempted - `driverquery` reported only
    /// a bare filename with no resolvable directory, so there's no path to
    /// verify. Not treated as a risk signal either way.
    Unknown,
}

impl DeepView for SignatureStatus {
    type V = SignatureStatus;

    open spec fn deep_view(&self) -> SignatureStatus {
        *self
    }
}

pub struct DriverModel {
    pub name: Seq<char>,
    pub path: Seq<char>,
}

#[derive(Debug, Clone)]
pub struct DriverInfo {
    pub name: String,
    pub path: String,
}

impl DeepView for DriverInfo {
    type V = DriverModel;

    open spec fn deep_view(&self) -> DriverModel {
        DriverModel { name: self.name@, path: self.path@ }
    }
}

// ---------------------------------------------------------------------------
// CSV parsing
// ---------------------------------------------------------------------------

pub open spec fn strip_start_quotes(s: Seq<char>) -> Seq<char>
    decreases s.len(),
{
    if s.len() > 0 && s[0] == '"' {
        strip_start_quotes(s.drop_first())
    } else {
        s
    }
}

pub open spec fn strip_end_quotes(s: Seq<char>) -> Seq<char>
    decreases s.len(),
{
    if s.len() > 0 && s.last() == '"' {
        strip_end_quotes(s.drop_last())
    } else {
        s
    }
}

/// `str::trim_matches('"')`.
pub open spec fn strip_quotes(s: Seq<char>) -> Seq<char> {
    strip_end_quotes(strip_start_quotes(s))
}

/// The fields of one line of `driverquery /fo csv`: split at `","`, with
/// the surrounding quotes removed.
pub open spec fn csv_fields(line: Seq<char>) -> Seq<Seq<char>> {
    let parts = split(line, "\",\""@);
    Seq::new(parts.len(), |i: int| strip_quotes(parts[i]))
}

/// The first position of `x` in `s`.
pub open spec fn position(s: Seq<Seq<char>>, x: Seq<char>) -> Option<int>
    decreases s.len(),
{
    if s.len() == 0 {
        None
    } else {
        match position(s.drop_last(), x) {
            Some(i) => Some(i),
            None => if s.last() == x {
                Some(s.len() - 1)
            } else {
                None
            },
        }
    }
}

/// One data row: the trimmed name and path columns, when the row has both
/// and neither is empty.
pub open spec fn driver_row(line: Seq<char>, ni: int, pi: int) -> Option<DriverModel> {
    let cols = csv_fields(line);
    let hi = if ni >= pi { ni } else { pi };
    if cols.len() <= hi {
        None
    } else {
        let name = trim(cols[ni]);
        let path = trim(cols[pi]);
        if name.len() == 0 || path.len() == 0 {
            None
        } else {
            Some(DriverModel { name, path })
        }
    }
}

/// The drivers listed by `driverquery /fo csv /v`: the header row names
/// the `Module Name` and `Path` columns (in any case); without either
/// there are none.
pub open spec fn parse_driverquery_spec(output: Seq<char>) -> Seq<DriverModel> {
    let ls = lines(output);
    if ls.len() == 0 {
        seq![]
    } else {
        let h = csv_fields(ls[0]);
        let headers = Seq::new(h.len(), |i: int| lower_seq(h[i]));
        match (position(headers, "module name"@), position(headers, "path"@)) {
            (Some(ni), Some(pi)) => collect(ls.drop_first(), |l: Seq<char>| driver_row(l, ni, pi)),
            _ => seq![],
        }
    }
}

fn strip_quotes_in(v: &Vec<char>, lo: usize, hi: usize) -> (r: (usize, usize))
    requires
        lo <= hi <= v.len(),
    ensures
        lo <= r.0 <= r.1 <= hi,
        v@.subrange(r.0 as int, r.1 as int) == strip_quotes(v@.subrange(lo as int, hi as int)),
{
    let mut a = lo;
    while a < hi && v[a] == '"'
        invariant
            lo <= a <= hi <= v.len(),
            strip_start_quotes(v@.subrange(lo as int, hi as int)) == strip_start_quotes(
                v@.subrange(a as int, hi as int),
            ),
        decreases hi - a,
    {
        assert(v@.subrange(a as int, hi as int).drop_first() =~= v@.subrange(a + 1, hi as int));
        a = a + 1;
    }
    let mut b = hi;
    while b > a && v[b - 1] == '"'
        invariant
            lo <= a <= b <= hi <= v.len(),
            strip_quotes(v@.subrange(lo as int, hi as int)) == strip_end_quotes(v@.subrange(a as int, b as int)),
        decreases b - a,
    {
        assert(v@.subrange(a as int, b as int).drop_last() =~= v@.subrange(a as int, b - 1));
        b = b - 1;
    }
    (a, b)
}

/// The ranges of the fields of the line `v[lo..hi)`.
fn field_ranges(v: &Vec<char>, lo: usize, hi: usize, sep: &Vec<char>) -> (r: Vec<(usize, usize)>)
    requires
        lo <= hi <= v.len(),
        sep@ == "\",\""@,
    ensures
        valid_ranges(v@, r@),
        ranges_text(v@, r@) == csv_fields(v@.subrange(lo as int, hi as int)),
{
    proof {
        reveal_strlit("\",\"");
    }
    let parts = split_in(v, lo, hi, sep);
    let ghost ps = split(v@.subrange(lo as int, hi as int), sep@);
    let mut r: Vec<(usize, usize)> = Vec::new();
    let mut k: usize = 0;
    while k < parts.len()
        invariant
            k <= parts@.len(),
            valid_ranges(v@, parts@),
            ranges_text(v@, parts@) == ps,
            valid_ranges(v@, r@),
            r@.len() == k,
            forall|i: int| 0 <= i < k ==> range_text_of(v@, #[trigger] r@[i]) == strip_quotes(ps[i]),
        decreases parts@.len() - k,
    {
        let (a, b) = parts[k];
        assert(ps[k as int] == v@.subrange(a as int, b as int));
        let q = strip_quotes_in(v, a, b);
        r.push(q);
        k = k + 1;
    }
    assert(ranges_text(v@, r@) =~= csv_fields(v@.subrange(lo as int, hi as int)));
    r
}

pub open spec fn range_text_of(v: Seq<char>, r: (usize, usize)) -> Seq<char> {
    v.subrange(r.0 as int, r.1 as int)
}

/// The first column of `cols` whose lower-cased text is `pat`.
fn header_position(v: &Vec<char>, cols: &Vec<(usize, usize)>, pat: &Vec<char>) -> (r: Option<usize>)
    requires
        valid_ranges(v@, cols@),
    ensures
        match r {
            Some(i) => i < cols@.len() && position(
                Seq::new(cols@.len(), |i: int| lower_seq(ranges_text(v@, cols@)[i])),
                pat@,
            ) == Some(i as int),
            None => position(Seq::new(cols@.len(), |i: int| lower_seq(ranges_text(v@, cols@)[i])), pat@)
                is None,
        },
{
    let ghost hs = Seq::new(cols@.len(), |i: int| lower_seq(ranges_text(v@, cols@)[i]));
    let mut found: Option<usize> = None;
    let mut k: usize = 0;
    while k < cols.len()
        invariant
            k <= cols@.len(),
            valid_ranges(v@, cols@),
            hs == Seq::new(cols@.len(), |i: int| lower_seq(ranges_text(v@, cols@)[i])),
            match found {
                Some(i) => i < k && position(hs.take(k as int), pat@) == Some(i as int),
                None => position(hs.take(k as int), pat@) is None,
            },
        decreases cols@.len() - k,
    {
        assert(hs.take(k + 1).drop_last() =~= hs.take(k as int));
        let (a, b) = cols[k];
        assert(hs.take(k + 1).last() == lower_seq(v@.subrange(a as int, b as int)));
        if found.is_none() && eq_lower_in(v, a, b, pat) {
            found = Some(k);
        }
        k = k + 1;
    }
    assert(hs.take(k as int) =~= hs);
    found
}

pub fn parse_driverquery_csv(output: &str) -> (drivers: Vec<DriverInfo>)
    ensures
        drivers.deep_view() == parse_driverquery_spec(output@),
{
    let v = chars_of(output);
    let ls = line_ranges(&v);
    let mut drivers: Vec<DriverInfo> = Vec::new();
    if ls.len() == 0 {
        assert(drivers.deep_view() =~= seq![]);
        return drivers;
    }
    let sep = chars_of("\",\"");
    let ghost all = lines(v@);
    let (h0, h1) = ls[0];
    assert(all[0] == v@.subrange(h0 as int, h1 as int));
    let header = field_ranges(&v, h0, h1, &sep);
    let ghost hs = Seq::new(header@.len(), |i: int| lower_seq(ranges_text(v@, header@)[i]));
    let ghost h = csv_fields(all[0]);
    assert(hs =~= Seq::new(h.len(), |i: int| lower_seq(h[i])));
    let name_idx = match header_position(&v, &header, &chars_of("module name")) {
        Some(i) => i,
        None => {
            assert(drivers.deep_view() =~= seq![]);
            return drivers;
        },
    };
    let path_idx = match header_position(&v, &header, &chars_of("path")) {
        Some(i) => i,
        None => {
            assert(drivers.deep_view() =~= seq![]);
            return drivers;
        },
    };
    let ghost rest = all.drop_first();
    let hi = if name_idx >= path_idx { name_idx } else { path_idx };
    let mut k: usize = 1;
    while k < ls.len()
        invariant
            1 <= k <= ls@.len(),
            valid_ranges(v@, ls@),
            ranges_text(v@, ls@) == all,
            all == lines(v@),
            v@ == output@,
            rest == all.drop_first(),
            sep@ == "\",\""@,
            hi == if name_idx >= path_idx { name_idx } else { path_idx },
            drivers.deep_view() == collect(
                rest.take(k - 1),
                |l: Seq<char>| driver_row(l, name_idx as int, path_idx as int),
            ),
        decreases ls@.len() - k,
    {
        assert(rest.take(k as int).drop_last() =~= rest.take(k - 1));
        assert(rest.take(k as int).last() == all[k as int]);
        let (a, b) = ls[k];
        assert(all[k as int] == v@.subrange(a as int, b as int));
        let cols = field_ranges(&v, a, b, &sep);
        let ghost cs = csv_fields(all[k as int]);
        let ghost before = drivers.deep_view();
        if cols.len() > hi {
            let (na, nb) = cols[name_idx];
            let (pa, pb) = cols[path_idx];
            assert(cs[name_idx as int] == v@.subrange(na as int, nb as int));
            assert(cs[path_idx as int] == v@.subrange(pa as int, pb as int));
            let (na2, nb2) = trim_in(&v, na, nb);
            let (pa2, pb2) = trim_in(&v, pa, pb);
            if na2 < nb2 && pa2 < pb2 {
                drivers.push(DriverInfo { name: string_of(&v, na2, nb2), path: string_of(&v, pa2, pb2) });
                assert(drivers.deep_view() =~= before + seq![
                    driver_row(all[k as int], name_idx as int, path_idx as int)->0
                ]);
            } else {
                assert(drivers.deep_view() =~= before + seq![]);
            }
        } else {
            assert(drivers.deep_view() =~= before + seq![]);
        }
        k = k + 1;
    }
    assert(rest.take(k - 1) =~= rest);
    drivers
}

// ---------------------------------------------------------------------------
// Signatures and locations
// ---------------------------------------------------------------------------

/// Where drivers normally live: the system driver directories, or a bare
/// file name (which `driverquery` reports for built-in drivers).
pub open spec fn expected_location(path: Seq<char>) -> bool {
    let lower = lower_seq(path);
    contains(lower, "\\system32\\drivers\\"@) || contains(lower, "\\syswow64\\drivers\\"@) || contains(
        lower,
        "\\system32\\"@,
    ) || !contains(lower, seq!['\\'])
}

fn is_expected_location(path: &str) -> (b: bool)
    ensures
        b == expected_location(path@),
{
    let v = chars_of(path);
    assert(v@.subrange(0, v@.len() as int) =~= v@);
    let bs = vec!['\\'];
    assert(bs@ =~= seq!['\\']);
    contains_lower_in(&v, 0, v.len(), &chars_of("\\system32\\drivers\\")) || contains_lower_in(
        &v,
        0,
        v.len(),
        &chars_of("\\syswow64\\drivers\\"),
    ) || contains_lower_in(&v, 0, v.len(), &chars_of("\\system32\\")) || !contains_lower_in(
        &v,
        0,
        v.len(),
        &bs,
    )
}

pub open spec fn interpret_code(code: i32) -> SignatureStatus {
    if code == 0 {
        SignatureStatus::Trusted
    } else {
        SignatureStatus::Untrusted
    }
}

/// Interprets a raw `WinVerifyTrust` return code (a Win32 `LONG`). `0`
/// (`ERROR_SUCCESS`) means a trusted, valid Authenticode signature; any
/// other value means the signature didn't validate.
pub fn interpret_verify_trust_result(code: i32) -> (s: SignatureStatus)
    ensures
        s == interpret_code(code),
{
    if code == 0 {
        SignatureStatus::Trusted
    } else {
        SignatureStatus::Untrusted
    }
}

/// Whether a path names a directory (and so can be handed to
/// `WinVerifyTrust`).
pub fn has_resolvable_path(path: &str) -> (b: bool)
    ensures
        b == contains(path@, seq!['\\']),
{
    let v = chars_of(path);
    assert(v@.subrange(0, v@.len() as int) =~= v@);
    find_char_in(&v, 0, v.len(), '\\').is_some()
}

pub open spec fn signature_status(path: Seq<char>, code: Option<i32>) -> SignatureStatus {
    if !contains(path, seq!['\\']) {
        SignatureStatus::Unknown
    } else {
        match code {
            Some(c) => interpret_code(c),
            None => SignatureStatus::Unknown,
        }
    }
}

/// The signature status of a driver file: `Unknown` for a bare file name
/// (there is nothing to verify) or when no `WinVerifyTrust` code could be
/// obtained, else the interpretation of the code.
pub fn verify_file_signature(path: &str, trust_code: Option<i32>) -> (s: SignatureStatus)
    ensures
        s == signature_status(path@, trust_code),
{
    if !has_resolvable_path(path) {
        return SignatureStatus::Unknown;
    }
    match trust_code {
        Some(c) => interpret_verify_trust_result(c),
        None => SignatureStatus::Unknown,
    }
}

// ---------------------------------------------------------------------------
// Evaluation
// ---------------------------------------------------------------------------

pub open spec fn driver_eval(d: DriverModel, s: SignatureStatus) -> (Severity, Seq<FindingModel>) {
    match s {
        SignatureStatus::Untrusted => (
            Severity::AtRisk,
            seq![finding(d.name + " has an invalid/missing signature"@, d.path)],
        ),
        _ => if !expected_location(d.path) {
            (Severity::Caution, seq![finding(d.name + " in unusual location"@, d.path)])
        } else {
            (Severity::Okay, seq![])
        },
    }
}

pub open spec fn drivers_fold(ds: Seq<(DriverModel, SignatureStatus)>) -> (Severity, Seq<FindingModel>)
    decreases ds.len(),
{
    if ds.len() == 0 {
        (Severity::Okay, seq![])
    } else {
        let p = drivers_fold(ds.drop_last());
        let e = driver_eval(ds.last().0, ds.last().1);
        (max_severity(p.0, e.0), p.1 + e.1)
    }
}

pub open spec fn count_unknown(ds: Seq<(DriverModel, SignatureStatus)>) -> nat
    decreases ds.len(),
{
    if ds.len() == 0 {
        0
    } else {
        count_unknown(ds.drop_last()) + if ds.last().1 == SignatureStatus::Unknown {
            1nat
        } else {
            0nat
        }
    }
}

/// `AtRisk` when a signature is invalid, `Caution` when a driver sits in an
/// unusual location, else `Okay`; with a finding per flagged driver, the
/// number examined, the number that could not be verified, and a summary
/// first when nothing was flagged.
pub open spec fn drivers_spec(ds: Seq<(DriverModel, SignatureStatus)>) -> (Severity, Seq<FindingModel>) {
    let (sev, f) = drivers_fold(ds);
    let f1 = f.push(finding("Drivers examined"@, decimal(ds.len())));
    let n = count_unknown(ds);
    let f2 = if n > 0 {
        f1.push(finding("Signature not verifiable"@, decimal(n) + " driver(s) reported without a resolvable file path"@))
    } else {
        f1
    };
    if sev == Severity::Okay {
        (sev, seq![finding("Result"@, "All drivers are validly signed and in expected system directories"@)] + f2)
    } else {
        (sev, f2)
    }
}

pub fn evaluate(drivers: &Vec<(DriverInfo, SignatureStatus)>) -> (r: (Severity, Vec<Finding>))
    ensures
        (r.0, r.1.deep_view()) == drivers_spec(drivers.deep_view()),
{
    let ghost ds = drivers.deep_view();
    let mut findings: Vec<Finding> = Vec::new();
    let mut severity = Severity::Okay;
    let mut unverified: usize = 0;
    let mut k: usize = 0;
    while k < drivers.len()
        invariant
            k <= drivers@.len(),
            ds == drivers.deep_view(),
            (severity, findings.deep_view()) == drivers_fold(ds.take(k as int)),
            unverified == count_unknown(ds.take(k as int)),
            unverified <= k,
        decreases drivers@.len() - k,
    {
        assert(ds.take(k + 1).drop_last() =~= ds.take(k as int));
        assert(ds.take(k + 1).last() == ds[k as int]);
        let (d, sig) = (&drivers[k].0, drivers[k].1);
        let ghost before = findings.deep_view();
        match sig {
            SignatureStatus::Untrusted => {
                severity = Severity::AtRisk;
                findings.push(Finding::of(concat2(d.name.as_str(), " has an invalid/missing signature"), d.path.clone()));
                assert(findings.deep_view() =~= before + driver_eval(ds[k as int].0, ds[k as int].1).1);
            },
            _ => {
                if !is_expected_location(d.path.as_str()) {
                    severity = severity.max(Severity::Caution);
                    findings.push(Finding::of(concat2(d.name.as_str(), " in unusual location"), d.path.clone()));
                    assert(findings.deep_view() =~= before + driver_eval(ds[k as int].0, ds[k as int].1).1);
                } else {
                    assert(findings.deep_view() =~= before + driver_eval(ds[k as int].0, ds[k as int].1).1);
                }
            },
        }
        if sig == SignatureStatus::Unknown {
            unverified = unverified + 1;
        }
        k = k + 1;
    }
    assert(ds.take(k as int) =~= ds);
    let ghost f0 = findings.deep_view();
    findings.push(Finding::of(String::from_str("Drivers examined"), count_string(drivers.len())));
    if unverified > 0 {
        findings.push(
            Finding::of(
                String::from_str("Signature not verifiable"),
                concat2(count_string(unverified).as_str(), " driver(s) reported without a resolvable file path"),
            ),
        );
    }
    let ghost f2 = findings.deep_view();
    if severity == Severity::Okay {
        findings.insert(0, Finding::new("Result", "All drivers are validly signed and in expected system directories"));
        assert(findings.deep_view() =~= seq![
            finding("Result"@, "All drivers are validly signed and in expected system directories"@)
        ] + f2);
    }
    (severity, findings)
}

/// A signature that could not be verified is not a risk signal either way:
/// such a driver is judged exactly like one with a trusted signature.
pub proof fn law_unknown_signature_is_neutral(d: DriverModel)
    ensures
        driver_eval(d, SignatureStatus::Unknown) == driver_eval(d, SignatureStatus::Trusted),
{
}

pub open spec fn drivers_verdict(s: Severity) -> Seq<char> {
    match s {
        Severity::Okay => "All loaded drivers are validly signed and in expected system locations."@,
        Severity::Caution => "Driver(s) found outside standard system directories."@,
        Severity::AtRisk => "Driver(s) with an invalid or missing Authenticode signature were found."@,
    }
}

pub open spec fn drivers_remediation() -> Seq<char> {
    "Research each flagged driver's publisher and purpose. An unsigned or invalidly-signed driver outside System32\\drivers warrants immediate attention or a full antivirus scan."@
}

/// Each listed driver with its signature status, the `i`-th taking the
/// `i`-th `WinVerifyTrust` code (none past the end of `codes`).
pub open spec fn checked_drivers(ds: Seq<DriverModel>, codes: Seq<Option<i32>>) -> Seq<(DriverModel, SignatureStatus)> {
    Seq::new(
        ds.len(),
        |i: int|
            (ds[i], signature_status(ds[i].path, if i < codes.len() {
                codes[i]
            } else {
                None
            })),
    )
}

pub open spec fn drivers_result(out: Result<Seq<char>, Seq<char>>, codes: Seq<Option<i32>>) -> CheckResultModel {
    match out {
        Ok(o) => {
            let (sev, fs) = drivers_spec(checked_drivers(parse_driverquery_spec(o), codes));
            result_model(
                CheckKind::Drivers,
                sev,
                drivers_verdict(sev),
                fs,
                if sev != Severity::Okay { Some(drivers_remediation()) } else { None },
                DATA_SOURCE@,
                seq![],
            )
        },
        Err(e) => result_model(
            CheckKind::Drivers,
            Severity::Caution,
            "Could not enumerate drivers."@,
            seq![finding("driverquery error"@, e)],
            Some("Ensure `driverquery` is available and try again."@),
            DATA_SOURCE@,
            seq![],
        ),
    }
}

impl DriverAnomalyCheck {
    pub fn id(&self) -> (r: &'static str)
        ensures
            r@ == CheckKind::Drivers.spec_id(),
    {
        CheckKind::Drivers.id()
    }

    pub fn name(&self) -> (r: &'static str)
        ensures
            r@ == CheckKind::Drivers.spec_name(),
    {
        CheckKind::Drivers.name()
    }

    /// Evaluates the output of `driverquery /fo csv /v` (or the error
    /// running it), given the `WinVerifyTrust` code obtained for each parsed
    /// driver in order (`None` where the call was not made).
    pub fn run(&self, output: Result<String, String>, trust_codes: Vec<Option<i32>>) -> (r: CheckResult)
        ensures
            r.deep_view() == drivers_result(str_result(output), trust_codes@),
    {
        let raw_keys: Vec<String> = Vec::new();
        assert(raw_keys.deep_view() =~= seq![]);
        let ghost res = str_result(output);
        match output {
            Ok(out) => {
                let drivers = parse_driverquery_csv(out.as_str());
                let ghost ds = drivers.deep_view();
                let mut checked: Vec<(DriverInfo, SignatureStatus)> = Vec::new();
                let mut k: usize = 0;
                while k < drivers.len()
                    invariant
                        k <= drivers@.len(),
                        ds == drivers.deep_view(),
                        checked.deep_view() =~= checked_drivers(ds, trust_codes@).take(k as int),
                    decreases drivers@.len() - k,
                {
                    let code = if k < trust_codes.len() {
                        trust_codes[k]
                    } else {
                        None
                    };
                    let d = DriverInfo { name: drivers[k].name.clone(), path: drivers[k].path.clone() };
                    let sig = verify_file_signature(d.path.as_str(), code);
                    let ghost before = checked.deep_view();
                    checked.push((d, sig));
                    assert(checked.deep_view() =~= before.push(checked_drivers(ds, trust_codes@)[k as int]));
                    k = k + 1;
                }
                assert(checked.deep_view() =~= checked_drivers(ds, trust_codes@));
                let (severity, findings) = evaluate(&checked);
                let verdict = match severity {
                    Severity::Okay => String::from_str(
                        "All loaded drivers are validly signed and in expected system locations.",
                    ),
                    Severity::Caution => String::from_str("Driver(s) found outside standard system directories."),
                    Severity::AtRisk => String::from_str(
                        "Driver(s) with an invalid or missing Authenticode signature were found.",
                    ),
                };
                let remediation = if severity != Severity::Okay {
                    Some(String::from_str("Research each flagged driver's publisher and purpose. An unsigned or invalidly-signed driver outside System32\\drivers warrants immediate attention or a full antivirus scan."))
                } else {
                    None
                };
                assert(res == Ok::<Seq<char>, Seq<char>>(out@));
                make_result(CheckKind::Drivers, severity, verdict, findings, remediation, DATA_SOURCE, raw_keys)
            },
            Err(e) => {
                let ghost em = e@;
                let findings = vec![Finding::of(String::from_str("driverquery error"), e)];
                assert(findings.deep_view() =~= seq![finding("driverquery error"@, em)]);
                make_result(
                    CheckKind::Drivers,
                    Severity::Caution,
                    String::from_str("Could not enumerate drivers."),
                    findings,
                    Some(String::from_str("Ensure `driverquery` is available and try again.")),
                    DATA_SOURCE,
                    raw_keys,
                )
            },
        }
    }
}

} // verus!
