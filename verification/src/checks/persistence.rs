//! Startup / persistence entries check.
//!
//! Data sources: the registry `Run`/`RunOnce` keys under
//! `HKCU\Software\Microsoft\Windows\CurrentVersion\` and
//! `HKLM\SOFTWARE\Microsoft\Windows\CurrentVersion\` (whose values are
//! handed in), plus scheduled tasks via `schtasks /query /fo CSV /v`. Flags
//! entries pointing at Temp paths.

use super::{
    finding, finding_with, lookup_last, diff_base, make_result, max_severity, result_model, ActionModel, CheckKind,
    CheckResult, CheckResultModel, Finding, FindingModel, RemediationAction, ScanContext, Severity,
};
use super::dns_gateway::str_result;
use super::drivers::position;
use super::process_baseline::{is_temp_path, temp_path};
use crate::text::{
    chars_of, collect, concat2, concat3, count_string, decimal, eq_lower_in, find, find_char_in, has_string,
    lemma_texts_deep_view, line_ranges, lines, lower_seq, push_str, range_of, ranges_text, same_text, split,
    split_in, string_of, strip_chars_in, strip_end_char, strip_start_char, texts, trim, trim_in, valid_ranges,
};
use vstd::prelude::*;

verus! {

pub struct PersistenceCheck;

pub const DATA_SOURCE: &'static str = "HKCU/HKLM ...\\CurrentVersion\\Run(Once); schtasks /query /fo CSV /v";

/// The autostart keys read under both `HKCU` and `HKLM`.
pub open spec fn run_key_paths_spec() -> Seq<Seq<char>> {
    seq!["Software\\Microsoft\\Windows\\CurrentVersion\\Run"@, "Software\\Microsoft\\Windows\\CurrentVersion\\RunOnce"@]
}

pub fn run_key_paths() -> (v: Vec<&'static str>)
    ensures
        crate::text::str_texts(v@) == run_key_paths_spec(),
{
    let v = vec!["Software\\Microsoft\\Windows\\CurrentVersion\\Run", "Software\\Microsoft\\Windows\\CurrentVersion\\RunOnce"];
    assert(crate::text::str_texts(v@) =~= run_key_paths_spec());
    v
}

pub struct EntryModel {
    pub source: Seq<char>,
    pub name: Seq<char>,
    pub command: Seq<char>,
}

#[derive(Debug, Clone)]
pub struct PersistenceEntry {
    pub source: String,
    pub name: String,
    pub command: String,
}

impl DeepView for PersistenceEntry {
    type V = EntryModel;

    open spec fn deep_view(&self) -> EntryModel {
        EntryModel { source: self.source@, name: self.name@, command: self.command@ }
    }
}

/// The entry for one value of a `Run`/`RunOnce` key, its source being the
/// hive label and the key's path.
pub fn run_key_entry(hive_label: &str, subkey: &str, name: String, command: String) -> (e: PersistenceEntry)
    ensures
        e.deep_view() == (EntryModel { source: hive_label@ + "\\"@ + subkey@, name: name@, command: command@ }),
{
    PersistenceEntry { source: concat3(hive_label, "\\", subkey), name, command }
}

// ---------------------------------------------------------------------------
// schtasks CSV
// ---------------------------------------------------------------------------

/// One field: trimmed, then surrounding quotes removed.
pub open spec fn task_field(s: Seq<char>) -> Seq<char> {
    strip_end_char(strip_start_char(trim(s), '"'), '"')
}

/// The fields of one line of `schtasks /fo CSV`, split at `,`.
pub open spec fn task_fields(line: Seq<char>) -> Seq<Seq<char>> {
    let parts = split(line, seq![',']);
    Seq::new(parts.len(), |i: int| task_field(parts[i]))
}

pub open spec fn task_row(line: Seq<char>, ni: int, ai: int) -> Option<EntryModel> {
    let cols = task_fields(line);
    let hi = if ni >= ai { ni } else { ai };
    if cols.len() <= hi {
        None
    } else {
        let name = trim(cols[ni]);
        let command = trim(cols[ai]);
        if name.len() == 0 || command.len() == 0 || lower_seq(name) == "taskname"@ {
            None
        } else {
            Some(EntryModel { source: "Scheduled Task"@, name, command })
        }
    }
}

/// The tasks listed by `schtasks /query /fo CSV /v`: the header row names
/// the `TaskName` and `Task To Run` columns (in any case); repeated header
/// rows are skipped.
pub open spec fn parse_tasks_spec(output: Seq<char>) -> Seq<EntryModel> {
    let ls = lines(output);
    if ls.len() == 0 {
        seq![]
    } else {
        let h = task_fields(ls[0]);
        let headers = Seq::new(h.len(), |i: int| lower_seq(h[i]));
        match (position(headers, "taskname"@), position(headers, "task to run"@)) {
            (Some(ni), Some(ai)) => collect(ls.drop_first(), |l: Seq<char>| task_row(l, ni, ai)),
            _ => seq![],
        }
    }
}

fn task_field_ranges(v: &Vec<char>, lo: usize, hi: usize) -> (r: Vec<(usize, usize)>)
    requires
        lo <= hi <= v.len(),
    ensures
        valid_ranges(v@, r@),
        ranges_text(v@, r@) == task_fields(v@.subrange(lo as int, hi as int)),
{
    let comma = vec![','];
    assert(comma@ =~= seq![',']);
    let parts = split_in(v, lo, hi, &comma);
    let ghost ps = split(v@.subrange(lo as int, hi as int), seq![',']);
    let mut r: Vec<(usize, usize)> = Vec::new();
    let mut k: usize = 0;
    while k < parts.len()
        invariant
            k <= parts@.len(),
            valid_ranges(v@, parts@),
            ranges_text(v@, parts@) == ps,
            valid_ranges(v@, r@),
            r@.len() == k,
            forall|i: int| 0 <= i < k ==> range_of(v@, #[trigger] r@[i]) == task_field(ps[i]),
        decreases parts@.len() - k,
    {
        let (a, b) = parts[k];
        assert(ps[k as int] == v@.subrange(a as int, b as int));
        let (ta, tb) = trim_in(v, a, b);
        let q = strip_chars_in(v, ta, tb, '"', '"');
        r.push(q);
        k = k + 1;
    }
    assert(ranges_text(v@, r@) =~= task_fields(v@.subrange(lo as int, hi as int)));
    r
}

fn header_index(v: &Vec<char>, cols: &Vec<(usize, usize)>, pat: &Vec<char>) -> (r: Option<usize>)
    requires
        valid_ranges(v@, cols@),
    ensures
        match r {
            Some(i) => i < cols@.len() && position(
                Seq::new(cols@.len(), |i: int| lower_seq(ranges_text(v@, cols@)[i])),
                pat@,
            ) == Some(i as int),
            None => position(Seq::new(cols@.len(), |i: int| lower_seq(ranges_text(v@, cols@)[i])), pat@)
                is None,
        },
{
    let ghost hs = Seq::new(cols@.len(), |i: int| lower_seq(ranges_text(v@, cols@)[i]));
    let mut found: Option<usize> = None;
    let mut k: usize = 0;
    while k < cols.len()
        invariant
            k <= cols@.len(),
            valid_ranges(v@, cols@),
            hs == Seq::new(cols@.len(), |i: int| lower_seq(ranges_text(v@, cols@)[i])),
            match found {
                Some(i) => i < k && position(hs.take(k as int), pat@) == Some(i as int),
                None => position(hs.take(k as int), pat@) is None,
            },
        decreases cols@.len() - k,
    {
        assert(hs.take(k + 1).drop_last() =~= hs.take(k as int));
        let (a, b) = cols[k];
        assert(hs.take(k + 1).last() == lower_seq(v@.subrange(a as int, b as int)));
        if found.is_none() && eq_lower_in(v, a, b, pat) {
            found = Some(k);
        }
        k = k + 1;
    }
    assert(hs.take(k as int) =~= hs);
    found
}

/// Parses `schtasks /query /fo CSV /v` output into (task name, action /
/// "Task To Run") pairs. Defensive against the header row and quoting.
pub fn parse_scheduled_tasks_csv(output: &str) -> (entries: Vec<PersistenceEntry>)
    ensures
        entries.deep_view() == parse_tasks_spec(output@),
{
    let v = chars_of(output);
    let ls = line_ranges(&v);
    let mut entries: Vec<PersistenceEntry> = Vec::new();
    if ls.len() == 0 {
        assert(entries.deep_view() =~= seq![]);
        return entries;
    }
    let ghost all = lines(v@);
    let (h0, h1) = ls[0];
    assert(all[0] == v@.subrange(h0 as int, h1 as int));
    let header = task_field_ranges(&v, h0, h1);
    let ghost hs = Seq::new(header@.len(), |i: int| lower_seq(ranges_text(v@, header@)[i]));
    let ghost h = task_fields(all[0]);
    assert(hs =~= Seq::new(h.len(), |i: int| lower_seq(h[i])));
    let name_idx = match header_index(&v, &header, &chars_of("taskname")) {
        Some(i) => i,
        None => {
            assert(entries.deep_view() =~= seq![]);
            return entries;
        },
    };
    let action_idx = match header_index(&v, &header, &chars_of("task to run")) {
        Some(i) => i,
        None => {
            assert(entries.deep_view() =~= seq![]);
            return entries;
        },
    };
    let p_taskname = chars_of("taskname");
    let ghost rest = all.drop_first();
    let hi = if name_idx >= action_idx { name_idx } else { action_idx };
    let mut k: usize = 1;
    while k < ls.len()
        invariant
            1 <= k <= ls@.len(),
            valid_ranges(v@, ls@),
            ranges_text(v@, ls@) == all,
            all == lines(v@),
            v@ == output@,
            rest == all.drop_first(),
            p_taskname@ == "taskname"@,
            hi == if name_idx >= action_idx { name_idx } else { action_idx },
            entries.deep_view() == collect(
                rest.take(k - 1),
                |l: Seq<char>| task_row(l, name_idx as int, action_idx as int),
            ),
        decreases ls@.len() - k,
    {
        assert(rest.take(k as int).drop_last() =~= rest.take(k - 1));
        assert(rest.take(k as int).last() == all[k as int]);
        let (a, b) = ls[k];
        assert(all[k as int] == v@.subrange(a as int, b as int));
        let cols = task_field_ranges(&v, a, b);
        let ghost cs = task_fields(all[k as int]);
        let ghost before = entries.deep_view();
        if cols.len() > hi {
            let (na, nb) = cols[name_idx];
            let (ca, cb) = cols[action_idx];
            assert(cs[name_idx as int] == v@.subrange(na as int, nb as int));
            assert(cs[action_idx as int] == v@.subrange(ca as int, cb as int));
            let (na2, nb2) = trim_in(&v, na, nb);
            let (ca2, cb2) = trim_in(&v, ca, cb);
            if na2 < nb2 && ca2 < cb2 && !eq_lower_in(&v, na2, nb2, &p_taskname) {
                entries.push(
                    PersistenceEntry {
                        source: String::from_str("Scheduled Task"),
                        name: string_of(&v, na2, nb2),
                        command: string_of(&v, ca2, cb2),
                    },
                );
                assert(entries.deep_view() =~= before + seq![
                    task_row(all[k as int], name_idx as int, action_idx as int)->0
                ]);
            } else {
                assert(entries.deep_view() =~= before + seq![]);
            }
        } else {
            assert(entries.deep_view() =~= before + seq![]);
        }
        k = k + 1;
    }
    assert(rest.take(k - 1) =~= rest);
    entries
}

// ---------------------------------------------------------------------------
// Evaluation
// ---------------------------------------------------------------------------

pub open spec fn key_of(e: EntryModel) -> Seq<char> {
    e.source + "|"@ + e.name + "|"@ + e.command
}

/// A stable identifier for a persistence entry, used for next-scan baseline
/// diffing: `source|name|command`, which changes if any of the three change
/// (a renamed/re-pathed entry is treated as "new").
pub fn raw_key(e: &PersistenceEntry) -> (k: String)
    ensures
        k@ == key_of(e.deep_view()),
{
    let mut k = concat3(e.source.as_str(), "|", e.name.as_str());
    push_str(&mut k, "|");
    push_str(&mut k, e.command.as_str());
    k
}

/// A registry entry (source `HKCU\...` or `HKLM\...`) gets an action that
/// removes its value; a scheduled task none.
pub open spec fn delete_action(e: EntryModel) -> Option<ActionModel> {
    match find(e.source, seq!['\\']) {
        Some(i) => {
            let hive = e.source.subrange(0, i);
            let path = e.source.subrange(i + 1, e.source.len() as int);
            if hive == "HKCU"@ || hive == "HKLM"@ {
                Some(
                    ActionModel::DirectFix {
                        action_id: "persistence_delete_run_value"@,
                        label: "Remove '"@ + e.name + "' from startup"@,
                        params: seq![("hive"@, hive), ("path"@, path), ("valueName"@, e.name)],
                    },
                )
            } else {
                None
            }
        },
        None => None,
    }
}

pub open spec fn entry_finding(e: EntryModel, is_new: bool) -> FindingModel {
    let label = if is_new {
        e.name + " ("@ + e.source + ") - new since last scan"@
    } else {
        e.name + " ("@ + e.source + ")"@
    };
    let detail = if is_new {
        "Newly appeared, launching from a Temp directory: "@ + e.command
    } else {
        "Launches from a Temp directory: "@ + e.command
    };
    FindingModel { label, detail, action: delete_action(e) }
}

pub open spec fn is_new_entry(e: EntryModel, prev: Option<Seq<Seq<char>>>) -> bool {
    match prev {
        Some(keys) => !keys.contains(key_of(e)),
        None => false,
    }
}

pub open spec fn persistence_fold(es: Seq<EntryModel>, prev: Option<Seq<Seq<char>>>) -> (Severity, Seq<FindingModel>)
    decreases es.len(),
{
    if es.len() == 0 {
        (Severity::Okay, seq![])
    } else {
        let r = persistence_fold(es.drop_last(), prev);
        let e = es.last();
        if !temp_path(e.command) {
            r
        } else {
            let is_new = is_new_entry(e, prev);
            (
                max_severity(r.0, if is_new { Severity::AtRisk } else { Severity::Caution }),
                r.1.push(entry_finding(e, is_new)),
            )
        }
    }
}

pub open spec fn persistence_spec(es: Seq<EntryModel>, prev: Option<Seq<Seq<char>>>) -> (Severity, Seq<FindingModel>) {
    let (sev, f) = persistence_fold(es, prev);
    let f1 = f.push(finding("Startup entries examined"@, decimal(es.len())));
    if sev == Severity::Okay {
        (sev, seq![finding("Result"@, "No startup entries pointing at Temp locations"@)] + f1)
    } else {
        (sev, f1)
    }
}

fn delete_action_of(e: &PersistenceEntry) -> (r: Option<RemediationAction>)
    ensures
        r.deep_view() == delete_action(e.deep_view()),
{
    let v = chars_of(e.source.as_str());
    assert(v@.subrange(0, v@.len() as int) =~= v@);
    match find_char_in(&v, 0, v.len(), '\\') {
        Some(i) => {
            let hive = string_of(&v, 0, i);
            let path = string_of(&v, i + 1, v.len());
            if same_text(hive.as_str(), "HKCU") || same_text(hive.as_str(), "HKLM") {
                let mut params: Vec<(String, String)> = Vec::new();
                params.push((String::from_str("hive"), hive));
                params.push((String::from_str("path"), path));
                params.push((String::from_str("valueName"), e.name.clone()));
                let ghost pm = params.deep_view();
                assert(pm =~= seq![
                    ("hive"@, e.source@.subrange(0, i as int)),
                    ("path"@, e.source@.subrange(i + 1, e.source@.len() as int)),
                    ("valueName"@, e.name@),
                ]);
                Some(
                    RemediationAction::DirectFix {
                        action_id: String::from_str("persistence_delete_run_value"),
                        label: concat3("Remove '", e.name.as_str(), "' from startup"),
                        params,
                    },
                )
            } else {
                None
            }
        },
        None => None,
    }
}

/// `previous_keys` is `None` on the first-ever scan. When present, an entry
/// whose key wasn't seen last scan is "new since last scan," which
/// escalates a Temp-path finding from `Caution` to `AtRisk`.
pub fn evaluate(entries: &Vec<PersistenceEntry>, previous_keys: Option<&Vec<String>>) -> (r: (Severity, Vec<Finding>))
    ensures
        (r.0, r.1.deep_view()) == persistence_spec(
            entries.deep_view(),
            match previous_keys {
                Some(keys) => Some(texts(keys@)),
                None => None,
            },
        ),
{
    let ghost es = entries.deep_view();
    let ghost prev = match previous_keys {
        Some(keys) => Some(texts(keys@)),
        None => None::<Seq<Seq<char>>>,
    };
    let mut severity = Severity::Okay;
    let mut findings: Vec<Finding> = Vec::new();
    let mut k: usize = 0;
    while k < entries.len()
        invariant
            k <= entries@.len(),
            es == entries.deep_view(),
            prev == match previous_keys {
                Some(keys) => Some(texts(keys@)),
                None => None::<Seq<Seq<char>>>,
            },
            (severity, findings.deep_view()) == persistence_fold(es.take(k as int), prev),
        decreases entries@.len() - k,
    {
        assert(es.take(k + 1).drop_last() =~= es.take(k as int));
        assert(es.take(k + 1).last() == es[k as int]);
        let e = &entries[k];
        let ghost before = findings.deep_view();
        if is_temp_path(e.command.as_str()) {
            let is_new = match previous_keys {
                Some(prev_keys) => !has_string(prev_keys, raw_key(e).as_str()),
                None => false,
            };
            let label = if is_new {
                let mut l = concat3(e.name.as_str(), " (", e.source.as_str());
                push_str(&mut l, ") - new since last scan");
                l
            } else {
                let mut l = concat3(e.name.as_str(), " (", e.source.as_str());
                push_str(&mut l, ")");
                l
            };
            let detail = if is_new {
                concat2("Newly appeared, launching from a Temp directory: ", e.command.as_str())
            } else {
                concat2("Launches from a Temp directory: ", e.command.as_str())
            };
            findings.push(Finding { label, detail, action: delete_action_of(e) });
            if is_new {
                severity = Severity::AtRisk;
            } else {
                severity = severity.max(Severity::Caution);
            }
            assert(findings.deep_view() =~= before.push(entry_finding(es[k as int], is_new)));
        }
        k = k + 1;
    }
    assert(es.take(k as int) =~= es);
    findings.push(Finding::of(String::from_str("Startup entries examined"), count_string(entries.len())));
    if severity == Severity::Okay {
        let ghost f1 = findings.deep_view();
        findings.insert(0, Finding::new("Result", "No startup entries pointing at Temp locations"));
        assert(findings.deep_view() =~= seq![
            finding("Result"@, "No startup entries pointing at Temp locations"@)
        ] + f1);
    }
    (severity, findings)
}

proof fn lemma_fold_known(es: Seq<EntryModel>, keys: Seq<Seq<char>>)
    requires
        forall|i: int| 0 <= i < es.len() ==> keys.contains(#[trigger] key_of(es[i])),
    ensures
        persistence_fold(es, Some(keys)) == persistence_fold(es, None),
    decreases es.len(),
{
    if es.len() > 0 {
        assert forall|i: int| 0 <= i < es.drop_last().len() implies keys.contains(
            #[trigger] key_of(es.drop_last()[i]),
        ) by {
            assert(es.drop_last()[i] == es[i]);
            assert(keys.contains(key_of(es[i])));
        }
        lemma_fold_known(es.drop_last(), keys);
        assert(keys.contains(key_of(es[es.len() - 1])));
        assert(!is_new_entry(es.last(), Some(keys)));
    }
}

/// When every entry was already present at the previous scan, the result
/// is the same as on a first-ever scan (no previous keys).
pub proof fn law_known_entries_as_first_scan(es: Seq<EntryModel>, keys: Seq<Seq<char>>)
    requires
        forall|i: int| 0 <= i < es.len() ==> keys.contains(#[trigger] key_of(es[i])),
    ensures
        persistence_spec(es, Some(keys)) == persistence_spec(es, None),
{
    lemma_fold_known(es, keys);
}

/// An entry launching from Temp that was not present at the previous scan
/// makes the result `AtRisk`, and its finding says it is new.
pub proof fn law_new_temp_entry_escalates(es: Seq<EntryModel>, keys: Seq<Seq<char>>)
    requires
        es.len() > 0,
        temp_path(es.last().command),
        !keys.contains(key_of(es.last())),
    ensures
        persistence_spec(es, Some(keys)).0 == Severity::AtRisk,
        persistence_fold(es, Some(keys)).1.last() == entry_finding(es.last(), true),
{
}

pub open spec fn persistence_verdict(s: Severity) -> Seq<char> {
    match s {
        Severity::Okay => "No startup/persistence entries pointing at unusual locations."@,
        Severity::Caution => "Startup or scheduled task entries launching from Temp were found."@,
        Severity::AtRisk => "New startup entries strongly indicating tampering were found since the last scan."@,
    }
}

/// The entries examined: the registry entries, then the scheduled tasks
/// (none when `schtasks` could not be run).
pub open spec fn all_entries(registry: Seq<EntryModel>, tasks: Result<Seq<char>, Seq<char>>) -> Seq<EntryModel> {
    match tasks {
        Ok(o) => registry + parse_tasks_spec(o),
        Err(_) => registry,
    }
}

pub open spec fn persistence_result(
    registry: Seq<EntryModel>,
    tasks: Result<Seq<char>, Seq<char>>,
    previous: Seq<(Seq<char>, Seq<Seq<char>>)>,
) -> CheckResultModel {
    let es = all_entries(registry, tasks);
    let (sev, fs) = persistence_spec(es, diff_base(previous, CheckKind::Persistence.spec_id()));
    result_model(
        CheckKind::Persistence,
        sev,
        persistence_verdict(sev),
        fs,
        if sev != Severity::Okay {
            Some("Open Task Manager's Startup tab or Task Scheduler, confirm you recognize each flagged entry, and remove any you don't."@)
        } else {
            None
        },
        DATA_SOURCE@,
        Seq::new(es.len(), |i: int| key_of(es[i])),
    )
}

/// An empty entry for this check among the previous scan's keys means
/// nothing to diff against: the result is the one of a first-ever scan.
pub proof fn law_empty_previous_entry_is_first_scan(
    registry: Seq<EntryModel>,
    tasks: Result<Seq<char>, Seq<char>>,
    previous: Seq<(Seq<char>, Seq<Seq<char>>)>,
)
    requires
        lookup_last(previous, CheckKind::Persistence.spec_id()) == Some(Seq::<Seq<char>>::empty()),
    ensures
        persistence_result(registry, tasks, previous) == persistence_result(registry, tasks, Seq::empty()),
{
}

impl PersistenceCheck {
    pub fn id(&self) -> (r: &'static str)
        ensures
            r@ == CheckKind::Persistence.spec_id(),
    {
        CheckKind::Persistence.id()
    }

    pub fn name(&self) -> (r: &'static str)
        ensures
            r@ == CheckKind::Persistence.spec_name(),
    {
        CheckKind::Persistence.name()
    }

    /// Evaluates the registry `Run`/`RunOnce` entries and the output of
    /// `schtasks` (its failure only leaves the tasks out) against the keys
    /// the previous scan recorded for this check.
    pub fn run(&self, ctx: &ScanContext, registry: Vec<PersistenceEntry>, schtasks: Result<String, String>) -> (r:
        CheckResult)
        ensures
            r.deep_view() == persistence_result(
                registry.deep_view(),
                str_result(schtasks),
                ctx.previous_raw_keys.deep_view(),
            ),
    {
        let ghost reg = registry.deep_view();
        let mut entries = registry;
        match schtasks {
            Ok(output) => {
                let mut tasks = parse_scheduled_tasks_csv(output.as_str());
                entries.append(&mut tasks);
            },
            Err(_) => {},
        }
        assert(entries.deep_view() =~= all_entries(reg, str_result(schtasks)));
        let previous_keys = ctx.previous_keys(CheckKind::Persistence.id());
        proof {
            match previous_keys {
                Some(keys) => lemma_texts_deep_view(*keys),
                None => {},
            }
        }
        let (severity, findings) = evaluate(&entries, previous_keys);
        let verdict = match severity {
            Severity::Okay => String::from_str("No startup/persistence entries pointing at unusual locations."),
            Severity::Caution => String::from_str("Startup or scheduled task entries launching from Temp were found."),
            Severity::AtRisk => String::from_str(
                "New startup entries strongly indicating tampering were found since the last scan.",
            ),
        };
        let remediation = if severity != Severity::Okay {
            Some(String::from_str("Open Task Manager's Startup tab or Task Scheduler, confirm you recognize each flagged entry, and remove any you don't."))
        } else {
            None
        };
        let ghost es = entries.deep_view();
        let mut raw_keys: Vec<String> = Vec::new();
        let mut k: usize = 0;
        while k < entries.len()
            invariant
                k <= entries@.len(),
                es == entries.deep_view(),
                raw_keys.deep_view() =~= Seq::new(k as nat, |i: int| key_of(es[i])),
            decreases entries@.len() - k,
        {
            let key = raw_key(&entries[k]);
            let ghost before = raw_keys.deep_view();
            raw_keys.push(key);
            assert(raw_keys.deep_view() =~= before.push(key_of(es[k as int])));
            k = k + 1;
        }
        make_result(CheckKind::Persistence, severity, verdict, findings, remediation, DATA_SOURCE, raw_keys)
    }
}

} // verus!
