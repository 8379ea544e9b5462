//! Scan history: a newest-first list of scan records, bounded in length.

use crate::checks::{CheckOutcome, Severity};
use crate::text::same_text;
use vstd::prelude::*;

verus! {

/// Keep history bounded so the stored list doesn't grow unbounded.
pub const MAX_HISTORY: usize = 100;

/// One completed scan.
#[derive(Debug, Clone)]
pub struct ScanRecord {
    pub id: String,
    /// When the scan finished, in RFC 3339 form.
    pub timestamp: String,
    pub overall_severity: Severity,
    pub executed_count: usize,
    pub total_count: usize,
    pub outcomes: Vec<CheckOutcome>,
}

/// Lightweight row for the history list view.
#[derive(Debug, Clone)]
pub struct ScanSummary {
    pub id: String,
    pub timestamp: String,
    pub overall_severity: Severity,
    pub executed_count: usize,
    pub total_count: usize,
}

impl ScanSummary {
    /// The summary of a record: every field but the outcomes.
    pub fn of(r: &ScanRecord) -> (s: ScanSummary)
        ensures
            s.id@ == r.id@,
            s.timestamp@ == r.timestamp@,
            s.overall_severity == r.overall_severity,
            s.executed_count == r.executed_count,
            s.total_count == r.total_count,
    {
        ScanSummary {
            id: r.id.clone(),
            timestamp: r.timestamp.clone(),
            overall_severity: r.overall_severity,
            executed_count: r.executed_count,
            total_count: r.total_count,
        }
    }
}

/// The history after storing `record`: newest first, at most
/// `MAX_HISTORY` records.
pub open spec fn saved(records: Seq<ScanRecord>, record: ScanRecord) -> Seq<ScanRecord> {
    let all = seq![record] + records;
    if all.len() > MAX_HISTORY {
        all.take(MAX_HISTORY as int)
    } else {
        all
    }
}

/// Stores a new record in front of the history, dropping the oldest
/// records beyond `MAX_HISTORY`.
pub fn save(records: &mut Vec<ScanRecord>, record: ScanRecord)
    ensures
        final(records)@ == saved(old(records)@, record),
{
    let ghost before = records@;
    records.insert(0, record);
    assert(records@ =~= seq![record] + before);
    if records.len() > MAX_HISTORY {
        records.truncate(MAX_HISTORY);
    }
}

/// The summaries of every stored record, in stored order.
pub fn list_summaries(records: &Vec<ScanRecord>) -> (r: Vec<ScanSummary>)
    ensures
        r@.len() == records@.len(),
        forall|k: int|
            0 <= k < r@.len() ==> (#[trigger] r@[k]).id@ == records@[k].id@ && r@[k].timestamp@
                == records@[k].timestamp@ && r@[k].overall_severity == records@[k].overall_severity
                && r@[k].executed_count == records@[k].executed_count && r@[k].total_count
                == records@[k].total_count,
{
    let mut r: Vec<ScanSummary> = Vec::new();
    let mut k: usize = 0;
    while k < records.len()
        invariant
            k <= records@.len(),
            r@.len() == k,
            forall|m: int|
                0 <= m < k ==> (#[trigger] r@[m]).id@ == records@[m].id@ && r@[m].timestamp@
                    == records@[m].timestamp@ && r@[m].overall_severity == records@[m].overall_severity
                    && r@[m].executed_count == records@[m].executed_count && r@[m].total_count
                    == records@[m].total_count,
        decreases records@.len() - k,
    {
        r.push(ScanSummary::of(&records[k]));
        k = k + 1;
    }
    r
}

/// Index of the first record with the given id.
pub open spec fn first_with_id(records: Seq<ScanRecord>, id: Seq<char>) -> Option<int>
    decreases records.len(),
{
    if records.len() == 0 {
        None
    } else if records[0].id@ == id {
        Some(0)
    } else {
        match first_with_id(records.drop_first(), id) {
            Some(i) => Some(i + 1),
            None => None,
        }
    }
}

/// The stored record with the given id (the newest one, if several).
pub fn get<'a>(records: &'a Vec<ScanRecord>, id: &str) -> (r: Option<&'a ScanRecord>)
    ensures
        r matches Some(x) ==> first_with_id(records@, id@) matches Some(i) && *x == records@[i],
        r is None ==> first_with_id(records@, id@) is None,
{
    let mut k: usize = 0;
    assert(records@.skip(0) =~= records@);
    while k < records.len()
        invariant
            k <= records@.len(),
            first_with_id(records@, id@) == (match first_with_id(records@.skip(k as int), id@) {
                Some(i) => Some(i + k),
                None => None,
            }),
        decreases records@.len() - k,
    {
        let ghost rest = records@.skip(k as int);
        assert(rest.drop_first() =~= records@.skip(k + 1));
        if same_text(records[k].id.as_str(), id) {
            return Some(&records[k]);
        }
        k = k + 1;
    }
    None
}

/// The most recently saved scan, or `None` if no scan has ever completed.
pub fn latest(records: &Vec<ScanRecord>) -> (r: Option<&ScanRecord>)
    ensures
        r matches Some(x) ==> records@.len() > 0 && *x == records@[0],
        r is None ==> records@.len() == 0,
{
    if records.len() == 0 {
        None
    } else {
        Some(&records[0])
    }
}

/// Removes every stored record.
pub fn clear(records: &mut Vec<ScanRecord>)
    ensures
        final(records)@.len() == 0,
{
    records.clear();
}

/// What a save stores is what the next read of the latest scan returns,
/// the history never holds more than `MAX_HISTORY` records, and the
/// records kept keep their newest-first order.
pub proof fn law_latest_after_save(records: Seq<ScanRecord>, record: ScanRecord)
    ensures
        saved(records, record).len() > 0,
        saved(records, record)[0] == record,
        saved(records, record).len() <= MAX_HISTORY,
        saved(records, record).len() == if records.len() + 1 > MAX_HISTORY {
            MAX_HISTORY as int
        } else {
            records.len() + 1int
        },
        forall|k: int| 1 <= k < saved(records, record).len() ==> saved(records, record)[k] == records[k - 1],
{
}

/// After a save, looking a scan up by the id of the record just saved
/// returns that record.
pub proof fn law_get_after_save(records: Seq<ScanRecord>, record: ScanRecord)
    ensures
        first_with_id(saved(records, record), record.id@) == Some(0int),
{
}

} // verus!
