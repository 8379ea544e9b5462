//! Wording of the notification shown when a background scan completes.

use crate::checks::Severity;
use crate::scan::ScanCompleteEvent;
use crate::text::{concat2, concat3, decimal, push_str, count_string};
use vstd::prelude::*;

verus! {

/// Event emitted to the frontend when a background scan completes, so the
/// UI can route straight to that scan's result.
pub const EVENT_BACKGROUND_SCAN_COMPLETE: &'static str = "netguard://background-scan-complete";

/// The title of the notification.
pub const NOTIFICATION_TITLE: &'static str = "NetGuard background scan complete";

pub open spec fn headline(s: Severity) -> Seq<char> {
    match s {
        Severity::Okay => "No issues found"@,
        Severity::Caution => "Caution: some findings need review"@,
        Severity::AtRisk => "At risk: findings need your attention"@,
    }
}

pub fn severity_label(severity: Severity) -> (r: &'static str)
    ensures
        r@ == headline(severity),
{
    match severity {
        Severity::Okay => "No issues found",
        Severity::Caution => "Caution: some findings need review",
        Severity::AtRisk => "At risk: findings need your attention",
    }
}

/// The body of the notification for a finished scan: the overall result and
/// how many of the checks ran.
pub fn notification_body(complete: &ScanCompleteEvent) -> (r: String)
    ensures
        r@ == headline(complete.overall_severity) + " - based on "@ + decimal(complete.executed_count as nat)
            + " of "@ + decimal(complete.total_count as nat) + " checks."@,
{
    let mut r = concat2(severity_label(complete.overall_severity), " - based on ");
    push_str(&mut r, count_string(complete.executed_count).as_str());
    push_str(&mut r, " of ");
    push_str(&mut r, count_string(complete.total_count).as_str());
    push_str(&mut r, " checks.");
    r
}

} // verus!
