use netguard::checks::rat_signatures::{evaluate, ProcessNameInfo, RatSignatureCheck};
use netguard::checks::process_baseline::ProcessInfo;
use netguard::checks::{ScanContext, Severity};

#[test]
fn detects_known_tool() {
    let procs = vec![ProcessNameInfo { pid: 1, name: "TeamViewer.exe".into() }];
    let (sev, findings) = evaluate(&procs);
    assert_eq!(sev, Severity::Caution);
    assert_eq!(findings.len(), 1);
}

#[test]
fn clean_list_is_ok() {
    let procs = vec![ProcessNameInfo { pid: 1, name: "explorer.exe".into() }];
    let (sev, _) = evaluate(&procs);
    assert_eq!(sev, Severity::Okay);
}

#[test]
fn rat_finding_wording() {
    let (_, findings) = evaluate(&vec![ProcessNameInfo { pid: 42, name: "WinVNC.exe".into() }]);
    assert_eq!(findings[0].label, "VNC Server detected");
    assert_eq!(findings[0].detail, "Process WinVNC.exe (PID 42) matches a known remote-access tool signature");
}

#[test]
fn rat_run_counts_matches_in_verdict() {
    let ctx = ScanContext::with_previous(
        vec![
            ProcessInfo { pid: 1, name: "anydesk.exe".into(), exe_path: None },
            ProcessInfo { pid: 2, name: "radmin.exe".into(), exe_path: None },
        ],
        vec![],
    );
    let r = RatSignatureCheck.run(&ctx);
    assert_eq!(r.severity, Severity::Caution);
    assert_eq!(r.verdict, "2 known remote-access tool process(es) found - confirm you installed them.");
}
