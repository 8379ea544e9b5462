# netguard

NetGuard is a Windows security diagnostic tool: seventeen rule-based checks
of network, process, persistence and system posture, a per-check permission
model (Allowed / Denied / Ask every time), a scan history, HTML/PDF/JSON
reports and a few safe one-click fixes. It is not an antivirus.

This crate is the NetGuard library, written in Verus: every check's parsing
and judgement, the permission rules, the scan session, the history, the
report content and the remediation whitelist are executable Rust with
`requires`/`ensures` contracts proved by Verus.

## Layout

- `src/` - the verified library.
  - `checks/` - one module per check; each `run` takes the command output,
    registry values or process table it needs as plain values.
  - `scan.rs` - the scan session (which checks run, in which order, under
    which permission) and the overall rollup.
  - `permissions.rs`, `history.rs`, `background.rs` - stored preferences,
    the scan history (newest first, capped) and the background timer's rule.
  - `export.rs`, `pdf.rs` - the HTML report and the PDF report's lines.
  - `remediation.rs` - which fixes may run, on which inputs.
  - `text.rs` - string helpers shared by the parsers.
- `tests/` - tests of the library.
- `app/` - the Tauri desktop application around the library: commands,
  persistence through `tauri-plugin-store`, running system commands,
  registry and WinVerifyTrust calls, PDF drawing and the background timer.
