//! Rule-based security diagnostics: parsers for Windows tool output, the
//! per-check evaluation rules, the permission state machine, scan history
//! and report preparation.

pub mod background;
pub mod checks;
pub mod commands;
pub mod export;
pub mod history;
pub mod notifications;
pub mod pdf;
pub mod permissions;
pub mod remediation;
pub mod scan;
pub mod sysutil;
pub mod text;
