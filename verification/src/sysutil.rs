//! What running a Windows command-line tool came to.
//!
//! Tools are always run with a fixed argv; whatever happens, the caller
//! gets a `Result` (stdout on success, a human-readable message otherwise)
//! instead of a panic.

use crate::text::{chars_of, concat3, decimal, decimal_string, push_str, string_of, trim, trim_in};
use vstd::prelude::*;

verus! {

/// `{:?}` of an `Option<i32>` exit code.
pub open spec fn debug_code(code: Option<i32>) -> Seq<char> {
    match code {
        Some(c) => "Some("@ + (if c < 0 {
            "-"@ + decimal((-c) as nat)
        } else {
            decimal(c as nat)
        }) + ")"@,
        None => "None"@,
    }
}

pub open spec fn command_result_spec(program: Seq<char>, success: bool, code: Option<i32>, stdout: Seq<char>, stderr: Seq<char>) -> Result<Seq<char>, Seq<char>> {
    if !success && trim(stdout).len() == 0 {
        Err("`"@ + program + "` exited with "@ + debug_code(code) + ": "@ + trim(stderr))
    } else {
        Ok(stdout)
    }
}

fn debug_code_string(code: Option<i32>) -> (r: String)
    ensures
        r@ == debug_code(code),
{
    match code {
        Some(c) => {
            let mut r = String::from_str("Some(");
            if c < 0 {
                push_str(&mut r, "-");
                let m: u64 = (-(c as i64)) as u64;
                push_str(&mut r, decimal_string(m).as_str());
            } else {
                push_str(&mut r, decimal_string(c as u64).as_str());
            }
            push_str(&mut r, ")");
            r
        },
        None => String::from_str("None"),
    }
}

/// The message for a tool that could not be launched.
pub fn launch_failure(program: &str, error: &str) -> (r: String)
    ensures
        r@ == "failed to launch `"@ + program@ + "`: "@ + error@,
{
    let mut r = concat3("failed to launch `", program, "`: ");
    push_str(&mut r, error);
    r
}

/// The result of a tool that ran: its stdout, unless it exited
/// unsuccessfully with nothing (but white space) on stdout, in which case
/// a message naming the program, its exit code and its trimmed stderr.
pub fn command_outcome(program: &str, success: bool, code: Option<i32>, stdout: String, stderr: &str) -> (r: Result<
    String,
    String,
>)
    ensures
        crate::checks::dns_gateway::str_result(r) == command_result_spec(program@, success, code, stdout@, stderr@),
{
    let v = chars_of(stdout.as_str());
    assert(v@.subrange(0, v@.len() as int) =~= v@);
    let (a, b) = trim_in(&v, 0, v.len());
    if !success && a == b {
        let e = chars_of(stderr);
        assert(e@.subrange(0, e@.len() as int) =~= e@);
        let (ea, eb) = trim_in(&e, 0, e.len());
        let mut m = concat3("`", program, "` exited with ");
        push_str(&mut m, debug_code_string(code).as_str());
        push_str(&mut m, ": ");
        push_str(&mut m, string_of(&e, ea, eb).as_str());
        return Err(m);
    }
    Ok(stdout)
}

} // verus!
