//! Values the frontend commands compute from what they read.

use crate::text::{chars_of, trim, trim_in};
use vstd::prelude::*;

verus! {

/// The name to greet the user with: the Windows user name when it is set
/// and not blank, else "there".
pub fn greeting_name(username: Option<String>) -> (r: String)
    ensures
        r@ == match username {
            Some(u) => if trim(u@).len() > 0 {
                u@
            } else {
                "there"@
            },
            None => "there"@,
        },
{
    match username {
        Some(u) => {
            let v = chars_of(u.as_str());
            assert(v@.subrange(0, v@.len() as int) =~= v@);
            let (a, b) = trim_in(&v, 0, v.len());
            if a < b {
                u
            } else {
                String::from_str("there")
            }
        },
        None => String::from_str("there"),
    }
}

} // verus!
