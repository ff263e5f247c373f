//! Username resolution: the account name is fixed once at startup from the
//! process environment and is an immutable input to every authentication
//! attempt. The environment is read outside this crate; this module fixes
//! the fallback order.

use vstd::prelude::*;

verus! {

/// Picks the account name from the environment's answers: the `USER`
/// variable when set, else `LOGNAME`, else the fixed superuser name.
pub fn resolve_username(user: Option<String>, logname: Option<String>) -> (r: String)
    ensures
        user matches Some(u) ==> r@ == u@,
        user is None ==> (logname matches Some(l) ==> r@ == l@),
        user is None && logname is None ==> r@ == "root"@,
{
    match user {
        Some(u) => u,
        None => match logname {
            Some(l) => l,
            None => "root".to_owned(),
        },
    }
}

} // verus!
