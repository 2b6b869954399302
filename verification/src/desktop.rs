//! What the desktop is told and what its answers mean: the badge of the
//! tray icon, and the codes of the login-item service.

use vstd::prelude::*;
use crate::text::{decimal, owned, push_decimal, string_of};

verus! {

/// The title of the tray icon for `count` files that wait: the count, or
/// nothing where none waits.
pub open spec fn badge_text(count: nat) -> Seq<char> {
    if count > 0 {
        decimal(count)
    } else {
        Seq::empty()
    }
}

/// The title of the tray icon for `count` files that wait.
pub fn badge_title(count: u32) -> (r: String)
    ensures
        r@ == badge_text(count as nat),
{
    let mut out: Vec<char> = Vec::new();
    if count > 0 {
        push_decimal(&mut out, count as u64);
    }
    string_of(&out)
}

/// What the code that the login-item service returned for a change means:
/// zero is success, anything else a failure.
pub fn autostart_outcome(code: i32) -> (r: Result<(), String>)
    ensures
        r is Ok <==> code == 0,
        r matches Err(e) ==> e@ == "设置开机自启失败"@,
{
    if code == 0 {
        Ok(())
    } else {
        Err(owned("设置开机自启失败"))
    }
}

/// What the code that the login-item service returned for a query means:
/// one says that the application starts at login.
pub fn autostart_enabled(code: i32) -> (r: bool)
    ensures
        r == (code == 1),
{
    code == 1
}

} // verus!
