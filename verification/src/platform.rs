//! What the UI layer can ask about the platform it runs on.

use vstd::prelude::*;
use crate::text::same_text;

verus! {

/// Whether `target_os` names a mobile operating system.
pub open spec fn mobile_os(target_os: Seq<char>) -> bool {
    target_os == "android"@ || target_os == "ios"@
}

/// Whether this is the desktop shell.
pub fn is_desktop() -> (r: bool)
    ensures
        r,
{
    true
}

/// Whether the operating system that the shell was built for, by its name, is
/// a mobile one.
pub fn is_mobile(target_os: &str) -> (r: bool)
    ensures
        r == mobile_os(target_os@),
{
    same_text(target_os, "android") || same_text(target_os, "ios")
}

/// The name of the mobile platform that the shell was built for, or `unknown`
/// on any other operating system.
pub fn get_platform(target_os: &str) -> (r: String)
    ensures
        r@ == (if mobile_os(target_os@) {
            target_os@
        } else {
            "unknown"@
        }),
{
    if same_text(target_os, "android") {
        "android".to_owned()
    } else if same_text(target_os, "ios") {
        "ios".to_owned()
    } else {
        "unknown".to_owned()
    }
}

} // verus!
