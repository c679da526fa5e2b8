//! Whether the system lets windows be managed.
//!
//! Right after login the system may answer that a permission is missing though it was granted.
//! So it is asked several times before giving up.

use vstd::prelude::*;

verus! {

/// How often the system is asked.
pub const ATTEMPTS: u32 = 10;

/// How long to wait before asking again, in seconds.
pub const RETRY_INTERVAL_SECS: u64 = 2;

/// What is to be done about the permissions.
#[derive(Clone, Copy, Debug, PartialEq, Eq, Structural)]
pub enum PermissionVerdict {
    /// Both permissions were granted.
    Granted,
    /// Ask again.
    Retry,
    /// Windows cannot be managed.
    Refused,
    /// Windows can be managed, but their titles may be unavailable.
    GrantedWithoutTitles,
}

/// What the answers to one attempt come to, counting attempts from one. Only accessibility is
/// indispensable.
pub open spec fn verdict_on(
    attempt: u32,
    screen_capture: bool,
    accessibility: bool,
) -> PermissionVerdict {
    if screen_capture && accessibility {
        PermissionVerdict::Granted
    } else if attempt < ATTEMPTS {
        PermissionVerdict::Retry
    } else if !accessibility {
        PermissionVerdict::Refused
    } else {
        PermissionVerdict::GrantedWithoutTitles
    }
}

/// What the answers to one attempt come to, counting attempts from one.
pub fn check_permissions(attempt: u32, screen_capture: bool, accessibility: bool) -> (verdict:
    PermissionVerdict)
    ensures
        verdict == verdict_on(attempt, screen_capture, accessibility),
{
    if screen_capture && accessibility {
        PermissionVerdict::Granted
    } else if attempt < ATTEMPTS {
        PermissionVerdict::Retry
    } else if !accessibility {
        PermissionVerdict::Refused
    } else {
        PermissionVerdict::GrantedWithoutTitles
    }
}

/// How a check of the permissions alone ends: with zero only where both were granted, so that an
/// installer can tell.
pub fn exit_status(screen_capture: bool, accessibility: bool) -> (status: i32)
    ensures
        status == if screen_capture && accessibility {
            0int
        } else {
            1int
        },
{
    if screen_capture && accessibility {
        0
    } else {
        1
    }
}

/// Asking ends: the last attempt is never followed by another. And without accessibility
/// nothing is ever managed.
pub proof fn law_asking_ends(attempt: u32, screen_capture: bool, accessibility: bool)
    ensures
        attempt >= ATTEMPTS ==> verdict_on(attempt, screen_capture, accessibility)
            != PermissionVerdict::Retry,
        !accessibility ==> verdict_on(attempt, screen_capture, accessibility)
            != PermissionVerdict::Granted && verdict_on(attempt, screen_capture, accessibility)
            != PermissionVerdict::GrantedWithoutTitles,
{
}


/// Everything is granted where both permissions are; otherwise it is asked again while attempts are
/// left. After that the lack of accessibility is a refusal, and the lack of the other is done without.
pub proof fn law_only_accessibility_is_indispensable(
    attempt: u32,
    screen_capture: bool,
    accessibility: bool,
)
    ensures
        ({
            let verdict = verdict_on(attempt, screen_capture, accessibility);
            &&& verdict is Granted <==> screen_capture && accessibility
            &&& verdict is Retry <==> !(screen_capture && accessibility) && attempt < ATTEMPTS
            &&& verdict is Refused <==> !accessibility && attempt >= ATTEMPTS
            &&& verdict is GrantedWithoutTitles <==> accessibility && !screen_capture && attempt
                >= ATTEMPTS
        }),
{
}

} // verus!
