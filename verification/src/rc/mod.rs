//! Translation of Virtual Paradise return codes into Active Worlds return codes.
pub mod aw;
pub mod vp;

use vstd::prelude::*;

verus! {

/// The codes that have an Active Worlds counterpart of their own, each with
/// the code it is reported as.
pub open spec fn translation_table() -> Map<i32, i32> {
    map![
        vp::RC_SUCCESS => aw::RC_SUCCESS,
        vp::RC_VERSION_MISMATCH => aw::RC_VERSION_MISMATCH,
        vp::RC_NOT_INITIALIZED => aw::RC_NOT_INITIALIZED,
        vp::RC_ALREADY_INITIALIZED => aw::RC_NOT_INITIALIZED,
        vp::RC_STRING_TOO_LONG => aw::RC_STRING_TOO_LONG,
        vp::RC_INVALID_LOGIN => aw::RC_INVALID_PASSWORD,
        vp::RC_WORLD_NOT_FOUND => aw::RC_NO_SUCH_WORLD,
        vp::RC_WORLD_LOGIN_ERROR => aw::RC_UNABLE_TO_CONTACT_WORLD,
        vp::RC_NOT_IN_WORLD => aw::RC_NOT_AVAILABLE,
        vp::RC_CONNECTION_ERROR => aw::RC_NO_CONNECTION,
        vp::RC_NO_INSTANCE => aw::RC_NO_INSTANCE,
        vp::RC_NOT_IMPLEMENTED => aw::RC_NOT_AVAILABLE,
        vp::RC_NO_SUCH_ATTRIBUTE => aw::RC_INVALID_ATTRIBUTE,
        vp::RC_NOT_ALLOWED => aw::RC_UNAUTHORIZED,
        vp::RC_DATABASE_ERROR => aw::RC_DATABASE_ERROR,
        vp::RC_NO_SUCH_USER => aw::RC_NO_SUCH_CITIZEN,
        vp::RC_TIMEOUT => aw::RC_TIMEOUT,
        vp::RC_NOT_IN_UNIVERSE => aw::RC_NO_CONNECTION,
        vp::RC_INVALID_ARGUMENTS => aw::RC_INVALID_ARGUMENT,
        vp::RC_OBJECT_NOT_FOUND => aw::RC_NO_SUCH_OBJECT,
        vp::RC_UNKNOWN_ERROR => aw::RC_NOT_AVAILABLE,
        vp::RC_RECURSIVE_WAIT => aw::RC_NOT_AVAILABLE,
        vp::RC_JOIN_DECLINED => aw::RC_NOT_AVAILABLE,
        vp::RC_SECURE_CONNECTION_REQUIRED => aw::RC_NO_CONNECTION,
        vp::RC_HANDSHAKE_FAILED => aw::RC_NO_CONNECTION,
        vp::RC_VERIFICATION_FAILED => aw::RC_NO_CONNECTION,
        vp::RC_NO_SUCH_SESSION => aw::RC_NO_SUCH_SESSION
    ]
}

/// The Active Worlds code that a Virtual Paradise code is reported as: its
/// entry in the table, and "not available" for any code the table lacks.
pub open spec fn spec_rc(code: i32) -> i32 {
    if translation_table().contains_key(code) {
        translation_table()[code]
    } else {
        aw::RC_NOT_AVAILABLE
    }
}

/// Translates a return code of the Virtual Paradise SDK into the Active
/// Worlds return code that callers of this library expect.
pub fn rc(code: i32) -> (result: i32)
    ensures
        result == spec_rc(code),
{
    if code == vp::RC_SUCCESS {
        aw::RC_SUCCESS
    } else if code == vp::RC_VERSION_MISMATCH {
        aw::RC_VERSION_MISMATCH
    } else if code == vp::RC_NOT_INITIALIZED || code == vp::RC_ALREADY_INITIALIZED {
        aw::RC_NOT_INITIALIZED
    } else if code == vp::RC_STRING_TOO_LONG {
        aw::RC_STRING_TOO_LONG
    } else if code == vp::RC_INVALID_LOGIN {
        aw::RC_INVALID_PASSWORD
    } else if code == vp::RC_WORLD_NOT_FOUND {
        aw::RC_NO_SUCH_WORLD
    } else if code == vp::RC_WORLD_LOGIN_ERROR {
        aw::RC_UNABLE_TO_CONTACT_WORLD
    } else if code == vp::RC_CONNECTION_ERROR || code == vp::RC_NOT_IN_UNIVERSE
        || code == vp::RC_SECURE_CONNECTION_REQUIRED || code == vp::RC_HANDSHAKE_FAILED
        || code == vp::RC_VERIFICATION_FAILED {
        aw::RC_NO_CONNECTION
    } else if code == vp::RC_NO_INSTANCE {
        aw::RC_NO_INSTANCE
    } else if code == vp::RC_NO_SUCH_ATTRIBUTE {
        aw::RC_INVALID_ATTRIBUTE
    } else if code == vp::RC_NOT_ALLOWED {
        aw::RC_UNAUTHORIZED
    } else if code == vp::RC_DATABASE_ERROR {
        aw::RC_DATABASE_ERROR
    } else if code == vp::RC_NO_SUCH_USER {
        aw::RC_NO_SUCH_CITIZEN
    } else if code == vp::RC_TIMEOUT {
        aw::RC_TIMEOUT
    } else if code == vp::RC_INVALID_ARGUMENTS {
        aw::RC_INVALID_ARGUMENT
    } else if code == vp::RC_OBJECT_NOT_FOUND {
        aw::RC_NO_SUCH_OBJECT
    } else if code == vp::RC_NO_SUCH_SESSION {
        aw::RC_NO_SUCH_SESSION
    } else {
        aw::RC_NOT_AVAILABLE
    }
}

/// Success is reported as success, and nothing else is: a caller that tests
/// the translated code against zero sees exactly the calls that succeeded.
pub proof fn lemma_rc_success_iff(code: i32)
    ensures
        (spec_rc(code) == aw::RC_SUCCESS) <==> (code == vp::RC_SUCCESS),
{
}

/// Every code outside the range the Virtual Paradise SDK defines is reported
/// as "not available".
pub proof fn lemma_rc_unknown_code(code: i32)
    requires
        code < vp::RC_SUCCESS || code > vp::RC_NO_SUCH_SESSION,
    ensures
        spec_rc(code) == aw::RC_NOT_AVAILABLE,
{
}

} // verus!
