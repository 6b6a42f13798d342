//! Return codes reported by the Virtual Paradise SDK.
use vstd::prelude::*;

verus! {

pub const RC_SUCCESS: i32 = 0;
pub const RC_VERSION_MISMATCH: i32 = 1;
pub const RC_NOT_INITIALIZED: i32 = 2;
pub const RC_ALREADY_INITIALIZED: i32 = 3;
pub const RC_STRING_TOO_LONG: i32 = 4;
pub const RC_INVALID_LOGIN: i32 = 5;
pub const RC_WORLD_NOT_FOUND: i32 = 6;
pub const RC_WORLD_LOGIN_ERROR: i32 = 7;
pub const RC_NOT_IN_WORLD: i32 = 8;
pub const RC_CONNECTION_ERROR: i32 = 9;
pub const RC_NO_INSTANCE: i32 = 10;
pub const RC_NOT_IMPLEMENTED: i32 = 11;
pub const RC_NO_SUCH_ATTRIBUTE: i32 = 12;
pub const RC_NOT_ALLOWED: i32 = 13;
pub const RC_DATABASE_ERROR: i32 = 14;
pub const RC_NO_SUCH_USER: i32 = 15;
pub const RC_TIMEOUT: i32 = 16;
pub const RC_NOT_IN_UNIVERSE: i32 = 17;
pub const RC_INVALID_ARGUMENTS: i32 = 18;
pub const RC_OBJECT_NOT_FOUND: i32 = 19;
pub const RC_UNKNOWN_ERROR: i32 = 20;
pub const RC_RECURSIVE_WAIT: i32 = 21;
pub const RC_JOIN_DECLINED: i32 = 22;
pub const RC_SECURE_CONNECTION_REQUIRED: i32 = 23;
pub const RC_HANDSHAKE_FAILED: i32 = 24;
pub const RC_VERIFICATION_FAILED: i32 = 25;
pub const RC_NO_SUCH_SESSION: i32 = 26;

} // verus!
