//! Return codes of the Active Worlds SDK interface served by this library.
use vstd::prelude::*;

verus! {

pub const RC_SUCCESS: i32 = 0;
pub const RC_NO_SUCH_CITIZEN: i32 = 3;
pub const RC_INVALID_PASSWORD: i32 = 13;
pub const RC_NO_SUCH_WORLD: i32 = 27;
pub const RC_UNAUTHORIZED: i32 = 32;
pub const RC_NO_SUCH_SESSION: i32 = 67;
pub const RC_NAME_TOO_SHORT: i32 = 113;
pub const RC_TIMEOUT: i32 = 401;
pub const RC_NO_CONNECTION: i32 = 439;
pub const RC_NOT_INITIALIZED: i32 = 444;
pub const RC_NO_INSTANCE: i32 = 445;
pub const RC_STRING_TOO_LONG: i32 = 448;
pub const RC_INVALID_ATTRIBUTE: i32 = 449;
pub const RC_INVALID_INSTANCE: i32 = 454;
pub const RC_VERSION_MISMATCH: i32 = 455;
pub const RC_NOT_AVAILABLE: i32 = 462;
pub const RC_UNABLE_TO_CONTACT_WORLD: i32 = 471;
pub const RC_NO_SUCH_OBJECT: i32 = 480;
pub const RC_INVALID_ARGUMENT: i32 = 487;
pub const RC_DATABASE_ERROR: i32 = 500;

} // verus!
