//! The decisions of the exported entry points that connect, talk and wait.
use vstd::prelude::*;
use crate::rc::{rc, spec_rc};

verus! {

/// The port of the universe server used when the caller passes zero.
pub const DEFAULT_UNIVERSE_PORT: i32 = 57000;

/// The host of the universe server used when the caller passes none.
pub const DEFAULT_UNIVERSE_HOST: &'static str = "universe.virtualparadise.org";

/// The port to connect to: the one given, or the default one for zero.
pub fn universe_port(port: i32) -> (chosen: i32)
    ensures
        chosen == (if port == 0 { DEFAULT_UNIVERSE_PORT } else { port }),
{
    if port == 0 {
        DEFAULT_UNIVERSE_PORT
    } else {
        port
    }
}

/// The name a bot whispers under: its login name in square brackets.
pub fn bot_display_name(name: &Vec<u8>) -> (display: Vec<u8>)
    ensures
        display@ == seq![91u8] + name@ + seq![93u8],
{
    let mut display: Vec<u8> = Vec::with_capacity(name.len());
    display.push(91u8);
    let mut i: usize = 0;
    while i < name.len()
        invariant
            i <= name@.len(),
            display@ == seq![91u8] + name@.take(i as int),
        decreases name@.len() - i,
    {
        display.push(name[i]);
        i += 1;
        assert(display@ =~= seq![91u8] + name@.take(i as int));
    }
    display.push(93u8);
    assert(name@.take(name@.len() as int) =~= name@);
    assert(display@ =~= seq![91u8] + name@ + seq![93u8]);
    display
}

/// Whether a wait of `milliseconds` makes another pass over the instances
/// after `passes` passes, `elapsed_nanos` nanoseconds after it began: a
/// negative wait never ends of itself, a wait of zero makes one pass, any
/// other wait goes on while its time has not run out.
pub open spec fn spec_wait_continues(milliseconds: i32, passes: u64, elapsed_nanos: u128) -> bool {
    if milliseconds < 0 {
        true
    } else if milliseconds == 0 {
        passes == 0
    } else {
        elapsed_nanos <= milliseconds * 1_000_000
    }
}

/// Whether a wait makes another pass over the instances.
pub fn wait_continues(milliseconds: i32, passes: u64, elapsed_nanos: u128) -> (again: bool)
    ensures
        again == spec_wait_continues(milliseconds, passes, elapsed_nanos),
{
    if milliseconds < 0 {
        true
    } else if milliseconds == 0 {
        passes == 0
    } else {
        elapsed_nanos <= (milliseconds as u128) * 1_000_000
    }
}

/// What a wait does after one instance has waited and returned `code`: end
/// with that code translated when it reports a failure, else go on.
pub fn wait_outcome(code: i32) -> (done: Option<i32>)
    ensures
        done == (if code != 0 { Some(spec_rc(code)) } else { None::<i32> }),
{
    if code != 0 {
        Some(rc(code))
    } else {
        None
    }
}

/// A positive wait goes on while no more than its milliseconds have passed,
/// counted in nanoseconds without any bound, and stops once more have; and a
/// longer wait never stops before a shorter one.
pub proof fn lemma_wait_length(
    milliseconds: i32,
    longer: i32,
    passes: u64,
    elapsed_nanos: u128,
)
    requires
        0 < milliseconds,
    ensures
        elapsed_nanos <= (milliseconds as int) * 1_000_000 ==> spec_wait_continues(
            milliseconds,
            passes,
            elapsed_nanos,
        ),
        elapsed_nanos > (milliseconds as int) * 1_000_000 ==> !spec_wait_continues(
            milliseconds,
            passes,
            elapsed_nanos,
        ),
        milliseconds <= longer && spec_wait_continues(milliseconds, passes, elapsed_nanos)
            ==> spec_wait_continues(longer, passes, elapsed_nanos),
{
}

/// A negative wait never ends of itself, and a wait of zero makes exactly
/// one pass, whatever the time.
pub proof fn lemma_wait_without_time(milliseconds: i32, passes: u64, elapsed_nanos: u128)
    ensures
        milliseconds < 0 ==> spec_wait_continues(milliseconds, passes, elapsed_nanos),
        milliseconds == 0 ==> (spec_wait_continues(milliseconds, passes, elapsed_nanos) <==> passes
            == 0),
{
}

/// A wait that ends on a failure never reports success.
pub proof fn lemma_wait_failure_reported(code: i32)
    requires
        code != 0,
    ensures
        spec_rc(code) != crate::rc::aw::RC_SUCCESS,
{
    crate::rc::lemma_rc_success_iff(code);
}

} // verus!
