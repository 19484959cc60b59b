//! The snapshot that the program carries with it.
use vstd::prelude::*;

verus! {

/// The name of the section that holds the snapshot.
pub const DENO_RT_SNAPSHOT_SECTION_NAME: &'static str = "deno_rt_snapshot";

/// What is said where the program does not carry a snapshot.
pub const NOT_FINALIZED: &'static str =
    "The deno binary is not finalized. Run `DENO_FINALIZE_BUILD=1 deno` to finalize the binary.";

/// Whether the program may start: it carries a snapshot, or is asked to make one.
pub fn may_start(has_snapshot: bool, finalizing: bool) -> (r: bool)
    ensures
        r == (has_snapshot || finalizing),
{
    has_snapshot || finalizing
}

} // verus!
