use vstd::prelude::*;

verus! {

use crate::counter::SharedCounter;

/// The status code that reports success to the protocol stack.
pub const STATUS_GOOD: u32 = 0;

/// The status code that reports an internal or unsupported operation; the
/// write adapter answers every request with it.
pub const STATUS_BAD_INTERNAL_ERROR: u32 = 0x8002_0000;

/// What the read adapter reports once the copy into the caller's buffer has
/// been attempted: the status handed back to the caller, and whether a
/// diagnostic must be surfaced to the operator.
pub struct ReadReport {
    pub status: u32,
    pub diagnostic: bool,
}

/// The read adapter's first half: answers a pull-based caller with the
/// current counter value, to be copied into the caller's buffer. Never
/// blocks, never mutates the counter, never fails.
pub fn read_data_source(counter: &SharedCounter) -> (v: i32)
    ensures
        v as int == counter.value(),
{
    counter.read()
}

/// The read adapter's second half: turns the status of the copy step into
/// the response. Success is passed through; a copy failure is reported back
/// to the caller under its own code, together with the demand for an
/// operator-visible diagnostic, and never crashes the server.
pub fn read_copy_report(copy_status: u32) -> (r: ReadReport)
    ensures
        r.status == copy_status,
        r.diagnostic <==> copy_status != STATUS_GOOD,
{
    if copy_status == STATUS_GOOD {
        ReadReport { status: STATUS_GOOD, diagnostic: false }
    } else {
        ReadReport { status: copy_status, diagnostic: true }
    }
}

/// The write adapter: the node is exposed read-only by design, so every
/// write request, whatever value it carries, is rejected with the
/// internal-error status and the counter is left untouched.
pub fn write_data_source(counter: &mut SharedCounter, _requested: i32) -> (s: u32)
    ensures
        s == STATUS_BAD_INTERNAL_ERROR,
        *final(counter) == *old(counter),
{
    STATUS_BAD_INTERNAL_ERROR
}

} // verus!
