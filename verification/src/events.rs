//! Readiness events of a worklet's IPC poll and the status codes of IPC reads
//! and writes, as the native IPC layer defines them.
use vstd::prelude::*;

verus! {

/// Poll event bit: the IPC has data to read.
pub const IPC_READABLE: u32 = 1;

/// Poll event bit: the IPC accepts data to write.
pub const IPC_WRITABLE: u32 = 2;

/// Status of an IPC read or write that could not proceed without blocking.
pub const IPC_WOULD_BLOCK: i32 = -1;

/// The event mask that asks for the given kinds of readiness.
pub open spec fn event_mask(readable: bool, writable: bool) -> u32 {
    ((if readable { IPC_READABLE } else { 0u32 }) + (if writable { IPC_WRITABLE } else { 0u32 })) as u32
}

/// Whether an event mask reports readability.
pub open spec fn has_readable(events: i32) -> bool {
    events & 1i32 != 0
}

/// Whether an event mask reports writability.
pub open spec fn has_writable(events: i32) -> bool {
    events & 2i32 != 0
}

/// Builds the event mask for a poll that waits for the requested readiness,
/// by or-ing the readable and writable bits.
pub fn poll_events(readable: bool, writable: bool) -> (events: u32)
    ensures
        events == event_mask(readable, writable),
        events > 0 <==> (readable || writable),
{
    let mut events: u32 = 0;
    if readable {
        events = events | IPC_READABLE;
    }
    if writable {
        events = events | IPC_WRITABLE;
    }
    assert((0u32 | 1u32) == 1u32) by (bit_vector);
    assert((0u32 | 2u32) == 2u32) by (bit_vector);
    assert(((0u32 | 1u32) | 2u32) == 3u32) by (bit_vector);
    events
}

/// Splits the events reported by a poll into readability and writability.
pub fn poll_flags(events: i32) -> (flags: (bool, bool))
    ensures
        flags.0 == has_readable(events),
        flags.1 == has_writable(events),
{
    ((events & 1i32) != 0, (events & 2i32) != 0)
}

/// Reading back the flags of a mask built from flags gives the same flags.
pub proof fn lemma_events_round_trip(readable: bool, writable: bool)
    ensures
        has_readable(event_mask(readable, writable) as i32) == readable,
        has_writable(event_mask(readable, writable) as i32) == writable,
{
    assert((0i32 & 1i32) == 0i32) by (bit_vector);
    assert((0i32 & 2i32) == 0i32) by (bit_vector);
    assert((1i32 & 1i32) == 1i32) by (bit_vector);
    assert((1i32 & 2i32) == 0i32) by (bit_vector);
    assert((2i32 & 1i32) == 0i32) by (bit_vector);
    assert((2i32 & 2i32) == 2i32) by (bit_vector);
    assert((3i32 & 1i32) == 1i32) by (bit_vector);
    assert((3i32 & 2i32) == 2i32) by (bit_vector);
}

/// Whether a read status means that data was read (rather than that the read
/// would have blocked).
pub fn read_succeeded(status: i32) -> (ready: bool)
    requires
        status == 0 || status == IPC_WOULD_BLOCK,
    ensures
        ready == (status == 0),
{
    status != IPC_WOULD_BLOCK
}

/// The number of bytes a write status reports as written: a write that would
/// have blocked wrote nothing.
pub fn written_count(status: i32) -> (count: i32)
    requires
        status >= 0 || status == IPC_WOULD_BLOCK,
    ensures
        count == (if status == IPC_WOULD_BLOCK { 0 } else { status }),
        count >= 0,
{
    if status == IPC_WOULD_BLOCK {
        0
    } else {
        status
    }
}

} // verus!
