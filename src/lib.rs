//! A structured-logging sink that streams log frames to a USB serial host.
use vstd::prelude::*;

pub mod frame;
pub mod ring;
pub mod transport;

verus! {

/// A broken invariant after which the logger cannot go on.
#[derive(Clone, Copy, Debug, PartialEq, Eq, Structural)]
pub enum Fault {
    /// The frame lock was taken while already held.
    ReentrantAcquire,
    /// The frame lock was released while not held.
    ReleaseWhileIdle,
    /// The endpoint refused a packet as too large, which packet chunking rules out.
    PacketTooLarge,
}

/// The message that reports `f`.
pub open spec fn fault_text(f: Fault) -> Seq<char> {
    match f {
        Fault::ReentrantAcquire => "defmt logger taken reentrantly"@,
        Fault::ReleaseWhileIdle => "defmt release outside of critical section."@,
        Fault::PacketTooLarge => "Sent chunks are limited to Sender max packet size."@,
    }
}

/// The report with which the process halts on fault `f`. Stopping is the caller's part: a
/// verified function returns, so this one only says what the halt reports.
pub fn panic(f: Fault) -> (r: &'static str)
    ensures
        r@ == fault_text(f),
{
    match f {
        Fault::ReentrantAcquire => "defmt logger taken reentrantly",
        Fault::ReleaseWhileIdle => "defmt release outside of critical section.",
        Fault::PacketTooLarge => "Sent chunks are limited to Sender max packet size.",
    }
}

} // verus!
