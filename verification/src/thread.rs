//! Scheduling hints for the thread that streams.

use vstd::prelude::*;

verus! {

/// Bit pattern of the binary32 value one half: the priority asked for when
/// the caller names none.
pub const DEFAULT_THREAD_PRIORITY_BITS: u32 = 0x3F00_0000;

/// Whether realtime scheduling is asked for when the caller does not say.
pub const DEFAULT_THREAD_REALTIME: bool = true;

/// What to ask of the radio driver for the calling thread.
#[derive(Debug, Clone, Copy, PartialEq, Eq, Structural)]
pub struct ThreadPriority {
    /// Bit pattern of the priority, a binary32 value.
    pub priority_bits: u32,
    /// Ask for realtime scheduling.
    pub realtime: bool,
}

/// Settles the priority to set for the calling thread: what the caller gave,
/// and where the caller gave nothing, a priority of one half and realtime
/// scheduling.
pub fn set_thread_priority(priority_bits: Option<u32>, realtime: Option<bool>) -> (request: ThreadPriority)
    ensures
        request.priority_bits == (match priority_bits {
            Some(bits) => bits,
            None => DEFAULT_THREAD_PRIORITY_BITS,
        }),
        request.realtime == (match realtime {
            Some(flag) => flag,
            None => DEFAULT_THREAD_REALTIME,
        }),
{
    let priority_bits = if let Some(bits) = priority_bits {
        bits
    } else {
        DEFAULT_THREAD_PRIORITY_BITS
    };
    let realtime = if let Some(flag) = realtime {
        flag
    } else {
        DEFAULT_THREAD_REALTIME
    };
    ThreadPriority { priority_bits, realtime }
}

} // verus!
