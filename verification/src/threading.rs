//! Priorities of threads and their pinning to cores.

use vstd::prelude::*;
use vstd::string::StringExecFns;

use crate::text::{push_i64, push_usize};

verus! {

/// The priority of a thread.
#[derive(Debug, Clone, Copy, PartialEq, Eq, Structural)]
pub enum ThreadPriority {
    BelowNormal,
    Normal,
    High,
    TimeCritical,
}

impl ThreadPriority {
    /// The nice value of the priority: a lower one runs first.
    pub open spec fn nice(self) -> i32 {
        match self {
            ThreadPriority::BelowNormal => 2i32,
            ThreadPriority::Normal => 0i32,
            ThreadPriority::High => -2i32,
            ThreadPriority::TimeCritical => -10i32,
        }
    }

    /// The nice value of the priority: a lower one runs first.
    pub fn nice_value(&self) -> (n: i32)
        ensures
            n == self.nice(),
    {
        match self {
            ThreadPriority::BelowNormal => 2,
            ThreadPriority::Normal => 0,
            ThreadPriority::High => -2,
            ThreadPriority::TimeCritical => -10,
        }
    }
}

/// A thread that could not be pinned.
#[derive(Debug)]
pub struct PinError {
    pub message: String,
}

impl PinError {
    /// The error for a core, where the system reported `errno`.
    pub fn for_core(core_id: usize, errno: i32) -> (e: PinError)
        ensures
            e.message@ == "Failed to pin thread to core "@ + crate::text::decimal(core_id as nat)
                + " (errno: "@ + crate::text::signed_decimal(errno as int) + ")"@,
    {
        let mut message = "Failed to pin thread to core ".to_owned();
        push_usize(&mut message, core_id);
        message.append(" (errno: ");
        push_i64(&mut message, errno as i64);
        message.append(")");
        PinError { message }
    }

    pub fn to_text(&self) -> (s: String)
        ensures
            s@ == self.message@,
    {
        self.message.clone()
    }
}

/// The outcome of an attempt to pin a thread, by the number that the system returned.
pub fn pin_result(core_id: usize, errno: i32) -> (r: Result<(), PinError>)
    ensures
        errno == 0 ==> r is Ok,
        errno != 0 ==> (r matches Err(e) && e.message@ == "Failed to pin thread to core "@
            + crate::text::decimal(core_id as nat) + " (errno: "@ + crate::text::signed_decimal(
            errno as int,
        ) + ")"@),
{
    if errno != 0 {
        Err(PinError::for_core(core_id, errno))
    } else {
        Ok(())
    }
}

/// A higher priority never has a higher nice value.
pub proof fn law_priorities_are_ordered()
    ensures
        ThreadPriority::TimeCritical.nice() < ThreadPriority::High.nice(),
        ThreadPriority::High.nice() < ThreadPriority::Normal.nice(),
        ThreadPriority::Normal.nice() < ThreadPriority::BelowNormal.nice(),
{
}

/// Each priority has the nice value of its own.
pub proof fn law_priorities_have_their_values(p: ThreadPriority, n: i32)
    requires
        call_ensures(ThreadPriority::nice_value, (&p,), n),
    ensures
        p is BelowNormal <==> n == 2,
        p is Normal <==> n == 0,
        p is High <==> n == -2,
        p is TimeCritical <==> n == -10,
{
}

/// A thread is pinned just where the system reports no fault; else the message names the core and
/// the fault.
pub proof fn law_pinning_fails_with_its_fault(core: usize, errno: i32, r: Result<(), PinError>)
    requires
        call_ensures(pin_result, (core, errno), r),
    ensures
        r is Ok <==> errno == 0,
        r matches Err(e) ==> e.message@ == "Failed to pin thread to core "@ + crate::text::decimal(
            core as nat,
        ) + " (errno: "@ + crate::text::signed_decimal(errno as int) + ")"@,
{
}

} // verus!
