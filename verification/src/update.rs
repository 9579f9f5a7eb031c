//! Update dispatch: the application supplies one reducer; the core feeds the
//! reducer's own output back to it in an explicit loop (a trampoline), so that
//! arbitrarily long update chains use constant stack space instead of
//! recursion.

use crate::msg::Msg;
use vstd::prelude::*;

verus! {

/// The application-level reducer. Given the tagged message that a component
/// just emitted (or `None`), it applies the application's rules - typically
/// reading and writing component configurations through the view it owns -
/// and returns the next tagged message to process, or `None` to stop.
pub trait Update {
    fn update(&mut self, msg: Option<(String, Msg)>) -> Option<(String, Msg)>;
}

/// Runs the reducer as a trampoline: feeds `msg` to the reducer, then keeps
/// feeding each answer back in, until the reducer answers `None` or
/// `max_steps` reducer calls have been made. Returns `None` when the chain
/// was exhausted, or the still-pending message when the step bound ran out.
///
/// The loop is explicit, so chains of any length run in constant stack space.
/// Termination of the chain itself is the reducer author's obligation: the
/// core detects no cycles, and the step bound is the caller's way to decide
/// how much work one dispatch may do.
pub fn dispatch<M: Update>(model: &mut M, msg: Option<(String, Msg)>, max_steps: u64) -> (r:
    Option<(String, Msg)>)
    ensures
        msg is None ==> r is None && *final(model) == *old(model),
        max_steps == 0 ==> r == msg && *final(model) == *old(model),
        r is Some ==> msg is Some,
{
    let mut cur = msg;
    let mut left = max_steps;
    if cur.is_none() {
        return cur;
    }
    if left == 0 {
        return cur;
    }
    while left > 0
        invariant
            msg is Some,
            max_steps > 0,
        decreases left,
    {
        if cur.is_none() {
            return cur;
        }
        cur = model.update(cur);
        left = left - 1;
    }
    cur
}

} // verus!
