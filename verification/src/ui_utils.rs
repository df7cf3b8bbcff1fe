//! Small helpers of the user interface.
use vstd::prelude::*;

verus! {

/// The count after one turn of the mouse wheel over its field: a turn up adds
/// `increment`; any other turn takes `increment` away, unless that would go
/// below zero, in which case the count stays.
pub open spec fn scrolled_count(val: nat, increment: nat, up: bool) -> nat {
    if up {
        val + increment
    } else if val >= increment {
        (val - increment) as nat
    } else {
        val
    }
}

/// Law: a turn up followed by a turn down gives the count back.
pub proof fn lemma_scroll_up_then_down(val: nat, increment: nat)
    ensures
        scrolled_count(scrolled_count(val, increment, true), increment, false) == val,
{
}

/// Law: a turn down never raises the count, and lowers it by exactly the
/// increment whenever the count is at least the increment.
pub proof fn lemma_scroll_down(val: nat, increment: nat)
    ensures
        scrolled_count(val, increment, false) <= val,
        val >= increment ==> scrolled_count(val, increment, false) + increment == val,
{
}

/// Applies one turn of the mouse wheel to a count; `scrolled_up` tells whether
/// the wheel turned up.
pub fn make_scrollable(val: &mut usize, increment: usize, scrolled_up: bool)
    requires
        scrolled_up ==> *old(val) + increment <= usize::MAX,
    ensures
        *final(val) == scrolled_count(*old(val) as nat, increment as nat, scrolled_up),
{
    if scrolled_up {
        *val = *val + increment;
    } else {
        match val.checked_sub(increment) {
            Some(x) => *val = x,
            None => {},
        }
    }
}

} // verus!
