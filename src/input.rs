use vstd::prelude::*;

use crate::event::{EventResult, UserEvent};
use crate::scheduler::scheduled_after;

verus! {

/// The part of a device event that the shell reads.
#[derive(Clone, Copy, Debug, PartialEq, Eq, Structural)]
pub enum DeviceInput {
    /// Raw mouse motion.
    MouseMotion,
    /// Any other device event.
    Other,
}

/// The result of a device event: only mouse motion asks for a repaint.
pub open spec fn device_result(ev: DeviceInput) -> EventResult {
    match ev {
        DeviceInput::MouseMotion => EventResult::RepaintNext,
        DeviceInput::Other => EventResult::Wait,
    }
}

/// Classifies a device event; mouse motion is forwarded to the UI by the caller.
pub fn on_device_event(ev: DeviceInput) -> (r: EventResult)
    ensures
        r == device_result(ev),
{
    match ev {
        DeviceInput::MouseMotion => EventResult::RepaintNext,
        DeviceInput::Other => EventResult::Wait,
    }
}

/// A repaint request is current when the UI context's pass counter equals
/// the counter at request time or is exactly one ahead of it.
pub open spec fn request_is_current(requested: u64, current: u64) -> bool {
    current == requested || current == requested + 1
}

/// The result of a repaint request, given the UI context's pass counter now.
pub open spec fn user_result(ev: UserEvent, current_pass_nr: u64) -> EventResult {
    match ev {
        UserEvent::RequestRepaint { when, cumulative_pass_nr } => if request_is_current(
            cumulative_pass_nr,
            current_pass_nr,
        ) {
            EventResult::RepaintAt(when)
        } else {
            EventResult::Wait
        },
    }
}

/// Honours a repaint request only if no later pass has superseded the pass
/// that issued it.
pub fn on_user_event(ev: UserEvent, current_pass_nr: u64) -> (r: EventResult)
    ensures
        r == user_result(ev, current_pass_nr),
{
    match ev {
        UserEvent::RequestRepaint { when, cumulative_pass_nr } => {
            if current_pass_nr == cumulative_pass_nr || (current_pass_nr > cumulative_pass_nr
                && current_pass_nr - cumulative_pass_nr == 1) {
                EventResult::RepaintAt(when)
            } else {
                EventResult::Wait
            }
        },
    }
}

/// A repaint request whose pass counter is more than one behind the UI
/// context's counter is answered with `Wait` and leaves the deadline as it was.
pub proof fn lemma_stale_request_ignored(
    when: u64,
    requested: u64,
    current: u64,
    next: Option<u64>,
    now: u64,
    paint_inline: bool,
)
    requires
        current > requested + 1,
    ensures
        user_result(UserEvent::RequestRepaint { when, cumulative_pass_nr: requested }, current)
            == EventResult::Wait,
        scheduled_after(
            next,
            user_result(UserEvent::RequestRepaint { when, cumulative_pass_nr: requested }, current),
            now,
            paint_inline,
        ) == next,
{
}

} // verus!
