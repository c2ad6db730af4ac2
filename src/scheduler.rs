use vstd::prelude::*;

use crate::event::EventResult;

verus! {

/// The earlier of a scheduled deadline, if any, and a newly requested one.
pub open spec fn earliest(next: Option<u64>, t: u64) -> u64 {
    match next {
        Some(last) => if last <= t { last } else { t },
        None => t,
    }
}

/// The deadline after handling `r` at `now`. On a platform that paints
/// `RepaintNow` inline no deadline is set for it.
pub open spec fn scheduled_after(
    next: Option<u64>,
    r: EventResult,
    now: u64,
    paint_inline: bool,
) -> Option<u64> {
    match r {
        EventResult::RepaintNow => if paint_inline { next } else { Some(now) },
        EventResult::RepaintNext => Some(now),
        EventResult::RepaintAt(t) => Some(earliest(next, t)),
        _ => next,
    }
}

/// What the event loop is told to do once an event has been handled.
#[derive(Debug, PartialEq, Eq)]
pub enum Directive<E> {
    /// Keep the current wait policy.
    Proceed,
    /// Block until the next event.
    Wait,
    /// Run the frame pipeline now, inside this callback.
    PaintInline,
    /// Leave the event loop.
    Exit,
    /// The event's pipeline failed: keep the error and leave the event loop.
    Fail(E),
}

/// The directive for a successfully handled event.
pub open spec fn directive_for<E>(r: EventResult, paint_inline: bool, has_window: bool) -> Directive<E> {
    match r {
        EventResult::Wait => Directive::Wait,
        EventResult::RepaintNow => if paint_inline {
            if has_window { Directive::PaintInline } else { Directive::Wait }
        } else {
            Directive::Proceed
        },
        EventResult::Exit => Directive::Exit,
        _ => Directive::Proceed,
    }
}

/// The outcome of comparing the clock with the deadline.
#[derive(Clone, Copy, Debug, PartialEq, Eq, Structural)]
pub enum RedrawCheck {
    /// No deadline is set.
    Idle,
    /// The deadline has passed: ask the window for one redraw.
    Redraw,
    /// Sleep until the given moment.
    WaitUntil(u64),
}

/// The deadline after a check at `now`.
pub open spec fn deadline_after_check(next: Option<u64>, now: u64) -> Option<u64> {
    match next {
        Some(t) => if t <= now { None } else { next },
        None => None,
    }
}

/// The outcome of a check at `now`.
pub open spec fn check_outcome(next: Option<u64>, now: u64) -> RedrawCheck {
    match next {
        Some(t) => if t <= now { RedrawCheck::Redraw } else { RedrawCheck::WaitUntil(t) },
        None => RedrawCheck::Idle,
    }
}

/// Holds the single optional moment by which the window must be redrawn.
pub struct RepaintScheduler {
    next_repaint_time: Option<u64>,
}

impl View for RepaintScheduler {
    type V = Option<u64>;

    closed spec fn view(&self) -> Option<u64> {
        self.next_repaint_time
    }
}

impl RepaintScheduler {
    /// A scheduler with no deadline.
    pub fn new() -> (s: Self)
        ensures
            s@ == None::<u64>,
    {
        RepaintScheduler { next_repaint_time: None }
    }

    /// The current deadline.
    pub fn next_repaint_time(&self) -> (t: Option<u64>)
        ensures
            t == self@,
    {
        self.next_repaint_time
    }

    /// Folds the result of one event into the deadline and says what the
    /// event loop must do. `paint_inline` tells whether this platform runs the
    /// frame pipeline inside the callback for `RepaintNow`; `has_window`
    /// whether there is a window to paint.
    pub fn handle_event_result<E>(
        &mut self,
        result: Result<EventResult, E>,
        now: u64,
        paint_inline: bool,
        has_window: bool,
    ) -> (d: Directive<E>)
        ensures
            match result {
                Ok(r) => {
                    &&& final(self)@ == scheduled_after(old(self)@, r, now, paint_inline)
                    &&& d == directive_for::<E>(r, paint_inline, has_window)
                },
                Err(e) => final(self)@ == old(self)@ && d == Directive::Fail(e),
            },
    {
        match result {
            Err(e) => Directive::Fail(e),
            Ok(r) => match r {
                EventResult::Wait => Directive::Wait,
                EventResult::RepaintNow => {
                    if paint_inline {
                        if has_window {
                            Directive::PaintInline
                        } else {
                            Directive::Wait
                        }
                    } else {
                        self.next_repaint_time = Some(now);
                        Directive::Proceed
                    }
                },
                EventResult::RepaintNext => {
                    self.next_repaint_time = Some(now);
                    Directive::Proceed
                },
                EventResult::RepaintAt(t) => {
                    let merged = match self.next_repaint_time {
                        Some(last) => if last <= t { last } else { t },
                        None => t,
                    };
                    self.next_repaint_time = Some(merged);
                    Directive::Proceed
                },
                EventResult::Exit => Directive::Exit,
            },
        }
    }

    /// Compares `now` with the deadline: a deadline that has come is cleared
    /// and answered with one redraw; one still ahead is slept towards.
    pub fn check_redraw_requests(&mut self, now: u64) -> (c: RedrawCheck)
        ensures
            final(self)@ == deadline_after_check(old(self)@, now),
            c == check_outcome(old(self)@, now),
    {
        match self.next_repaint_time {
            Some(t) => {
                if t <= now {
                    self.next_repaint_time = None;
                    RedrawCheck::Redraw
                } else {
                    RedrawCheck::WaitUntil(t)
                }
            },
            None => RedrawCheck::Idle,
        }
    }
}

/// Two requests for a repaint at moments `t1 < t2`, handled in either order
/// before the deadline is consumed, leave the deadline at `t1`, unless an
/// earlier one was already scheduled.
pub proof fn lemma_earliest_request_wins(
    next: Option<u64>,
    t1: u64,
    t2: u64,
    now1: u64,
    now2: u64,
    paint_inline: bool,
)
    requires
        t1 < t2,
        next matches Some(last) ==> t1 <= last,
    ensures
        scheduled_after(
            scheduled_after(next, EventResult::RepaintAt(t1), now1, paint_inline),
            EventResult::RepaintAt(t2),
            now2,
            paint_inline,
        ) == Some(t1),
        scheduled_after(
            scheduled_after(next, EventResult::RepaintAt(t2), now1, paint_inline),
            EventResult::RepaintAt(t1),
            now2,
            paint_inline,
        ) == Some(t1),
{
}

/// A deadline that has come is answered by exactly one redraw: the check
/// clears it, so a second check at any moment finds nothing to do.
pub proof fn lemma_due_deadline_redraws_once(t: u64, now1: u64, now2: u64)
    requires
        t <= now1,
    ensures
        check_outcome(Some(t), now1) == RedrawCheck::Redraw,
        deadline_after_check(Some(t), now1) == None::<u64>,
        check_outcome(deadline_after_check(Some(t), now1), now2) == RedrawCheck::Idle,
{
}

} // verus!
