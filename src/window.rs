use vstd::prelude::*;

use crate::event::EventResult;
use crate::scheduler::{directive_for, scheduled_after, Directive};

verus! {

/// The size of the presentable surface in physical pixels; both sides are
/// positive.
#[derive(Clone, Copy, Debug, PartialEq, Eq)]
pub struct SurfaceSize {
    width: u32,
    height: u32,
}

impl View for SurfaceSize {
    type V = (u32, u32);

    closed spec fn view(&self) -> (u32, u32) {
        (self.width, self.height)
    }
}

impl SurfaceSize {
    #[verifier::type_invariant]
    spec fn positive(&self) -> bool {
        self.width > 0 && self.height > 0
    }

    /// The size `width` by `height`, if neither side is zero.
    pub fn new(width: u32, height: u32) -> (r: Option<SurfaceSize>)
        ensures
            r is Some <==> (width > 0 && height > 0),
            r matches Some(s) ==> s@ == (width, height),
    {
        if width > 0 && height > 0 {
            Some(SurfaceSize { width, height })
        } else {
            None
        }
    }

    pub fn width(&self) -> (w: u32)
        ensures
            w == self@.0,
            w > 0,
    {
        proof {
            use_type_invariant(self);
        }
        self.width
    }

    pub fn height(&self) -> (h: u32)
        ensures
            h == self@.1,
            h > 0,
    {
        proof {
            use_type_invariant(self);
        }
        self.height
    }
}

/// The part of a window event that the shell itself reads.
#[derive(Clone, Copy, Debug, PartialEq, Eq, Structural)]
pub enum WindowInput {
    Resized { width: u32, height: u32 },
    CloseRequested,
    /// Any other event; it only goes to the UI.
    Other,
}

/// What the caller does with a window event before its result is known.
#[derive(Clone, Copy, Debug, PartialEq, Eq, Structural)]
pub enum WindowStep {
    /// The window is closing: the event is not processed.
    Exit,
    /// A resize to a zero side: the event is dropped.
    Ignore,
    /// Hand the event to the UI. `resized`: the surface took a new size and
    /// must be reconfigured. `close_intent`: queue a close event for the next
    /// UI pass and ask for a repaint of the root viewport.
    Forward { resized: bool, close_intent: bool },
}

/// The state of the shell's one window as the logic sees it.
pub struct WindowView {
    pub surface: (u32, u32),
    /// Set once a close request went through a UI pass uncancelled.
    pub close: bool,
    /// No frame has been painted yet; the window is still hidden.
    pub first_frame: bool,
}

/// The step for `ev` on a window whose close flag is `close`.
pub open spec fn step_of(close: bool, ev: WindowInput) -> WindowStep {
    if close {
        WindowStep::Exit
    } else {
        match ev {
            WindowInput::Resized { width, height } => if width == 0 || height == 0 {
                WindowStep::Ignore
            } else {
                WindowStep::Forward { resized: true, close_intent: false }
            },
            WindowInput::CloseRequested => WindowStep::Forward { resized: false, close_intent: true },
            WindowInput::Other => WindowStep::Forward { resized: false, close_intent: false },
        }
    }
}

/// The window state after `ev`: only a resize to a positive size on a window
/// that is not closing changes it.
pub open spec fn state_after_event(w: WindowView, ev: WindowInput) -> WindowView {
    match ev {
        WindowInput::Resized { width, height } => if !w.close && width > 0 && height > 0 {
            WindowView { surface: (width, height), ..w }
        } else {
            w
        },
        _ => w,
    }
}

/// The result of a window event, given its step and whether the UI asked for
/// a repaint when it took the event.
pub open spec fn window_result(close: bool, step: WindowStep, repaint: bool) -> EventResult {
    if close {
        EventResult::Exit
    } else {
        match step {
            WindowStep::Exit => EventResult::Exit,
            WindowStep::Ignore => EventResult::Wait,
            WindowStep::Forward { resized, close_intent: _ } => if !repaint {
                EventResult::Wait
            } else if resized {
                EventResult::RepaintNow
            } else {
                EventResult::RepaintNext
            },
        }
    }
}

/// What the caller does at the end of a frame.
#[derive(Clone, Copy, Debug, PartialEq, Eq, Structural)]
pub struct FrameEnd {
    /// Make the window visible: this was the first frame.
    pub show_window: bool,
    /// Pause briefly: the window is minimized.
    pub pause: bool,
    pub result: EventResult,
}

/// The shell's window: its surface size, its close flag and whether a frame
/// has been painted.
pub struct WindowState {
    surface: SurfaceSize,
    close: bool,
    first_frame: bool,
}

impl View for WindowState {
    type V = WindowView;

    closed spec fn view(&self) -> WindowView {
        WindowView { surface: self.surface@, close: self.close, first_frame: self.first_frame }
    }
}

impl WindowState {
    /// A hidden window with the given surface, not closing.
    pub fn new(surface: SurfaceSize) -> (w: Self)
        ensures
            w@ == (WindowView { surface: surface@, close: false, first_frame: true }),
    {
        WindowState { surface, close: false, first_frame: true }
    }

    pub fn surface(&self) -> (s: SurfaceSize)
        ensures
            s@ == self@.surface,
    {
        self.surface
    }

    pub fn close(&self) -> (c: bool)
        ensures
            c == self@.close,
    {
        self.close
    }

    pub fn is_first_frame(&self) -> (f: bool)
        ensures
            f == self@.first_frame,
    {
        self.first_frame
    }

    /// Takes in one window event (other than a redraw request) and says how
    /// to handle it. A window that is closing processes nothing.
    pub fn on_window_event(&mut self, ev: WindowInput) -> (step: WindowStep)
        ensures
            step == step_of(old(self)@.close, ev),
            final(self)@ == state_after_event(old(self)@, ev),
    {
        if self.close {
            return WindowStep::Exit;
        }
        match ev {
            WindowInput::Resized { width, height } => match SurfaceSize::new(width, height) {
                Some(s) => {
                    self.surface = s;
                    WindowStep::Forward { resized: true, close_intent: false }
                },
                None => WindowStep::Ignore,
            },
            WindowInput::CloseRequested => WindowStep::Forward { resized: false, close_intent: true },
            WindowInput::Other => WindowStep::Forward { resized: false, close_intent: false },
        }
    }

    /// The result of a window event once the UI has taken it; `repaint` is
    /// the UI's answer (false where the event was not forwarded).
    pub fn window_event_result(&self, step: WindowStep, repaint: bool) -> (r: EventResult)
        ensures
            r == window_result(self@.close, step, repaint),
    {
        if self.close {
            return EventResult::Exit;
        }
        match step {
            WindowStep::Exit => EventResult::Exit,
            WindowStep::Ignore => EventResult::Wait,
            WindowStep::Forward { resized, close_intent: _ } => {
                if !repaint {
                    EventResult::Wait
                } else if resized {
                    EventResult::RepaintNow
                } else {
                    EventResult::RepaintNext
                }
            },
        }
    }

    /// Records the outcome of one UI pass: if its input carried a close
    /// request and the pass did not cancel it, the window is closing for good.
    pub fn after_ui_pass(&mut self, close_requested: bool, cancel_close: bool)
        ensures
            final(self)@ == (WindowView {
                close: old(self)@.close || (close_requested && !cancel_close),
                ..old(self)@
            }),
    {
        if close_requested && !cancel_close {
            self.close = true;
        }
    }

    /// Ends a painted frame: the first one shows the window, a minimized
    /// window pauses, and a closing window leaves the loop.
    pub fn finish_frame(&mut self, minimized: Option<bool>) -> (f: FrameEnd)
        ensures
            f.show_window == old(self)@.first_frame,
            f.pause == (minimized == Some(true)),
            f.result == (if old(self)@.close { EventResult::Exit } else { EventResult::Wait }),
            final(self)@ == (WindowView { first_frame: false, ..old(self)@ }),
    {
        let show_window = self.first_frame;
        self.first_frame = false;
        let pause = match minimized {
            Some(m) => m,
            None => false,
        };
        let result = if self.close {
            EventResult::Exit
        } else {
            EventResult::Wait
        };
        FrameEnd { show_window, pause, result }
    }
}

/// A resize to a zero width or height leaves the window state, and so the
/// surface configuration, unchanged, and whatever the UI answers, it neither
/// schedules a repaint nor paints inline.
pub proof fn lemma_degenerate_resize_ignored(
    w: WindowView,
    width: u32,
    height: u32,
    repaint: bool,
    next: Option<u64>,
    now: u64,
    paint_inline: bool,
    has_window: bool,
)
    requires
        width == 0 || height == 0,
    ensures
        state_after_event(w, WindowInput::Resized { width, height }) == w,
        ({
            let r = window_result(
                w.close,
                step_of(w.close, WindowInput::Resized { width, height }),
                repaint,
            );
            &&& r == EventResult::Wait || r == EventResult::Exit
            &&& scheduled_after(next, r, now, paint_inline) == next
            &&& directive_for::<()>(r, paint_inline, has_window) != Directive::<()>::PaintInline
        }),
{
}

/// Once the close flag is set, every window event yields `Exit`, whatever it
/// holds and whatever the UI answers, and the flag stays set.
pub proof fn lemma_closing_window_exits(w: WindowView, ev: WindowInput, repaint: bool)
    requires
        w.close,
    ensures
        step_of(w.close, ev) == WindowStep::Exit,
        state_after_event(w, ev) == w,
        window_result(state_after_event(w, ev).close, step_of(w.close, ev), repaint)
            == EventResult::Exit,
{
}

} // verus!
