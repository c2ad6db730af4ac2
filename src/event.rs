use vstd::prelude::*;

verus! {

/// A message injected into the event loop from outside the main thread.
#[derive(Clone, Copy, Debug, PartialEq, Eq, Structural)]
pub enum UserEvent {
    /// The UI context asks to be repainted at `when`; `cumulative_pass_nr` is
    /// the context's pass counter at the moment it asked.
    RequestRepaint { when: u64, cumulative_pass_nr: u64 },
}

/// What the shell should do after handling one event.
#[derive(Clone, Copy, Debug, PartialEq, Eq, Structural)]
pub enum EventResult {
    /// Nothing to draw: block until the next event.
    Wait,
    /// Draw as soon as possible, inline where the platform allows it.
    RepaintNow,
    /// Draw at the next opportunity.
    RepaintNext,
    /// Draw no later than the given moment.
    RepaintAt(u64),
    /// Leave the event loop.
    Exit,
}

} // verus!
