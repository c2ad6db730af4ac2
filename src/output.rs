use vstd::prelude::*;

verus! {

/// UI output not painted yet: appended to by each pass within a physical
/// frame, drained once when the frame is painted.
pub struct PendingOutput<T> {
    passes: Vec<T>,
}

impl<T> View for PendingOutput<T> {
    type V = Seq<T>;

    closed spec fn view(&self) -> Seq<T> {
        self.passes@
    }
}

impl<T> PendingOutput<T> {
    /// Nothing pending.
    pub fn new() -> (p: Self)
        ensures
            p@ == Seq::<T>::empty(),
    {
        PendingOutput { passes: Vec::new() }
    }

    /// Adds the output of one more pass after those already pending.
    pub fn append(&mut self, output: T)
        ensures
            final(self)@ == old(self)@.push(output),
    {
        self.passes.push(output);
    }

    /// Hands out everything pending, oldest pass first, and leaves nothing.
    pub fn take(&mut self) -> (r: Vec<T>)
        ensures
            r@ == old(self)@,
            final(self)@ == Seq::<T>::empty(),
    {
        let mut passes: Vec<T> = Vec::new();
        std::mem::swap(&mut passes, &mut self.passes);
        passes
    }
}

} // verus!
