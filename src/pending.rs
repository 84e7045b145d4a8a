use vstd::prelude::*;

verus! {

/// Output of one GUI frame, held from the frame's update to its render and
/// handed out once.
pub struct PendingOutput<T> {
    slot: Option<T>,
}

impl<T> PendingOutput<T> {
    pub closed spec fn view(&self) -> Option<T> {
        self.slot
    }

    pub fn new() -> (p: Self)
        ensures
            p.view() is None,
    {
        PendingOutput { slot: None }
    }

    /// Holds `t` for the next render, in place of anything held before.
    pub fn put(&mut self, t: T)
        ensures
            final(self).view() == Some(t),
    {
        self.slot = Some(t);
    }

    /// Hands out what is held and leaves nothing behind.
    pub fn take(&mut self) -> (r: Option<T>)
        ensures
            r == old(self).view(),
            final(self).view() is None,
    {
        self.slot.take()
    }

    pub fn is_pending(&self) -> (r: bool)
        ensures
            r == self.view() is Some,
    {
        self.slot.is_some()
    }
}

} // verus!
