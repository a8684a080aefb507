use vstd::prelude::*;

verus! {

/// The owning wrapper around the externally-owned native capture resource.
///
/// Exactly one owning reference exists per session.  The wrapper enforces the
/// single-release discipline: `release` demands a handle that is still live,
/// so a verified caller can never release twice, and the session never touches
/// the native resource through a released handle.
pub struct CaptureHandle {
    handle_id: u64,
    released: bool,
}

impl CaptureHandle {
    /// The opaque identifier of the native resource this handle owns.
    pub closed spec fn id(self) -> u64 {
        self.handle_id
    }

    /// Whether the native resource has been released.
    pub closed spec fn is_released(self) -> bool {
        self.released
    }

    /// Takes ownership of a freshly acquired native resource.
    pub fn acquire(handle_id: u64) -> (h: Self)
        ensures
            h.id() == handle_id,
            !h.is_released(),
    {
        CaptureHandle { handle_id, released: false }
    }

    /// Releases the native resource.  May be called only once over the
    /// handle's lifetime.
    pub fn release(&mut self)
        requires
            !old(self).is_released(),
        ensures
            final(self).is_released(),
            final(self).id() == old(self).id(),
    {
        self.released = true;
    }

    /// Whether the native resource has been released.
    pub fn released(&self) -> (r: bool)
        ensures
            r == self.is_released(),
    {
        self.released
    }
}

} // verus!
