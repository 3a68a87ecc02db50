//! Ownership transfer of byte payloads from the engine to the host runtime.
//!
//! Return data and log payloads can be large, so they cross the boundary
//! without being copied: the engine's finalized buffer is moved, whole, into
//! a host-visible view, and the one remaining owner of the memory becomes the
//! release action that the host runs when the view is reclaimed. Release must
//! happen exactly once — never while the view is reachable, never twice.

use vstd::prelude::*;

verus! {

/// An owned, contiguous, immutable region of bytes, finalized by the engine.
/// Once built, its contents never change, so its base address is stable for
/// its whole lifetime — the precondition for handing the memory out by
/// reference rather than by copy.
pub struct ByteBuffer {
    bytes: Vec<u8>,
}

impl View for ByteBuffer {
    type V = Seq<u8>;

    closed spec fn view(&self) -> Seq<u8> {
        self.bytes@
    }
}

impl ByteBuffer {
    /// Finalizes a byte vector into an immutable buffer.
    pub fn from_vec(bytes: Vec<u8>) -> (r: ByteBuffer)
        ensures
            r@ == bytes@,
    {
        ByteBuffer { bytes }
    }

    /// The number of bytes in the region.
    pub fn len(&self) -> (n: usize)
        ensures
            n == self@.len(),
    {
        self.bytes.len()
    }

    /// Borrows the underlying bytes.
    pub fn as_bytes(&self) -> (r: &Vec<u8>)
        ensures
            r@ == self@,
    {
        &self.bytes
    }
}

/// The host-visible side of a bridged buffer: a view over the same bytes,
/// together with the pending release obligation. The host runtime keeps the
/// view reachable for as long as its consumers need it, and runs the release
/// action once, when the view is reclaimed.
pub struct HostBuffer {
    bytes: Vec<u8>,
    released: bool,
}

impl View for HostBuffer {
    type V = Seq<u8>;

    closed spec fn view(&self) -> Seq<u8> {
        self.bytes@
    }
}

impl HostBuffer {
    /// Whether the release action has already run for this view.
    pub closed spec fn is_released(self) -> bool {
        self.released
    }

    /// Moves an engine buffer across the boundary. The view reports the same
    /// length and the same bytes — the memory is not copied, ownership is.
    /// The fresh view's release is still pending: discharging it is now the
    /// host's responsibility alone.
    pub fn bridge(buffer: ByteBuffer) -> (h: HostBuffer)
        ensures
            h@ == buffer@,
            !h.is_released(),
    {
        let ByteBuffer { bytes } = buffer;
        HostBuffer { bytes, released: false }
    }

    /// The length the host sees.
    pub fn len(&self) -> (n: usize)
        ensures
            n == self@.len(),
    {
        self.bytes.len()
    }

    /// Borrows the bytes the host sees.
    pub fn as_bytes(&self) -> (r: &Vec<u8>)
        ensures
            r@ == self@,
    {
        &self.bytes
    }

    /// Whether the release action has already run.
    pub fn released(&self) -> (b: bool)
        ensures
            b == self.is_released(),
    {
        self.released
    }

    /// The release action the host runs when the view becomes unreachable.
    /// Returns whether the underlying buffer was released by this call: it is
    /// released by exactly one call over the view's lifetime, however many
    /// times the action is run.
    pub fn release(&mut self) -> (fired: bool)
        ensures
            final(self).is_released(),
            fired == !old(self).is_released(),
            final(self)@ == old(self)@,
    {
        let fired = !self.released;
        self.released = true;
        fired
    }
}

} // verus!
