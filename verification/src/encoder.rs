//! The frame-boundary latch that serialises producer access.
//!
//! A [`USBLogger`] owns the [`Controller`] and a `taken` flag. The
//! surrounding application enters its exclusion primitive, calls
//! [`USBLogger::acquire`], feeds the frame's encoded bytes through
//! [`USBLogger::write`], and finishes with [`USBLogger::release`] before
//! leaving the exclusion again. Acquiring the latch while it is already
//! taken, or releasing it while it is not, is a broken calling contract:
//! both are excluded by precondition, and the caller must treat either as
//! fatal rather than proceed.

use vstd::prelude::*;

use crate::controller::{Controller, ControllerModel};

verus! {

/// The logger core: the buffer controller together with the latch that
/// keeps producer access paired and non-reentrant.
pub struct USBLogger {
    /// True between `acquire` and `release`, while one producer holds
    /// exclusive access to the write path.
    pub taken: bool,
    /// The buffer controller all frames are written through.
    pub controller: Controller,
}

impl USBLogger {
    /// Construct a logger with a released latch and a fresh controller of
    /// the given buffer capacity.
    pub fn new(capacity: usize) -> (l: USBLogger)
        ensures
            !l.taken,
            l.controller@ == ControllerModel::fresh(capacity as nat),
            l.controller@.inv(),
    {
        USBLogger { taken: false, controller: Controller::new(capacity) }
    }

    /// Whether the latch is currently held. The caller checks this before
    /// `acquire` or `release` and fails loudly on a broken pairing.
    pub fn is_taken(&self) -> (r: bool)
        ensures
            r == self.taken,
    {
        self.taken
    }

    /// Take the latch at the start of a frame.
    ///
    /// Reentrant acquisition is a programmer error: the caller must have
    /// checked `is_taken` and aborted rather than call this twice.
    pub fn acquire(&mut self)
        requires
            !old(self).taken,
        ensures
            final(self).taken,
            final(self).controller == old(self).controller,
    {
        self.taken = true;
    }

    /// Give the latch back at the end of a frame.
    ///
    /// Must be paired one to one with `acquire`; a release without a
    /// matching acquire is a programmer error the caller must treat as
    /// fatal.
    pub fn release(&mut self)
        requires
            old(self).taken,
        ensures
            !final(self).taken,
            final(self).controller == old(self).controller,
    {
        self.taken = false;
    }

    /// Pass a frame's encoded bytes through to the controller's write
    /// path. Valid only between `acquire` and `release`.
    pub fn write(&mut self, bytes: &[u8])
        requires
            old(self).taken,
            old(self).controller@.inv(),
        ensures
            final(self).taken,
            final(self).controller@ == old(self).controller@.write_step(bytes@),
            final(self).controller@.inv(),
    {
        self.controller.write(bytes);
    }

    /// Retire the current buffer so its frames become eligible for
    /// transmission. Valid only between `acquire` and `release`.
    pub fn flush(&mut self)
        requires
            old(self).taken,
            old(self).controller@.inv(),
        ensures
            final(self).taken,
            final(self).controller@ == old(self).controller@.swap_step(),
            final(self).controller@.inv(),
    {
        self.controller.swap();
    }
}

} // verus!
