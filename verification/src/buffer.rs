//! Fixed-capacity byte buffers with an `Active` / `Flushing` role tag.
//!
//! A [`LogBuffer`] accepts appended bytes while it is `Active`; the
//! controller retires it to `Flushing` when it is due for transmission, and
//! a `reset` returns it to `Active` with no contents. The capacity is fixed
//! at construction and never changes.

use vstd::prelude::*;

verus! {

/// The role a buffer currently plays.
///
/// An `Active` buffer is the one producers may append to; a `Flushing`
/// buffer has been retired from writing and waits to be transmitted and
/// reset.
#[derive(Clone, Copy, Debug, PartialEq, Eq, Structural)]
pub enum BufState {
    Active,
    Flushing,
}

/// The mathematical model of a [`LogBuffer`]: its valid bytes, its fixed
/// capacity, and its role tag.
#[verifier::ext_equal]
pub ghost struct BufferModel {
    pub contents: Seq<u8>,
    pub capacity: nat,
    pub state: BufState,
}

impl BufferModel {
    /// The buffer never holds more bytes than its capacity.
    pub open spec fn inv(self) -> bool {
        self.contents.len() <= self.capacity
    }

    /// A freshly constructed buffer: empty and `Active`.
    pub open spec fn fresh(capacity: nat) -> BufferModel {
        BufferModel { contents: Seq::empty(), capacity, state: BufState::Active }
    }

    /// Whether `n` more bytes fit. The bound is inclusive: a buffer may be
    /// filled exactly to its capacity.
    pub open spec fn accepts(self, n: nat) -> bool {
        self.contents.len() + n <= self.capacity
    }

    /// The buffer after appending `bytes`.
    pub open spec fn appended(self, bytes: Seq<u8>) -> BufferModel {
        BufferModel { contents: self.contents + bytes, ..self }
    }

    /// The buffer after being retired for transmission.
    pub open spec fn flushed(self) -> BufferModel {
        BufferModel { state: BufState::Flushing, ..self }
    }

    /// The buffer after a reset: empty and `Active` again.
    pub open spec fn reset(self) -> BufferModel {
        BufferModel { contents: Seq::empty(), state: BufState::Active, ..self }
    }
}

/// Once `accepts(n)` is false for a buffer, appending more bytes or retiring
/// the buffer cannot make it true again; only a reset can, and after a reset
/// `accepts(n)` holds exactly when `n` fits the bare capacity.
pub proof fn lemma_accepts_monotonic(b: BufferModel, bytes: Seq<u8>, n: nat)
    ensures
        !b.accepts(n) ==> !b.appended(bytes).accepts(n),
        !b.accepts(n) ==> !b.flushed().accepts(n),
        b.reset().accepts(n) <==> n <= b.capacity,
{
}

/// A fixed-capacity byte buffer holding one pending stretch of encoded log
/// frames.
pub struct LogBuffer {
    /// The valid bytes, in append order. Never longer than `capacity`.
    pub data: Vec<u8>,
    /// The fixed capacity, set at construction.
    pub capacity: usize,
    /// The buffer's current role.
    pub state: BufState,
}

impl View for LogBuffer {
    type V = BufferModel;

    open spec fn view(&self) -> BufferModel {
        BufferModel {
            contents: self.data@,
            capacity: self.capacity as nat,
            state: self.state,
        }
    }
}

impl LogBuffer {
    /// Construct an empty `Active` buffer of the given capacity.
    pub fn new(capacity: usize) -> (b: LogBuffer)
        ensures
            b@ == BufferModel::fresh(capacity as nat),
            b@.inv(),
    {
        let b = LogBuffer { data: Vec::new(), capacity, state: BufState::Active };
        proof {
            assert(b@ =~= BufferModel::fresh(capacity as nat));
        }
        b
    }

    /// Whether `n` more bytes fit. Pure predicate, no side effect.
    pub fn accepts(&self, n: usize) -> (r: bool)
        requires
            self@.inv(),
        ensures
            r == self@.accepts(n as nat),
    {
        n <= self.capacity - self.data.len()
    }

    /// Append `bytes` at the cursor.
    ///
    /// The caller must have verified that the bytes fit and that the buffer
    /// is `Active`; both are protocol obligations, not re-checked at run
    /// time.
    pub fn write(&mut self, bytes: &[u8])
        requires
            old(self)@.inv(),
            old(self)@.accepts(bytes@.len()),
            old(self)@.state == BufState::Active,
        ensures
            final(self)@ == old(self)@.appended(bytes@),
            final(self)@.inv(),
    {
        let ghost pre = self.data@;
        let mut i: usize = 0;
        while i < bytes.len()
            invariant
                i <= bytes@.len(),
                pre == old(self).data@,
                pre.len() + bytes@.len() <= self.capacity,
                self.data@ == pre + bytes@.take(i as int),
                self.capacity == old(self).capacity,
                self.state == old(self).state,
            decreases bytes@.len() - i,
        {
            let byte = bytes[i];
            self.data.push(byte);
            proof {
                assert(self.data@ =~= pre + bytes@.take(i + 1));
            }
            i += 1;
        }
        proof {
            assert(bytes@.take(bytes@.len() as int) =~= bytes@);
            assert(self@ =~= old(self)@.appended(bytes@));
        }
    }

    /// Retire the buffer for transmission.
    pub fn flush(&mut self)
        ensures
            final(self)@ == old(self)@.flushed(),
    {
        self.state = BufState::Flushing;
        proof {
            assert(self@ =~= old(self)@.flushed());
        }
    }

    /// Return the buffer to service: discard its contents and mark it
    /// `Active`.
    pub fn reset(&mut self)
        ensures
            final(self)@ == old(self)@.reset(),
            final(self)@.inv(),
    {
        self.data.clear();
        self.state = BufState::Active;
        proof {
            assert(self@ =~= old(self)@.reset());
        }
    }

    /// Whether the buffer waits to be transmitted.
    pub fn is_flushing(&self) -> (r: bool)
        ensures
            r == (self@.state == BufState::Flushing),
    {
        self.state == BufState::Flushing
    }

    /// The count of valid bytes.
    pub fn cursor(&self) -> (n: usize)
        ensures
            n == self@.contents.len(),
    {
        self.data.len()
    }
}

} // verus!
