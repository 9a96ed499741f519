//! The buffer controller: the write/swap/flush protocol over two buffers.
//!
//! A [`Controller`] owns exactly two [`LogBuffer`]s and an index naming the
//! one that currently accepts writes. Producers append to the current
//! buffer; when a write does not fit, the current buffer is retired to
//! `Flushing` and the other one takes over. The drain side picks up a
//! `Flushing` buffer, transmits its bytes, and resets it — unconditionally,
//! whether or not the transmission succeeded, because after a failure the
//! amount actually delivered cannot be known.
//!
//! Every operation is specified against [`ControllerModel`], the
//! mathematical transition system the controller implements.

use vstd::prelude::*;

use crate::buffer::{BufState, BufferModel, LogBuffer};

verus! {

/// The mathematical model of a [`Controller`]: two buffer models, the index
/// of the currently writable one, and the enable switch.
#[verifier::ext_equal]
pub ghost struct ControllerModel {
    pub buf0: BufferModel,
    pub buf1: BufferModel,
    pub current_idx: nat,
    pub enabled: bool,
}

impl ControllerModel {
    /// Well-formedness: both buffers are within capacity, the capacities
    /// agree, and the index names one of the two slots.
    pub open spec fn inv(self) -> bool {
        &&& self.buf0.inv()
        &&& self.buf1.inv()
        &&& self.current_idx <= 1
        &&& self.buf0.capacity == self.buf1.capacity
    }

    /// A freshly constructed controller: both buffers empty and `Active`,
    /// slot 0 current, switch on.
    pub open spec fn fresh(capacity: nat) -> ControllerModel {
        ControllerModel {
            buf0: BufferModel::fresh(capacity),
            buf1: BufferModel::fresh(capacity),
            current_idx: 0,
            enabled: true,
        }
    }

    /// The buffer in slot `i` (0 or 1).
    pub open spec fn buf(self, i: int) -> BufferModel {
        if i == 0 {
            self.buf0
        } else {
            self.buf1
        }
    }

    /// The controller with slot `i` replaced by `b`.
    pub open spec fn with_buf(self, i: int, b: BufferModel) -> ControllerModel {
        if i == 0 {
            ControllerModel { buf0: b, ..self }
        } else {
            ControllerModel { buf1: b, ..self }
        }
    }

    /// The index of the slot that is not current.
    pub open spec fn other_idx(self) -> nat {
        if self.current_idx == 0 {
            1
        } else {
            0
        }
    }

    /// The buffer currently accepting writes.
    pub open spec fn current(self) -> BufferModel {
        self.buf(self.current_idx as int)
    }

    /// The buffer in the slot that is not current.
    pub open spec fn other(self) -> BufferModel {
        self.buf(self.other_idx() as int)
    }

    /// The count of bytes held across both buffers.
    pub open spec fn total_stored(self) -> nat {
        self.buf0.contents.len() + self.buf1.contents.len()
    }

    /// Effect of `enable`: the switch turns on; nothing else changes.
    pub open spec fn enable_step(self) -> ControllerModel {
        ControllerModel { enabled: true, ..self }
    }

    /// Effect of `disable`: the switch turns off and both buffers are forcibly
    /// reset, so no partial frame survives into the next session.
    pub open spec fn disable_step(self) -> ControllerModel {
        ControllerModel { enabled: false, buf0: self.buf0.reset(), buf1: self.buf1.reset(), ..self }
    }

    /// Effect of `swap`: a no-op while disabled; otherwise the current
    /// buffer is retired to `Flushing` and the other slot becomes current.
    pub open spec fn swap_step(self) -> ControllerModel {
        if !self.enabled {
            self
        } else {
            ControllerModel {
                current_idx: self.other_idx(),
                ..self.with_buf(self.current_idx as int, self.current().flushed())
            }
        }
    }

    /// Whether the current buffer may take `n` more bytes: it must both be
    /// `Active` and have room.
    pub open spec fn write_target_ready(self, n: nat) -> bool {
        self.current().state == BufState::Active && self.current().accepts(n)
    }

    /// Effect of `write`: a no-op while disabled; otherwise the bytes go to
    /// the current buffer if it is ready, else the buffers are swapped and
    /// the freshly current one is tried; if even that one cannot take the
    /// bytes they are dropped — deliberate backpressure-by-discard, since a
    /// producer must never block.
    pub open spec fn write_step(self, bytes: Seq<u8>) -> ControllerModel {
        if !self.enabled {
            self
        } else if self.write_target_ready(bytes.len()) {
            self.with_buf(self.current_idx as int, self.current().appended(bytes))
        } else {
            let s = self.swap_step();
            if s.write_target_ready(bytes.len()) {
                s.with_buf(s.current_idx as int, s.current().appended(bytes))
            } else {
                s
            }
        }
    }

    /// Effect of `reset_buffer` on slot `i`.
    pub open spec fn reset_step(self, i: int) -> ControllerModel {
        self.with_buf(i, self.buf(i).reset())
    }
}

/// Controller of the two log buffers.
pub struct Controller {
    /// The buffer in slot 0.
    pub buf0: LogBuffer,
    /// The buffer in slot 1.
    pub buf1: LogBuffer,
    /// Index of the currently active (writable) slot: 0 or 1.
    pub current_idx: usize,
    /// The enable switch; while false, writes and swaps are ignored.
    pub enabled: bool,
}

impl View for Controller {
    type V = ControllerModel;

    open spec fn view(&self) -> ControllerModel {
        ControllerModel {
            buf0: self.buf0@,
            buf1: self.buf1@,
            current_idx: self.current_idx as nat,
            enabled: self.enabled,
        }
    }
}

impl Controller {
    /// Construct a controller with two empty `Active` buffers of the given
    /// capacity, slot 0 current, and the switch on.
    pub fn new(capacity: usize) -> (c: Controller)
        ensures
            c@ == ControllerModel::fresh(capacity as nat),
            c@.inv(),
    {
        let c = Controller {
            buf0: LogBuffer::new(capacity),
            buf1: LogBuffer::new(capacity),
            current_idx: 0,
            enabled: true,
        };
        proof {
            assert(c@ =~= ControllerModel::fresh(capacity as nat));
        }
        c
    }

    /// Turn the controller on. The buffers are left as they are.
    pub fn enable(&mut self)
        requires
            old(self)@.inv(),
        ensures
            final(self)@ == old(self)@.enable_step(),
            final(self)@.inv(),
    {
        self.enabled = true;
        proof {
            assert(self@ =~= old(self)@.enable_step());
        }
    }

    /// Turn the controller off and forcibly reset both buffers, so that no partially
    /// written or partially sent frame survives into the next session.
    pub fn disable(&mut self)
        requires
            old(self)@.inv(),
        ensures
            final(self)@ == old(self)@.disable_step(),
            final(self)@.inv(),
    {
        self.enabled = false;
        self.buf0.reset();
        self.buf1.reset();
        proof {
            assert(self@ =~= old(self)@.disable_step());
        }
    }

    /// Retire the current buffer to `Flushing` and make the other slot
    /// current. A no-op while disabled.
    pub fn swap(&mut self)
        requires
            old(self)@.inv(),
        ensures
            final(self)@ == old(self)@.swap_step(),
            final(self)@.inv(),
    {
        if !self.enabled {
            return ;
        }
        if self.current_idx == 0 {
            self.buf0.flush();
            self.current_idx = 1;
        } else {
            self.buf1.flush();
            self.current_idx = 0;
        }
        proof {
            assert(self@ =~= old(self)@.swap_step());
        }
    }

    /// Append `bytes` to the current buffer if it is `Active` and has room;
    /// on failure, return `false` and leave the controller unchanged.
    fn write_current(&mut self, bytes: &[u8]) -> (wrote: bool)
        requires
            old(self)@.inv(),
        ensures
            final(self)@.inv(),
            wrote == old(self)@.write_target_ready(bytes@.len()),
            wrote ==> final(self)@ == old(self)@.with_buf(
                old(self)@.current_idx as int,
                old(self)@.current().appended(bytes@),
            ),
            !wrote ==> final(self)@ == old(self)@,
    {
        let n: usize = bytes.len();
        if self.current_idx == 0 {
            if self.buf0.state == BufState::Active && self.buf0.accepts(n) {
                self.buf0.write(bytes);
                proof {
                    assert(self@ =~= old(self)@.with_buf(0, old(self)@.current().appended(bytes@)));
                }
                true
            } else {
                false
            }
        } else {
            if self.buf1.state == BufState::Active && self.buf1.accepts(n) {
                self.buf1.write(bytes);
                proof {
                    assert(self@ =~= old(self)@.with_buf(1, old(self)@.current().appended(bytes@)));
                }
                true
            } else {
                false
            }
        }
    }

    /// Write encoded bytes to the current buffer, swapping buffers when the
    /// write does not fit. While disabled, or when neither buffer can take
    /// the bytes even after a swap, the bytes are dropped; the producer is
    /// never blocked.
    pub fn write(&mut self, bytes: &[u8])
        requires
            old(self)@.inv(),
        ensures
            final(self)@ == old(self)@.write_step(bytes@),
            final(self)@.inv(),
    {
        if !self.enabled {
            return ;
        }
        let wrote = self.write_current(bytes);
        if !wrote {
            self.swap();
            let _ = self.write_current(bytes);
        }
    }

    /// The slot of a buffer awaiting transmission, slot 0 checked before
    /// slot 1 — the deterministic tie-break for the abnormal case where
    /// both are `Flushing`.
    pub fn get_flushing(&self) -> (r: Option<usize>)
        requires
            self@.inv(),
        ensures
            self@.buf0.state == BufState::Flushing ==> r == Some(0usize),
            self@.buf0.state != BufState::Flushing && self@.buf1.state == BufState::Flushing ==> r
                == Some(1usize),
            self@.buf0.state != BufState::Flushing && self@.buf1.state != BufState::Flushing ==> r
                is None,
    {
        if self.buf0.is_flushing() {
            Some(0)
        } else if self.buf1.is_flushing() {
            Some(1)
        } else {
            None
        }
    }

    /// A copy of the valid bytes held in slot `idx`.
    pub fn buffer_bytes(&self, idx: usize) -> (r: Vec<u8>)
        requires
            self@.inv(),
            idx <= 1,
        ensures
            r@ == self@.buf(idx as int).contents,
    {
        let src: &Vec<u8> = if idx == 0 {
            &self.buf0.data
        } else {
            &self.buf1.data
        };
        let mut out: Vec<u8> = Vec::new();
        let mut i: usize = 0;
        while i < src.len()
            invariant
                i <= src@.len(),
                out@ == src@.take(i as int),
                src@ == self@.buf(idx as int).contents,
            decreases src@.len() - i,
        {
            let byte: u8 = src[i];
            out.push(byte);
            proof {
                assert(out@ =~= src@.take(i + 1));
            }
            i += 1;
        }
        proof {
            assert(src@.take(src@.len() as int) =~= src@);
        }
        out
    }

    /// Return the buffer in slot `idx` to service after a transmission
    /// attempt: its contents are discarded and it becomes `Active` again.
    pub fn reset_buffer(&mut self, idx: usize)
        requires
            old(self)@.inv(),
            idx <= 1,
        ensures
            final(self)@ == old(self)@.reset_step(idx as int),
            final(self)@.inv(),
    {
        if idx == 0 {
            self.buf0.reset();
        } else {
            self.buf1.reset();
        }
        proof {
            assert(self@ =~= old(self)@.reset_step(idx as int));
        }
    }

    /// Drain at most one `Flushing` buffer through `sender`, slot 0 first.
    ///
    /// If no buffer awaits transmission, the sender is not invoked and the
    /// call succeeds immediately. Otherwise the buffer's bytes are handed
    /// to `sender`, and the buffer is reset afterwards *regardless of the
    /// outcome* — once bytes have been handed to the transport the amount
    /// actually delivered cannot be known, so the only safe choice is to
    /// discard and move on. The sender's own result is returned.
    pub fn flush<E, F: FnOnce(Vec<u8>) -> Result<(), E>>(&mut self, sender: F) -> (r: Result<
        (),
        E,
    >)
        requires
            old(self)@.inv(),
            forall|v: Vec<u8>|
                (old(self)@.buf0.state == BufState::Flushing && v@ == old(self)@.buf0.contents)
                    ==> #[trigger] call_requires(sender, (v,)),
            forall|v: Vec<u8>|
                (old(self)@.buf0.state != BufState::Flushing && old(self)@.buf1.state
                    == BufState::Flushing && v@ == old(self)@.buf1.contents)
                    ==> #[trigger] call_requires(sender, (v,)),
        ensures
            final(self)@.inv(),
            old(self)@.buf0.state == BufState::Flushing ==> {
                &&& final(self)@ == old(self)@.reset_step(0)
                &&& exists|v: Vec<u8>|
                    v@ == old(self)@.buf0.contents && #[trigger] call_ensures(sender, (v,), r)
            },
            old(self)@.buf0.state != BufState::Flushing && old(self)@.buf1.state
                == BufState::Flushing ==> {
                &&& final(self)@ == old(self)@.reset_step(1)
                &&& exists|v: Vec<u8>|
                    v@ == old(self)@.buf1.contents && #[trigger] call_ensures(sender, (v,), r)
            },
            old(self)@.buf0.state != BufState::Flushing && old(self)@.buf1.state
                != BufState::Flushing ==> r == Result::<(), E>::Ok(()) && final(self)@ == old(
                self,
            )@,
    {
        match self.get_flushing() {
            None => Ok(()),
            Some(idx) => {
                let bytes = self.buffer_bytes(idx);
                let ghost sent = bytes;
                let res = sender(bytes);
                self.reset_buffer(idx);
                proof {
                    assert(call_ensures(sender, (sent,), res));
                }
                res
            },
        }
    }
}

/// While the controller is disabled, `write` and `swap` are no-ops: no
/// state change is observable.
pub proof fn lemma_disabled_no_ops(m: ControllerModel, bytes: Seq<u8>)
    requires
        !m.enabled,
    ensures
        m.write_step(bytes) == m,
        m.swap_step() == m,
{
}

/// After a swap of an enabled controller whose buffers are both `Active`,
/// exactly one buffer transitions `Active` to `Flushing` — the one that was
/// current, its contents untouched — while the other remains `Active` and
/// untouched, and the current index differs from its pre-swap value.
pub proof fn lemma_swap_transitions(m: ControllerModel)
    requires
        m.inv(),
        m.enabled,
        m.current().state == BufState::Active,
        m.other().state == BufState::Active,
    ensures
        m.swap_step().current_idx != m.current_idx,
        m.swap_step().current_idx <= 1,
        m.swap_step().buf(m.current_idx as int).state == BufState::Flushing,
        m.swap_step().buf(m.current_idx as int).contents == m.current().contents,
        m.swap_step().buf(m.other_idx() as int) == m.other(),
        m.swap_step().buf(m.other_idx() as int).state == BufState::Active,
{
}

/// A single write loses nothing when the bytes fit somewhere: if the
/// current buffer is `Active` and either it accepts the bytes, or the other
/// buffer is `Active` and accepts them, then afterwards the stored total
/// has grown by exactly the write's length and the bytes stand intact at
/// the tail of one buffer's contents.
pub proof fn lemma_write_step_no_loss(m: ControllerModel, bytes: Seq<u8>)
    requires
        m.inv(),
        m.enabled,
        m.current().state == BufState::Active,
        m.current().accepts(bytes.len()) || (m.other().state == BufState::Active
            && m.other().accepts(bytes.len())),
    ensures
        m.write_step(bytes).total_stored() == m.total_stored() + bytes.len(),
        m.write_step(bytes).buf0.contents == m.buf0.contents + bytes || m.write_step(
            bytes,
        ).buf1.contents == m.buf1.contents + bytes,
        m.buf0.contents.is_prefix_of(m.write_step(bytes).buf0.contents),
        m.buf1.contents.is_prefix_of(m.write_step(bytes).buf1.contents),
        m.write_step(bytes).inv(),
        m.write_step(bytes).enabled,
{
    assert((m.buf0.contents + bytes).subrange(0, m.buf0.contents.len() as int) =~= m.buf0.contents);
    assert((m.buf1.contents + bytes).subrange(0, m.buf1.contents.len() as int) =~= m.buf1.contents);
}

/// The controller reached from `m` by performing the writes of `ws` in
/// order.
pub open spec fn apply_writes(m: ControllerModel, ws: Seq<Seq<u8>>) -> ControllerModel
    decreases ws.len(),
{
    if ws.len() == 0 {
        m
    } else {
        apply_writes(m.write_step(ws[0]), ws.drop_first())
    }
}

/// Whether each write of `ws`, as it arrives, fits in a buffer that can
/// take it: the current buffer is `Active`, and either it or an `Active`
/// other buffer accepts the write's bytes.
pub open spec fn writes_fit(m: ControllerModel, ws: Seq<Seq<u8>>) -> bool
    decreases ws.len(),
{
    if ws.len() == 0 {
        true
    } else {
        &&& m.current().state == BufState::Active
        &&& (m.current().accepts(ws[0].len()) || (m.other().state == BufState::Active
            && m.other().accepts(ws[0].len())))
        &&& writes_fit(m.write_step(ws[0]), ws.drop_first())
    }
}

/// The total length of a sequence of writes.
pub open spec fn sum_lens(ws: Seq<Seq<u8>>) -> nat
    decreases ws.len(),
{
    if ws.len() == 0 {
        0
    } else {
        ws[0].len() + sum_lens(ws.drop_first())
    }
}

/// No byte of a sequence of writes is lost so long as each write, when it
/// arrives, fits in a buffer that can take it: every buffer's contents only
/// grow by appending — nothing already stored is overwritten or discarded —
/// and the bytes held across the two buffers grow by exactly the writes'
/// total length, so all written bytes stay visible in some buffer.
pub proof fn lemma_writes_no_loss(m: ControllerModel, ws: Seq<Seq<u8>>)
    requires
        m.inv(),
        m.enabled,
        writes_fit(m, ws),
    ensures
        apply_writes(m, ws).total_stored() == m.total_stored() + sum_lens(ws),
        m.buf0.contents.is_prefix_of(apply_writes(m, ws).buf0.contents),
        m.buf1.contents.is_prefix_of(apply_writes(m, ws).buf1.contents),
        apply_writes(m, ws).inv(),
        apply_writes(m, ws).enabled,
    decreases ws.len(),
{
    if ws.len() == 0 {
    } else {
        lemma_write_step_no_loss(m, ws[0]);
        lemma_writes_no_loss(m.write_step(ws[0]), ws.drop_first());
        let end = apply_writes(m, ws);
        assert(m.buf0.contents =~= end.buf0.contents.subrange(0, m.buf0.contents.len() as int));
        assert(m.buf1.contents =~= end.buf1.contents.subrange(0, m.buf1.contents.len() as int));
    }
}

} // verus!
