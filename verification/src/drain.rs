//! Decisions of the drain task, and packet-size chunking.
//!
//! The drain side runs as a single cooperative task around the controller:
//! it waits for the transport to connect, then repeatedly drains a retired
//! buffer and backs off briefly when there is nothing to do. Its suspension
//! points — waiting for the connection, sending a packet, the backoff —
//! belong to the surrounding application; what is decided between them is
//! [`drain_step`], a verified transition function. [`chunk_bytes`] splits a
//! buffer's bytes into pieces no larger than the transport's maximum packet
//! size, which is what makes an oversize-packet rejection unreachable by
//! construction.

use vstd::prelude::*;

use crate::controller::Controller;

verus! {

/// What the transport reported when a send failed.
#[derive(Clone, Copy, Debug, PartialEq, Eq)]
pub enum TransportError {
    /// The endpoint is disabled or detached: a hard disconnect. The drain
    /// task recovers by disabling the controller and waiting for a new
    /// connection.
    Disabled,
    /// A packet exceeded the negotiated maximum size. Unreachable when the
    /// bytes were chunked with [`chunk_bytes`]; observing it is a fatal
    /// logic error.
    BufferOverflow,
}

/// Where the drain task stands.
#[derive(Clone, Copy, Debug, PartialEq, Eq)]
pub enum DrainState {
    /// No transport connection; nothing is drained.
    WaitConnection,
    /// Connected and draining retired buffers.
    Draining,
}

/// What the drain task last observed at one of its suspension points.
#[derive(Clone, Copy, Debug, PartialEq, Eq)]
pub enum DrainEvent {
    /// The transport connection came up.
    Connected,
    /// One drain attempt concluded with this result.
    FlushDone(Result<(), TransportError>),
}

/// What the drain task is to do next.
#[derive(Clone, Copy, Debug, PartialEq, Eq)]
pub enum DrainAction {
    /// Attempt to drain a retired buffer.
    Flush,
    /// Nothing to do or a transient failure: wait the backoff interval,
    /// then attempt the next drain.
    Backoff,
    /// The transport is gone: wait for it to connect again.
    AwaitConnection,
    /// A broken invariant was observed; the caller must abort.
    Fault,
}

/// One decision of the drain task: from its state and the event observed
/// at the last suspension point to its next state and action.
///
/// On connection the controller is enabled. On a hard disconnect the
/// controller is disabled — which forcibly resets both buffers, so no
/// partial frame survives into the next session — and the task goes back
/// to waiting. A successful or empty drain is followed by a backoff; an
/// oversize-packet rejection is a fatal logic error, the controller left
/// untouched for inspection.
pub fn drain_step(controller: &mut Controller, state: DrainState, event: DrainEvent) -> (r: (
    DrainState,
    DrainAction,
))
    requires
        old(controller)@.inv(),
        (state == DrainState::WaitConnection) <==> (event == DrainEvent::Connected),
    ensures
        final(controller)@.inv(),
        event == DrainEvent::Connected ==> final(controller)@ == old(controller)@.enable_step()
            && r == (DrainState::Draining, DrainAction::Flush),
        (event matches DrainEvent::FlushDone(Ok(()))) ==> final(controller)@ == old(controller)@
            && r == (DrainState::Draining, DrainAction::Backoff),
        (event matches DrainEvent::FlushDone(Err(TransportError::Disabled)))
            ==> final(controller)@ == old(controller)@.disable_step()
            && r == (DrainState::WaitConnection, DrainAction::AwaitConnection),
        (event matches DrainEvent::FlushDone(Err(TransportError::BufferOverflow)))
            ==> final(controller)@ == old(controller)@
            && r == (DrainState::Draining, DrainAction::Fault),
{
    match (state, event) {
        (DrainState::WaitConnection, DrainEvent::Connected) => {
            controller.enable();
            (DrainState::Draining, DrainAction::Flush)
        },
        (DrainState::Draining, DrainEvent::FlushDone(res)) => match res {
            Ok(()) => (DrainState::Draining, DrainAction::Backoff),
            Err(TransportError::Disabled) => {
                controller.disable();
                (DrainState::WaitConnection, DrainAction::AwaitConnection)
            },
            Err(TransportError::BufferOverflow) => (DrainState::Draining, DrainAction::Fault),
        },
        _ => unreached(),
    }
}

/// The views of a sequence of byte chunks.
pub open spec fn chunk_views(chunks: Seq<Vec<u8>>) -> Seq<Seq<u8>> {
    chunks.map_values(|c: Vec<u8>| c@)
}

/// Split `bytes` into consecutive chunks of at most `size` bytes each.
///
/// Every chunk but the last is exactly `size` long, no chunk is empty, and
/// the chunks concatenate back to the input — so sending the chunks in
/// order delivers exactly the input, and no chunk can exceed a transport
/// maximum of `size`.
pub fn chunk_bytes(bytes: &Vec<u8>, size: usize) -> (chunks: Vec<Vec<u8>>)
    requires
        size >= 1,
    ensures
        chunk_views(chunks@).flatten() == bytes@,
        forall|i: int|
            0 <= i < chunks@.len() ==> 1 <= #[trigger] chunks@[i]@.len() <= size,
        forall|i: int| 0 <= i < chunks@.len() - 1 ==> #[trigger] chunks@[i]@.len() == size,
{
    broadcast use Seq::lemma_flatten_push;

    let mut chunks: Vec<Vec<u8>> = Vec::new();
    let mut pos: usize = 0;
    proof {
        assert(chunk_views(chunks@) =~= Seq::<Seq<u8>>::empty());
        assert(Seq::<Seq<u8>>::empty().flatten() =~= bytes@.take(0));
    }
    while pos < bytes.len()
        invariant
            pos <= bytes@.len(),
            size >= 1,
            chunk_views(chunks@).flatten() == bytes@.take(pos as int),
            forall|i: int|
                0 <= i < chunks@.len() ==> 1 <= #[trigger] chunks@[i]@.len() <= size,
            forall|i: int| 0 <= i < chunks@.len() - 1 ==> #[trigger] chunks@[i]@.len() == size,
            pos < bytes@.len() ==> forall|i: int|
                0 <= i < chunks@.len() ==> #[trigger] chunks@[i]@.len() == size,
        decreases bytes@.len() - pos,
    {
        let remaining: usize = bytes.len() - pos;
        let step: usize = if remaining < size {
            remaining
        } else {
            size
        };
        let end: usize = pos + step;
        let mut chunk: Vec<u8> = Vec::new();
        let mut i: usize = pos;
        while i < end
            invariant
                pos <= i <= end,
                end <= bytes@.len(),
                chunk@ == bytes@.subrange(pos as int, i as int),
            decreases end - i,
        {
            let byte: u8 = bytes[i];
            chunk.push(byte);
            proof {
                assert(chunk@ =~= bytes@.subrange(pos as int, i + 1));
            }
            i += 1;
        }
        let ghost pre_chunks = chunks@;
        chunks.push(chunk);
        proof {
            assert(chunk_views(chunks@) =~= chunk_views(pre_chunks).push(
                bytes@.subrange(pos as int, end as int),
            ));
            chunk_views(pre_chunks).lemma_flatten_push(bytes@.subrange(pos as int, end as int));
            assert(bytes@.take(pos as int) + bytes@.subrange(pos as int, end as int) =~= bytes@.take(
                end as int,
            ));
        }
        pos = end;
    }
    proof {
        assert(bytes@.take(bytes@.len() as int) =~= bytes@);
    }
    chunks
}

} // verus!
