use vstd::prelude::*;

verus! {

use crate::acquire::AcquireOutcome;
use crate::errors::ProcessError;
use crate::registry::Registry;

/// One frame received from a feed's transport, as the classifier sees it.
#[derive(Debug, Clone, PartialEq, Eq)]
pub enum Frame {
    /// A text frame carrying a payload to classify.
    Text(String),
    /// A binary frame; discarded without dispatch.
    Binary,
    /// A ping control frame.
    Ping,
    /// A pong control frame.
    Pong,
    /// A close handshake frame delivered as data.
    Close,
}

/// What the transport yields for one awaited read on a live entry.
#[derive(Debug, Clone, PartialEq, Eq)]
pub enum ReadEvent {
    /// A frame arrived.
    Data(Frame),
    /// The stream ended or the transport reported an error.
    Disconnected,
}

/// How a read call starts.
#[derive(Debug, Clone, PartialEq, Eq)]
pub enum ReadStep {
    /// No entry for the feed: fail with "connection not found", without
    /// touching any transport. A read is only contracted after a
    /// successful acquire, so this is a contract violation by the caller,
    /// fatal to that feed's loop.
    NotFound(ProcessError),
    /// An entry exists: await the next frame under the entry's lock,
    /// serialized with any concurrent send on the same entry.
    AwaitFrame,
}

/// Opens a read call for `id`: it either proceeds to await a frame or
/// fails at once because no connection is registered.
pub fn read_begin(reg: &Registry, id: &String) -> (s: ReadStep)
    ensures
        reg@.contains(id@) ==> s == ReadStep::AwaitFrame,
        !reg@.contains(id@) ==> (s matches ReadStep::NotFound(e) && e matches
            ProcessError::ConnectionNotFound(u) && u@ == id@),
{
    if reg.contains(id) {
        ReadStep::AwaitFrame
    } else {
        ReadStep::NotFound(ProcessError::ConnectionNotFound(id.clone()))
    }
}

/// What the read call reports after the awaited event.
#[derive(Debug, Clone, PartialEq, Eq)]
pub enum ReadProgress {
    /// A data frame, returned to the caller unchanged.
    Deliver(Frame),
    /// The entry was dropped after a close/error; the caller must run the
    /// acquire protocol again and finish with `read_after_reacquire`.
    Reacquire,
}

/// Handles the awaited event of one read: a data frame is delivered and
/// the registry is untouched; on a closed stream or transport error the
/// feed's entry is removed and a transparent reacquire begins.
pub fn read_on_event(reg: &mut Registry, id: &String, ev: ReadEvent) -> (p: ReadProgress)
    requires
        old(reg).wf(),
    ensures
        final(reg).wf(),
        ev matches ReadEvent::Data(f) ==> p == ReadProgress::Deliver(f) && final(reg)@ == old(
            reg,
        )@,
        ev matches ReadEvent::Disconnected ==> p == ReadProgress::Reacquire && final(reg)@ == old(
            reg,
        )@.remove(id@),
{
    match ev {
        ReadEvent::Data(f) => ReadProgress::Deliver(f),
        ReadEvent::Disconnected => {
            reg.remove(id);
            ReadProgress::Reacquire
        },
    }
}

/// Finishes a read whose entry was dropped: a successful transparent
/// reacquire yields "no message this call" — not an error, not a frame —
/// so the consumption loop simply continues; a failed one propagates its
/// error to the caller.
pub fn read_after_reacquire(outcome: AcquireOutcome) -> (r: Result<Option<Frame>, ProcessError>)
    ensures
        outcome == AcquireOutcome::Connected ==> r == Result::<Option<Frame>,
            ProcessError,
        >::Ok(None),
        outcome matches AcquireOutcome::Failed(e) ==> r == Result::<Option<Frame>,
            ProcessError,
        >::Err(e),
{
    match outcome {
        AcquireOutcome::Connected => Ok(None),
        AcquireOutcome::Failed(e) => Err(e),
    }
}

/// After a transport close/error during a read, the registry no longer
/// contains the feed — whatever entries it held before. Together with
/// `read_after_reacquire`, a read that hits a close/error leaves no stale
/// entry behind and reports "no message" exactly when the internal
/// reacquire succeeded.
pub proof fn lemma_read_drops_entry(conns: Set<Seq<char>>, id: Seq<char>)
    ensures
        !conns.remove(id).contains(id),
{
}

} // verus!
