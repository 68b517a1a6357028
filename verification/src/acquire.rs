use vstd::prelude::*;

verus! {

use crate::backoff::{backoff_delay, BackoffState, RetryDecision, INITIAL_BACKOFF, MAX_RETRIES};
use crate::errors::ProcessError;
use crate::registry::Registry;

/// Whether the url crate accepts `s` as a URL; a property of the
/// characters alone.
pub uninterp spec fn url_parses(s: Seq<char>) -> bool;

/// Relies on url::Url::parse: whether a string parses as a URL is a
/// function of the string alone.
#[verifier::external_body]
fn check_url(s: &String) -> (r: bool)
    ensures
        r == url_parses(s@),
{
    url::Url::parse(s).is_ok()
}

/// How an acquire call for one feed identifier begins.
#[derive(Debug, Clone, Copy, PartialEq, Eq, Structural)]
pub enum AcquireBegin {
    /// An entry already exists: success immediately, with no underlying
    /// connect and no auth/subscribe exchange.
    AlreadyConnected,
    /// The identifier is not a parseable URL: fail at once, with no
    /// connect attempt and no retry.
    InvalidUrl,
    /// No entry yet: start connect attempts with fresh backoff state.
    Connect(BackoffState),
}

/// The decision that opens every acquire call.
pub open spec fn acquire_begin_spec(conns: Set<Seq<char>>, id: Seq<char>, url_ok: bool) -> AcquireBegin {
    if conns.contains(id) {
        AcquireBegin::AlreadyConnected
    } else if !url_ok {
        AcquireBegin::InvalidUrl
    } else {
        AcquireBegin::Connect(BackoffState { retries: 0, delay: INITIAL_BACKOFF })
    }
}

/// Opens an acquire call: an existing entry short-circuits to success, an
/// unparseable identifier fails permanently, and otherwise connect
/// attempts begin with fresh backoff state.
pub fn acquire_begin(reg: &Registry, id: &String) -> (d: AcquireBegin)
    ensures
        d == acquire_begin_spec(reg@, id@, url_parses(id@)),
{
    if reg.contains(id) {
        AcquireBegin::AlreadyConnected
    } else if !check_url(id) {
        AcquireBegin::InvalidUrl
    } else {
        AcquireBegin::Connect(BackoffState::new())
    }
}

/// Acquiring a feed whose entry already exists is idempotent: the call
/// returns success at once and performs no further underlying connect and
/// no further auth/subscribe exchange. Hence two acquires in a row with no
/// intervening failure perform exactly one of each.
pub proof fn lemma_acquire_idempotent(conns: Set<Seq<char>>, id: Seq<char>, url_ok: bool)
    requires
        conns.contains(id),
    ensures
        acquire_begin_spec(conns, id, url_ok) == AcquireBegin::AlreadyConnected,
{
}

/// An outbound control message, sent immediately after a successful
/// connect, before any read. Its wire encoding is the shell's concern.
#[derive(Debug, Clone, PartialEq, Eq)]
pub enum ControlMessage {
    /// Authentication for the feed.
    Auth,
    /// Subscription to the feed's symbols.
    Subscribe(Vec<String>),
}

/// Records the new entry after a successful transport connect and plans
/// the control exchange: the Auth message, then the Subscribe message for
/// the feed's symbols, in that order.
///
/// A failure of either send propagates as an error but leaves the entry in
/// place: a send failure does not roll back the connect.
pub fn on_connect_success(reg: &mut Registry, id: &String, symbols: Vec<String>) -> (msgs: Vec<
    ControlMessage,
>)
    requires
        old(reg).wf(),
    ensures
        final(reg).wf(),
        final(reg)@ == old(reg)@.insert(id@),
        msgs@.len() == 2,
        msgs@[0] == ControlMessage::Auth,
        msgs@[1] == ControlMessage::Subscribe(symbols),
    {
    reg.register(id);
    let mut msgs: Vec<ControlMessage> = Vec::new();
    msgs.push(ControlMessage::Auth);
    msgs.push(ControlMessage::Subscribe(symbols));
    msgs
}

/// The final outcome of one acquire call.
#[derive(Debug, Clone, PartialEq, Eq)]
pub enum AcquireOutcome {
    /// A connection is registered for the feed.
    Connected,
    /// The acquire failed permanently for the feed.
    Failed(ProcessError),
}

/// Runs the whole acquire protocol against a modelled transport:
/// `outcomes[i]` is whether the `i`-th connect attempt would succeed. The
/// shell's acquire loop is exactly this control flow with the awaited
/// transport in place of `outcomes`. Returns the backoff delays slept
/// between attempts, the number of connect attempts performed, and the
/// final outcome.
pub fn acquire_protocol(
    reg: &mut Registry,
    id: &String,
    symbols: Vec<String>,
    outcomes: &Vec<bool>,
) -> (r: (Vec<u64>, u64, AcquireOutcome))
    requires
        old(reg).wf(),
        outcomes@.len() > MAX_RETRIES,
    ensures
        final(reg).wf(),
        old(reg)@.contains(id@) ==> {
            &&& r.2 == AcquireOutcome::Connected
            &&& final(reg)@ == old(reg)@
            &&& r.0@.len() == 0
            &&& r.1 == 0
        },
        !old(reg)@.contains(id@) && !url_parses(id@) ==> {
            &&& r.2 matches AcquireOutcome::Failed(e) && e matches ProcessError::UrlParseError(u)
                && u@ == id@
            &&& final(reg)@ == old(reg)@
            &&& r.0@.len() == 0
            &&& r.1 == 0
        },
        forall|k: int|
            (!old(reg)@.contains(id@) && url_parses(id@) && 0 <= k <= MAX_RETRIES && (forall|j: int|
                0 <= j < k ==> !outcomes@[j]) && #[trigger] outcomes@[k]) ==> {
                &&& r.2 == AcquireOutcome::Connected
                &&& final(reg)@ == old(reg)@.insert(id@)
                &&& r.0@.len() == k
                &&& forall|i: int| 0 <= i < k ==> r.0@[i] == backoff_delay(i as nat)
                &&& r.1 == k + 1
            },
        (!old(reg)@.contains(id@) && url_parses(id@) && (forall|j: int|
            0 <= j <= MAX_RETRIES ==> !outcomes@[j])) ==> {
            &&& r.2 matches AcquireOutcome::Failed(e) && e matches ProcessError::MaxRetriesReached(
                u,
            ) && u@ == id@
            &&& final(reg)@ == old(reg)@
            &&& r.0@.len() == MAX_RETRIES
            &&& forall|i: int| 0 <= i < MAX_RETRIES ==> r.0@[i] == backoff_delay(i as nat)
            &&& r.1 == MAX_RETRIES + 1
        },
{
    let mut delays: Vec<u64> = Vec::new();
    match acquire_begin(reg, id) {
        AcquireBegin::AlreadyConnected => (delays, 0, AcquireOutcome::Connected),
        AcquireBegin::InvalidUrl => (
            delays,
            0,
            AcquireOutcome::Failed(ProcessError::UrlParseError(id.clone())),
        ),
        AcquireBegin::Connect(b0) => {
            let mut b = b0;
            let mut attempt: u64 = 0;
            let mut done: bool = false;
            let mut spent: bool = false;
            while !done && !spent
                invariant
                    *reg == *old(reg),
                    reg.wf(),
                    !old(reg)@.contains(id@),
                    url_parses(id@),
                    outcomes@.len() > MAX_RETRIES,
                    b.wf(),
                    b.retries == attempt,
                    attempt <= MAX_RETRIES,
                    forall|j: int| 0 <= j < attempt ==> !outcomes@[j],
                    done ==> outcomes@[attempt as int],
                    spent ==> attempt == MAX_RETRIES && !outcomes@[attempt as int],
                    !(done && spent),
                    delays@.len() == attempt,
                    forall|i: int| 0 <= i < attempt ==> delays@[i] == backoff_delay(i as nat),
                decreases (if done || spent {
                    0int
                } else {
                    MAX_RETRIES + 2 - attempt
                }),
            {
                if outcomes[attempt as usize] {
                    done = true;
                } else {
                    match b.on_failure() {
                        RetryDecision::Retry(d) => {
                            delays.push(d);
                            attempt = attempt + 1;
                        },
                        RetryDecision::Exhausted => {
                            spent = true;
                        },
                    }
                }
            }
            if done {
                let ghost k = attempt as int;
                // The planned auth/subscribe exchange is the transport's to
                // carry out; here only its registry effect matters.
                let _msgs = on_connect_success(reg, id, symbols);
                proof {
                    assert forall|k2: int|
                        (0 <= k2 <= MAX_RETRIES && (forall|j: int| 0 <= j < k2 ==> !outcomes@[j])
                            && #[trigger] outcomes@[k2]) implies k2 == k by {
                        if k2 < k {
                            assert(!outcomes@[k2]);
                        }
                        if k2 > k {
                            assert(!outcomes@[k]);
                        }
                    }
                }
                (delays, attempt + 1, AcquireOutcome::Connected)
            } else {
                (delays, attempt + 1, AcquireOutcome::Failed(ProcessError::MaxRetriesReached(id.clone())))
            }
        },
    }
}

} // verus!
