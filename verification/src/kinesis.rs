//! The shard poller: per-shard position-token lifecycle.
//!
//! A `KinesisShardIterator` owns one shard's reading position.  It starts
//! with no token (`NeedToken`); a resolution call turns the start policy
//! into the first token; each fetch replaces the token with the batch's
//! next one.  A fetch whose batch carries no next token closes the shard,
//! which is a normal end, not an error.  A failed resolution or fetch ends
//! the poller with that error.  Cancellation stops it before the next tick.
//!
//! The remote calls themselves are the binary's work.  The library tells it
//! what to do next (`next_action`) and digests what came back
//! (`apply_resolution`, `apply_fetch`), so every decision of the loop is
//! verified; the binary's loop is {ask, sleep one tick, perform, apply}.

use vstd::prelude::*;

use crate::config::IteratorType;
use crate::config::StartPolicy;
use crate::error::Error;
use crate::error::ErrorKind;
use crate::records::RecordBatch;
use vstd::string::StringExecFns;

verus! {

/// The fixed cadence of a poller, in milliseconds, when the operator names
/// none: one fetch per second, independent per shard.
pub const DEFAULT_TICK_MILLIS: u64 = 1000;

/// What a poller asks the remote service when it resolves its first
/// position token: the shard coordinates, the iterator type, and the
/// parameter the type needs, if any.
#[derive(Debug)]
pub struct TokenRequest {
    pub stream_name: String,
    pub shard_id: String,
    pub region: String,
    pub iterator_type: IteratorType,
    /// Present exactly for the sequence-number iterator types.
    pub starting_sequence_number: Option<String>,
    /// Present exactly for the timestamp iterator type; milliseconds since
    /// the epoch.
    pub timestamp: Option<u64>,
}

impl TokenRequest {
    /// A request carries the parameter its iterator type needs and no other.
    pub open spec fn wf(&self) -> bool {
        &&& self.starting_sequence_number is Some <==> self.iterator_type.needs_sequence_number()
        &&& self.timestamp is Some <==> self.iterator_type.needs_timestamp()
    }
}

/// Where a poller stands in its token lifecycle.
#[derive(Debug)]
pub enum PollerState {
    /// No live token: the start policy must be resolved first.
    NeedToken,
    /// Holds the one live token: the next fetch reads at it.
    HaveToken(String),
    /// A fetch returned no next token: the shard is exhausted or was
    /// merged away.  A normal end.
    Closed,
    /// Cancellation was observed: no further tick is begun.
    Stopped,
    /// A resolution or fetch failed; the error was handed back to the
    /// caller when it happened.
    Failed,
}

impl PollerState {
    /// Whether the poller will never fetch again.
    pub open spec fn is_terminal(self) -> bool {
        match self {
            PollerState::NeedToken => false,
            PollerState::HaveToken(_) => false,
            PollerState::Closed => true,
            PollerState::Stopped => true,
            PollerState::Failed => true,
        }
    }
}

/// The next thing a poller's loop must do.
#[derive(Debug)]
pub enum PollerAction {
    /// Resolve the start policy into the first position token.
    Resolve,
    /// Fetch one batch at the given token, after the tick wait.
    Fetch(String),
    /// Exit the loop: the poller is terminal.
    Stop,
}

/// One shard's poller: the resolution request it was built from, and the
/// state of its token lifecycle.  Owned by one loop; never shared.
#[derive(Debug)]
pub struct KinesisShardIterator {
    pub request: TokenRequest,
    pub state: PollerState,
}

/// The state after observing cancellation: a poller already at its end
/// stays as it ended; any other stops.
pub open spec fn spec_observe_cancellation(s: PollerState) -> PollerState {
    if s.is_terminal() {
        s
    } else {
        PollerState::Stopped
    }
}

/// The state after digesting one successful fetch: the batch's next token
/// becomes the live one, and no next token closes the shard.
pub open spec fn spec_fetch_step(b: RecordBatch) -> PollerState {
    match b.next_token {
        Some(t) => PollerState::HaveToken(t),
        None => PollerState::Closed,
    }
}

impl KinesisShardIterator {
    /// A well-formed poller holds a request fit for its iterator type.
    pub open spec fn wf(&self) -> bool {
        self.request.wf()
    }

    /// A poller for an iterator type that needs no parameter.
    pub fn new(stream_name: &str, shard_id: &str, iterator_type: IteratorType, region: &str) -> (r:
        Self)
        requires
            !iterator_type.needs_sequence_number(),
            !iterator_type.needs_timestamp(),
        ensures
            r.wf(),
            r.state is NeedToken,
            r.request.stream_name@ == stream_name@,
            r.request.shard_id@ == shard_id@,
            r.request.region@ == region@,
            r.request.iterator_type == iterator_type,
            r.request.starting_sequence_number is None,
            r.request.timestamp is None,
    {
        KinesisShardIterator {
            request: TokenRequest {
                stream_name: String::from_str(stream_name),
                shard_id: String::from_str(shard_id),
                region: String::from_str(region),
                iterator_type,
                starting_sequence_number: None,
                timestamp: None,
            },
            state: PollerState::NeedToken,
        }
    }

    /// A poller that starts at or after a given sequence number.
    pub fn new_with_sequence_number(
        stream_name: &str,
        shard_id: &str,
        iterator_type: IteratorType,
        sequence_number: &str,
        region: &str,
    ) -> (r: Self)
        requires
            iterator_type.needs_sequence_number(),
        ensures
            r.wf(),
            r.state is NeedToken,
            r.request.stream_name@ == stream_name@,
            r.request.shard_id@ == shard_id@,
            r.request.region@ == region@,
            r.request.iterator_type == iterator_type,
            r.request.starting_sequence_number matches Some(s) && s@ == sequence_number@,
            r.request.timestamp is None,
    {
        KinesisShardIterator {
            request: TokenRequest {
                stream_name: String::from_str(stream_name),
                shard_id: String::from_str(shard_id),
                region: String::from_str(region),
                iterator_type,
                starting_sequence_number: Some(String::from_str(sequence_number)),
                timestamp: None,
            },
            state: PollerState::NeedToken,
        }
    }

    /// A poller that starts at a given epoch time, in milliseconds.
    pub fn new_with_timestamp(
        stream_name: &str,
        shard_id: &str,
        iterator_type: IteratorType,
        timestamp: u64,
        region: &str,
    ) -> (r: Self)
        requires
            iterator_type.needs_timestamp(),
        ensures
            r.wf(),
            r.state is NeedToken,
            r.request.stream_name@ == stream_name@,
            r.request.shard_id@ == shard_id@,
            r.request.region@ == region@,
            r.request.iterator_type == iterator_type,
            r.request.starting_sequence_number is None,
            r.request.timestamp == Some(timestamp),
    {
        KinesisShardIterator {
            request: TokenRequest {
                stream_name: String::from_str(stream_name),
                shard_id: String::from_str(shard_id),
                region: String::from_str(region),
                iterator_type,
                starting_sequence_number: None,
                timestamp: Some(timestamp),
            },
            state: PollerState::NeedToken,
        }
    }

    /// A poller for any validated start policy.
    pub fn from_policy(stream_name: &str, shard_id: &str, policy: &StartPolicy, region: &str) -> (
        r: Self)
        ensures
            r.wf(),
            r.state is NeedToken,
            r.request.stream_name@ == stream_name@,
            r.request.shard_id@ == shard_id@,
            r.request.region@ == region@,
            match policy {
                StartPolicy::Latest => r.request.iterator_type == IteratorType::Latest,
                StartPolicy::TrimHorizon => r.request.iterator_type == IteratorType::TrimHorizon,
                StartPolicy::AtSequenceNumber(s) => r.request.iterator_type
                    == IteratorType::AtSequenceNumber && (r.request.starting_sequence_number
                    matches Some(q) && q@ == s@),
                StartPolicy::AfterSequenceNumber(s) => r.request.iterator_type
                    == IteratorType::AfterSequenceNumber && (r.request.starting_sequence_number
                    matches Some(q) && q@ == s@),
                StartPolicy::AtTimestamp(ms) => r.request.iterator_type == IteratorType::AtTimestamp
                    && r.request.timestamp == Some(*ms),
            },
    {
        match policy {
            StartPolicy::Latest => Self::new(stream_name, shard_id, IteratorType::Latest, region),
            StartPolicy::TrimHorizon => Self::new(
                stream_name,
                shard_id,
                IteratorType::TrimHorizon,
                region,
            ),
            StartPolicy::AtSequenceNumber(s) => Self::new_with_sequence_number(
                stream_name,
                shard_id,
                IteratorType::AtSequenceNumber,
                s.as_str(),
                region,
            ),
            StartPolicy::AfterSequenceNumber(s) => Self::new_with_sequence_number(
                stream_name,
                shard_id,
                IteratorType::AfterSequenceNumber,
                s.as_str(),
                region,
            ),
            StartPolicy::AtTimestamp(ms) => Self::new_with_timestamp(
                stream_name,
                shard_id,
                IteratorType::AtTimestamp,
                *ms,
                region,
            ),
        }
    }

    /// What this poller's loop must do next: resolve its first token, fetch
    /// at the live token, or stop.
    pub fn next_action(&self) -> (a: PollerAction)
        ensures
            match self.state {
                PollerState::NeedToken => a is Resolve,
                PollerState::HaveToken(t) => a == PollerAction::Fetch(t),
                PollerState::Closed => a is Stop,
                PollerState::Stopped => a is Stop,
                PollerState::Failed => a is Stop,
            },
    {
        match &self.state {
            PollerState::NeedToken => PollerAction::Resolve,
            PollerState::HaveToken(t) => PollerAction::Fetch(t.clone()),
            PollerState::Closed => PollerAction::Stop,
            PollerState::Stopped => PollerAction::Stop,
            PollerState::Failed => PollerAction::Stop,
        }
    }

    /// Digests the outcome of the resolution call: a token starts the
    /// fetch loop; a failure ends the poller, the error propagated, not
    /// swallowed.
    pub fn apply_resolution(&mut self, outcome: Result<String, Error>) -> (r: Result<(), Error>)
        requires
            old(self).state is NeedToken,
        ensures
            final(self).request == old(self).request,
            outcome matches Ok(t) ==> final(self).state == PollerState::HaveToken(t) && r is Ok,
            outcome matches Err(e) ==> final(self).state is Failed && (r matches Err(e2) && e2
                == e),
    {
        match outcome {
            Ok(t) => {
                self.state = PollerState::HaveToken(t);
                Ok(())
            },
            Err(e) => {
                self.state = PollerState::Failed;
                Err(e)
            },
        }
    }

    /// Digests the outcome of one fetch.  A successful batch — with or
    /// without records — is handed back for emission, and the token
    /// advances to the batch's next token; no next token closes the shard.
    /// A failure ends the poller with that error.
    pub fn apply_fetch(&mut self, outcome: Result<RecordBatch, Error>) -> (r: Result<
        RecordBatch,
        Error,
    >)
        requires
            old(self).state is HaveToken,
        ensures
            final(self).request == old(self).request,
            outcome matches Ok(b) ==> final(self).state == spec_fetch_step(b) && (r matches Ok(
            b2) && b2 == b),
            outcome matches Err(e) ==> final(self).state is Failed && (r matches Err(e2) && e2
                == e),
    {
        match outcome {
            Ok(b) => {
                match &b.next_token {
                    Some(t) => {
                        self.state = PollerState::HaveToken(t.clone());
                    },
                    None => {
                        self.state = PollerState::Closed;
                    },
                }
                Ok(b)
            },
            Err(e) => {
                self.state = PollerState::Failed;
                Err(e)
            },
        }
    }

    /// Observes the cooperative cancellation signal: a poller that could
    /// still fetch stops before beginning another tick; one already at its
    /// end stays as it ended.
    pub fn observe_cancellation(&mut self)
        ensures
            final(self).request == old(self).request,
            final(self).state == spec_observe_cancellation(old(self).state),
    {
        match &self.state {
            PollerState::NeedToken => {
                self.state = PollerState::Stopped;
            },
            PollerState::HaveToken(_) => {
                self.state = PollerState::Stopped;
            },
            PollerState::Closed => {},
            PollerState::Stopped => {},
            PollerState::Failed => {},
        }
    }
}

/// Reads a resolution response: the token when the service sent one, and a
/// protocol error exactly when the response omitted it — a missing token is
/// a logical error, never a silent empty result.
pub fn token_from_response(token: Option<String>) -> (r: Result<String, Error>)
    ensures
        r matches Ok(t) ==> token == Some(t),
        r matches Err(e) ==> token is None && e.kind == ErrorKind::Protocol,
        r is Ok <==> token is Some,
{
    match token {
        Some(t) => Ok(t),
        None => Err(
            Error::new(ErrorKind::Protocol, String::from_str("response carried no iterator token")),
        ),
    }
}

/// The batches a poller emits, and where it ends, when fed a sequence of
/// successful fetches from a given state: each batch received while a
/// token is live is emitted and steps the state; nothing is consumed or
/// emitted once the state is terminal.
pub open spec fn run_poller(s: PollerState, batches: Seq<RecordBatch>) -> (PollerState, Seq<
    RecordBatch,
>)
    decreases batches.len(),
{
    if batches.len() == 0 || !(s is HaveToken) {
        (s, Seq::empty())
    } else {
        let b = batches[0];
        let rest = run_poller(spec_fetch_step(b), batches.drop_first());
        (rest.0, seq![b] + rest.1)
    }
}

/// A poller fed batches whose next tokens run out at the last one emits
/// every batch exactly once, in order, and then terminates normally: it
/// ends closed, and — whatever more is fed after the closing batch — not
/// one further batch comes out.
pub proof fn lemma_poller_emits_each_batch_once(
    t0: String,
    batches: Seq<RecordBatch>,
    more: Seq<RecordBatch>,
)
    requires
        batches.len() > 0,
        forall|i: int|
            0 <= i < batches.len() - 1 ==> (#[trigger] batches[i].next_token) is Some,
        batches[batches.len() - 1].next_token is None,
    ensures
        run_poller(PollerState::HaveToken(t0), batches).1 == batches,
        run_poller(PollerState::HaveToken(t0), batches).0 is Closed,
        run_poller(PollerState::HaveToken(t0), batches + more).1 == batches,
    decreases batches.len(),
{
    let s = PollerState::HaveToken(t0);
    let b = batches[0];
    let whole = batches + more;
    assert(whole[0] == b);
    if batches.len() == 1 {
        assert(b.next_token is None);
        assert(spec_fetch_step(b) is Closed);
        assert(run_poller(spec_fetch_step(b), batches.drop_first()).1 == Seq::<
            RecordBatch,
        >::empty());
        assert(run_poller(s, batches).1 =~= batches);
        lemma_terminal_poller_emits_nothing(spec_fetch_step(b), whole.drop_first());
        assert(run_poller(s, whole).1 =~= batches);
    } else {
        assert(b.next_token is Some);
        let t1 = b.next_token->0;
        let tail = batches.drop_first();
        assert(tail.len() == batches.len() - 1);
        assert(forall|i: int|
            0 <= i < tail.len() - 1 ==> (#[trigger] tail[i].next_token) is Some) by {
            assert(forall|i: int|
                0 <= i < tail.len() - 1 ==> tail[i] == batches[i + 1] && (#[trigger] tail[
                i].next_token) == batches[i + 1].next_token);
        }
        assert(tail[tail.len() - 1].next_token is None);
        lemma_poller_emits_each_batch_once(t1, tail, more);
        assert(spec_fetch_step(b) == PollerState::HaveToken(t1));
        assert(run_poller(s, batches).1 =~= batches);
        assert(whole.drop_first() =~= tail + more);
        assert(run_poller(s, whole).1 =~= batches);
    }
}

/// A terminal poller emits nothing, whatever is fed to it: once a shard is
/// closed, stopped, or failed, no further batch comes out.
pub proof fn lemma_terminal_poller_emits_nothing(s: PollerState, batches: Seq<RecordBatch>)
    requires
        s.is_terminal(),
    ensures
        run_poller(s, batches).0 == s,
        run_poller(s, batches).1 == Seq::<RecordBatch>::empty(),
{
}

} // verus!
