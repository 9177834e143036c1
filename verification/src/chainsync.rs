//! The chain synchronisation client: it finds the point where the local view
//! and the peer's chain meet, and then follows the peer block by block,
//! keeping track of which side may speak.

use crate::failure::ClientError;
use crate::point::{
    flat_value, flatten_point, ChainPoint, FlatPoint, Point, PointValue, Tip, TipValue,
};
use vstd::prelude::*;

verus! {

/// Which side may send the next message.
#[derive(Clone, Copy, Debug, PartialEq, Eq, Structural)]
pub enum AgencyState {
    HasAgency,
    AwaitingReply,
}

/// Where the client stands in the protocol.
#[derive(Clone, Copy, Debug, PartialEq, Eq, Structural)]
pub enum ChainSyncPhase {
    /// Nothing is outstanding: the client may send.
    Idle,
    /// A request for the next block is on its way; the peer answers at once,
    /// with a block, a rollback, or the word that there is none yet.
    CanAwait,
    /// The peer has said that there is no block yet and will send one when
    /// there is.
    MustReply,
    /// A search for the intersection is on its way.
    Intersect,
    /// The protocol was violated: the client is of no more use.
    Failed,
    /// The session was closed.
    Closed,
    /// The transport failed: the peer must be connected to anew.
    Broken,
}

/// What the driver is to do for one call of next.
#[derive(Clone, Copy, Debug, PartialEq, Eq, Structural)]
pub enum NextAction {
    /// Send the request for the next block, then receive the answer.
    SendRequest,
    /// Send nothing: receive what the peer pushes.
    AwaitPush,
}

/// Mathematical value of a message of the peer.
pub enum MessageValue {
    AwaitReply,
    RollForward(Seq<u8>, TipValue),
    RollBackward(PointValue, TipValue),
    IntersectFound(PointValue, TipValue),
    IntersectNotFound(TipValue),
}

/// A message of the peer.
#[derive(Clone, Debug, PartialEq, Eq)]
pub enum ChainSyncMessage {
    AwaitReply,
    RollForward(Vec<u8>, Tip),
    RollBackward(ChainPoint, Tip),
    IntersectFound(ChainPoint, Tip),
    IntersectNotFound(Tip),
}

impl View for ChainSyncMessage {
    type V = MessageValue;

    open spec fn view(&self) -> MessageValue {
        match self {
            ChainSyncMessage::AwaitReply => MessageValue::AwaitReply,
            ChainSyncMessage::RollForward(b, t) => MessageValue::RollForward(b@, t@),
            ChainSyncMessage::RollBackward(p, t) => MessageValue::RollBackward(p@, t@),
            ChainSyncMessage::IntersectFound(p, t) => MessageValue::IntersectFound(p@, t@),
            ChainSyncMessage::IntersectNotFound(t) => MessageValue::IntersectNotFound(t@),
        }
    }
}

/// Mathematical value of what one call of next brings.
pub enum OutcomeValue {
    RollForward(Seq<u8>, TipValue),
    RollBackward(PointValue, TipValue),
    AwaitReply,
}

/// What one call of next brings.
#[derive(Clone, Debug, PartialEq, Eq)]
pub enum NextOutcome {
    /// The next block, as opaque bytes, and the peer's tip.
    RollForward(Vec<u8>, Tip),
    /// The point to go back to, and the peer's tip.
    RollBackward(ChainPoint, Tip),
    /// No block yet: the peer will push one.
    AwaitReply,
}

impl View for NextOutcome {
    type V = OutcomeValue;

    open spec fn view(&self) -> OutcomeValue {
        match self {
            NextOutcome::RollForward(b, t) => OutcomeValue::RollForward(b@, t@),
            NextOutcome::RollBackward(p, t) => OutcomeValue::RollBackward(p@, t@),
            NextOutcome::AwaitReply => OutcomeValue::AwaitReply,
        }
    }
}

/// Mathematical value of a chain synchronisation client.
pub struct ChainSyncValue {
    pub phase: ChainSyncPhase,
    /// The tip that the peer reported last.
    pub tip: Option<TipValue>,
    /// The point at which the local view and the peer's chain last met.
    pub intersection: Option<PointValue>,
    /// The candidates of the search that is on its way.
    pub candidates: Seq<PointValue>,
}

pub open spec fn tip_value(t: Option<Tip>) -> Option<TipValue> {
    match t {
        Some(t) => Some(t@),
        None => None,
    }
}

pub open spec fn point_value(p: Option<ChainPoint>) -> Option<PointValue> {
    match p {
        Some(p) => Some(p@),
        None => None,
    }
}

pub open spec fn point_values(v: Seq<ChainPoint>) -> Seq<PointValue> {
    v.map_values(|p: ChainPoint| p@)
}

/// The client holds agency exactly while nothing is outstanding.
pub open spec fn agency_of(phase: ChainSyncPhase) -> AgencyState {
    if phase == ChainSyncPhase::Idle {
        AgencyState::HasAgency
    } else {
        AgencyState::AwaitingReply
    }
}

/// What a call of next is to do: request with agency, wait for the push after
/// the peer has asked to wait, and nothing in any other phase.
pub open spec fn next_action(phase: ChainSyncPhase) -> Result<NextAction, ClientError> {
    match phase {
        ChainSyncPhase::Idle => Ok(NextAction::SendRequest),
        ChainSyncPhase::MustReply => Ok(NextAction::AwaitPush),
        ChainSyncPhase::Closed => Err(ClientError::ClosedHandle),
        ChainSyncPhase::Broken => Err(ClientError::Connection),
        _ => Err(ClientError::ProtocolViolation),
    }
}

/// The phase after a call of next has begun.
pub open spec fn phase_after_begin(phase: ChainSyncPhase) -> ChainSyncPhase {
    match phase {
        ChainSyncPhase::Idle => ChainSyncPhase::CanAwait,
        ChainSyncPhase::MustReply => ChainSyncPhase::MustReply,
        ChainSyncPhase::Closed => ChainSyncPhase::Closed,
        ChainSyncPhase::Broken => ChainSyncPhase::Broken,
        _ => ChainSyncPhase::Failed,
    }
}

/// What a message brings to a call of next: after a request any of the three
/// answers, after the word to wait only a block or a rollback; a message that
/// the phase does not expect is a violation.
pub open spec fn next_outcome(phase: ChainSyncPhase, msg: MessageValue) -> Result<
    OutcomeValue,
    ClientError,
> {
    match phase {
        ChainSyncPhase::Closed => Err(ClientError::ClosedHandle),
        ChainSyncPhase::Broken => Err(ClientError::Connection),
        ChainSyncPhase::CanAwait => match msg {
            MessageValue::AwaitReply => Ok(OutcomeValue::AwaitReply),
            MessageValue::RollForward(b, t) => Ok(OutcomeValue::RollForward(b, t)),
            MessageValue::RollBackward(p, t) => Ok(OutcomeValue::RollBackward(p, t)),
            _ => Err(ClientError::ProtocolViolation),
        },
        ChainSyncPhase::MustReply => match msg {
            MessageValue::RollForward(b, t) => Ok(OutcomeValue::RollForward(b, t)),
            MessageValue::RollBackward(p, t) => Ok(OutcomeValue::RollBackward(p, t)),
            _ => Err(ClientError::ProtocolViolation),
        },
        _ => Err(ClientError::ProtocolViolation),
    }
}

/// The client after a message has been handed to a call of next.
pub open spec fn after_next_reply(v: ChainSyncValue, msg: MessageValue) -> ChainSyncValue {
    if v.phase == ChainSyncPhase::Closed || v.phase == ChainSyncPhase::Broken {
        v
    } else {
        match next_outcome(v.phase, msg) {
            Ok(OutcomeValue::AwaitReply) => ChainSyncValue { phase: ChainSyncPhase::MustReply, ..v },
            Ok(OutcomeValue::RollForward(_, t)) => ChainSyncValue {
                phase: ChainSyncPhase::Idle,
                tip: Some(t),
                ..v
            },
            Ok(OutcomeValue::RollBackward(p, t)) => ChainSyncValue {
                phase: ChainSyncPhase::Idle,
                tip: Some(t),
                intersection: Some(p),
                ..v
            },
            Err(_) => ChainSyncValue { phase: ChainSyncPhase::Failed, ..v },
        }
    }
}

/// Whether a search for the intersection may begin.
pub open spec fn intersect_start(phase: ChainSyncPhase) -> Result<(), ClientError> {
    match phase {
        ChainSyncPhase::Idle => Ok(()),
        ChainSyncPhase::Closed => Err(ClientError::ClosedHandle),
        ChainSyncPhase::Broken => Err(ClientError::Connection),
        _ => Err(ClientError::ProtocolViolation),
    }
}

/// The client after a search for the intersection has begun.
pub open spec fn after_intersect_start(
    v: ChainSyncValue,
    candidates: Seq<PointValue>,
) -> ChainSyncValue {
    match v.phase {
        ChainSyncPhase::Idle => ChainSyncValue {
            phase: ChainSyncPhase::Intersect,
            candidates,
            ..v
        },
        ChainSyncPhase::Closed => v,
        ChainSyncPhase::Broken => v,
        _ => ChainSyncValue { phase: ChainSyncPhase::Failed, ..v },
    }
}

/// What a message brings to a search: the candidate that the peer found with
/// its tip, or no point with its tip. A point that was no candidate, and any
/// other message, is a violation.
pub open spec fn intersect_outcome(v: ChainSyncValue, msg: MessageValue) -> Result<
    (Option<PointValue>, TipValue),
    ClientError,
> {
    match v.phase {
        ChainSyncPhase::Closed => Err(ClientError::ClosedHandle),
        ChainSyncPhase::Broken => Err(ClientError::Connection),
        ChainSyncPhase::Intersect => match msg {
            MessageValue::IntersectFound(p, t) => if v.candidates.contains(p) {
                Ok((Some(p), t))
            } else {
                Err(ClientError::ProtocolViolation)
            },
            MessageValue::IntersectNotFound(t) => Ok((None, t)),
            _ => Err(ClientError::ProtocolViolation),
        },
        _ => Err(ClientError::ProtocolViolation),
    }
}

/// The client after a message has been handed to a search.
pub open spec fn after_intersect_reply(v: ChainSyncValue, msg: MessageValue) -> ChainSyncValue {
    if v.phase == ChainSyncPhase::Closed || v.phase == ChainSyncPhase::Broken {
        v
    } else {
        match intersect_outcome(v, msg) {
            Ok((Some(p), t)) => ChainSyncValue {
                phase: ChainSyncPhase::Idle,
                tip: Some(t),
                intersection: Some(p),
                candidates: Seq::empty(),
            },
            Ok((None, t)) => ChainSyncValue {
                phase: ChainSyncPhase::Idle,
                tip: Some(t),
                candidates: Seq::empty(),
                ..v
            },
            Err(_) => ChainSyncValue { phase: ChainSyncPhase::Failed, ..v },
        }
    }
}

/// The chain synchronisation client of one session.
#[derive(Debug)]
pub struct ChainSyncClient {
    phase: ChainSyncPhase,
    tip: Option<Tip>,
    intersection: Option<ChainPoint>,
    candidates: Vec<ChainPoint>,
}

impl View for ChainSyncClient {
    type V = ChainSyncValue;

    closed spec fn view(&self) -> ChainSyncValue {
        ChainSyncValue {
            phase: self.phase,
            tip: tip_value(self.tip),
            intersection: point_value(self.intersection),
            candidates: point_values(self.candidates@),
        }
    }
}

impl ChainSyncClient {
    /// A client on a fresh channel: it holds agency and knows no tip and no
    /// intersection.
    pub fn new() -> (c: ChainSyncClient)
        ensures
            c@ == (ChainSyncValue {
                phase: ChainSyncPhase::Idle,
                tip: None,
                intersection: None,
                candidates: Seq::empty(),
            }),
    {
        let c = ChainSyncClient {
            phase: ChainSyncPhase::Idle,
            tip: None,
            intersection: None,
            candidates: Vec::new(),
        };
        assert(point_values(c.candidates@) =~= Seq::empty());
        c
    }

    pub fn phase(&self) -> (p: ChainSyncPhase)
        ensures
            p == self@.phase,
    {
        self.phase
    }

    /// Whether the client may send. Reads the state and changes nothing.
    pub fn has_agency(&self) -> (r: bool)
        ensures
            r == (agency_of(self@.phase) == AgencyState::HasAgency),
            r == (self@.phase == ChainSyncPhase::Idle),
    {
        self.phase == ChainSyncPhase::Idle
    }

    pub fn agency(&self) -> (a: AgencyState)
        ensures
            a == agency_of(self@.phase),
    {
        if self.phase == ChainSyncPhase::Idle {
            AgencyState::HasAgency
        } else {
            AgencyState::AwaitingReply
        }
    }

    /// The tip that the peer reported last.
    pub fn tip(&self) -> (t: Option<Tip>)
        ensures
            tip_value(t) == self@.tip,
    {
        match &self.tip {
            Some(t) => Some(t.duplicate()),
            None => None,
        }
    }

    /// The point at which the local view and the peer's chain last met.
    pub fn intersection(&self) -> (p: Option<ChainPoint>)
        ensures
            point_value(p) == self@.intersection,
    {
        match &self.intersection {
            Some(p) => Some(p.duplicate()),
            None => None,
        }
    }

    /// Closes the client: every later operation reports a closed handle.
    pub fn close(&mut self)
        ensures
            final(self)@ == (ChainSyncValue { phase: ChainSyncPhase::Closed, ..old(self)@ }),
    {
        self.phase = ChainSyncPhase::Closed;
    }

    /// Records that the transport failed: unless the client was closed, every
    /// later operation reports the connection error.
    pub fn transport_failed(&mut self)
        ensures
            final(self)@ == (ChainSyncValue {
                phase: if old(self)@.phase == ChainSyncPhase::Closed {
                    ChainSyncPhase::Closed
                } else {
                    ChainSyncPhase::Broken
                },
                ..old(self)@
            }),
    {
        if self.phase != ChainSyncPhase::Closed {
            self.phase = ChainSyncPhase::Broken;
        }
    }

    /// Begins a call of next and says what the driver is to do. With agency
    /// the request is to be sent; after the peer's word to wait nothing is
    /// sent and the push is awaited. A call while an answer is outstanding is
    /// a violation and ends the client's use.
    pub fn begin_next(&mut self) -> (r: Result<NextAction, ClientError>)
        ensures
            r == next_action(old(self)@.phase),
            final(self)@ == (ChainSyncValue {
                phase: phase_after_begin(old(self)@.phase),
                ..old(self)@
            }),
    {
        match self.phase {
            ChainSyncPhase::Idle => {
                self.phase = ChainSyncPhase::CanAwait;
                Ok(NextAction::SendRequest)
            },
            ChainSyncPhase::MustReply => Ok(NextAction::AwaitPush),
            ChainSyncPhase::Closed => Err(ClientError::ClosedHandle),
            ChainSyncPhase::Broken => Err(ClientError::Connection),
            _ => {
                self.phase = ChainSyncPhase::Failed;
                Err(ClientError::ProtocolViolation)
            },
        }
    }

    /// Ends a call of next with the message that the peer sent.
    pub fn complete_next(&mut self, msg: ChainSyncMessage) -> (r: Result<NextOutcome, ClientError>)
        ensures
            match r {
                Ok(o) => next_outcome(old(self)@.phase, msg@) == Ok::<OutcomeValue, ClientError>(
                    o@,
                ),
                Err(e) => next_outcome(old(self)@.phase, msg@) == Err::<OutcomeValue, ClientError>(
                    e,
                ),
            },
            final(self)@ == after_next_reply(old(self)@, msg@),
    {
        if self.phase == ChainSyncPhase::Closed {
            return Err(ClientError::ClosedHandle);
        }
        if self.phase == ChainSyncPhase::Broken {
            return Err(ClientError::Connection);
        }
        let waiting = self.phase == ChainSyncPhase::CanAwait;
        if !waiting && self.phase != ChainSyncPhase::MustReply {
            self.phase = ChainSyncPhase::Failed;
            return Err(ClientError::ProtocolViolation);
        }
        match msg {
            ChainSyncMessage::RollForward(block, tip) => {
                self.phase = ChainSyncPhase::Idle;
                self.tip = Some(tip.duplicate());
                Ok(NextOutcome::RollForward(block, tip))
            },
            ChainSyncMessage::RollBackward(point, tip) => {
                self.phase = ChainSyncPhase::Idle;
                self.tip = Some(tip.duplicate());
                self.intersection = Some(point.duplicate());
                Ok(NextOutcome::RollBackward(point, tip))
            },
            ChainSyncMessage::AwaitReply => {
                if waiting {
                    self.phase = ChainSyncPhase::MustReply;
                    Ok(NextOutcome::AwaitReply)
                } else {
                    self.phase = ChainSyncPhase::Failed;
                    Err(ClientError::ProtocolViolation)
                }
            },
            _ => {
                self.phase = ChainSyncPhase::Failed;
                Err(ClientError::ProtocolViolation)
            },
        }
    }

    /// Begins a search for the intersection: the driver is to send the
    /// candidates, in this order, and receive the answer. The peer answers
    /// with the first candidate that is on its chain, so the caller lists the
    /// newest first.
    pub fn begin_find_intersect(&mut self, candidates: &Vec<ChainPoint>) -> (r: Result<
        (),
        ClientError,
    >)
        ensures
            r == intersect_start(old(self)@.phase),
            final(self)@ == after_intersect_start(old(self)@, point_values(candidates@)),
    {
        match self.phase {
            ChainSyncPhase::Idle => {
                let mut kept: Vec<ChainPoint> = Vec::new();
                let mut i: usize = 0;
                while i < candidates.len()
                    invariant
                        i <= candidates@.len(),
                        kept@.len() == i,
                        forall|j: int| 0 <= j < i ==> kept@[j]@ == candidates@[j]@,
                    decreases candidates@.len() - i,
                {
                    kept.push(candidates[i].duplicate());
                    i += 1;
                }
                assert(point_values(kept@) =~= point_values(candidates@));
                self.candidates = kept;
                self.phase = ChainSyncPhase::Intersect;
                Ok(())
            },
            ChainSyncPhase::Closed => Err(ClientError::ClosedHandle),
            ChainSyncPhase::Broken => Err(ClientError::Connection),
            _ => {
                self.phase = ChainSyncPhase::Failed;
                Err(ClientError::ProtocolViolation)
            },
        }
    }

    /// Whether the point is one of the candidates of the search.
    fn is_candidate(&self, point: &ChainPoint) -> (r: bool)
        ensures
            r == self@.candidates.contains(point@),
    {
        let mut i: usize = 0;
        while i < self.candidates.len()
            invariant
                i <= self.candidates@.len(),
                forall|j: int| 0 <= j < i ==> point_values(self.candidates@)[j] != point@,
            decreases self.candidates@.len() - i,
        {
            if self.candidates[i].same_as(point) {
                assert(point_values(self.candidates@)[i as int] == point@);
                return true;
            }
            i += 1;
        }
        false
    }

    /// Ends a search with the message that the peer sent. That the peer found
    /// none of the candidates is a result, not an error: the client can be
    /// used again.
    pub fn complete_find_intersect(&mut self, msg: ChainSyncMessage) -> (r: Result<
        (Option<ChainPoint>, Tip),
        ClientError,
    >)
        ensures
            match r {
                Ok((p, t)) => intersect_outcome(old(self)@, msg@) == Ok::<
                    (Option<PointValue>, TipValue),
                    ClientError,
                >((point_value(p), t@)),
                Err(e) => intersect_outcome(old(self)@, msg@) == Err::<
                    (Option<PointValue>, TipValue),
                    ClientError,
                >(e),
            },
            final(self)@ == after_intersect_reply(old(self)@, msg@),
    {
        if self.phase == ChainSyncPhase::Closed {
            return Err(ClientError::ClosedHandle);
        }
        if self.phase == ChainSyncPhase::Broken {
            return Err(ClientError::Connection);
        }
        if self.phase != ChainSyncPhase::Intersect {
            self.phase = ChainSyncPhase::Failed;
            return Err(ClientError::ProtocolViolation);
        }
        match msg {
            ChainSyncMessage::IntersectFound(point, tip) => {
                if self.is_candidate(&point) {
                    self.phase = ChainSyncPhase::Idle;
                    self.tip = Some(tip.duplicate());
                    self.intersection = Some(point.duplicate());
                    self.candidates = Vec::new();
                    assert(point_values(self.candidates@) =~= Seq::empty());
                    Ok((Some(point), tip))
                } else {
                    self.phase = ChainSyncPhase::Failed;
                    Err(ClientError::ProtocolViolation)
                }
            },
            ChainSyncMessage::IntersectNotFound(tip) => {
                self.phase = ChainSyncPhase::Idle;
                self.tip = Some(tip.duplicate());
                self.candidates = Vec::new();
                assert(point_values(self.candidates@) =~= Seq::empty());
                Ok((None, tip))
            },
            _ => {
                self.phase = ChainSyncPhase::Failed;
                Err(ClientError::ProtocolViolation)
            },
        }
    }
}

/// The request for the next block is sent exactly when the client holds
/// agency, and a push is awaited only while it does not.
pub proof fn next_respects_agency(phase: ChainSyncPhase)
    ensures
        next_action(phase) == Ok::<NextAction, ClientError>(NextAction::SendRequest) <==> agency_of(
            phase,
        ) == AgencyState::HasAgency,
        next_action(phase) == Ok::<NextAction, ClientError>(NextAction::AwaitPush) ==> agency_of(
            phase,
        ) == AgencyState::AwaitingReply,
{
}

/// After the peer's word to wait, every call of next waits for the push and
/// sends nothing, until a block or a rollback has come; a second word to wait
/// is a violation.
pub proof fn await_then_only_push(v: ChainSyncValue, msg: MessageValue)
    requires
        v.phase == ChainSyncPhase::CanAwait,
        msg is AwaitReply,
    ensures
        after_next_reply(v, msg).phase == ChainSyncPhase::MustReply,
        next_action(after_next_reply(v, msg).phase) == Ok::<NextAction, ClientError>(
            NextAction::AwaitPush,
        ),
        phase_after_begin(ChainSyncPhase::MustReply) == ChainSyncPhase::MustReply,
        next_outcome(ChainSyncPhase::MustReply, msg) == Err::<OutcomeValue, ClientError>(
            ClientError::ProtocolViolation,
        ),
{
}

/// A block or a rollback hands agency back to the client, in either branch.
pub proof fn block_or_rollback_returns_agency(v: ChainSyncValue, msg: MessageValue)
    requires
        v.phase == ChainSyncPhase::CanAwait || v.phase == ChainSyncPhase::MustReply,
        msg is RollForward || msg is RollBackward,
    ensures
        next_outcome(v.phase, msg) is Ok,
        agency_of(after_next_reply(v, msg).phase) == AgencyState::HasAgency,
{
}

/// A client that failed, was closed, or lost its transport stays so: no
/// message and no call brings it back.
pub proof fn failure_is_final(v: ChainSyncValue, msg: MessageValue, candidates: Seq<PointValue>)
    requires
        v.phase == ChainSyncPhase::Failed || v.phase == ChainSyncPhase::Closed || v.phase
            == ChainSyncPhase::Broken,
    ensures
        after_next_reply(v, msg).phase == v.phase,
        after_intersect_reply(v, msg).phase == v.phase,
        after_intersect_start(v, candidates).phase == v.phase,
        phase_after_begin(v.phase) == v.phase,
        next_action(v.phase) is Err,
        next_outcome(v.phase, msg) is Err,
        intersect_outcome(v, msg) is Err,
{
}

/// Every error of this client is fatal: after it, each call of next reports
/// an error again.
pub proof fn errors_end_the_use(v: ChainSyncValue, msg: MessageValue)
    ensures
        next_action(v.phase) matches Err(e) ==> e.spec_is_fatal() && next_action(
            phase_after_begin(v.phase),
        ) is Err,
        next_outcome(v.phase, msg) matches Err(e) ==> e.spec_is_fatal() && next_action(
            after_next_reply(v, msg).phase,
        ) is Err,
        intersect_outcome(v, msg) matches Err(e) ==> e.spec_is_fatal() && next_action(
            after_intersect_reply(v, msg).phase,
        ) is Err,
{
}

/// A search for one point gives that point back where the peer reports it
/// found, and no point, without error, where the peer reports none; either
/// way the tip is the peer's, and the client holds agency again.
pub proof fn single_candidate_round_trip(v: ChainSyncValue, p: PointValue, t: TipValue)
    requires
        v.phase == ChainSyncPhase::Idle,
    ensures
        ({
            let searching = after_intersect_start(v, seq![p]);
            &&& intersect_start(v.phase) is Ok
            &&& intersect_outcome(searching, MessageValue::IntersectFound(p, t)) == Ok::<
                (Option<PointValue>, TipValue),
                ClientError,
            >((Some(p), t))
            &&& intersect_outcome(searching, MessageValue::IntersectNotFound(t)) == Ok::<
                (Option<PointValue>, TipValue),
                ClientError,
            >((None, t))
            &&& after_intersect_reply(searching, MessageValue::IntersectFound(p, t)).phase
                == ChainSyncPhase::Idle
            &&& after_intersect_reply(searching, MessageValue::IntersectNotFound(t)).phase
                == ChainSyncPhase::Idle
        }),
{
    assert(seq![p][0] == p);
}

/// One whole call of next: it begins, and the peer's message ends it.
pub open spec fn call_next(v: ChainSyncValue, msg: MessageValue) -> ChainSyncValue {
    after_next_reply(ChainSyncValue { phase: phase_after_begin(v.phase), ..v }, msg)
}

/// The client after a sequence of whole calls of next, one for each message.
pub open spec fn follow(v: ChainSyncValue, msgs: Seq<MessageValue>) -> ChainSyncValue
    decreases msgs.len(),
{
    if msgs.len() == 0 {
        v
    } else {
        call_next(follow(v, msgs.drop_last()), msgs.last())
    }
}

/// Between two calls of next the client holds agency, or has been told to
/// wait for a push, or can be used no more.
pub open spec fn at_rest(phase: ChainSyncPhase) -> bool {
    phase == ChainSyncPhase::Idle || phase == ChainSyncPhase::MustReply || phase
        == ChainSyncPhase::Failed
}

/// Whatever the peer sends, in whatever order: after any number of calls of
/// next the client is at rest, so the next call sends the request exactly if
/// the client holds agency, waits without sending exactly if the peer has
/// asked it to wait, and fails at once if the protocol was violated. No call
/// waits for an answer that was not asked for.
pub proof fn agency_holds_along_every_sequence(v: ChainSyncValue, msgs: Seq<MessageValue>)
    requires
        at_rest(v.phase),
    ensures
        at_rest(follow(v, msgs).phase),
        follow(v, msgs).phase == ChainSyncPhase::Idle ==> next_action(follow(v, msgs).phase) == Ok::<
            NextAction,
            ClientError,
        >(NextAction::SendRequest),
        follow(v, msgs).phase == ChainSyncPhase::MustReply ==> next_action(follow(v, msgs).phase)
            == Ok::<NextAction, ClientError>(NextAction::AwaitPush),
        follow(v, msgs).phase == ChainSyncPhase::Failed ==> next_action(follow(v, msgs).phase)
            == Err::<NextAction, ClientError>(ClientError::ProtocolViolation),
    decreases msgs.len(),
{
    if msgs.len() > 0 {
        agency_holds_along_every_sequence(v, msgs.drop_last());
    }
}

/// Mathematical value of a flattened answer.
pub struct ResponseValue {
    pub action: u8,
    pub tip: Option<FlatPoint>,
    pub block_cbor: Option<Seq<u8>>,
}

/// The call failed.
pub const ACTION_FAILED: u8 = 0;

/// The chain grew by a block.
pub const ACTION_ROLL_FORWARD: u8 = 1;

/// The chain went back to an earlier point.
pub const ACTION_ROLL_BACKWARD: u8 = 2;

/// No block yet.
pub const ACTION_AWAIT: u8 = 3;

pub open spec fn bytes_value(b: Option<Vec<u8>>) -> Option<Seq<u8>> {
    match b {
        Some(b) => Some(b@),
        None => None,
    }
}

/// The flat answer for what a call of next brought: the action's number, the
/// point of the peer's tip in flat form (none where the tip is the origin),
/// and the block where one came. A rollback carries the block that the
/// caller fetched for its point, if any.
pub open spec fn response_of(
    outcome: Result<OutcomeValue, ClientError>,
    fetched: Option<Seq<u8>>,
) -> ResponseValue {
    match outcome {
        Ok(OutcomeValue::RollForward(block, tip)) => ResponseValue {
            action: ACTION_ROLL_FORWARD,
            tip: flatten_point(tip.point),
            block_cbor: Some(block),
        },
        Ok(OutcomeValue::RollBackward(_, tip)) => ResponseValue {
            action: ACTION_ROLL_BACKWARD,
            tip: flatten_point(tip.point),
            block_cbor: fetched,
        },
        Ok(OutcomeValue::AwaitReply) => ResponseValue {
            action: ACTION_AWAIT,
            tip: None,
            block_cbor: None,
        },
        Err(_) => ResponseValue { action: ACTION_FAILED, tip: None, block_cbor: None },
    }
}

/// What a call of next brought, in flat form.
#[derive(Clone, Debug, PartialEq, Eq)]
pub struct NextResponse {
    pub action: u8,
    pub tip: Option<Point>,
    pub block_cbor: Option<Vec<u8>>,
}

impl View for NextResponse {
    type V = ResponseValue;

    open spec fn view(&self) -> ResponseValue {
        ResponseValue {
            action: self.action,
            tip: flat_value(self.tip),
            block_cbor: bytes_value(self.block_cbor),
        }
    }
}

impl NextResponse {
    /// The flat answer for an outcome, with the block fetched for a rollback.
    pub fn from_outcome(outcome: Result<NextOutcome, ClientError>, fetched: Option<Vec<u8>>) -> (r:
        NextResponse)
        ensures
            r@ == response_of(
                match outcome {
                    Ok(o) => Ok(o@),
                    Err(e) => Err(e),
                },
                bytes_value(fetched),
            ),
    {
        match outcome {
            Ok(NextOutcome::RollForward(block, tip)) => NextResponse {
                action: ACTION_ROLL_FORWARD,
                tip: Point::from_chain_point(tip.point),
                block_cbor: Some(block),
            },
            Ok(NextOutcome::RollBackward(_, tip)) => NextResponse {
                action: ACTION_ROLL_BACKWARD,
                tip: Point::from_chain_point(tip.point),
                block_cbor: fetched,
            },
            Ok(NextOutcome::AwaitReply) => NextResponse {
                action: ACTION_AWAIT,
                tip: None,
                block_cbor: None,
            },
            Err(_) => NextResponse { action: ACTION_FAILED, tip: None, block_cbor: None },
        }
    }
}

} // verus!
