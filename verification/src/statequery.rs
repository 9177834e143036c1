//! The ledger-state query client: it acquires the state at a point, learns
//! the era that governs it, and passes queries and their results through.

use crate::failure::ClientError;
use crate::point::{ChainPoint, PointValue};
use vstd::prelude::*;

verus! {

/// Where the client stands in the protocol.
#[derive(Clone, Copy, Debug, PartialEq, Eq, Structural)]
pub enum StateQueryPhase {
    /// No state is acquired.
    Idle,
    /// An acquisition is on its way.
    Acquiring,
    /// A state is acquired and no query is outstanding.
    Acquired,
    /// A query is outstanding.
    Querying,
    /// The protocol was violated: the client is of no more use.
    Failed,
    /// The session was closed.
    Closed,
    /// The transport failed: the peer must be connected to anew.
    Broken,
}

/// The message that opens an acquisition.
#[derive(Clone, Copy, Debug, PartialEq, Eq, Structural)]
pub enum AcquireAction {
    /// Acquire from the idle state.
    SendAcquire,
    /// Move an acquired state to another point without a release.
    SendReAcquire,
}

/// The peer's answer to an acquisition.
#[derive(Clone, Copy, Debug, PartialEq, Eq, Structural)]
pub enum AcquireMessage {
    Acquired,
    PointTooOld,
    PointNotOnChain,
}

/// What a query asks for.
#[derive(Clone, Copy, Debug, PartialEq, Eq, Structural)]
pub enum QueryKind {
    /// The era that governs the acquired point.
    CurrentEra,
    /// The point that was acquired.
    ChainPoint,
    /// The unspent outputs at some addresses. Its envelope depends on the era.
    UtxoByAddress,
}

/// The result of a query, as it came from the peer.
#[derive(Clone, Debug, PartialEq, Eq)]
pub enum QueryResult {
    Era(u16),
    Point(ChainPoint),
    /// The unspent outputs, each entry as the peer encoded it: the identity of
    /// a transaction input paired with the payload of the output.
    Utxos(Vec<Vec<u8>>),
}

impl QueryResult {
    /// The kind of query that this is a result of.
    pub open spec fn spec_kind(self) -> QueryKind {
        match self {
            QueryResult::Era(_) => QueryKind::CurrentEra,
            QueryResult::Point(_) => QueryKind::ChainPoint,
            QueryResult::Utxos(_) => QueryKind::UtxoByAddress,
        }
    }

    pub fn kind(&self) -> (k: QueryKind)
        ensures
            k == self.spec_kind(),
    {
        match self {
            QueryResult::Era(_) => QueryKind::CurrentEra,
            QueryResult::Point(_) => QueryKind::ChainPoint,
            QueryResult::Utxos(_) => QueryKind::UtxoByAddress,
        }
    }
}

/// The token of an acquired state.
#[derive(Clone, Debug, PartialEq, Eq)]
pub struct QueryHandle {
    point: Option<ChainPoint>,
}

impl QueryHandle {
    /// The point that the acquisition asked for; `None` stands for the tip.
    pub closed spec fn target(self) -> Option<PointValue> {
        match self.point {
            Some(p) => Some(p@),
            None => None,
        }
    }

    /// The point that the handle was acquired against; `None` stands for the
    /// peer's tip at that moment.
    pub fn chain_point(&self) -> (p: Option<ChainPoint>)
        ensures
            (match p {
                Some(p) => Some(p@),
                None => None,
            }) == self.target(),
    {
        match &self.point {
            Some(p) => Some(p.duplicate()),
            None => None,
        }
    }
}

/// Mathematical value of a query client.
pub struct StateQueryValue {
    pub phase: StateQueryPhase,
    /// The point of the acquisition that is on its way or has succeeded.
    pub target: Option<PointValue>,
    /// The era of the acquired state, once it has been asked for.
    pub era: Option<u16>,
    /// The kind of the outstanding query.
    pub asked: Option<QueryKind>,
}

/// The message that opens an acquisition, or why there can be none: `acquire`
/// starts from the idle state only, `reacquire` from the idle or the acquired
/// state.
pub open spec fn acquire_start(phase: StateQueryPhase, again: bool) -> Result<
    AcquireAction,
    ClientError,
> {
    match phase {
        StateQueryPhase::Idle => Ok(AcquireAction::SendAcquire),
        StateQueryPhase::Acquired => if again {
            Ok(AcquireAction::SendReAcquire)
        } else {
            Err(ClientError::ProtocolViolation)
        },
        StateQueryPhase::Closed => Err(ClientError::ClosedHandle),
        StateQueryPhase::Broken => Err(ClientError::Connection),
        _ => Err(ClientError::ProtocolViolation),
    }
}

/// The client after an acquisition has begun.
pub open spec fn after_acquire_start(
    v: StateQueryValue,
    again: bool,
    point: Option<PointValue>,
) -> StateQueryValue {
    if v.phase == StateQueryPhase::Closed || v.phase == StateQueryPhase::Broken {
        v
    } else if acquire_start(v.phase, again) is Ok {
        StateQueryValue { phase: StateQueryPhase::Acquiring, target: point, era: None, asked: None }
    } else {
        StateQueryValue { phase: StateQueryPhase::Failed, ..v }
    }
}

/// What the peer's answer brings to an acquisition: the acquired point, the
/// failure that the peer reports, or a violation where no acquisition is on
/// its way.
pub open spec fn acquire_outcome(v: StateQueryValue, msg: AcquireMessage) -> Result<
    Option<PointValue>,
    ClientError,
> {
    match v.phase {
        StateQueryPhase::Closed => Err(ClientError::ClosedHandle),
        StateQueryPhase::Broken => Err(ClientError::Connection),
        StateQueryPhase::Acquiring => match msg {
            AcquireMessage::Acquired => Ok(v.target),
            _ => Err(ClientError::AcquireFailed),
        },
        _ => Err(ClientError::ProtocolViolation),
    }
}

/// The client after the peer's answer to an acquisition.
pub open spec fn after_acquire_reply(v: StateQueryValue, msg: AcquireMessage) -> StateQueryValue {
    match v.phase {
        StateQueryPhase::Closed => v,
        StateQueryPhase::Broken => v,
        StateQueryPhase::Acquiring => match msg {
            AcquireMessage::Acquired => StateQueryValue { phase: StateQueryPhase::Acquired, ..v },
            _ => StateQueryValue {
                phase: StateQueryPhase::Idle,
                target: None,
                era: None,
                asked: None,
            },
        },
        _ => StateQueryValue { phase: StateQueryPhase::Failed, ..v },
    }
}

/// Whether a query may be sent, and the era to frame it with: none for a
/// query whose envelope is the same in every era. A query of the outputs
/// before the era is known is refused and changes nothing; a query without
/// an acquired state, or while another is outstanding, is a violation.
pub open spec fn query_start(v: StateQueryValue, kind: QueryKind) -> Result<
    Option<u16>,
    ClientError,
> {
    match v.phase {
        StateQueryPhase::Closed => Err(ClientError::ClosedHandle),
        StateQueryPhase::Broken => Err(ClientError::Connection),
        StateQueryPhase::Acquired => if kind == QueryKind::UtxoByAddress {
            match v.era {
                Some(era) => Ok(Some(era)),
                None => Err(ClientError::QueryFailed),
            }
        } else {
            Ok(None)
        },
        _ => Err(ClientError::ProtocolViolation),
    }
}

/// The client after a query has begun.
pub open spec fn after_query_start(v: StateQueryValue, kind: QueryKind) -> StateQueryValue {
    match query_start(v, kind) {
        Ok(_) => StateQueryValue { phase: StateQueryPhase::Querying, asked: Some(kind), ..v },
        Err(ClientError::ProtocolViolation) => StateQueryValue {
            phase: StateQueryPhase::Failed,
            ..v
        },
        Err(_) => v,
    }
}

/// Whether a result ends the outstanding query: it does where it is of the
/// kind that was asked for; one of another kind is reported as a failed
/// query. A result with no query outstanding is a violation.
pub open spec fn query_end(v: StateQueryValue, kind: QueryKind) -> Result<(), ClientError> {
    match v.phase {
        StateQueryPhase::Closed => Err(ClientError::ClosedHandle),
        StateQueryPhase::Broken => Err(ClientError::Connection),
        StateQueryPhase::Querying => if v.asked == Some(kind) {
            Ok(())
        } else {
            Err(ClientError::QueryFailed)
        },
        _ => Err(ClientError::ProtocolViolation),
    }
}

/// The client after a result: the state is acquired as before, and the era
/// is known once an era query has been answered.
pub open spec fn after_query_end(
    v: StateQueryValue,
    kind: QueryKind,
    era: Option<u16>,
) -> StateQueryValue {
    match v.phase {
        StateQueryPhase::Closed => v,
        StateQueryPhase::Broken => v,
        StateQueryPhase::Querying => StateQueryValue {
            phase: StateQueryPhase::Acquired,
            asked: None,
            era: if v.asked == Some(kind) && era is Some {
                era
            } else {
                v.era
            },
            ..v
        },
        _ => StateQueryValue { phase: StateQueryPhase::Failed, ..v },
    }
}

/// The era that a result carries, if it is the result of an era query.
pub open spec fn era_in(result: QueryResult) -> Option<u16> {
    match result {
        QueryResult::Era(era) => Some(era),
        _ => None,
    }
}

/// The ledger-state query client of one session.
#[derive(Debug)]
pub struct LocalStateQueryClient {
    phase: StateQueryPhase,
    target: Option<ChainPoint>,
    era: Option<u16>,
    asked: Option<QueryKind>,
}

impl View for LocalStateQueryClient {
    type V = StateQueryValue;

    closed spec fn view(&self) -> StateQueryValue {
        StateQueryValue {
            phase: self.phase,
            target: match self.target {
                Some(p) => Some(p@),
                None => None,
            },
            era: self.era,
            asked: self.asked,
        }
    }
}

pub open spec fn target_value(p: Option<ChainPoint>) -> Option<PointValue> {
    match p {
        Some(p) => Some(p@),
        None => None,
    }
}

impl LocalStateQueryClient {
    /// A client on a fresh channel.
    pub fn new() -> (c: LocalStateQueryClient)
        ensures
            c@ == (StateQueryValue {
                phase: StateQueryPhase::Idle,
                target: None,
                era: None,
                asked: None,
            }),
    {
        LocalStateQueryClient {
            phase: StateQueryPhase::Idle,
            target: None,
            era: None,
            asked: None,
        }
    }

    pub fn phase(&self) -> (p: StateQueryPhase)
        ensures
            p == self@.phase,
    {
        self.phase
    }

    /// The era of the acquired state, once it has been asked for.
    pub fn era(&self) -> (e: Option<u16>)
        ensures
            e == self@.era,
    {
        self.era
    }

    /// Closes the client: every later operation reports a closed handle.
    pub fn close(&mut self)
        ensures
            final(self)@ == (StateQueryValue { phase: StateQueryPhase::Closed, ..old(self)@ }),
    {
        self.phase = StateQueryPhase::Closed;
    }

    /// Records that the transport failed: unless the client was closed, every
    /// later operation reports the connection error.
    pub fn transport_failed(&mut self)
        ensures
            final(self)@ == (StateQueryValue {
                phase: if old(self)@.phase == StateQueryPhase::Closed {
                    StateQueryPhase::Closed
                } else {
                    StateQueryPhase::Broken
                },
                ..old(self)@
            }),
    {
        if self.phase != StateQueryPhase::Closed {
            self.phase = StateQueryPhase::Broken;
        }
    }

    fn start(&mut self, again: bool, point: Option<ChainPoint>) -> (r: Result<
        AcquireAction,
        ClientError,
    >)
        ensures
            r == acquire_start(old(self)@.phase, again),
            final(self)@ == after_acquire_start(old(self)@, again, target_value(point)),
    {
        let action = match self.phase {
            StateQueryPhase::Idle => AcquireAction::SendAcquire,
            StateQueryPhase::Acquired => {
                if again {
                    AcquireAction::SendReAcquire
                } else {
                    self.phase = StateQueryPhase::Failed;
                    return Err(ClientError::ProtocolViolation);
                }
            },
            StateQueryPhase::Closed => {
                return Err(ClientError::ClosedHandle);
            },
            StateQueryPhase::Broken => {
                return Err(ClientError::Connection);
            },
            _ => {
                self.phase = StateQueryPhase::Failed;
                return Err(ClientError::ProtocolViolation);
            },
        };
        self.phase = StateQueryPhase::Acquiring;
        self.target = point;
        self.era = None;
        self.asked = None;
        Ok(action)
    }

    /// Begins to acquire the state at a point, or at the tip for `None`.
    pub fn begin_acquire(&mut self, point: Option<ChainPoint>) -> (r: Result<
        AcquireAction,
        ClientError,
    >)
        ensures
            r == acquire_start(old(self)@.phase, false),
            final(self)@ == after_acquire_start(old(self)@, false, target_value(point)),
    {
        self.start(false, point)
    }

    /// Begins to acquire another point. From the acquired state the channel
    /// is reused without a release; from the idle state this is an
    /// acquisition like any other.
    pub fn begin_reacquire(&mut self, point: Option<ChainPoint>) -> (r: Result<
        AcquireAction,
        ClientError,
    >)
        ensures
            r == acquire_start(old(self)@.phase, true),
            final(self)@ == after_acquire_start(old(self)@, true, target_value(point)),
    {
        self.start(true, point)
    }

    /// Ends an acquisition with the peer's answer. A failure that the peer
    /// reports leaves the client idle and of use.
    pub fn complete_acquire(&mut self, msg: AcquireMessage) -> (r: Result<QueryHandle, ClientError>)
        ensures
            match r {
                Ok(h) => acquire_outcome(old(self)@, msg) == Ok::<Option<PointValue>, ClientError>(
                    h.target(),
                ),
                Err(e) => acquire_outcome(old(self)@, msg) == Err::<
                    Option<PointValue>,
                    ClientError,
                >(e),
            },
            final(self)@ == after_acquire_reply(old(self)@, msg),
    {
        match self.phase {
            StateQueryPhase::Closed => Err(ClientError::ClosedHandle),
            StateQueryPhase::Broken => Err(ClientError::Connection),
            StateQueryPhase::Acquiring => match msg {
                AcquireMessage::Acquired => {
                    self.phase = StateQueryPhase::Acquired;
                    let point = match &self.target {
                        Some(p) => Some(p.duplicate()),
                        None => None,
                    };
                    Ok(QueryHandle { point })
                },
                _ => {
                    self.phase = StateQueryPhase::Idle;
                    self.target = None;
                    self.era = None;
                    self.asked = None;
                    Err(ClientError::AcquireFailed)
                },
            },
            _ => {
                self.phase = StateQueryPhase::Failed;
                Err(ClientError::ProtocolViolation)
            },
        }
    }

    /// Begins a query and gives the era to frame it with, where its envelope
    /// depends on the era.
    pub fn begin_query(&mut self, kind: QueryKind) -> (r: Result<Option<u16>, ClientError>)
        ensures
            r == query_start(old(self)@, kind),
            final(self)@ == after_query_start(old(self)@, kind),
    {
        match self.phase {
            StateQueryPhase::Closed => Err(ClientError::ClosedHandle),
            StateQueryPhase::Broken => Err(ClientError::Connection),
            StateQueryPhase::Acquired => {
                let era = if kind == QueryKind::UtxoByAddress {
                    match self.era {
                        Some(era) => Some(era),
                        None => {
                            return Err(ClientError::QueryFailed);
                        },
                    }
                } else {
                    None
                };
                self.phase = StateQueryPhase::Querying;
                self.asked = Some(kind);
                Ok(era)
            },
            _ => {
                self.phase = StateQueryPhase::Failed;
                Err(ClientError::ProtocolViolation)
            },
        }
    }

    /// Ends the outstanding query with the result that the peer sent and
    /// hands that result on as it came.
    pub fn complete_query(&mut self, result: QueryResult) -> (r: Result<QueryResult, ClientError>)
        ensures
            match r {
                Ok(out) => query_end(old(self)@, result.spec_kind()) is Ok && out == result,
                Err(e) => query_end(old(self)@, result.spec_kind()) == Err::<(), ClientError>(e),
            },
            final(self)@ == after_query_end(old(self)@, result.spec_kind(), era_in(result)),
    {
        match self.phase {
            StateQueryPhase::Closed => Err(ClientError::ClosedHandle),
            StateQueryPhase::Broken => Err(ClientError::Connection),
            StateQueryPhase::Querying => {
                let kind = result.kind();
                let expected = match self.asked {
                    Some(asked) => asked == kind,
                    None => false,
                };
                self.phase = StateQueryPhase::Acquired;
                self.asked = None;
                if expected {
                    match &result {
                        QueryResult::Era(era) => {
                            self.era = Some(*era);
                        },
                        _ => {},
                    }
                    Ok(result)
                } else {
                    Err(ClientError::QueryFailed)
                }
            },
            _ => {
                self.phase = StateQueryPhase::Failed;
                Err(ClientError::ProtocolViolation)
            },
        }
    }

    /// Gives the acquired state up: the driver is to send the release. Without
    /// an acquired state this is a violation.
    pub fn release(&mut self) -> (r: Result<(), ClientError>)
        ensures
            old(self)@.phase == StateQueryPhase::Acquired ==> r is Ok && final(self)@ == (
            StateQueryValue {
                phase: StateQueryPhase::Idle,
                target: None,
                era: None,
                asked: None,
            }),
            old(self)@.phase == StateQueryPhase::Closed ==> r == Err::<(), ClientError>(
                ClientError::ClosedHandle,
            ) && final(self)@ == old(self)@,
            old(self)@.phase == StateQueryPhase::Broken ==> r == Err::<(), ClientError>(
                ClientError::Connection,
            ) && final(self)@ == old(self)@,
            old(self)@.phase != StateQueryPhase::Acquired && old(self)@.phase
                != StateQueryPhase::Closed && old(self)@.phase != StateQueryPhase::Broken ==> r
                == Err::<(), ClientError>(
                ClientError::ProtocolViolation,
            ) && final(self)@ == (StateQueryValue { phase: StateQueryPhase::Failed, ..old(self)@ }),
    {
        match self.phase {
            StateQueryPhase::Acquired => {
                self.phase = StateQueryPhase::Idle;
                self.target = None;
                self.era = None;
                self.asked = None;
                Ok(())
            },
            StateQueryPhase::Closed => Err(ClientError::ClosedHandle),
            StateQueryPhase::Broken => Err(ClientError::Connection),
            _ => {
                self.phase = StateQueryPhase::Failed;
                Err(ClientError::ProtocolViolation)
            },
        }
    }
}

/// After the tip has been acquired, the era query may be sent; once it is
/// answered, the query of the outputs may be sent and is framed with that
/// era; its result ends it and leaves the state acquired.
pub proof fn era_then_outputs(era: u16)
    ensures
        ({
            let idle = StateQueryValue {
                phase: StateQueryPhase::Idle,
                target: None,
                era: None,
                asked: None,
            };
            let acquired = after_acquire_reply(
                after_acquire_start(idle, false, None),
                AcquireMessage::Acquired,
            );
            let knows = after_query_end(
                after_query_start(acquired, QueryKind::CurrentEra),
                QueryKind::CurrentEra,
                Some(era),
            );
            let asking = after_query_start(knows, QueryKind::UtxoByAddress);
            &&& acquired.phase == StateQueryPhase::Acquired
            &&& query_start(acquired, QueryKind::CurrentEra) == Ok::<Option<u16>, ClientError>(
                None,
            )
            &&& query_start(acquired, QueryKind::UtxoByAddress) == Err::<Option<u16>, ClientError>(
                ClientError::QueryFailed,
            )
            &&& query_start(knows, QueryKind::UtxoByAddress) == Ok::<Option<u16>, ClientError>(
                Some(era),
            )
            &&& query_end(asking, QueryKind::UtxoByAddress) is Ok
            &&& after_query_end(asking, QueryKind::UtxoByAddress, None).phase
                == StateQueryPhase::Acquired
        }),
{
}

/// At most one query is outstanding: while one is, a second is a violation.
pub proof fn queries_are_not_pipelined(v: StateQueryValue, kind: QueryKind)
    requires
        v.phase == StateQueryPhase::Querying,
    ensures
        query_start(v, kind) == Err::<Option<u16>, ClientError>(ClientError::ProtocolViolation),
        after_query_start(v, kind).phase == StateQueryPhase::Failed,
{
}

/// What the peer or the state refuses is no failure of the client: after a
/// failed acquisition another may begin, a query that is refused changes
/// nothing, and a result of the wrong kind leaves the state acquired. After a
/// fatal error nothing can begin.
pub proof fn refusals_leave_the_client_of_use(
    v: StateQueryValue,
    msg: AcquireMessage,
    kind: QueryKind,
    era: Option<u16>,
    again: bool,
)
    ensures
        acquire_outcome(v, msg) == Err::<Option<PointValue>, ClientError>(
            ClientError::AcquireFailed,
        ) ==> acquire_start(after_acquire_reply(v, msg).phase, again) is Ok,
        query_start(v, kind) == Err::<Option<u16>, ClientError>(ClientError::QueryFailed)
            ==> after_query_start(v, kind) == v,
        query_end(v, kind) == Err::<(), ClientError>(ClientError::QueryFailed) ==> after_query_end(
            v,
            kind,
            era,
        ).phase == StateQueryPhase::Acquired,
        acquire_outcome(v, msg) matches Err(e) ==> (e.spec_is_fatal() ==> acquire_start(
            after_acquire_reply(v, msg).phase,
            again,
        ) is Err),
        query_start(v, kind) matches Err(e) ==> (e.spec_is_fatal() ==> acquire_start(
            after_query_start(v, kind).phase,
            again,
        ) is Err),
        query_end(v, kind) matches Err(e) ==> (e.spec_is_fatal() ==> acquire_start(
            after_query_end(v, kind, era).phase,
            again,
        ) is Err),
{
}

} // verus!
