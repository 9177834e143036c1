//! Sessions: one connection to a peer with the protocol clients that a use
//! needs. A session is made when the transport stands and closed once. A
//! closed session answers every call with a closed handle, and one whose
//! transport has failed answers every call with the connection error.

use crate::blockfetch::{
    after_fetch_start, fetch_start, BlockFetchClient, BlockFetchPhase, BlockFetchValue,
};
use crate::chainsync::{
    after_intersect_reply, after_intersect_start, after_next_reply, point_value,
    intersect_outcome, intersect_start, next_action, next_outcome, phase_after_begin, response_of,
    AgencyState, ChainSyncClient, ChainSyncMessage, ChainSyncPhase, ChainSyncValue, MessageValue,
    NextAction, NextOutcome, NextResponse, OutcomeValue, ResponseValue, agency_of, point_values,
};
use crate::address::{bech32_payload, PallasUtility};
use crate::failure::ClientError;
use crate::point::{
    flat_value, flatten_point, specific_point, ChainPoint, FlatPoint, Point, PointValue,
    TipValue,
};
use crate::statequery::{
    acquire_start, after_acquire_start, AcquireAction, LocalStateQueryClient, QueryResult,
    StateQueryPhase, StateQueryValue,
};
use crate::submit::{candidate, decoded_era, decoded_hash, TxSubmit};
use crate::txsubmission::{EntryValue, SubmissionValue, TxSubmissionClient, TxSubmissionState};
use vstd::prelude::*;

verus! {

/// The point that a search gives back, from what the peer answered: the
/// matched candidate, or none.
pub open spec fn intersect_answer(
    found: Result<(Option<PointValue>, TipValue), ClientError>,
) -> Result<Option<PointValue>, ClientError> {
    match found {
        Ok((p, _)) => Ok(p),
        Err(e) => Err(e),
    }
}

/// The point whose block is to be fetched after a call of next: the specific
/// point of a rollback, in flat form. There is none for a rollback to the
/// origin, which has no block, and none for any other outcome.
pub open spec fn fetch_target(outcome: Result<OutcomeValue, ClientError>) -> Option<FlatPoint> {
    match outcome {
        Ok(OutcomeValue::RollBackward(p, _)) => flatten_point(p),
        _ => None,
    }
}

/// The flat answer of a call of next for which a block may have been
/// fetched: where the fetch failed, the answer is that of the failure; else it
/// is the answer for the outcome, with the block where one was fetched.
pub open spec fn response_after_fetch(
    outcome: Result<OutcomeValue, ClientError>,
    fetched: Option<Result<Seq<u8>, ClientError>>,
) -> ResponseValue {
    match fetched {
        Some(Err(e)) => response_of(Err(e), None),
        Some(Ok(block)) => response_of(outcome, Some(block)),
        None => response_of(outcome, None),
    }
}

pub open spec fn fetched_value(fetched: Option<Result<Vec<u8>, ClientError>>) -> Option<
    Result<Seq<u8>, ClientError>,
> {
    match fetched {
        Some(Ok(block)) => Some(Ok(block@)),
        Some(Err(e)) => Some(Err(e)),
        None => None,
    }
}

/// The phase of a chain synchronisation client after its transport failed.
pub open spec fn lost(phase: ChainSyncPhase) -> ChainSyncPhase {
    if phase == ChainSyncPhase::Closed {
        ChainSyncPhase::Closed
    } else {
        ChainSyncPhase::Broken
    }
}

/// Begins a search for the single point that a flat point names.
fn search_from(client: &mut ChainSyncClient, known_point: Point) -> (r: Result<
    Vec<ChainPoint>,
    ClientError,
>)
    ensures
        match r {
            Ok(c) => intersect_start(old(client)@.phase) is Ok && c@.len() == 1 && c@[0]@
                == specific_point(known_point@),
            Err(e) => intersect_start(old(client)@.phase) == Err::<(), ClientError>(e),
        },
        final(client)@ == after_intersect_start(old(client)@, seq![specific_point(known_point@)]),
{
    let mut candidates: Vec<ChainPoint> = Vec::new();
    candidates.push(known_point.to_chain_point());
    assert(point_values(candidates@) =~= seq![specific_point(known_point@)]);
    match client.begin_find_intersect(&candidates) {
        Ok(()) => Ok(candidates),
        Err(e) => Err(e),
    }
}

/// Ends a search and gives the matched point.
fn search_result(client: &mut ChainSyncClient, msg: ChainSyncMessage) -> (r: Result<
    Option<ChainPoint>,
    ClientError,
>)
    ensures
        match r {
            Ok(p) => intersect_answer(intersect_outcome(old(client)@, msg@)) == Ok::<
                Option<PointValue>,
                ClientError,
            >(point_value(p)),
            Err(e) => intersect_answer(intersect_outcome(old(client)@, msg@)) == Err::<
                Option<PointValue>,
                ClientError,
            >(e),
        },
        final(client)@ == after_intersect_reply(old(client)@, msg@),
{
    match client.complete_find_intersect(msg) {
        Ok((found, _)) => Ok(found),
        Err(e) => Err(e),
    }
}

/// The point to fetch after an outcome of next.
pub fn point_to_fetch(outcome: &Result<NextOutcome, ClientError>) -> (r: Option<Point>)
    ensures
        flat_value(r) == fetch_target(
            match outcome {
                Ok(o) => Ok(o@),
                Err(e) => Err(*e),
            },
        ),
{
    match outcome {
        Ok(NextOutcome::RollBackward(point, _)) => Point::from_chain_point(point.duplicate()),
        _ => None,
    }
}

/// A session with a peer node: chain synchronisation and block retrieval.
#[derive(Debug)]
pub struct NodeToNodeWrapper {
    pub chainsync: ChainSyncClient,
    pub blockfetch: BlockFetchClient,
}

impl NodeToNodeWrapper {
    /// The session on a transport that has just been set up.
    pub fn connect() -> (s: NodeToNodeWrapper)
        ensures
            s.chainsync@ == (ChainSyncValue {
                phase: ChainSyncPhase::Idle,
                tip: None,
                intersection: None,
                candidates: Seq::empty(),
            }),
            s.blockfetch@ == (BlockFetchValue { phase: BlockFetchPhase::Idle, held: None }),
    {
        NodeToNodeWrapper { chainsync: ChainSyncClient::new(), blockfetch: BlockFetchClient::new() }
    }

    /// Whether the chain synchronisation client may send.
    pub fn chain_sync_has_agency(&self) -> (r: bool)
        ensures
            r == (agency_of(self.chainsync@.phase) == AgencyState::HasAgency),
    {
        self.chainsync.has_agency()
    }

    /// Begins a call of next: the request is to be sent with agency, and the
    /// push awaited without.
    pub fn chain_sync_next(&mut self) -> (r: Result<NextAction, ClientError>)
        ensures
            r == next_action(old(self).chainsync@.phase),
            final(self).chainsync@ == (ChainSyncValue {
                phase: phase_after_begin(old(self).chainsync@.phase),
                ..old(self).chainsync@
            }),
            final(self).blockfetch == old(self).blockfetch,
    {
        self.chainsync.begin_next()
    }

    /// Ends a call of next with the peer's message.
    pub fn chain_sync_reply(&mut self, msg: ChainSyncMessage) -> (r: Result<
        NextOutcome,
        ClientError,
    >)
        ensures
            match r {
                Ok(o) => next_outcome(old(self).chainsync@.phase, msg@) == Ok::<
                    OutcomeValue,
                    ClientError,
                >(o@),
                Err(e) => next_outcome(old(self).chainsync@.phase, msg@) == Err::<
                    OutcomeValue,
                    ClientError,
                >(e),
            },
            final(self).chainsync@ == after_next_reply(old(self).chainsync@, msg@),
            final(self).blockfetch == old(self).blockfetch,
    {
        self.chainsync.complete_next(msg)
    }

    /// The flat answer of a call of next. After a rollback it carries the
    /// block that was fetched for the rollback's point; where that fetch
    /// failed, the answer is the failure's.
    pub fn chain_sync_response(
        outcome: Result<NextOutcome, ClientError>,
        fetched: Option<Result<Vec<u8>, ClientError>>,
    ) -> (r: NextResponse)
        ensures
            r@ == response_after_fetch(
                match outcome {
                    Ok(o) => Ok(o@),
                    Err(e) => Err(e),
                },
                fetched_value(fetched),
            ),
    {
        match fetched {
            Some(Err(e)) => NextResponse::from_outcome(Err(e), None),
            Some(Ok(block)) => NextResponse::from_outcome(outcome, Some(block)),
            None => NextResponse::from_outcome(outcome, None),
        }
    }

    /// Begins the fetch of the block at a point: the returned range is to be
    /// requested.
    pub fn fetch_block(&mut self, point: Point) -> (r: Result<(ChainPoint, ChainPoint), ClientError>)
        ensures
            match r {
                Ok((from, to)) => fetch_start(old(self).blockfetch@.phase) is Ok && from@
                    == specific_point(point@) && to@ == specific_point(point@),
                Err(e) => fetch_start(old(self).blockfetch@.phase) == Err::<(), ClientError>(e),
            },
            final(self).blockfetch@ == after_fetch_start(old(self).blockfetch@),
            final(self).chainsync == old(self).chainsync,
    {
        let target = point.to_chain_point();
        self.blockfetch.begin_fetch_single(&target)
    }

    /// Begins a search for the given point.
    pub fn find_intersect(&mut self, point: Point) -> (r: Result<Vec<ChainPoint>, ClientError>)
        ensures
            match r {
                Ok(c) => intersect_start(old(self).chainsync@.phase) is Ok && c@.len() == 1
                    && c@[0]@ == specific_point(point@),
                Err(e) => intersect_start(old(self).chainsync@.phase) == Err::<(), ClientError>(e),
            },
            final(self).chainsync@ == after_intersect_start(
                old(self).chainsync@,
                seq![specific_point(point@)],
            ),
            final(self).blockfetch == old(self).blockfetch,
    {
        search_from(&mut self.chainsync, point)
    }

    /// Ends a search: the matched point, or none.
    pub fn find_intersect_reply(&mut self, msg: ChainSyncMessage) -> (r: Result<
        Option<ChainPoint>,
        ClientError,
    >)
        ensures
            match r {
                Ok(p) => intersect_answer(intersect_outcome(old(self).chainsync@, msg@)) == Ok::<
                    Option<PointValue>,
                    ClientError,
                >(point_value(p)),
                Err(e) => intersect_answer(intersect_outcome(old(self).chainsync@, msg@)) == Err::<
                    Option<PointValue>,
                    ClientError,
                >(e),
            },
            final(self).chainsync@ == after_intersect_reply(old(self).chainsync@, msg@),
            final(self).blockfetch == old(self).blockfetch,
    {
        search_result(&mut self.chainsync, msg)
    }

    /// Begins to ask for the peer's tip: a search for the origin, whose answer
    /// carries the tip.
    pub fn get_tip(&mut self) -> (r: Result<Vec<ChainPoint>, ClientError>)
        ensures
            match r {
                Ok(c) => intersect_start(old(self).chainsync@.phase) is Ok && c@.len() == 1
                    && c@[0]@ == PointValue::Origin,
                Err(e) => intersect_start(old(self).chainsync@.phase) == Err::<(), ClientError>(e),
            },
            final(self).chainsync@ == after_intersect_start(
                old(self).chainsync@,
                seq![PointValue::Origin],
            ),
            final(self).blockfetch == old(self).blockfetch,
    {
        let mut candidates: Vec<ChainPoint> = Vec::new();
        candidates.push(ChainPoint::Origin);
        assert(point_values(candidates@) =~= seq![PointValue::Origin]);
        match self.chainsync.begin_find_intersect(&candidates) {
            Ok(()) => Ok(candidates),
            Err(e) => Err(e),
        }
    }

    /// Ends the search for the origin and begins the search for the point of
    /// the tip that its answer carried: the returned candidates are to be
    /// sent next.
    pub fn get_tip_probe_reply(&mut self, msg: ChainSyncMessage) -> (r: Result<
        Vec<ChainPoint>,
        ClientError,
    >)
        ensures
            match intersect_outcome(old(self).chainsync@, msg@) {
                Ok((_, tip)) => r matches Ok(c) && c@.len() == 1 && c@[0]@ == tip.point
                    && final(self).chainsync@ == after_intersect_start(
                    after_intersect_reply(old(self).chainsync@, msg@),
                    seq![tip.point],
                ),
                Err(e) => r == Err::<Vec<ChainPoint>, ClientError>(e) && final(self).chainsync@
                    == after_intersect_reply(old(self).chainsync@, msg@),
            },
            final(self).blockfetch == old(self).blockfetch,
    {
        match self.chainsync.complete_find_intersect(msg) {
            Ok((_, tip)) => {
                let mut candidates: Vec<ChainPoint> = Vec::new();
                candidates.push(tip.point);
                assert(point_values(candidates@) =~= seq![tip.point@]);
                match self.chainsync.begin_find_intersect(&candidates) {
                    Ok(()) => Ok(candidates),
                    Err(e) => Err(e),
                }
            },
            Err(e) => Err(e),
        }
    }

    /// Ends the search for the tip: the point that the peer confirmed; that
    /// it confirmed none is the error `NoIntersection`.
    pub fn get_tip_reply(&mut self, msg: ChainSyncMessage) -> (r: Result<ChainPoint, ClientError>)
        ensures
            match intersect_outcome(old(self).chainsync@, msg@) {
                Ok((Some(p), _)) => r matches Ok(q) && q@ == p,
                Ok((None, _)) => r == Err::<ChainPoint, ClientError>(ClientError::NoIntersection),
                Err(e) => r == Err::<ChainPoint, ClientError>(e),
            },
            final(self).chainsync@ == after_intersect_reply(old(self).chainsync@, msg@),
            final(self).blockfetch == old(self).blockfetch,
    {
        match self.chainsync.complete_find_intersect(msg) {
            Ok((Some(point), _)) => Ok(point),
            Ok((None, _)) => Err(ClientError::NoIntersection),
            Err(e) => Err(e),
        }
    }

    /// A relay client whose mempool holds the given transaction alone, for a
    /// submission on a connection of its own.
    pub fn submit_tx(tx: Vec<u8>) -> (r: Result<TxSubmissionClient, ClientError>)
        ensures
            match r {
                Ok(c) => (candidate(tx@, decoded_era(tx@), decoded_hash(tx@)) matches Ok(e) && c@
                    == (SubmissionValue {
                    state: TxSubmissionState::Init,
                    entries: seq![e],
                    announced: false,
                    failed: false,
                    accepted: Seq::empty(),
                })),
                Err(err) => candidate(tx@, decoded_era(tx@), decoded_hash(tx@)) == Err::<
                    EntryValue,
                    ClientError,
                >(err),
            },
    {
        TxSubmit::submit_tx(tx)
    }

    /// Closes the session and its clients.
    pub fn disconnect(&mut self)
        ensures
            final(self).chainsync@ == (ChainSyncValue {
                phase: ChainSyncPhase::Closed,
                ..old(self).chainsync@
            }),
            final(self).blockfetch@ == (BlockFetchValue {
                phase: BlockFetchPhase::Closed,
                ..old(self).blockfetch@
            }),
    {
        self.chainsync.close();
        self.blockfetch.close();
    }

    /// Records that the transport failed. Every client of the session that
    /// was not closed reports the connection error from now on.
    pub fn transport_failed(&mut self)
        ensures
            final(self).chainsync@ == (ChainSyncValue {
                phase: lost(old(self).chainsync@.phase),
                ..old(self).chainsync@
            }),
            final(self).blockfetch@ == (BlockFetchValue {
                phase: if old(self).blockfetch@.phase == BlockFetchPhase::Closed {
                    BlockFetchPhase::Closed
                } else {
                    BlockFetchPhase::Broken
                },
                ..old(self).blockfetch@
            }),
    {
        self.chainsync.transport_failed();
        self.blockfetch.transport_failed();
    }
}

/// A session with a local node: chain synchronisation and ledger-state
/// queries.
#[derive(Debug)]
pub struct NodeToClientWrapper {
    pub chainsync: ChainSyncClient,
    pub statequery: LocalStateQueryClient,
    pub socket_path: String,
}

impl NodeToClientWrapper {
    /// The session on a transport that has just been set up at the given
    /// socket.
    pub fn connect(socket_path: String) -> (s: NodeToClientWrapper)
        ensures
            s.chainsync@ == (ChainSyncValue {
                phase: ChainSyncPhase::Idle,
                tip: None,
                intersection: None,
                candidates: Seq::empty(),
            }),
            s.statequery@ == (StateQueryValue {
                phase: StateQueryPhase::Idle,
                target: None,
                era: None,
                asked: None,
            }),
            s.socket_path == socket_path,
    {
        NodeToClientWrapper {
            chainsync: ChainSyncClient::new(),
            statequery: LocalStateQueryClient::new(),
            socket_path,
        }
    }

    /// Whether the chain synchronisation client may send.
    pub fn chain_sync_has_agency(&self) -> (r: bool)
        ensures
            r == (agency_of(self.chainsync@.phase) == AgencyState::HasAgency),
    {
        self.chainsync.has_agency()
    }

    /// Begins a call of next: the request is to be sent with agency, and the
    /// push awaited without.
    pub fn chain_sync_next(&mut self) -> (r: Result<NextAction, ClientError>)
        ensures
            r == next_action(old(self).chainsync@.phase),
            final(self).chainsync@ == (ChainSyncValue {
                phase: phase_after_begin(old(self).chainsync@.phase),
                ..old(self).chainsync@
            }),
            final(self).statequery == old(self).statequery,
            final(self).socket_path == old(self).socket_path,
    {
        self.chainsync.begin_next()
    }

    /// Ends a call of next with the peer's message and gives the flat answer;
    /// no block is fetched for a rollback.
    pub fn chain_sync_reply(&mut self, msg: ChainSyncMessage) -> (r: NextResponse)
        ensures
            r@ == response_of(next_outcome(old(self).chainsync@.phase, msg@), None),
            final(self).chainsync@ == after_next_reply(old(self).chainsync@, msg@),
            final(self).statequery == old(self).statequery,
            final(self).socket_path == old(self).socket_path,
    {
        let outcome = self.chainsync.complete_next(msg);
        NextResponse::from_outcome(outcome, None)
    }

    /// Begins a search for the given point.
    pub fn find_intersect(&mut self, known_point: Point) -> (r: Result<
        Vec<ChainPoint>,
        ClientError,
    >)
        ensures
            match r {
                Ok(c) => intersect_start(old(self).chainsync@.phase) is Ok && c@.len() == 1
                    && c@[0]@ == specific_point(known_point@),
                Err(e) => intersect_start(old(self).chainsync@.phase) == Err::<(), ClientError>(e),
            },
            final(self).chainsync@ == after_intersect_start(
                old(self).chainsync@,
                seq![specific_point(known_point@)],
            ),
            final(self).statequery == old(self).statequery,
            final(self).socket_path == old(self).socket_path,
    {
        search_from(&mut self.chainsync, known_point)
    }

    /// Ends a search: the matched point, or none.
    pub fn find_intersect_reply(&mut self, msg: ChainSyncMessage) -> (r: Result<
        Option<ChainPoint>,
        ClientError,
    >)
        ensures
            match r {
                Ok(p) => intersect_answer(intersect_outcome(old(self).chainsync@, msg@)) == Ok::<
                    Option<PointValue>,
                    ClientError,
                >(point_value(p)),
                Err(e) => intersect_answer(intersect_outcome(old(self).chainsync@, msg@)) == Err::<
                    Option<PointValue>,
                    ClientError,
                >(e),
            },
            final(self).chainsync@ == after_intersect_reply(old(self).chainsync@, msg@),
            final(self).statequery == old(self).statequery,
            final(self).socket_path == old(self).socket_path,
    {
        search_result(&mut self.chainsync, msg)
    }

    /// Begins to acquire the state at the tip, of which the point is then
    /// asked.
    pub fn get_tip(&mut self) -> (r: Result<AcquireAction, ClientError>)
        ensures
            r == acquire_start(old(self).statequery@.phase, false),
            final(self).statequery@ == after_acquire_start(old(self).statequery@, false, None),
            final(self).chainsync == old(self).chainsync,
            final(self).socket_path == old(self).socket_path,
    {
        self.statequery.begin_acquire(None)
    }

    /// The tip, from the result of the query for the acquired point: that
    /// point as the peer reported it, the origin as the origin. A result of
    /// another kind is a failed query.
    pub fn get_tip_reply(result: QueryResult) -> (r: Result<ChainPoint, ClientError>)
        ensures
            match r {
                Ok(p) => result == QueryResult::Point(p),
                Err(e) => !(result is Point) && e == ClientError::QueryFailed,
            },
    {
        match result {
            QueryResult::Point(point) => Ok(point),
            _ => Err(ClientError::QueryFailed),
        }
    }

    /// Begins the query for the outputs at an address given as bech32 text.
    /// The session's state comes first: where no acquisition can begin, the
    /// call fails as `reacquire` fails, whatever the text. Else a text that
    /// names no address is refused and nothing changes. Else the state at the
    /// tip is acquired anew, without a release where one is acquired already,
    /// and the raw bytes of the address are handed back for the query.
    pub fn get_utxo_by_address_cbor(&mut self, address: &str) -> (r: Result<
        (AcquireAction, Vec<u8>),
        ClientError,
    >)
        ensures
            match acquire_start(old(self).statequery@.phase, true) {
                Err(e) => r == Err::<(AcquireAction, Vec<u8>), ClientError>(e)
                    && final(self).statequery@ == after_acquire_start(
                    old(self).statequery@,
                    true,
                    None,
                ),
                Ok(action) => match bech32_payload(address@) {
                    Some(raw) => (r matches Ok((a, bytes)) && a == action && bytes@ == raw)
                        && final(self).statequery@ == after_acquire_start(
                        old(self).statequery@,
                        true,
                        None,
                    ),
                    None => r == Err::<(AcquireAction, Vec<u8>), ClientError>(ClientError::Decode)
                        && final(self).statequery@ == old(self).statequery@,
                },
            },
            final(self).chainsync == old(self).chainsync,
            final(self).socket_path == old(self).socket_path,
    {
        let phase = self.statequery.phase();
        if phase == StateQueryPhase::Idle || phase == StateQueryPhase::Acquired {
            match PallasUtility::address_bech32_to_bytes(address) {
                Ok(bytes) => match self.statequery.begin_reacquire(None) {
                    Ok(action) => Ok((action, bytes)),
                    Err(e) => Err(e),
                },
                Err(e) => Err(e),
            }
        } else {
            match self.statequery.begin_reacquire(None) {
                Ok(action) => Ok((action, Vec::new())),
                Err(e) => Err(e),
            }
        }
    }

    /// The entries of a query for outputs, each as the peer encoded it; a
    /// result of another kind is a failed query.
    pub fn get_utxo_by_address_cbor_reply(result: QueryResult) -> (r: Result<
        Vec<Vec<u8>>,
        ClientError,
    >)
        ensures
            match r {
                Ok(entries) => result == QueryResult::Utxos(entries),
                Err(e) => !(result is Utxos) && e == ClientError::QueryFailed,
            },
    {
        match result {
            QueryResult::Utxos(entries) => Ok(entries),
            _ => Err(ClientError::QueryFailed),
        }
    }

    /// Closes the session and its clients.
    pub fn disconnect(&mut self)
        ensures
            final(self).chainsync@ == (ChainSyncValue {
                phase: ChainSyncPhase::Closed,
                ..old(self).chainsync@
            }),
            final(self).statequery@ == (StateQueryValue {
                phase: StateQueryPhase::Closed,
                ..old(self).statequery@
            }),
            final(self).socket_path == old(self).socket_path,
    {
        self.chainsync.close();
        self.statequery.close();
    }

    /// Records that the transport failed. Every client of the session that
    /// was not closed reports the connection error from now on.
    pub fn transport_failed(&mut self)
        ensures
            final(self).chainsync@ == (ChainSyncValue {
                phase: lost(old(self).chainsync@.phase),
                ..old(self).chainsync@
            }),
            final(self).statequery@ == (StateQueryValue {
                phase: if old(self).statequery@.phase == StateQueryPhase::Closed {
                    StateQueryPhase::Closed
                } else {
                    StateQueryPhase::Broken
                },
                ..old(self).statequery@
            }),
            final(self).socket_path == old(self).socket_path,
    {
        self.chainsync.transport_failed();
        self.statequery.transport_failed();
    }
}

/// A session with a local node for callers that also submit transactions:
/// the session with the node, under the name that those callers know.
#[derive(Debug)]
pub struct NodeClientWrapper {
    pub node: NodeToClientWrapper,
}

impl NodeClientWrapper {
    /// The session on a transport that has just been set up at the given
    /// socket.
    pub fn connect(socket_path: String) -> (s: NodeClientWrapper)
        ensures
            s.node.chainsync@ == (ChainSyncValue {
                phase: ChainSyncPhase::Idle,
                tip: None,
                intersection: None,
                candidates: Seq::empty(),
            }),
            s.node.statequery@ == (StateQueryValue {
                phase: StateQueryPhase::Idle,
                target: None,
                era: None,
                asked: None,
            }),
            s.node.socket_path == socket_path,
    {
        NodeClientWrapper { node: NodeToClientWrapper::connect(socket_path) }
    }

    /// Whether the chain synchronisation client may send.
    pub fn chain_sync_has_agency(&self) -> (r: bool)
        ensures
            r == (agency_of(self.node.chainsync@.phase) == AgencyState::HasAgency),
    {
        self.node.chainsync.has_agency()
    }

    /// Begins a call of next: the request is to be sent with agency, and the
    /// push awaited without.
    pub fn chain_sync_next(&mut self) -> (r: Result<NextAction, ClientError>)
        ensures
            r == next_action(old(self).node.chainsync@.phase),
            final(self).node.chainsync@ == (ChainSyncValue {
                phase: phase_after_begin(old(self).node.chainsync@.phase),
                ..old(self).node.chainsync@
            }),
            final(self).node.statequery == old(self).node.statequery,
            final(self).node.socket_path == old(self).node.socket_path,
    {
        self.node.chainsync.begin_next()
    }

    /// Ends a call of next with the peer's message and gives the flat answer;
    /// no block is fetched for a rollback.
    pub fn chain_sync_reply(&mut self, msg: ChainSyncMessage) -> (r: NextResponse)
        ensures
            r@ == response_of(next_outcome(old(self).node.chainsync@.phase, msg@), None),
            final(self).node.chainsync@ == after_next_reply(old(self).node.chainsync@, msg@),
            final(self).node.statequery == old(self).node.statequery,
            final(self).node.socket_path == old(self).node.socket_path,
    {
        let outcome = self.node.chainsync.complete_next(msg);
        NextResponse::from_outcome(outcome, None)
    }

    /// Begins a search for the given point.
    pub fn find_intersect(&mut self, known_point: Point) -> (r: Result<
        Vec<ChainPoint>,
        ClientError,
    >)
        ensures
            match r {
                Ok(c) => intersect_start(old(self).node.chainsync@.phase) is Ok && c@.len() == 1
                    && c@[0]@ == specific_point(known_point@),
                Err(e) => intersect_start(old(self).node.chainsync@.phase) == Err::<(), ClientError>(e),
            },
            final(self).node.chainsync@ == after_intersect_start(
                old(self).node.chainsync@,
                seq![specific_point(known_point@)],
            ),
            final(self).node.statequery == old(self).node.statequery,
            final(self).node.socket_path == old(self).node.socket_path,
    {
        search_from(&mut self.node.chainsync, known_point)
    }

    /// Ends a search: the matched point, or none.
    pub fn find_intersect_reply(&mut self, msg: ChainSyncMessage) -> (r: Result<
        Option<ChainPoint>,
        ClientError,
    >)
        ensures
            match r {
                Ok(p) => intersect_answer(intersect_outcome(old(self).node.chainsync@, msg@)) == Ok::<
                    Option<PointValue>,
                    ClientError,
                >(point_value(p)),
                Err(e) => intersect_answer(intersect_outcome(old(self).node.chainsync@, msg@)) == Err::<
                    Option<PointValue>,
                    ClientError,
                >(e),
            },
            final(self).node.chainsync@ == after_intersect_reply(old(self).node.chainsync@, msg@),
            final(self).node.statequery == old(self).node.statequery,
            final(self).node.socket_path == old(self).node.socket_path,
    {
        search_result(&mut self.node.chainsync, msg)
    }

    /// Begins to acquire the state at the tip, of which the point is then
    /// asked.
    pub fn get_tip(&mut self) -> (r: Result<AcquireAction, ClientError>)
        ensures
            r == acquire_start(old(self).node.statequery@.phase, false),
            final(self).node.statequery@ == after_acquire_start(old(self).node.statequery@, false, None),
            final(self).node.chainsync == old(self).node.chainsync,
            final(self).node.socket_path == old(self).node.socket_path,
    {
        self.node.statequery.begin_acquire(None)
    }

    /// The tip, from the result of the query for the acquired point: that
    /// point as the peer reported it, the origin as the origin. A result of
    /// another kind is a failed query.
    pub fn get_tip_reply(result: QueryResult) -> (r: Result<ChainPoint, ClientError>)
        ensures
            match r {
                Ok(p) => result == QueryResult::Point(p),
                Err(e) => !(result is Point) && e == ClientError::QueryFailed,
            },
    {
        match result {
            QueryResult::Point(point) => Ok(point),
            _ => Err(ClientError::QueryFailed),
        }
    }

    /// Begins the query for the outputs at an address given as bech32 text.
    /// The session's state comes first: where no acquisition can begin, the
    /// call fails as `reacquire` fails, whatever the text. Else a text that
    /// names no address is refused and nothing changes. Else the state at the
    /// tip is acquired anew, without a release where one is acquired already,
    /// and the raw bytes of the address are handed back for the query.
    pub fn get_utxo_by_address_cbor(&mut self, address: &str) -> (r: Result<
        (AcquireAction, Vec<u8>),
        ClientError,
    >)
        ensures
            match acquire_start(old(self).node.statequery@.phase, true) {
                Err(e) => r == Err::<(AcquireAction, Vec<u8>), ClientError>(e)
                    && final(self).node.statequery@ == after_acquire_start(
                    old(self).node.statequery@,
                    true,
                    None,
                ),
                Ok(action) => match bech32_payload(address@) {
                    Some(raw) => (r matches Ok((a, bytes)) && a == action && bytes@ == raw)
                        && final(self).node.statequery@ == after_acquire_start(
                        old(self).node.statequery@,
                        true,
                        None,
                    ),
                    None => r == Err::<(AcquireAction, Vec<u8>), ClientError>(ClientError::Decode)
                        && final(self).node.statequery@ == old(self).node.statequery@,
                },
            },
            final(self).node.chainsync == old(self).node.chainsync,
            final(self).node.socket_path == old(self).node.socket_path,
    {
        let phase = self.node.statequery.phase();
        if phase == StateQueryPhase::Idle || phase == StateQueryPhase::Acquired {
            match PallasUtility::address_bech32_to_bytes(address) {
                Ok(bytes) => match self.node.statequery.begin_reacquire(None) {
                    Ok(action) => Ok((action, bytes)),
                    Err(e) => Err(e),
                },
                Err(e) => Err(e),
            }
        } else {
            match self.node.statequery.begin_reacquire(None) {
                Ok(action) => Ok((action, Vec::new())),
                Err(e) => Err(e),
            }
        }
    }

    /// The entries of a query for outputs, each as the peer encoded it; a
    /// result of another kind is a failed query.
    pub fn get_utxo_by_address_cbor_reply(result: QueryResult) -> (r: Result<
        Vec<Vec<u8>>,
        ClientError,
    >)
        ensures
            match r {
                Ok(entries) => result == QueryResult::Utxos(entries),
                Err(e) => !(result is Utxos) && e == ClientError::QueryFailed,
            },
    {
        match result {
            QueryResult::Utxos(entries) => Ok(entries),
            _ => Err(ClientError::QueryFailed),
        }
    }

    /// Closes the session and its clients.
    pub fn disconnect(&mut self)
        ensures
            final(self).node.chainsync@ == (ChainSyncValue {
                phase: ChainSyncPhase::Closed,
                ..old(self).node.chainsync@
            }),
            final(self).node.statequery@ == (StateQueryValue {
                phase: StateQueryPhase::Closed,
                ..old(self).node.statequery@
            }),
            final(self).node.socket_path == old(self).node.socket_path,
    {
        self.node.chainsync.close();
        self.node.statequery.close();
    }

    /// Records that the transport failed. Every client of the session that
    /// was not closed reports the connection error from now on.
    pub fn transport_failed(&mut self)
        ensures
            final(self).node.chainsync@ == (ChainSyncValue {
                phase: lost(old(self).node.chainsync@.phase),
                ..old(self).node.chainsync@
            }),
            final(self).node.statequery@ == (StateQueryValue {
                phase: if old(self).node.statequery@.phase == StateQueryPhase::Closed {
                    StateQueryPhase::Closed
                } else {
                    StateQueryPhase::Broken
                },
                ..old(self).node.statequery@
            }),
            final(self).node.socket_path == old(self).node.socket_path,
    {
        self.node.chainsync.transport_failed();
        self.node.statequery.transport_failed();
    }
}

/// Once a session is closed, every call of next, every search, every fetch
/// and every acquisition reports a closed handle and changes nothing.
pub proof fn closed_session_refuses(
    sync: ChainSyncValue,
    fetch: BlockFetchValue,
    query: StateQueryValue,
    msg: MessageValue,
    candidates: Seq<PointValue>,
    again: bool,
    point: Option<PointValue>,
)
    requires
        sync.phase == ChainSyncPhase::Closed,
        fetch.phase == BlockFetchPhase::Closed,
        query.phase == StateQueryPhase::Closed,
    ensures
        next_action(sync.phase) == Err::<NextAction, ClientError>(ClientError::ClosedHandle),
        next_outcome(sync.phase, msg) == Err::<OutcomeValue, ClientError>(
            ClientError::ClosedHandle,
        ),
        intersect_start(sync.phase) == Err::<(), ClientError>(ClientError::ClosedHandle),
        after_next_reply(sync, msg) == sync,
        after_intersect_start(sync, candidates) == sync,
        after_intersect_reply(sync, msg) == sync,
        fetch_start(fetch.phase) == Err::<(), ClientError>(ClientError::ClosedHandle),
        after_fetch_start(fetch) == fetch,
        acquire_start(query.phase, again) == Err::<AcquireAction, ClientError>(
            ClientError::ClosedHandle,
        ),
        after_acquire_start(query, again, point) == query,
{
}

/// Once the transport of a session has failed, every call of next, every
/// search, every fetch and every acquisition reports the connection error and
/// changes nothing; none waits for a message that cannot come.
pub proof fn broken_session_reports_connection(
    sync: ChainSyncValue,
    fetch: BlockFetchValue,
    query: StateQueryValue,
    msg: MessageValue,
    candidates: Seq<PointValue>,
    again: bool,
    point: Option<PointValue>,
)
    requires
        sync.phase == ChainSyncPhase::Broken,
        fetch.phase == BlockFetchPhase::Broken,
        query.phase == StateQueryPhase::Broken,
    ensures
        next_action(sync.phase) == Err::<NextAction, ClientError>(ClientError::Connection),
        next_outcome(sync.phase, msg) == Err::<OutcomeValue, ClientError>(ClientError::Connection),
        intersect_start(sync.phase) == Err::<(), ClientError>(ClientError::Connection),
        phase_after_begin(sync.phase) == sync.phase,
        after_next_reply(sync, msg) == sync,
        after_intersect_start(sync, candidates) == sync,
        after_intersect_reply(sync, msg) == sync,
        fetch_start(fetch.phase) == Err::<(), ClientError>(ClientError::Connection),
        after_fetch_start(fetch) == fetch,
        acquire_start(query.phase, again) == Err::<AcquireAction, ClientError>(
            ClientError::Connection,
        ),
        after_acquire_start(query, again, point) == query,
{
}

} // verus!
