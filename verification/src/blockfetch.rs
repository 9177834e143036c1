//! The block retrieval client: it asks for the range that holds one point and
//! takes the one body that the peer streams back.

use crate::failure::ClientError;
use crate::point::ChainPoint;
use vstd::prelude::*;

verus! {

/// Where the client stands in the protocol.
#[derive(Clone, Copy, Debug, PartialEq, Eq, Structural)]
pub enum BlockFetchPhase {
    /// Nothing is outstanding.
    Idle,
    /// A range was requested; the peer opens a batch or declines.
    Busy,
    /// The peer streams the batch.
    Streaming,
    /// The protocol was violated: the client is of no more use.
    Failed,
    /// The session was closed.
    Closed,
    /// The transport failed: the peer must be connected to anew.
    Broken,
}

/// Mathematical value of a message of the peer.
pub enum FetchMessageValue {
    StartBatch,
    NoBlocks,
    Block(Seq<u8>),
    BatchDone,
}

/// A message of the peer.
#[derive(Clone, Debug, PartialEq, Eq)]
pub enum BlockFetchMessage {
    /// The peer has the range and begins to stream it.
    StartBatch,
    /// The peer declines: the range is not on its chain.
    NoBlocks,
    /// One block body.
    Block(Vec<u8>),
    /// The end of the batch.
    BatchDone,
}

impl View for BlockFetchMessage {
    type V = FetchMessageValue;

    open spec fn view(&self) -> FetchMessageValue {
        match self {
            BlockFetchMessage::StartBatch => FetchMessageValue::StartBatch,
            BlockFetchMessage::NoBlocks => FetchMessageValue::NoBlocks,
            BlockFetchMessage::Block(b) => FetchMessageValue::Block(b@),
            BlockFetchMessage::BatchDone => FetchMessageValue::BatchDone,
        }
    }
}

/// Mathematical value of a block retrieval client.
pub struct BlockFetchValue {
    pub phase: BlockFetchPhase,
    /// The body that the batch has brought so far.
    pub held: Option<Seq<u8>>,
}

pub open spec fn held_value(b: Option<Vec<u8>>) -> Option<Seq<u8>> {
    match b {
        Some(b) => Some(b@),
        None => None,
    }
}

/// Whether a fetch may begin.
pub open spec fn fetch_start(phase: BlockFetchPhase) -> Result<(), ClientError> {
    match phase {
        BlockFetchPhase::Idle => Ok(()),
        BlockFetchPhase::Closed => Err(ClientError::ClosedHandle),
        BlockFetchPhase::Broken => Err(ClientError::Connection),
        _ => Err(ClientError::ProtocolViolation),
    }
}

/// The client after a fetch has begun.
pub open spec fn after_fetch_start(v: BlockFetchValue) -> BlockFetchValue {
    match v.phase {
        BlockFetchPhase::Idle => BlockFetchValue { phase: BlockFetchPhase::Busy, held: None },
        BlockFetchPhase::Closed => v,
        BlockFetchPhase::Broken => v,
        _ => BlockFetchValue { phase: BlockFetchPhase::Failed, ..v },
    }
}

/// What a message brings to a fetch: `Ok(None)` while more is to be received,
/// `Ok(Some(body))` when the batch has ended after exactly one body, the
/// decline as `NotFound`, and a violation for a batch without a body, a
/// second body, or a message that the phase does not expect.
pub open spec fn fetch_step(v: BlockFetchValue, msg: FetchMessageValue) -> Result<
    Option<Seq<u8>>,
    ClientError,
> {
    match v.phase {
        BlockFetchPhase::Closed => Err(ClientError::ClosedHandle),
        BlockFetchPhase::Broken => Err(ClientError::Connection),
        BlockFetchPhase::Busy => match msg {
            FetchMessageValue::StartBatch => Ok(None),
            FetchMessageValue::NoBlocks => Err(ClientError::NotFound),
            _ => Err(ClientError::ProtocolViolation),
        },
        BlockFetchPhase::Streaming => match (msg, v.held) {
            (FetchMessageValue::Block(_), None) => Ok(None),
            (FetchMessageValue::BatchDone, Some(body)) => Ok(Some(body)),
            _ => Err(ClientError::ProtocolViolation),
        },
        _ => Err(ClientError::ProtocolViolation),
    }
}

/// The client after a message has been handed to a fetch. A decline leaves
/// the client idle and of use; a violation ends its use.
pub open spec fn after_fetch_message(v: BlockFetchValue, msg: FetchMessageValue) -> BlockFetchValue {
    match v.phase {
        BlockFetchPhase::Closed => v,
        BlockFetchPhase::Broken => v,
        BlockFetchPhase::Busy => match msg {
            FetchMessageValue::StartBatch => BlockFetchValue {
                phase: BlockFetchPhase::Streaming,
                held: None,
            },
            FetchMessageValue::NoBlocks => BlockFetchValue {
                phase: BlockFetchPhase::Idle,
                held: None,
            },
            _ => BlockFetchValue { phase: BlockFetchPhase::Failed, held: None },
        },
        BlockFetchPhase::Streaming => match (msg, v.held) {
            (FetchMessageValue::Block(b), None) => BlockFetchValue {
                phase: BlockFetchPhase::Streaming,
                held: Some(b),
            },
            (FetchMessageValue::BatchDone, Some(_)) => BlockFetchValue {
                phase: BlockFetchPhase::Idle,
                held: None,
            },
            _ => BlockFetchValue { phase: BlockFetchPhase::Failed, held: None },
        },
        _ => BlockFetchValue { phase: BlockFetchPhase::Failed, held: None },
    }
}

/// The block retrieval client of one session.
#[derive(Debug)]
pub struct BlockFetchClient {
    phase: BlockFetchPhase,
    held: Option<Vec<u8>>,
}

impl View for BlockFetchClient {
    type V = BlockFetchValue;

    closed spec fn view(&self) -> BlockFetchValue {
        BlockFetchValue { phase: self.phase, held: held_value(self.held) }
    }
}

impl BlockFetchClient {
    /// A client on a fresh channel.
    pub fn new() -> (c: BlockFetchClient)
        ensures
            c@ == (BlockFetchValue { phase: BlockFetchPhase::Idle, held: None }),
    {
        BlockFetchClient { phase: BlockFetchPhase::Idle, held: None }
    }

    pub fn phase(&self) -> (p: BlockFetchPhase)
        ensures
            p == self@.phase,
    {
        self.phase
    }

    /// Closes the client: every later operation reports a closed handle.
    pub fn close(&mut self)
        ensures
            final(self)@ == (BlockFetchValue { phase: BlockFetchPhase::Closed, ..old(self)@ }),
    {
        self.phase = BlockFetchPhase::Closed;
    }

    /// Records that the transport failed: unless the client was closed, every
    /// later operation reports the connection error.
    pub fn transport_failed(&mut self)
        ensures
            final(self)@ == (BlockFetchValue {
                phase: if old(self)@.phase == BlockFetchPhase::Closed {
                    BlockFetchPhase::Closed
                } else {
                    BlockFetchPhase::Broken
                },
                ..old(self)@
            }),
    {
        if self.phase != BlockFetchPhase::Closed {
            self.phase = BlockFetchPhase::Broken;
        }
    }

    /// Begins the fetch of the block at one point: the driver is to request
    /// the returned range, which starts and ends at that point, and to hand
    /// over the peer's messages until the fetch has ended.
    pub fn begin_fetch_single(&mut self, point: &ChainPoint) -> (r: Result<
        (ChainPoint, ChainPoint),
        ClientError,
    >)
        ensures
            match r {
                Ok((from, to)) => fetch_start(old(self)@.phase) is Ok && from@ == point@ && to@
                    == point@,
                Err(e) => fetch_start(old(self)@.phase) == Err::<(), ClientError>(e),
            },
            final(self)@ == after_fetch_start(old(self)@),
    {
        match self.phase {
            BlockFetchPhase::Idle => {
                self.phase = BlockFetchPhase::Busy;
                self.held = None;
                Ok((point.duplicate(), point.duplicate()))
            },
            BlockFetchPhase::Closed => Err(ClientError::ClosedHandle),
            BlockFetchPhase::Broken => Err(ClientError::Connection),
            _ => {
                self.phase = BlockFetchPhase::Failed;
                Err(ClientError::ProtocolViolation)
            },
        }
    }

    /// Hands one message of the peer to the fetch.
    pub fn on_message(&mut self, msg: BlockFetchMessage) -> (r: Result<
        Option<Vec<u8>>,
        ClientError,
    >)
        ensures
            match r {
                Ok(b) => fetch_step(old(self)@, msg@) == Ok::<Option<Seq<u8>>, ClientError>(
                    held_value(b),
                ),
                Err(e) => fetch_step(old(self)@, msg@) == Err::<Option<Seq<u8>>, ClientError>(e),
            },
            final(self)@ == after_fetch_message(old(self)@, msg@),
    {
        match self.phase {
            BlockFetchPhase::Closed => Err(ClientError::ClosedHandle),
            BlockFetchPhase::Broken => Err(ClientError::Connection),
            BlockFetchPhase::Busy => match msg {
                BlockFetchMessage::StartBatch => {
                    self.phase = BlockFetchPhase::Streaming;
                    self.held = None;
                    Ok(None)
                },
                BlockFetchMessage::NoBlocks => {
                    self.phase = BlockFetchPhase::Idle;
                    self.held = None;
                    Err(ClientError::NotFound)
                },
                _ => {
                    self.phase = BlockFetchPhase::Failed;
                    self.held = None;
                    Err(ClientError::ProtocolViolation)
                },
            },
            BlockFetchPhase::Streaming => {
                let held = self.held.take();
                match (msg, held) {
                    (BlockFetchMessage::Block(body), None) => {
                        self.held = Some(body);
                        Ok(None)
                    },
                    (BlockFetchMessage::BatchDone, Some(body)) => {
                        self.phase = BlockFetchPhase::Idle;
                        Ok(Some(body))
                    },
                    _ => {
                        self.phase = BlockFetchPhase::Failed;
                        Err(ClientError::ProtocolViolation)
                    },
                }
            },
            _ => {
                self.phase = BlockFetchPhase::Failed;
                self.held = None;
                Err(ClientError::ProtocolViolation)
            },
        }
    }
}

/// A batch of one body gives that body, unchanged, and leaves the client
/// idle.
pub proof fn single_body_is_fetched(body: Seq<u8>)
    ensures
        ({
            let busy = BlockFetchValue { phase: BlockFetchPhase::Busy, held: None };
            let opened = after_fetch_message(busy, FetchMessageValue::StartBatch);
            let filled = after_fetch_message(opened, FetchMessageValue::Block(body));
            &&& fetch_step(busy, FetchMessageValue::StartBatch) == Ok::<
                Option<Seq<u8>>,
                ClientError,
            >(None)
            &&& fetch_step(opened, FetchMessageValue::Block(body)) == Ok::<
                Option<Seq<u8>>,
                ClientError,
            >(None)
            &&& fetch_step(filled, FetchMessageValue::BatchDone) == Ok::<
                Option<Seq<u8>>,
                ClientError,
            >(Some(body))
            &&& after_fetch_message(filled, FetchMessageValue::BatchDone) == (BlockFetchValue {
                phase: BlockFetchPhase::Idle,
                held: None,
            })
        }),
{
}

/// A decline is told apart from every failure: it comes as `NotFound`, only
/// in answer to a request, and the client can fetch again afterwards.
pub proof fn decline_is_not_a_failure(v: BlockFetchValue, msg: FetchMessageValue)
    ensures
        fetch_step(v, msg) == Err::<Option<Seq<u8>>, ClientError>(ClientError::NotFound) <==> (
        v.phase == BlockFetchPhase::Busy && msg is NoBlocks),
        fetch_step(v, msg) == Err::<Option<Seq<u8>>, ClientError>(ClientError::NotFound)
            ==> fetch_start(after_fetch_message(v, msg).phase) is Ok,
        fetch_step(v, msg) == Err::<Option<Seq<u8>>, ClientError>(ClientError::ProtocolViolation)
            ==> after_fetch_message(v, msg).phase == BlockFetchPhase::Failed,
{
}

} // verus!
