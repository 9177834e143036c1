//! The transaction relay client: it announces the ids of the caller's
//! candidate transactions, serves the bodies that the peer asks for, and ends
//! the session when the peer blocks on an empty mempool.

use crate::era::EraTag;
use crate::failure::ClientError;
use crate::point::same_bytes;
use vstd::prelude::*;

verus! {

/// Length in bytes of a transaction id.
pub const TX_ID_LEN: usize = 32;

/// Mathematical value of a mempool entry.
pub struct EntryValue {
    pub id: Seq<u8>,
    pub era: EraTag,
    pub body: Seq<u8>,
}

/// Mathematical value of an announced transaction.
pub struct IdentityValue {
    pub era: EraTag,
    pub id: Seq<u8>,
    pub size: u32,
}

/// Mathematical value of a served transaction body.
pub struct BodyValue {
    pub era: EraTag,
    pub body: Seq<u8>,
}

/// An id has exactly 32 bytes, and the body's length fits the 32-bit size
/// that announces it.
pub open spec fn entry_well_formed(e: EntryValue) -> bool {
    e.id.len() == TX_ID_LEN && e.body.len() <= u32::MAX
}

/// What is announced of an entry: its era, its id and its body's length.
pub open spec fn identity_of(e: EntryValue) -> IdentityValue {
    IdentityValue { era: e.era, id: e.id, size: e.body.len() as u32 }
}

/// What is served of an entry: its era and its body.
pub open spec fn body_of(e: EntryValue) -> BodyValue {
    BodyValue { era: e.era, body: e.body }
}

/// A candidate transaction, owned by the submitting caller.
#[derive(Debug, PartialEq, Eq)]
pub struct MempoolEntry {
    id: Vec<u8>,
    era: EraTag,
    body: Vec<u8>,
}

impl View for MempoolEntry {
    type V = EntryValue;

    closed spec fn view(&self) -> EntryValue {
        EntryValue { id: self.id@, era: self.era, body: self.body@ }
    }
}

impl MempoolEntry {
    #[verifier::type_invariant]
    spec fn inv(self) -> bool {
        entry_well_formed(self@)
    }

    /// An entry of the given id, era and body, unless the id has not 32 bytes
    /// or the body is too long to be announced.
    pub fn new(id: Vec<u8>, era: EraTag, body: Vec<u8>) -> (r: Result<MempoolEntry, ClientError>)
        ensures
            entry_well_formed(EntryValue { id: id@, era, body: body@ }) ==> r is Ok && r->Ok_0@
                == (EntryValue { id: id@, era, body: body@ }),
            !entry_well_formed(EntryValue { id: id@, era, body: body@ }) ==> r == Err::<
                MempoolEntry,
                ClientError,
            >(ClientError::Decode),
    {
        if id.len() != TX_ID_LEN || body.len() > 0xffff_ffff {
            return Err(ClientError::Decode);
        }
        Ok(MempoolEntry { id, era, body })
    }

    pub fn id(&self) -> (r: &Vec<u8>)
        ensures
            r@ == self@.id,
            r@.len() == TX_ID_LEN,
    {
        proof {
            use_type_invariant(self);
        }
        &self.id
    }

    pub fn era(&self) -> (r: EraTag)
        ensures
            r == self@.era,
    {
        self.era
    }

    pub fn body(&self) -> (r: &Vec<u8>)
        ensures
            r@ == self@.body,
            r@.len() <= u32::MAX,
    {
        proof {
            use_type_invariant(self);
        }
        &self.body
    }

    /// What is announced of this entry.
    pub fn identity(&self) -> (r: TxIdentity)
        ensures
            r@ == identity_of(self@),
    {
        proof {
            use_type_invariant(self);
        }
        let size: u32 = self.body.len() as u32;
        TxIdentity { era: self.era, id: self.id.clone(), size }
    }

    /// What is served of this entry.
    pub fn served_body(&self) -> (r: TxBody)
        ensures
            r@ == body_of(self@),
    {
        TxBody { era: self.era, body: self.body.clone() }
    }
}

/// The unit exchanged while ids are announced, before a body is requested.
#[derive(Clone, Debug, PartialEq, Eq)]
pub struct TxIdentity {
    pub era: EraTag,
    pub id: Vec<u8>,
    pub size: u32,
}

impl View for TxIdentity {
    type V = IdentityValue;

    open spec fn view(&self) -> IdentityValue {
        IdentityValue { era: self.era, id: self.id@, size: self.size }
    }
}

/// A transaction body with the era that frames it.
#[derive(Clone, Debug, PartialEq, Eq)]
pub struct TxBody {
    pub era: EraTag,
    pub body: Vec<u8>,
}

impl View for TxBody {
    type V = BodyValue;

    open spec fn view(&self) -> BodyValue {
        BodyValue { era: self.era, body: self.body@ }
    }
}

/// Where a relay session stands.
#[derive(Clone, Copy, Debug, PartialEq, Eq, Structural)]
pub enum TxSubmissionState {
    Init,
    TxIdsBlocking,
    TxIdsNonBlocking,
    Done,
}

/// Mathematical value of a request of the peer.
pub enum RequestValue {
    Ids { blocking: bool, ack: u16, count: u16 },
    Bodies(Seq<Seq<u8>>),
}

/// What the peer asks of the client.
#[derive(Clone, Debug, PartialEq, Eq)]
pub enum TxRequest {
    /// The peer asks for ids. It acknowledges `ack` earlier ones and wants at
    /// most `count` new ones; a blocking request waits until there is one.
    Ids { blocking: bool, ack: u16, count: u16 },
    /// The peer asks for the bodies of the listed ids.
    Bodies(Vec<Vec<u8>>),
}

/// The byte sequences that a vector of byte vectors holds.
pub open spec fn rows(v: Seq<Vec<u8>>) -> Seq<Seq<u8>> {
    v.map_values(|r: Vec<u8>| r@)
}

impl View for TxRequest {
    type V = RequestValue;

    open spec fn view(&self) -> RequestValue {
        match self {
            TxRequest::Ids { blocking, ack, count } => RequestValue::Ids {
                blocking: *blocking,
                ack: *ack,
                count: *count,
            },
            TxRequest::Bodies(ids) => RequestValue::Bodies(rows(ids@)),
        }
    }
}

/// Mathematical value of what the client sends.
pub enum ReplyValue {
    Ids(Seq<IdentityValue>),
    Bodies(Seq<BodyValue>),
    Done,
}

/// What the client sends in answer to a request.
#[derive(Clone, Debug, PartialEq, Eq)]
pub enum TxReply {
    /// The announced transactions; empty where there is nothing to announce.
    Ids(Vec<TxIdentity>),
    /// The requested bodies that the mempool holds, in the order asked.
    Bodies(Vec<TxBody>),
    /// The message that ends the session.
    Done,
}

pub open spec fn identity_values(v: Seq<TxIdentity>) -> Seq<IdentityValue> {
    v.map_values(|t: TxIdentity| t@)
}

pub open spec fn body_values(v: Seq<TxBody>) -> Seq<BodyValue> {
    v.map_values(|t: TxBody| t@)
}

pub open spec fn entry_values(v: Seq<MempoolEntry>) -> Seq<EntryValue> {
    v.map_values(|t: MempoolEntry| t@)
}

impl View for TxReply {
    type V = ReplyValue;

    open spec fn view(&self) -> ReplyValue {
        match self {
            TxReply::Ids(ids) => ReplyValue::Ids(identity_values(ids@)),
            TxReply::Bodies(bodies) => ReplyValue::Bodies(body_values(bodies@)),
            TxReply::Done => ReplyValue::Done,
        }
    }
}

/// Mathematical value of a relay client.
pub struct SubmissionValue {
    pub state: TxSubmissionState,
    /// The candidate transactions, in the caller's order.
    pub entries: Seq<EntryValue>,
    /// Whether an id request has been answered. The candidates' ids are
    /// announced with the first answer; until then the session is where the
    /// opening left it.
    pub announced: bool,
    /// Whether the protocol was violated: the client answers nothing more.
    pub failed: bool,
    /// The ids whose bodies the peer has been served, each once, in the order
    /// in which they were first served.
    pub accepted: Seq<Seq<u8>>,
}

/// The index of the first entry at or after `from` that has the given id.
pub open spec fn first_match(entries: Seq<EntryValue>, id: Seq<u8>, from: int) -> Option<int>
    decreases entries.len() - from,
{
    if from < 0 || from >= entries.len() {
        None
    } else if entries[from].id == id {
        Some(from)
    } else {
        first_match(entries, id, from + 1)
    }
}

/// The entries that a list of requested ids names, in the order requested. An
/// id that no entry has is passed over.
pub open spec fn served_entries(entries: Seq<EntryValue>, ids: Seq<Seq<u8>>) -> Seq<EntryValue>
    decreases ids.len(),
{
    if ids.len() == 0 {
        Seq::empty()
    } else {
        let before = served_entries(entries, ids.drop_last());
        match first_match(entries, ids.last(), 0) {
            Some(k) => before.push(entries[k]),
            None => before,
        }
    }
}

/// Whether some entry has the id.
pub open spec fn holds_id(entries: Seq<EntryValue>, id: Seq<u8>) -> bool {
    exists|k: int| 0 <= k < entries.len() && #[trigger] entries[k].id == id
}

/// The accepted ids after the bodies of the requested ids have been served:
/// each requested id that some candidate has, and that is not accepted yet,
/// is added, in the order requested. An id is accepted once, however often
/// the peer asks for its body.
pub open spec fn accept(
    entries: Seq<EntryValue>,
    accepted: Seq<Seq<u8>>,
    ids: Seq<Seq<u8>>,
) -> Seq<Seq<u8>>
    decreases ids.len(),
{
    if ids.len() == 0 {
        accepted
    } else {
        let before = accept(entries, accepted, ids.drop_last());
        if first_match(entries, ids.last(), 0) is Some && !before.contains(ids.last()) {
            before.push(ids.last())
        } else {
            before
        }
    }
}

/// What holds of the accepted ids of every session: no id stands twice, and
/// each is the id of a candidate.
pub open spec fn accepted_is_sound(s: SubmissionValue) -> bool {
    &&& s.accepted.no_duplicates()
    &&& forall|i: int| 0 <= i < s.accepted.len() ==> holds_id(s.entries, #[trigger] s.accepted[i])
}

/// The ids still to announce: all of them until they have been announced once.
pub open spec fn pending(s: SubmissionValue) -> Seq<EntryValue> {
    if s.announced {
        Seq::empty()
    } else {
        s.entries
    }
}

/// Requests are answered while the session is in one of its two id states
/// and the protocol has not been violated.
pub open spec fn is_live(s: SubmissionValue) -> bool {
    !s.failed && (s.state == TxSubmissionState::TxIdsBlocking || s.state
        == TxSubmissionState::TxIdsNonBlocking)
}

/// Whether a request does not fit the state. None fits outside the id states
/// or after a violation. The opening leaves the session in `TxIdsBlocking`,
/// where the peer has to block for ids: a poll before any id request has been
/// answered does not fit. After an answer the peer chooses which kind of id
/// request comes next, and both fit; a body request fits in either id state.
pub open spec fn is_mismatch(s: SubmissionValue, r: RequestValue) -> bool {
    !is_live(s) || (r matches RequestValue::Ids { blocking, .. } && !blocking && !s.announced)
}

/// The answer to a request, or the violation where the request does not fit
/// the state.
pub open spec fn reply_to(s: SubmissionValue, r: RequestValue) -> Result<ReplyValue, ClientError> {
    if is_mismatch(s, r) {
        Err(ClientError::ProtocolViolation)
    } else {
        match r {
            RequestValue::Ids { blocking, ack, count } => {
                if pending(s).len() > 0 {
                    Ok(ReplyValue::Ids(pending(s).map_values(|e: EntryValue| identity_of(e))))
                } else if blocking {
                    Ok(ReplyValue::Done)
                } else {
                    Ok(ReplyValue::Ids(Seq::empty()))
                }
            },
            RequestValue::Bodies(ids) => Ok(
                ReplyValue::Bodies(
                    served_entries(s.entries, ids).map_values(|e: EntryValue| body_of(e)),
                ),
            ),
        }
    }
}

/// The client after a request. An id request moves the session to the id state
/// of its kind, or ends it where a blocking request finds nothing left to
/// announce; a body request leaves the state as it is and adds the ids that
/// were served for the first time to the accepted ones. A request that does
/// not fit the state ends the
/// client's use and changes nothing else.
pub open spec fn after_request(s: SubmissionValue, r: RequestValue) -> SubmissionValue {
    if is_mismatch(s, r) {
        SubmissionValue { failed: true, ..s }
    } else {
        match r {
            RequestValue::Ids { blocking, ack, count } => {
                if pending(s).len() > 0 {
                    SubmissionValue {
                        state: if blocking {
                            TxSubmissionState::TxIdsBlocking
                        } else {
                            TxSubmissionState::TxIdsNonBlocking
                        },
                        announced: true,
                        ..s
                    }
                } else if blocking {
                    SubmissionValue { state: TxSubmissionState::Done, announced: true, ..s }
                } else {
                    SubmissionValue {
                        state: TxSubmissionState::TxIdsNonBlocking,
                        announced: true,
                        ..s
                    }
                }
            },
            RequestValue::Bodies(ids) => SubmissionValue {
                accepted: accept(s.entries, s.accepted, ids),
                ..s
            },
        }
    }
}

/// The bytes of all rows, one row after the other.
pub open spec fn concat_rows(rows: Seq<Seq<u8>>) -> Seq<u8>
    decreases rows.len(),
{
    if rows.len() == 0 {
        Seq::empty()
    } else {
        concat_rows(rows.drop_last()) + rows.last()
    }
}

/// Whether one of the rows holds the given bytes.
fn holds_row(all: &Vec<Vec<u8>>, row: &Vec<u8>) -> (r: bool)
    ensures
        r == rows(all@).contains(row@),
{
    let mut i: usize = 0;
    while i < all.len()
        invariant
            i <= all@.len(),
            forall|j: int| 0 <= j < i ==> rows(all@)[j] != row@,
        decreases all@.len() - i,
    {
        if same_bytes(&all[i], row) {
            assert(rows(all@)[i as int] == row@);
            return true;
        }
        i += 1;
    }
    false
}

/// A session can be opened once, from its start.
pub open spec fn can_open(s: SubmissionValue) -> bool {
    s.state == TxSubmissionState::Init && !s.failed
}

/// The relay client of one submission session.
#[derive(Debug)]
pub struct TxSubmissionClient {
    state: TxSubmissionState,
    entries: Vec<MempoolEntry>,
    announced: bool,
    failed: bool,
    accepted: Vec<Vec<u8>>,
}

impl View for TxSubmissionClient {
    type V = SubmissionValue;

    closed spec fn view(&self) -> SubmissionValue {
        SubmissionValue {
            state: self.state,
            entries: entry_values(self.entries@),
            announced: self.announced,
            failed: self.failed,
            accepted: rows(self.accepted@),
        }
    }
}

impl TxSubmissionClient {
    #[verifier::type_invariant]
    spec fn inv(self) -> bool {
        accepted_is_sound(self@)
    }

    /// A client for the given candidates, before the session is opened.
    pub fn new(entries: Vec<MempoolEntry>) -> (c: TxSubmissionClient)
        ensures
            c@ == (SubmissionValue {
                state: TxSubmissionState::Init,
                entries: entry_values(entries@),
                announced: false,
                failed: false,
                accepted: Seq::empty(),
            }),
    {
        let c = TxSubmissionClient {
            state: TxSubmissionState::Init,
            entries,
            announced: false,
            failed: false,
            accepted: Vec::new(),
        };
        assert(rows(c.accepted@) =~= Seq::empty());
        c
    }

    pub fn state(&self) -> (s: TxSubmissionState)
        ensures
            s == self@.state,
    {
        self.state
    }

    pub fn is_done(&self) -> (r: bool)
        ensures
            r == (self@.state == TxSubmissionState::Done),
    {
        self.state == TxSubmissionState::Done
    }

    /// Whether the protocol was violated.
    pub fn is_failed(&self) -> (r: bool)
        ensures
            r == self@.failed,
    {
        self.failed
    }

    /// Opens the session. From `Init` the client is to send the protocol's
    /// opening message and then waits in `TxIdsBlocking` for the peer's
    /// requests; from any other state, and after a violation, this is a
    /// violation and ends the client's use.
    pub fn send_init(&mut self) -> (r: Result<(), ClientError>)
        ensures
            can_open(old(self)@) ==> r is Ok && final(self)@ == (SubmissionValue {
                state: TxSubmissionState::TxIdsBlocking,
                ..old(self)@
            }),
            !can_open(old(self)@) ==> r == Err::<(), ClientError>(ClientError::ProtocolViolation)
                && final(self)@ == (SubmissionValue { failed: true, ..old(self)@ }),
    {
        proof {
            use_type_invariant(&*self);
        }
        if self.state == TxSubmissionState::Init && !self.failed {
            self.state = TxSubmissionState::TxIdsBlocking;
            Ok(())
        } else {
            self.failed = true;
            Err(ClientError::ProtocolViolation)
        }
    }

    /// The index of the first candidate with the given id.
    fn position_of(&self, id: &Vec<u8>) -> (r: Option<usize>)
        ensures
            match r {
                Some(k) => first_match(self@.entries, id@, 0) == Some(k as int) && k
                    < self.entries@.len(),
                None => first_match(self@.entries, id@, 0) is None,
            },
    {
        let mut i: usize = 0;
        while i < self.entries.len()
            invariant
                i <= self.entries@.len(),
                first_match(self@.entries, id@, 0) == first_match(self@.entries, id@, i as int),
            decreases self.entries@.len() - i,
        {
            if same_bytes(self.entries[i].id(), id) {
                return Some(i);
            }
            i += 1;
        }
        None
    }

    /// The identities of all candidates, in the caller's order.
    fn identities(&self) -> (r: Vec<TxIdentity>)
        ensures
            identity_values(r@) == self@.entries.map_values(|e: EntryValue| identity_of(e)),
    {
        let mut out: Vec<TxIdentity> = Vec::new();
        let mut i: usize = 0;
        while i < self.entries.len()
            invariant
                i <= self.entries@.len(),
                out@.len() == i,
                forall|j: int| 0 <= j < i ==> out@[j]@ == identity_of(self.entries@[j]@),
            decreases self.entries@.len() - i,
        {
            out.push(self.entries[i].identity());
            i += 1;
        }
        out
    }

    /// Serves the bodies of the requested ids and records the ids that are
    /// served for the first time.
    fn serve(&mut self, ids: &Vec<Vec<u8>>) -> (r: Vec<TxBody>)
        ensures
            body_values(r@) == served_entries(old(self)@.entries, rows(ids@)).map_values(
                |e: EntryValue| body_of(e),
            ),
            final(self)@ == (SubmissionValue {
                accepted: accept(old(self)@.entries, old(self)@.accepted, rows(ids@)),
                ..old(self)@
            }),
    {
        let mut out: Vec<TxBody> = Vec::new();
        let mut accepted: Vec<Vec<u8>> = Vec::new();
        let mut i: usize = 0;
        let ghost before = self@;
        let ghost wanted = rows(ids@);
        proof {
            use_type_invariant(&*self);
        }
        std::mem::swap(&mut self.accepted, &mut accepted);
        while i < ids.len()
            invariant
                i <= ids@.len(),
                wanted == rows(ids@),
                accepted_is_sound(before),
                self.state == before.state,
                self.announced == before.announced,
                self.failed == before.failed,
                entry_values(self.entries@) == before.entries,
                rows(accepted@) == accept(before.entries, before.accepted, wanted.take(i as int)),
                body_values(out@) == served_entries(
                    before.entries,
                    wanted.take(i as int),
                ).map_values(|e: EntryValue| body_of(e)),
            decreases ids@.len() - i,
        {
            assert(wanted.take(i + 1).drop_last() =~= wanted.take(i as int));
            if let Some(k) = self.position_of(&ids[i]) {
                let body = self.entries[k].served_body();
                let ghost entry = before.entries[k as int];
                let ghost bodies_before = body_values(out@);
                out.push(body);
                assert(body_values(out@) =~= bodies_before.push(body_of(entry)));
                if !holds_row(&accepted, &ids[i]) {
                    accepted.push(ids[i].clone());
                }
            }
            i += 1;
        }
        proof {
            assert(wanted.take(ids@.len() as int) =~= wanted);
            accepting_keeps_soundness(before.entries, before.accepted, wanted);
        }
        self.accepted = accepted;
        out
    }

    /// Answers one request of the peer. An id request is answered with the
    /// identities of all candidates the first time and with none afterwards,
    /// except that a blocking request that finds none left is answered by
    /// ending the session; a body request is answered with the bodies of those
    /// requested ids that the mempool holds. A request that does not fit the
    /// state is a violation and ends the client's use.
    pub fn on_request(&mut self, request: &TxRequest) -> (r: Result<TxReply, ClientError>)
        ensures
            match r {
                Ok(reply) => reply_to(old(self)@, request@) == Ok::<ReplyValue, ClientError>(
                    reply@,
                ),
                Err(e) => reply_to(old(self)@, request@) == Err::<ReplyValue, ClientError>(e),
            },
            final(self)@ == after_request(old(self)@, request@),
            accepted_is_sound(final(self)@),
    {
        proof {
            use_type_invariant(&*self);
        }
        let live = !self.failed && (self.state == TxSubmissionState::TxIdsBlocking || self.state
            == TxSubmissionState::TxIdsNonBlocking);
        let early_poll = match request {
            TxRequest::Ids { blocking, ack: _, count: _ } => !*blocking && !self.announced,
            TxRequest::Bodies(_) => false,
        };
        proof {
            request_keeps_soundness(self@, request@);
        }
        if !live || early_poll {
            self.failed = true;
            return Err(ClientError::ProtocolViolation);
        }
        match request {
            TxRequest::Ids { blocking, ack: _, count: _ } => {
                if !self.announced && self.entries.len() > 0 {
                    let ids = self.identities();
                    self.announced = true;
                    self.state = if *blocking {
                        TxSubmissionState::TxIdsBlocking
                    } else {
                        TxSubmissionState::TxIdsNonBlocking
                    };
                    Ok(TxReply::Ids(ids))
                } else if *blocking {
                    self.announced = true;
                    self.state = TxSubmissionState::Done;
                    Ok(TxReply::Done)
                } else {
                    self.announced = true;
                    self.state = TxSubmissionState::TxIdsNonBlocking;
                    let none: Vec<TxIdentity> = Vec::new();
                    assert(identity_values(none@) =~= Seq::empty());
                    Ok(TxReply::Ids(none))
                }
            },
            TxRequest::Bodies(ids) => {
                let bodies = self.serve(ids);
                Ok(TxReply::Bodies(bodies))
            },
        }
    }

    /// The ids whose bodies the peer has been served so far, in the order in
    /// which they were first served. No id stands twice, each is the id of a
    /// candidate, and there are no more of them than candidates.
    pub fn accepted_ids(&self) -> (r: Vec<Vec<u8>>)
        ensures
            rows(r@) == self@.accepted,
            accepted_is_sound(self@),
            r@.len() <= self@.entries.len(),
    {
        proof {
            use_type_invariant(self);
            accepted_is_bounded(self@);
        }
        let mut out: Vec<Vec<u8>> = Vec::new();
        let mut i: usize = 0;
        while i < self.accepted.len()
            invariant
                i <= self.accepted@.len(),
                out@.len() == i,
                forall|j: int| 0 <= j < i ==> out@[j]@ == self.accepted@[j]@,
            decreases self.accepted@.len() - i,
        {
            out.push(self.accepted[i].clone());
            i += 1;
        }
        out
    }

    /// The bytes of the accepted ids, one id after the other.
    pub fn accepted_id_bytes(&self) -> (r: Vec<u8>)
        ensures
            r@ == concat_rows(self@.accepted),
    {
        let mut out: Vec<u8> = Vec::new();
        let mut i: usize = 0;
        let ghost all = rows(self.accepted@);
        while i < self.accepted.len()
            invariant
                i <= self.accepted@.len(),
                all == rows(self.accepted@),
                out@ == concat_rows(all.take(i as int)),
            decreases self.accepted@.len() - i,
        {
            assert(all.take(i + 1).drop_last() =~= all.take(i as int));
            let row = &self.accepted[i];
            let mut j: usize = 0;
            let ghost start = out@;
            while j < row.len()
                invariant
                    j <= row@.len(),
                    out@ == start + row@.take(j as int),
                decreases row@.len() - j,
            {
                out.push(row[j]);
                j += 1;
            }
            i += 1;
        }
        assert(all.take(self.accepted@.len() as int) =~= all);
        out
    }
}

/// The ids of the entries, in their order.
pub open spec fn ids_of(entries: Seq<EntryValue>) -> Seq<Seq<u8>> {
    entries.map_values(|e: EntryValue| e.id)
}

/// A client whose session has just been opened.
pub open spec fn opened(entries: Seq<EntryValue>) -> SubmissionValue {
    SubmissionValue {
        state: TxSubmissionState::TxIdsBlocking,
        entries,
        announced: false,
        failed: false,
        accepted: Seq::empty(),
    }
}

/// An entry at or after `from` that has the id is found, and what is found is
/// the first such entry.
pub proof fn first_match_finds(entries: Seq<EntryValue>, id: Seq<u8>, from: int, k: int)
    requires
        0 <= from <= k < entries.len(),
        entries[k].id == id,
    ensures
        first_match(entries, id, from) matches Some(j) && from <= j <= k && entries[j].id == id,
    decreases k - from,
{
    if entries[from].id != id {
        first_match_finds(entries, id, from + 1, k);
    }
}

/// Where every requested id is the id of some entry, the ids served are the
/// ids requested, in the order requested.
pub proof fn known_ids_are_all_served(entries: Seq<EntryValue>, ids: Seq<Seq<u8>>)
    requires
        forall|i: int| 0 <= i < ids.len() ==> holds_id(entries, #[trigger] ids[i]),
    ensures
        ids_of(served_entries(entries, ids)) == ids,
    decreases ids.len(),
{
    if ids.len() > 0 {
        known_ids_are_all_served(entries, ids.drop_last());
        let last = ids.len() - 1;
        let k = choose|k: int| 0 <= k < entries.len() && #[trigger] entries[k].id == ids[last];
        first_match_finds(entries, ids.last(), 0, k);
        assert(ids.drop_last().push(ids.last()) =~= ids);
    }
}

/// With no candidates, the first blocking id request after the opening ends
/// the session with nothing accepted, whatever the peer acknowledges or asks
/// for.
pub proof fn empty_submission_ends(ack: u16, count: u16)
    ensures
        reply_to(opened(Seq::empty()), RequestValue::Ids { blocking: true, ack, count }) == Ok::<
            ReplyValue,
            ClientError,
        >(ReplyValue::Done),
        after_request(
            opened(Seq::empty()),
            RequestValue::Ids { blocking: true, ack, count },
        ).state == TxSubmissionState::Done,
        after_request(
            opened(Seq::empty()),
            RequestValue::Ids { blocking: true, ack, count },
        ).accepted == Seq::<Seq<u8>>::empty(),
{
}

/// Right after the opening only a blocking id request or a body request
/// fits: a poll is a violation.
pub proof fn opening_expects_a_blocking_request(
    entries: Seq<EntryValue>,
    ack: u16,
    count: u16,
    ids: Seq<Seq<u8>>,
)
    ensures
        reply_to(opened(entries), RequestValue::Ids { blocking: false, ack, count }) == Err::<
            ReplyValue,
            ClientError,
        >(ClientError::ProtocolViolation),
        reply_to(opened(entries), RequestValue::Ids { blocking: true, ack, count }) is Ok,
        reply_to(opened(entries), RequestValue::Bodies(ids)) is Ok,
{
}

/// A session in which the peer blocks for ids, asks for the bodies of all
/// announced ids, polls without blocking and then blocks again: the ids are
/// announced once, the poll is answered with none, the last request ends the
/// session, and the accepted ids are those of all candidates, where no two
/// candidates share an id.
pub proof fn full_session_accepts_all(entries: Seq<EntryValue>, ack: u16, count: u16)
    requires
        entries.len() > 0,
        ids_of(entries).no_duplicates(),
    ensures
        ({
            let block = RequestValue::Ids { blocking: true, ack, count };
            let poll = RequestValue::Ids { blocking: false, ack, count };
            let bodies = RequestValue::Bodies(ids_of(entries));
            let s1 = after_request(opened(entries), block);
            let s2 = after_request(s1, bodies);
            let s3 = after_request(s2, poll);
            let s4 = after_request(s3, block);
            &&& reply_to(opened(entries), block) == Ok::<ReplyValue, ClientError>(
                ReplyValue::Ids(entries.map_values(|e: EntryValue| identity_of(e))),
            )
            &&& reply_to(s2, poll) == Ok::<ReplyValue, ClientError>(ReplyValue::Ids(Seq::empty()))
            &&& reply_to(s3, block) == Ok::<ReplyValue, ClientError>(ReplyValue::Done)
            &&& s4.state == TxSubmissionState::Done
            &&& s4.accepted == ids_of(entries)
        }),
{
    let ids = ids_of(entries);
    assert forall|i: int| 0 <= i < ids.len() implies holds_id(entries, #[trigger] ids[i]) by {
        assert(entries[i].id == ids[i]);
    }
    new_known_ids_are_accepted(entries, Seq::empty(), ids);
}

/// A finished session, one not yet opened and one that has failed answer
/// every request with a violation; nothing changes but that the client has
/// then failed.
pub proof fn no_request_outside_id_states(s: SubmissionValue, r: RequestValue)
    requires
        s.state == TxSubmissionState::Done || s.state == TxSubmissionState::Init || s.failed,
    ensures
        reply_to(s, r) == Err::<ReplyValue, ClientError>(ClientError::ProtocolViolation),
        after_request(s, r) == (SubmissionValue { failed: true, ..s }),
{
}

/// Every violation ends the client's use: the request after it is a
/// violation too.
pub proof fn violation_is_final(s: SubmissionValue, r: RequestValue, next: RequestValue)
    requires
        reply_to(s, r) is Err,
    ensures
        reply_to(s, r) == Err::<ReplyValue, ClientError>(ClientError::ProtocolViolation),
        after_request(s, r).failed,
        reply_to(after_request(s, r), next) is Err,
        !can_open(after_request(s, r)),
{
}

/// What is found for an id is an entry that has the id, at or after the
/// place where the search began.
pub proof fn first_match_is_a_match(entries: Seq<EntryValue>, id: Seq<u8>, from: int)
    ensures
        first_match(entries, id, from) matches Some(k) ==> from <= k < entries.len()
            && entries[k].id == id,
    decreases entries.len() - from,
{
    if 0 <= from < entries.len() && entries[from].id != id {
        first_match_is_a_match(entries, id, from + 1);
    }
}

/// Serving bodies keeps what was accepted, in its order, adds no id twice,
/// and adds only ids of candidates.
pub proof fn accepting_keeps_soundness(
    entries: Seq<EntryValue>,
    accepted: Seq<Seq<u8>>,
    ids: Seq<Seq<u8>>,
)
    requires
        accepted.no_duplicates(),
        forall|i: int| 0 <= i < accepted.len() ==> holds_id(entries, #[trigger] accepted[i]),
    ensures
        accept(entries, accepted, ids).no_duplicates(),
        forall|i: int|
            0 <= i < accept(entries, accepted, ids).len() ==> holds_id(
                entries,
                #[trigger] accept(entries, accepted, ids)[i],
            ),
        accepted.is_prefix_of(accept(entries, accepted, ids)),
    decreases ids.len(),
{
    if ids.len() > 0 {
        accepting_keeps_soundness(entries, accepted, ids.drop_last());
        first_match_is_a_match(entries, ids.last(), 0);
    }
}

/// Ids of candidates that are new and differ from each other are all
/// accepted, in the order requested.
pub proof fn new_known_ids_are_accepted(
    entries: Seq<EntryValue>,
    accepted: Seq<Seq<u8>>,
    ids: Seq<Seq<u8>>,
)
    requires
        ids.no_duplicates(),
        forall|i: int| 0 <= i < ids.len() ==> holds_id(entries, #[trigger] ids[i]),
        forall|i: int| 0 <= i < ids.len() ==> !accepted.contains(#[trigger] ids[i]),
    ensures
        accept(entries, accepted, ids) == accepted + ids,
    decreases ids.len(),
{
    if ids.len() > 0 {
        let last = ids.len() - 1;
        new_known_ids_are_accepted(entries, accepted, ids.drop_last());
        let k = choose|k: int| 0 <= k < entries.len() && #[trigger] entries[k].id == ids[last];
        first_match_finds(entries, ids.last(), 0, k);
        let before = accepted + ids.drop_last();
        assert forall|j: int| 0 <= j < before.len() implies before[j] != ids.last() by {
        }
    }
}

/// A request keeps the accepted ids sound.
pub proof fn request_keeps_soundness(s: SubmissionValue, r: RequestValue)
    requires
        accepted_is_sound(s),
    ensures
        accepted_is_sound(after_request(s, r)),
{
    if let RequestValue::Bodies(ids) = r {
        accepting_keeps_soundness(s.entries, s.accepted, ids);
    }
}

/// Sound accepted ids are no more than the candidates.
pub proof fn accepted_is_bounded(s: SubmissionValue)
    requires
        accepted_is_sound(s),
    ensures
        s.accepted.len() <= s.entries.len(),
{
    let ids = ids_of(s.entries);
    s.accepted.unique_seq_to_set();
    ids.lemma_cardinality_of_set();
    vstd::seq_lib::seq_to_set_is_finite(ids);
    assert(s.accepted.to_set().subset_of(ids.to_set())) by {
        assert forall|a: Seq<u8>| s.accepted.to_set().contains(a) implies ids.to_set().contains(
            a,
        ) by {
            let i = choose|i: int| 0 <= i < s.accepted.len() && s.accepted[i] == a;
            assert(holds_id(s.entries, s.accepted[i]));
            let k = choose|k: int| 0 <= k < s.entries.len() && #[trigger] s.entries[k].id == a;
            assert(ids[k] == a);
        }
    }
    vstd::set_lib::lemma_len_subset(s.accepted.to_set(), ids.to_set());
}

/// No request changes the candidates, takes an accepted id away, or brings a
/// session back to its start; the session ends only on a blocking id request.
pub proof fn requests_keep_history(s: SubmissionValue, r: RequestValue)
    requires
        accepted_is_sound(s),
    ensures
        after_request(s, r).entries == s.entries,
        s.accepted.is_prefix_of(after_request(s, r).accepted),
        s.state != TxSubmissionState::Init ==> after_request(s, r).state
            != TxSubmissionState::Init,
        s.state != TxSubmissionState::Done && after_request(s, r).state == TxSubmissionState::Done
            ==> (r matches RequestValue::Ids { blocking, .. } && blocking),
{
    if let RequestValue::Bodies(ids) = r {
        accepting_keeps_soundness(s.entries, s.accepted, ids);
    }
}

/// The client after a sequence of requests, each answered in its turn.
pub open spec fn after_requests(s: SubmissionValue, requests: Seq<RequestValue>) -> SubmissionValue
    decreases requests.len(),
{
    if requests.len() == 0 {
        s
    } else {
        after_request(after_requests(s, requests.drop_last()), requests.last())
    }
}

/// Whatever the peer requests, in whatever order: the candidates stay as they
/// are, what was accepted stays accepted, an opened session is never back at
/// its start, and a finished session stays finished with what it accepted.
/// A failed session stays failed. The accepted ids hold no id twice, each is
/// the id of a candidate, and there are no more of them than candidates.
pub proof fn session_only_moves_forward(s: SubmissionValue, requests: Seq<RequestValue>)
    requires
        accepted_is_sound(s),
    ensures
        after_requests(s, requests).entries == s.entries,
        s.accepted.is_prefix_of(after_requests(s, requests).accepted),
        s.failed ==> after_requests(s, requests).failed,
        s.state != TxSubmissionState::Init ==> after_requests(s, requests).state
            != TxSubmissionState::Init,
        s.state == TxSubmissionState::Done ==> after_requests(s, requests).state
            == TxSubmissionState::Done && after_requests(s, requests).accepted == s.accepted,
        accepted_is_sound(after_requests(s, requests)),
        after_requests(s, requests).accepted.no_duplicates(),
        after_requests(s, requests).accepted.len() <= s.entries.len(),
    decreases requests.len(),
{
    if requests.len() > 0 {
        let before = after_requests(s, requests.drop_last());
        session_only_moves_forward(s, requests.drop_last());
        requests_keep_history(before, requests.last());
        request_keeps_soundness(before, requests.last());
        if s.state == TxSubmissionState::Done {
            no_request_outside_id_states(before, requests.last());
        }
    }
    accepted_is_bounded(after_requests(s, requests));
}

/// Along every session, from its opening on, no id is accepted twice, every
/// accepted id is the id of a candidate, and no more ids are accepted than
/// there are candidates.
pub proof fn session_accepts_each_candidate_once(
    entries: Seq<EntryValue>,
    requests: Seq<RequestValue>,
)
    ensures
        after_requests(opened(entries), requests).accepted.no_duplicates(),
        forall|i: int|
            0 <= i < after_requests(opened(entries), requests).accepted.len() ==> holds_id(
                entries,
                #[trigger] after_requests(opened(entries), requests).accepted[i],
            ),
        after_requests(opened(entries), requests).accepted.len() <= entries.len(),
{
    session_only_moves_forward(opened(entries), requests);
}

} // verus!
