//! Preparing a submission: a raw transaction becomes the one candidate of a
//! relay session.

use crate::era::EraTag;
use crate::failure::ClientError;
use crate::txsubmission::{
    entry_values, entry_well_formed, EntryValue, MempoolEntry, SubmissionValue, TxSubmissionClient,
    TxSubmissionState,
};
use vstd::prelude::*;

verus! {

/// The era number of the transaction that the bytes encode, as the decoder
/// counts eras; `None` where the bytes encode no transaction.
pub uninterp spec fn decoded_era(tx: Seq<u8>) -> Option<u16>;

/// The hash that identifies the transaction that the bytes encode; `None`
/// where the bytes encode no transaction.
pub uninterp spec fn decoded_hash(tx: Seq<u8>) -> Option<Seq<u8>>;

/// `pallas::ledger::traverse::MultiEraTx::decode`, then `era` of what was
/// decoded, as a number. The contract names the result and claims no more.
#[verifier::external_body]
fn pallas_tx_era(tx: &Vec<u8>) -> (r: Option<u16>)
    ensures
        r == decoded_era(tx@),
{
    match pallas::ledger::traverse::MultiEraTx::decode(tx.as_slice()) {
        Ok(decoded) => Some(decoded.era() as u16),
        Err(_) => None,
    }
}

/// `pallas::ledger::traverse::MultiEraTx::decode`, then `hash` of what was
/// decoded. The contract names the result; the hash type has 32 bytes.
#[verifier::external_body]
fn pallas_tx_hash(tx: &Vec<u8>) -> (r: Option<Vec<u8>>)
    ensures
        match r {
            Some(h) => decoded_hash(tx@) == Some(h@) && h@.len() == 32,
            None => decoded_hash(tx@) is None,
        },
{
    match pallas::ledger::traverse::MultiEraTx::decode(tx.as_slice()) {
        Ok(decoded) => Some(decoded.hash().to_vec()),
        Err(_) => None,
    }
}

/// The candidate that a transaction gives, from what the decoder found in it:
/// its id is the hash, its era the one that the number tags, its body the
/// bytes as they came. There is none where the decoder found no transaction,
/// the era number tags no era, the hash has not 32 bytes, or the body is too
/// long to be announced.
pub open spec fn candidate(tx: Seq<u8>, era: Option<u16>, hash: Option<Seq<u8>>) -> Result<
    EntryValue,
    ClientError,
> {
    match (era, hash) {
        (Some(code), Some(id)) => match EraTag::spec_from_code(code) {
            Some(tag) => {
                let e = EntryValue { id, era: tag, body: tx };
                if entry_well_formed(e) {
                    Ok(e)
                } else {
                    Err(ClientError::Decode)
                }
            },
            None => Err(ClientError::Decode),
        },
        _ => Err(ClientError::Decode),
    }
}

/// Submission of single transactions.
pub struct TxSubmit {}

impl TxSubmit {
    /// The candidate for a transaction of which the era number and the hash
    /// are given.
    pub fn entry_from_parts(tx: Vec<u8>, era: Option<u16>, hash: Option<Vec<u8>>) -> (r: Result<
        MempoolEntry,
        ClientError,
    >)
        ensures
            match r {
                Ok(e) => candidate(
                    tx@,
                    era,
                    match hash {
                        Some(h) => Some(h@),
                        None => None,
                    },
                ) == Ok::<EntryValue, ClientError>(e@),
                Err(err) => candidate(
                    tx@,
                    era,
                    match hash {
                        Some(h) => Some(h@),
                        None => None,
                    },
                ) == Err::<EntryValue, ClientError>(err),
            },
    {
        match (era, hash) {
            (Some(code), Some(id)) => match EraTag::from_code(code) {
                Some(tag) => MempoolEntry::new(id, tag, tx),
                None => Err(ClientError::Decode),
            },
            _ => Err(ClientError::Decode),
        }
    }

    /// Decodes a raw transaction into the candidate that stands for it.
    pub fn mempool_entry(tx: Vec<u8>) -> (r: Result<MempoolEntry, ClientError>)
        ensures
            match r {
                Ok(e) => candidate(tx@, decoded_era(tx@), decoded_hash(tx@)) == Ok::<
                    EntryValue,
                    ClientError,
                >(e@),
                Err(err) => candidate(tx@, decoded_era(tx@), decoded_hash(tx@)) == Err::<
                    EntryValue,
                    ClientError,
                >(err),
            },
    {
        let era = pallas_tx_era(&tx);
        let hash = pallas_tx_hash(&tx);
        Self::entry_from_parts(tx, era, hash)
    }

    /// A relay client whose mempool holds the given transaction alone, not yet
    /// opened; the error `Decode` where the bytes give no candidate.
    pub fn submit_tx(tx: Vec<u8>) -> (r: Result<TxSubmissionClient, ClientError>)
        ensures
            match r {
                Ok(c) => (candidate(tx@, decoded_era(tx@), decoded_hash(tx@)) matches Ok(e) && c@
                    == (SubmissionValue {
                    state: TxSubmissionState::Init,
                    entries: seq![e],
                    announced: false,
                    failed: false,
                    accepted: Seq::empty(),
                })),
                Err(err) => candidate(tx@, decoded_era(tx@), decoded_hash(tx@)) == Err::<
                    EntryValue,
                    ClientError,
                >(err),
            },
    {
        match Self::mempool_entry(tx) {
            Ok(entry) => {
                let mut mempool: Vec<MempoolEntry> = Vec::new();
                mempool.push(entry);
                assert(entry_values(mempool@) =~= seq![entry@]);
                Ok(TxSubmissionClient::new(mempool))
            },
            Err(err) => Err(err),
        }
    }
}

} // verus!
