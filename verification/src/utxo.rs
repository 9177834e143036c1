//! The records of unspent outputs, as a decoder hands them to the caller.

use std::collections::HashMap;
use vstd::prelude::*;

verus! {

pub type Coin = u64;

pub type MintCoin = i64;

pub type PolicyId = Vec<u8>;

pub type AssetName = Vec<u8>;

pub type RedeemerTag = u8;

/// The output of a transaction that an input spends: the transaction's id
/// and the output's index in it.
#[derive(Debug, PartialEq, Eq, Hash)]
pub struct TransactionInput {
    pub id: Vec<u8>,
    pub index: u64,
}

/// Data attached to an output: its kind, and its bytes where it is inline.
#[derive(Debug)]
pub struct Datum {
    pub datum_type: u8,
    pub data: Option<Vec<u8>>,
}

/// An amount of the ledger's coin and of other assets, by policy and name.
#[derive(Debug)]
pub struct Value {
    pub coin: Coin,
    pub multi_asset: HashMap<PolicyId, HashMap<AssetName, Coin>>,
}

/// An output of a transaction, with the bytes it was decoded from.
#[derive(Debug)]
pub struct TransactionOutput {
    pub address: Vec<u8>,
    pub amount: Value,
    pub index: usize,
    pub datum: Option<Datum>,
    pub raw: Vec<u8>,
}

pub type UtxoByAddress = HashMap<TransactionInput, TransactionOutput>;

} // verus!
