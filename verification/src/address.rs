//! Addresses between their raw bytes and their text forms.

use crate::failure::ClientError;
use vstd::prelude::*;

verus! {

/// Whether the bytes are the raw form of an address of any kind.
pub uninterp spec fn is_address(bytes: Seq<u8>) -> bool;

/// The bech32 text of the address that the bytes are the raw form of; `None`
/// where the bytes are no address, or the address has no bech32 form.
pub uninterp spec fn bech32_text(bytes: Seq<u8>) -> Option<Seq<char>>;

/// The base58 text of the Byron address that the bytes encode; `None` where
/// they encode none.
pub uninterp spec fn byron_base58_text(bytes: Seq<u8>) -> Option<Seq<char>>;

/// The raw bytes of the address that a bech32 text names; `None` where the
/// text names none.
pub uninterp spec fn bech32_payload(text: Seq<char>) -> Option<Seq<u8>>;

/// `pallas::ledger::addresses::Address::from_bytes`: whether it accepts the
/// bytes. The contract names the result and claims no more.
#[verifier::external_body]
fn pallas_address_parses(bytes: &Vec<u8>) -> (r: bool)
    ensures
        r == is_address(bytes@),
{
    pallas::ledger::addresses::Address::from_bytes(bytes.as_slice()).is_ok()
}

/// `pallas::ledger::addresses::Address::from_bytes`, then `to_bech32` of the
/// address. The contract names the result and claims no more.
#[verifier::external_body]
fn pallas_bech32(bytes: &Vec<u8>) -> (r: Option<String>)
    ensures
        match r {
            Some(s) => bech32_text(bytes@) == Some(s@),
            None => bech32_text(bytes@) is None,
        },
{
    match pallas::ledger::addresses::Address::from_bytes(bytes.as_slice()) {
        Ok(address) => address.to_bech32().ok(),
        Err(_) => None,
    }
}

/// `pallas::ledger::addresses::ByronAddress::from_bytes`, then `to_base58` of
/// the address. The contract names the result and claims no more.
#[verifier::external_body]
fn pallas_byron_base58(bytes: &Vec<u8>) -> (r: Option<String>)
    ensures
        match r {
            Some(s) => byron_base58_text(bytes@) == Some(s@),
            None => byron_base58_text(bytes@) is None,
        },
{
    match pallas::ledger::addresses::ByronAddress::from_bytes(bytes.as_slice()) {
        Ok(address) => Some(address.to_base58()),
        Err(_) => None,
    }
}

/// `pallas::ledger::addresses::Address::from_bech32`, then `to_vec` of the
/// address. The contract names the result and claims no more.
#[verifier::external_body]
fn pallas_bech32_payload(text: &str) -> (r: Option<Vec<u8>>)
    ensures
        match r {
            Some(b) => bech32_payload(text@) == Some(b@),
            None => bech32_payload(text@) is None,
        },
{
    match pallas::ledger::addresses::Address::from_bech32(text) {
        Ok(address) => Some(address.to_vec()),
        Err(_) => None,
    }
}

/// The text of an address, from what the decoders made of its bytes: the
/// bech32 text where there is one, else the base58 text of the Byron address.
/// There is none where the bytes are no address at all, or are neither.
pub open spec fn address_text(
    parses: bool,
    bech32: Option<Seq<char>>,
    base58: Option<Seq<char>>,
) -> Result<Seq<char>, ClientError> {
    if !parses {
        Err(ClientError::Decode)
    } else {
        match (bech32, base58) {
            (Some(text), _) => Ok(text),
            (None, Some(text)) => Ok(text),
            (None, None) => Err(ClientError::Decode),
        }
    }
}

pub open spec fn text_value(s: Option<String>) -> Option<Seq<char>> {
    match s {
        Some(s) => Some(s@),
        None => None,
    }
}

/// Conversions of addresses.
pub struct PallasUtility {}

impl PallasUtility {
    /// Picks the text of an address among the forms that were found for it.
    pub fn choose_address_text(parses: bool, bech32: Option<String>, base58: Option<String>) -> (r:
        Result<String, ClientError>)
        ensures
            match r {
                Ok(s) => address_text(parses, text_value(bech32), text_value(base58)) == Ok::<
                    Seq<char>,
                    ClientError,
                >(s@),
                Err(e) => address_text(parses, text_value(bech32), text_value(base58)) == Err::<
                    Seq<char>,
                    ClientError,
                >(e),
            },
    {
        if !parses {
            return Err(ClientError::Decode);
        }
        match (bech32, base58) {
            (Some(text), _) => Ok(text),
            (None, Some(text)) => Ok(text),
            (None, None) => Err(ClientError::Decode),
        }
    }

    /// The text of the address with the given raw bytes: bech32, or base58 for
    /// a Byron address.
    pub fn address_bytes_to_bech32(address_bytes: Vec<u8>) -> (r: Result<String, ClientError>)
        ensures
            match r {
                Ok(s) => address_text(
                    is_address(address_bytes@),
                    bech32_text(address_bytes@),
                    byron_base58_text(address_bytes@),
                ) == Ok::<Seq<char>, ClientError>(s@),
                Err(e) => address_text(
                    is_address(address_bytes@),
                    bech32_text(address_bytes@),
                    byron_base58_text(address_bytes@),
                ) == Err::<Seq<char>, ClientError>(e),
            },
    {
        let parses = pallas_address_parses(&address_bytes);
        let bech32 = pallas_bech32(&address_bytes);
        let base58 = pallas_byron_base58(&address_bytes);
        Self::choose_address_text(parses, bech32, base58)
    }

    /// The raw bytes of the address that a bech32 text names, as a query for
    /// its outputs carries them.
    pub fn address_bech32_to_bytes(address: &str) -> (r: Result<Vec<u8>, ClientError>)
        ensures
            match r {
                Ok(b) => bech32_payload(address@) == Some(b@),
                Err(e) => bech32_payload(address@) is None && e == ClientError::Decode,
            },
    {
        match pallas_bech32_payload(address) {
            Some(bytes) => Ok(bytes),
            None => Err(ClientError::Decode),
        }
    }
}

} // verus!
