//! The bitcoin types that requests carry, and the parsers and encoders of the
//! bitcoin and base64 crates that turn request text into them.
use vstd::prelude::*;
use bdk::bitcoin::consensus::encode::{deserialize, serialize};
use bdk::bitcoin::util::psbt::PartiallySignedTransaction;
use bdk::bitcoin::util::amount::Denomination;
use bdk::bitcoin::hashes::Hash as HashValue;
use bdk::bitcoin::{Address, Amount, OutPoint, Script, Transaction, Txid};
use std::str::FromStr;

verus! {

#[verifier::external_type_specification]
#[verifier::external_body]
pub struct ExAddress(Address);

#[verifier::external_type_specification]
#[verifier::external_body]
pub struct ExScript(Script);

#[verifier::external_type_specification]
#[verifier::external_body]
pub struct ExTxid(Txid);

#[verifier::external_type_specification]
pub struct ExOutPoint(OutPoint);

#[verifier::external_type_specification]
#[verifier::external_body]
pub struct ExTransaction(Transaction);

#[verifier::external_type_specification]
#[verifier::external_body]
pub struct ExPartiallySignedTransaction(PartiallySignedTransaction);

/// Whether `s` is a bitcoin address.
pub uninterp spec fn address_parses(s: Seq<char>) -> bool;

/// The amount that the decimal bitcoin amount `s` writes, in satoshi, if `s`
/// is one.
pub uninterp spec fn bitcoin_amount(s: Seq<char>) -> Option<u64>;

/// The bytes that `s` encodes in standard base64, if it is base64.
pub uninterp spec fn base64_decoding(s: Seq<char>) -> Option<Seq<u8>>;

/// Whether `b` is exactly one consensus-encoded partially signed transaction.
pub uninterp spec fn psbt_parses(b: Seq<u8>) -> bool;

/// Whether `b` is exactly one consensus-encoded transaction.
pub uninterp spec fn transaction_parses(b: Seq<u8>) -> bool;

/// Relies on `Address::from_str` of bitcoin: parses a bitcoin address.
#[verifier::external_body]
pub(crate) fn parse_address(s: &str) -> (r: Option<Address>)
    ensures
        r is Some <==> address_parses(s@),
{
    Address::from_str(s).ok()
}

/// Relies on `Address::script_pubkey` of bitcoin: the output script that pays
/// to an address.
pub assume_specification[ Address::script_pubkey ](a: &Address) -> Script;

/// Relies on `Amount::from_str_in` of bitcoin, in the bitcoin denomination:
/// reads a decimal amount of bitcoin (at most eight decimals) as satoshi.
#[verifier::external_body]
pub(crate) fn parse_btc_amount(s: &str) -> (r: Option<u64>)
    ensures
        r == bitcoin_amount(s@),
{
    match Amount::from_str_in(s, Denomination::Bitcoin) {
        Ok(a) => Some(a.as_sat()),
        Err(_) => None,
    }
}

/// Relies on `Txid::from_slice` of bitcoin, which fails only when the slice is
/// not 32 bytes long: the outpoint of output `vout` of the transaction whose id
/// has the bytes `txid`, in internal order.
#[verifier::external_body]
pub(crate) fn outpoint_from_parts(txid: &[u8], vout: u32) -> (r: Option<OutPoint>)
    ensures
        txid@.len() == 32 ==> r is Some,
        r matches Some(o) ==> o.vout == vout,
{
    match <Txid as HashValue>::from_slice(txid) {
        Ok(t) => Some(OutPoint { txid: t, vout }),
        Err(_) => None,
    }
}

/// Relies on `base64::decode`: decodes standard base64.
#[verifier::external_body]
pub(crate) fn decode_base64(s: &str) -> (r: Option<Vec<u8>>)
    ensures
        r is Some <==> base64_decoding(s@) is Some,
        r matches Some(v) ==> base64_decoding(s@) == Some(v@),
{
    base64::decode(s).ok()
}

/// Relies on `base64::encode`: encodes bytes as standard base64, which
/// `base64::decode` reads back as the same bytes.
#[verifier::external_body]
pub(crate) fn encode_base64(b: &[u8]) -> (r: String)
    ensures
        base64_decoding(r@) == Some(b@),
{
    base64::encode(b)
}

/// Relies on `consensus::encode::deserialize` of bitcoin, for a partially
/// signed transaction: fails unless the bytes hold exactly one.
#[verifier::external_body]
pub(crate) fn deserialize_psbt(b: &[u8]) -> (r: Option<PartiallySignedTransaction>)
    ensures
        r is Some <==> psbt_parses(b@),
{
    deserialize::<PartiallySignedTransaction>(b).ok()
}

/// Relies on `consensus::encode::deserialize` of bitcoin, for a transaction:
/// fails unless the bytes hold exactly one.
#[verifier::external_body]
pub(crate) fn deserialize_transaction(b: &[u8]) -> (r: Option<Transaction>)
    ensures
        r is Some <==> transaction_parses(b@),
{
    deserialize::<Transaction>(b).ok()
}

/// Relies on `consensus::encode::serialize` of bitcoin, for a partially
/// signed transaction.
#[verifier::external_body]
pub(crate) fn serialize_psbt(p: &PartiallySignedTransaction) -> Vec<u8> {
    serialize(p)
}

/// Relies on `consensus::encode::serialize` of bitcoin, for a transaction.
#[verifier::external_body]
pub(crate) fn serialize_transaction(t: &Transaction) -> Vec<u8> {
    serialize(t)
}

/// Relies on `PartiallySignedTransaction::extract_tx` of bitcoin: the
/// transaction with the inputs' final scripts and witnesses filled in.
pub assume_specification[ PartiallySignedTransaction::extract_tx ](
    p: PartiallySignedTransaction,
) -> Transaction;

} // verus!
