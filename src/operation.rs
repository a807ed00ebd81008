//! Checked wallet operations: a wallet request's text parameters parsed into
//! the values the wallet works on. A malformed parameter fails the whole
//! operation before the wallet is touched.
use vstd::prelude::*;
use bdk::bitcoin::util::psbt::PartiallySignedTransaction;
use bdk::bitcoin::{OutPoint, Script, Transaction};
use crate::chain::{
    address_parses, base64_decoding, bitcoin_amount, decode_base64, deserialize_psbt,
    deserialize_transaction, encode_base64, outpoint_from_parts, parse_address, parse_btc_amount, psbt_parses, serialize_psbt,
    serialize_transaction, transaction_parses,
};
use crate::codec::{
    hex_bytes, hex_decode, hex_encode, hex_of, is_hex, outpoint_of, parse_outpoint_text,
};
use crate::error::{BdkJniError, ErrorKind};
use crate::request::{BdkRequest, Route};

verus! {

/// A transaction to build, with every parameter parsed.
pub struct TxPlan {
    /// The fee rate in satoshi per virtual byte, as the bits of an IEEE-754 single.
    pub fee_rate_bits: u32,
    /// Output scripts and amounts in satoshi; empty when draining the wallet.
    pub recipients: Vec<(Script, u64)>,
    /// When draining the wallet, the one script that receives everything.
    pub drain_to: Option<Script>,
    /// Inputs that must be spent.
    pub utxos: Option<Vec<OutPoint>>,
    /// Inputs that must not be spent.
    pub unspendable: Option<Vec<OutPoint>>,
    /// Spending-policy path: policy node id and the chosen item indexes.
    pub policy: Option<Vec<(String, Vec<usize>)>>,
}

/// A wallet request with its parameters parsed.
pub enum WalletOp {
    Destroy,
    GetNewAddress,
    Sync { max_address: Option<u32> },
    ListUnspent,
    GetBalance,
    ListTransactions { include_raw: bool },
    CreateTx(TxPlan),
    Sign { psbt: PartiallySignedTransaction, assume_height: Option<u32> },
    /// The finished transaction, already extracted and written as hexadecimal.
    ExtractPsbt { hex: String },
    Broadcast { transaction: Transaction },
    PublicDescriptors,
}

/// Every destination is an address and every amount a decimal amount of bitcoin.
pub open spec fn addressees_ok(a: Seq<(String, String)>) -> bool {
    forall|i: int|
        0 <= i < a.len() ==> address_parses((#[trigger] a[i]).0@) && bitcoin_amount(a[i].1@) is Some
}

/// Every entry, if there is a list, is an outpoint.
pub open spec fn outpoints_ok(o: Option<Vec<String>>) -> bool {
    match o {
        None => true,
        Some(v) => forall|i: int| 0 <= i < v@.len() ==> (#[trigger] outpoint_of(v@[i]@)) is Some,
    }
}

/// `s` is base64 of exactly one encoded partially signed transaction.
pub open spec fn psbt_text_ok(s: Seq<char>) -> bool {
    base64_decoding(s) matches Some(b) && psbt_parses(b)
}

/// `s` is hexadecimal of exactly one encoded transaction.
pub open spec fn transaction_text_ok(s: Seq<char>) -> bool {
    is_hex(s) && transaction_parses(hex_bytes(s))
}

/// The parameters of a wallet request are well formed; requests that carry no
/// handle never are.
pub open spec fn params_ok(req: BdkRequest) -> bool {
    match req {
        BdkRequest::Constructor { .. } => false,
        BdkRequest::GenerateExtendedKey { .. } => false,
        BdkRequest::RestoreExtendedKey { .. } => false,
        BdkRequest::CreateTx { addressees, unspendable, utxos, send_all, .. } => {
            &&& addressees_ok(addressees@)
            &&& outpoints_ok(utxos)
            &&& outpoints_ok(unspendable)
            &&& send_all == Some(true) ==> addressees@.len() > 0
        },
        BdkRequest::Sign { psbt, .. } => psbt_text_ok(psbt@),
        BdkRequest::ExtractPsbt { psbt, .. } => psbt_text_ok(psbt@),
        BdkRequest::Broadcast { raw_tx, .. } => transaction_text_ok(raw_tx@),
        _ => true,
    }
}

/// `p` holds, for each entry of `o`, the outpoint it writes (its output index
/// stated), and a list exactly when `o` does.
pub open spec fn outpoints_match(o: Option<Vec<String>>, p: Option<Vec<OutPoint>>) -> bool {
    match (o, p) {
        (None, None) => true,
        (Some(v), Some(w)) => v@.len() == w@.len() && forall|i: int|
            0 <= i < v@.len() ==> ((#[trigger] outpoint_of(v@[i]@)) matches Some(p) && p.1
                == w@[i].vout),
        _ => false,
    }
}

/// `op` is `req` with its parameters parsed.
pub open spec fn op_matches(req: BdkRequest, op: WalletOp) -> bool {
    match (req, op) {
        (BdkRequest::Destructor { .. }, WalletOp::Destroy) => true,
        (BdkRequest::GetNewAddress { .. }, WalletOp::GetNewAddress) => true,
        (BdkRequest::Sync { max_address, .. }, WalletOp::Sync { max_address: m }) => m == max_address,
        (BdkRequest::ListUnspent { .. }, WalletOp::ListUnspent) => true,
        (BdkRequest::GetBalance { .. }, WalletOp::GetBalance) => true,
        (
            BdkRequest::ListTransactions { include_raw, .. },
            WalletOp::ListTransactions { include_raw: i },
        ) => i == (include_raw == Some(true)),
        (
            BdkRequest::CreateTx { fee_rate_bits, addressees, unspendable, utxos, send_all, policy, .. },
            WalletOp::CreateTx(plan),
        ) => {
            &&& plan.fee_rate_bits == fee_rate_bits
            &&& plan.policy == policy
            &&& outpoints_match(utxos, plan.utxos)
            &&& outpoints_match(unspendable, plan.unspendable)
            &&& if send_all == Some(true) {
                plan.drain_to is Some && plan.recipients@.len() == 0
            } else {
                &&& plan.drain_to is None
                &&& plan.recipients@.len() == addressees@.len()
                &&& forall|i: int|
                    0 <= i < addressees@.len() ==> Some((#[trigger] plan.recipients@[i]).1)
                        == bitcoin_amount(addressees@[i].1@)
            }
        },
        (BdkRequest::Sign { assume_height, .. }, WalletOp::Sign { assume_height: h, .. }) => h
            == assume_height,
        (BdkRequest::ExtractPsbt { .. }, WalletOp::ExtractPsbt { hex }) => exists|b: Seq<u8>|
            hex@ == hex_of(b),
        (BdkRequest::Broadcast { .. }, WalletOp::Broadcast { .. }) => true,
        (BdkRequest::PublicDescriptors { .. }, WalletOp::PublicDescriptors) => true,
        _ => false,
    }
}

fn parsing_error() -> (e: BdkJniError)
    ensures
        e.kind_spec() == ErrorKind::ParameterParseFailure,
{
    BdkJniError::Parsing(String::from_str("malformed parameter"))
}

/// Each destination address parsed to its output script, each bitcoin amount
/// to satoshi.
fn parse_addressees(a: &Vec<(String, String)>) -> (r: Option<Vec<(Script, u64)>>)
    ensures
        r is Some <==> addressees_ok(a@),
        r matches Some(v) ==> v@.len() == a@.len() && forall|i: int|
            0 <= i < a@.len() ==> Some((#[trigger] v@[i]).1) == bitcoin_amount(a@[i].1@),
{
    let mut out: Vec<(Script, u64)> = Vec::new();
    let mut i: usize = 0;
    while i < a.len()
        invariant
            i <= a@.len(),
            out@.len() == i,
            forall|j: int| 0 <= j < i ==> address_parses((#[trigger] a@[j]).0@) && bitcoin_amount(a@[j].1@) is Some,
            forall|j: int| 0 <= j < i ==> Some((#[trigger] out@[j]).1) == bitcoin_amount(a@[j].1@),
        decreases a@.len() - i,
    {
        let address = match parse_address(a[i].0.as_str()) {
            Some(x) => x,
            None => {
                return None;
            },
        };
        let amount = match parse_btc_amount(a[i].1.as_str()) {
            Some(x) => x,
            None => {
                return None;
            },
        };
        out.push((address.script_pubkey(), amount));
        i = i + 1;
    }
    Some(out)
}

/// Each entry parsed as an outpoint.
fn parse_outpoints(o: &Option<Vec<String>>) -> (r: Option<Option<Vec<OutPoint>>>)
    ensures
        r is Some <==> outpoints_ok(*o),
        r matches Some(p) ==> outpoints_match(*o, p),
{
    let v = match o {
        None => {
            return Some(None);
        },
        Some(v) => v,
    };
    let mut out: Vec<OutPoint> = Vec::new();
    let mut i: usize = 0;
    while i < v.len()
        invariant
            *o == Some(*v),
            i <= v@.len(),
            out@.len() == i,
            forall|j: int| 0 <= j < i ==> ((#[trigger] outpoint_of(v@[j]@)) matches Some(p) && p.1
                == out@[j].vout),
        decreases v@.len() - i,
    {
        let (txid, vout) = match parse_outpoint_text(v[i].as_str()) {
            Some(p) => p,
            None => {
                assert(outpoint_of(v@[i as int]@) is None);
                assert(o matches Some(w) && w@ == v@);
                assert(!outpoints_ok(*o));
                return None;
            },
        };
        proof {
            assert(txid@.len() == 32);
        }
        match outpoint_from_parts(txid.as_slice(), vout) {
            Some(x) => out.push(x),
            None => {
                return None;
            },
        }
        i = i + 1;
    }
    assert(o matches Some(w) && w@ == v@);
    Some(Some(out))
}

/// Decodes base64 text into one partially signed transaction.
fn parse_psbt(s: &String) -> (r: Option<PartiallySignedTransaction>)
    ensures
        r is Some <==> psbt_text_ok(s@),
{
    match decode_base64(s.as_str()) {
        Some(b) => deserialize_psbt(b.as_slice()),
        None => None,
    }
}

/// Turns a wallet request into its checked operation. A request that carries
/// no handle is refused as unsupported; a malformed parameter fails the
/// operation as a parse failure.
pub fn prepare_wallet_op(req: BdkRequest) -> (r: Result<WalletOp, BdkJniError>)
    ensures
        r is Ok <==> params_ok(req),
        r matches Ok(op) ==> op_matches(req, op),
        r matches Err(e) ==> e.kind_spec() == if req.route_spec() == Route::Wallet {
            ErrorKind::ParameterParseFailure
        } else {
            ErrorKind::UnsupportedOperation
        },
{
    match req {
        BdkRequest::Constructor { .. } => Err(
            BdkJniError::Unsupported(String::from_str("a constructor request carries no wallet")),
        ),
        BdkRequest::GenerateExtendedKey { .. } => Err(
            BdkJniError::Unsupported(String::from_str("a key request carries no wallet")),
        ),
        BdkRequest::RestoreExtendedKey { .. } => Err(
            BdkJniError::Unsupported(String::from_str("a key request carries no wallet")),
        ),
        BdkRequest::Destructor { .. } => Ok(WalletOp::Destroy),
        BdkRequest::GetNewAddress { .. } => Ok(WalletOp::GetNewAddress),
        BdkRequest::Sync { max_address, .. } => Ok(WalletOp::Sync { max_address }),
        BdkRequest::ListUnspent { .. } => Ok(WalletOp::ListUnspent),
        BdkRequest::GetBalance { .. } => Ok(WalletOp::GetBalance),
        BdkRequest::ListTransactions { include_raw, .. } => Ok(
            WalletOp::ListTransactions { include_raw: include_raw == Some(true) },
        ),
        BdkRequest::CreateTx { fee_rate_bits, addressees, unspendable, utxos, send_all, policy, .. } => {
            let parsed = match parse_addressees(&addressees) {
                Some(p) => p,
                None => {
                    return Err(parsing_error());
                },
            };
            let utxos = match parse_outpoints(&utxos) {
                Some(p) => p,
                None => {
                    return Err(parsing_error());
                },
            };
            let unspendable = match parse_outpoints(&unspendable) {
                Some(p) => p,
                None => {
                    return Err(parsing_error());
                },
            };
            let drain = send_all == Some(true);
            let (recipients, drain_to) = if drain {
                if parsed.len() == 0 {
                    return Err(parsing_error());
                }
                let mut parsed = parsed;
                let first = parsed.swap_remove(0);
                (Vec::new(), Some(first.0))
            } else {
                (parsed, None)
            };
            Ok(
                WalletOp::CreateTx(
                    TxPlan { fee_rate_bits, recipients, drain_to, utxos, unspendable, policy },
                ),
            )
        },
        BdkRequest::Sign { psbt, assume_height, .. } => match parse_psbt(&psbt) {
            Some(p) => Ok(WalletOp::Sign { psbt: p, assume_height }),
            None => Err(parsing_error()),
        },
        BdkRequest::ExtractPsbt { psbt, .. } => match parse_psbt(&psbt) {
            Some(p) => {
                let tx = p.extract_tx();
                let bytes = serialize_transaction(&tx);
                Ok(WalletOp::ExtractPsbt { hex: hex_encode(bytes.as_slice()) })
            },
            None => Err(parsing_error()),
        },
        BdkRequest::Broadcast { raw_tx, .. } => {
            let bytes = match hex_decode(raw_tx.as_str()) {
                Some(b) => b,
                None => {
                    return Err(parsing_error());
                },
            };
            match deserialize_transaction(bytes.as_slice()) {
                Some(t) => Ok(WalletOp::Broadcast { transaction: t }),
                None => Err(parsing_error()),
            }
        },
        BdkRequest::PublicDescriptors { .. } => Ok(WalletOp::PublicDescriptors),
    }
}

/// A partially signed transaction as base64 of its consensus encoding; the
/// text always decodes back to bytes.
pub fn encode_psbt(psbt: &PartiallySignedTransaction) -> (r: String)
    ensures
        base64_decoding(r@) is Some,
{
    let bytes = serialize_psbt(psbt);
    encode_base64(bytes.as_slice())
}

} // verus!
