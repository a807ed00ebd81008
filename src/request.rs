//! The request model: one closed union of operations, each with exactly the
//! parameters it needs. Addresses, amounts, outpoints and encoded transactions
//! stay text here; the operation that needs them parses them.
use vstd::prelude::*;
use crate::handle::IntermediatePtr;
use bdk::bitcoin::Network;

verus! {

#[verifier::external_type_specification]
pub struct ExNetwork(Network);

/// A plain code for each network.
pub open spec fn network_code(n: Network) -> u8 {
    match n {
        Network::Bitcoin => 0,
        Network::Testnet => 1,
        Network::Signet => 2,
        Network::Regtest => 3,
    }
}

/// One call's request.
#[derive(Debug)]
pub enum BdkRequest {
    Constructor {
        name: String,
        network: Network,
        path: String,
        descriptor: String,
        change_descriptor: Option<String>,
        electrum_url: String,
        electrum_proxy: Option<String>,
    },
    Destructor { wallet: IntermediatePtr },
    GetNewAddress { wallet: IntermediatePtr },
    Sync { wallet: IntermediatePtr, max_address: Option<u32> },
    ListUnspent { wallet: IntermediatePtr },
    GetBalance { wallet: IntermediatePtr },
    ListTransactions { wallet: IntermediatePtr, include_raw: Option<bool> },
    CreateTx {
        wallet: IntermediatePtr,
        /// The fee rate in satoshi per virtual byte, as the bits of an IEEE-754 single.
        fee_rate_bits: u32,
        /// Destination address and amount in bitcoin, both as text.
        addressees: Vec<(String, String)>,
        unspendable: Option<Vec<String>>,
        utxos: Option<Vec<String>>,
        send_all: Option<bool>,
        /// Spending-policy path: policy node id and the chosen item indexes.
        policy: Option<Vec<(String, Vec<usize>)>>,
    },
    Sign { wallet: IntermediatePtr, psbt: String, assume_height: Option<u32> },
    ExtractPsbt { wallet: IntermediatePtr, psbt: String },
    Broadcast { wallet: IntermediatePtr, raw_tx: String },
    PublicDescriptors { wallet: IntermediatePtr },
    /// Generate a random seed phrase and the master key it gives.
    GenerateExtendedKey { network: Network, word_count: usize, password: Option<String> },
    /// Restore a master key from a seed phrase.
    RestoreExtendedKey { network: Network, mnemonic: String, password: Option<String> },
}

/// Which handler serves a request.
#[derive(Clone, Copy, Debug, PartialEq, Eq, Structural)]
pub enum Route {
    /// Builds a new wallet; no handle exists yet.
    Construct,
    /// Runs against the live wallet that the request's handle names.
    Wallet,
    /// Works on key material alone; takes no handle.
    Keys,
}

impl BdkRequest {
    /// The handle a request carries, if its variant carries one.
    pub open spec fn handle_spec(&self) -> Option<IntermediatePtr> {
        match self {
            BdkRequest::Constructor { .. } => None,
            BdkRequest::GenerateExtendedKey { .. } => None,
            BdkRequest::RestoreExtendedKey { .. } => None,
            BdkRequest::Destructor { wallet } => Some(*wallet),
            BdkRequest::GetNewAddress { wallet } => Some(*wallet),
            BdkRequest::Sync { wallet, .. } => Some(*wallet),
            BdkRequest::ListUnspent { wallet } => Some(*wallet),
            BdkRequest::GetBalance { wallet } => Some(*wallet),
            BdkRequest::ListTransactions { wallet, .. } => Some(*wallet),
            BdkRequest::CreateTx { wallet, .. } => Some(*wallet),
            BdkRequest::Sign { wallet, .. } => Some(*wallet),
            BdkRequest::ExtractPsbt { wallet, .. } => Some(*wallet),
            BdkRequest::Broadcast { wallet, .. } => Some(*wallet),
            BdkRequest::PublicDescriptors { wallet } => Some(*wallet),
        }
    }

    pub open spec fn route_spec(&self) -> Route {
        match self {
            BdkRequest::Constructor { .. } => Route::Construct,
            BdkRequest::GenerateExtendedKey { .. } => Route::Keys,
            BdkRequest::RestoreExtendedKey { .. } => Route::Keys,
            _ => Route::Wallet,
        }
    }

    /// The handler that serves this request: construction, the live wallet its
    /// handle names, or key material.
    pub fn route(&self) -> (r: Route)
        ensures
            r == self.route_spec(),
            r == Route::Wallet <==> self.handle_spec() is Some,
    {
        match self {
            BdkRequest::Constructor { .. } => Route::Construct,
            BdkRequest::GenerateExtendedKey { .. } => Route::Keys,
            BdkRequest::RestoreExtendedKey { .. } => Route::Keys,
            _ => Route::Wallet,
        }
    }

    /// The handle this request carries, if its variant carries one.
    pub fn handle(&self) -> (r: Option<&IntermediatePtr>)
        ensures
            r matches Some(h) ==> self.handle_spec() == Some(*h),
            r is None ==> self.handle_spec() is None,
    {
        match self {
            BdkRequest::Constructor { .. } => None,
            BdkRequest::GenerateExtendedKey { .. } => None,
            BdkRequest::RestoreExtendedKey { .. } => None,
            BdkRequest::Destructor { wallet } => Some(wallet),
            BdkRequest::GetNewAddress { wallet } => Some(wallet),
            BdkRequest::Sync { wallet, .. } => Some(wallet),
            BdkRequest::ListUnspent { wallet } => Some(wallet),
            BdkRequest::GetBalance { wallet } => Some(wallet),
            BdkRequest::ListTransactions { wallet, .. } => Some(wallet),
            BdkRequest::CreateTx { wallet, .. } => Some(wallet),
            BdkRequest::Sign { wallet, .. } => Some(wallet),
            BdkRequest::ExtractPsbt { wallet, .. } => Some(wallet),
            BdkRequest::Broadcast { wallet, .. } => Some(wallet),
            BdkRequest::PublicDescriptors { wallet } => Some(wallet),
        }
    }

    /// Whether this request ends the life of the wallet its handle names.
    pub fn is_destructor(&self) -> (r: bool)
        ensures
            r == (self is Destructor),
    {
        match self {
            BdkRequest::Destructor { .. } => true,
            _ => false,
        }
    }
}

} // verus!
