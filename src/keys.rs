//! Key material: a fresh or restored seed phrase and the master key it gives.
//! These requests take no handle.
use vstd::prelude::*;
use bdk::bitcoin::secp256k1::Secp256k1;
use bdk::bitcoin::Network;
use bdk::keys::bip39::{Language, Mnemonic, MnemonicType};
use bdk::keys::{DerivableKey, ExtendedKey, GeneratableKey, GeneratedKey};
use bdk::miniscript::BareCtx;
use crate::error::{BdkJniError, ErrorKind};
use crate::request::{network_code, BdkRequest, Route};

verus! {

/// Whether `s` is an English seed phrase with a valid checksum.
pub uninterp spec fn mnemonic_parses(s: Seq<char>) -> bool;

/// The normal form of the seed phrase `s`: its words, normalised, joined by
/// single spaces.
pub uninterp spec fn canonical_phrase(s: Seq<char>) -> Seq<char>;

/// Whether the BIP-39 seed of phrase `s` and `password` gives a master key.
pub uninterp spec fn has_master_key(s: Seq<char>, password: Option<Seq<char>>) -> bool;

/// The master private key of phrase `s` and `password` on the network with
/// the given code, in base58.
pub uninterp spec fn xprv_of(s: Seq<char>, password: Option<Seq<char>>, network: u8) -> Seq<char>;

/// The fingerprint of the master key of phrase `s` and `password`, in
/// hexadecimal.
pub uninterp spec fn fingerprint_of(s: Seq<char>, password: Option<Seq<char>>) -> Seq<char>;

/// The number of spaces in `s`.
pub open spec fn space_count(s: Seq<char>) -> nat
    decreases s.len(),
{
    if s.len() == 0 {
        0
    } else {
        space_count(s.drop_last()) + if s.last() == ' ' {
            1nat
        } else {
            0nat
        }
    }
}

/// The view of an optional text.
pub open spec fn text_view(o: Option<String>) -> Option<Seq<char>> {
    match o {
        Some(s) => Some(s@),
        None => None,
    }
}

/// Relies on `GeneratableKey::generate` for `Mnemonic` (bdk), with
/// tiny-bip39's `MnemonicType::for_word_count` and `Mnemonic::phrase`: a
/// random English seed phrase of `words` words joined by single spaces, drawn
/// from the thread's random source. Twelve and twenty-four words are always
/// available.
#[verifier::external_body]
fn generate_phrase(words: usize) -> (r: Option<String>)
    ensures
        words == 12 || words == 24 ==> r is Some,
        r matches Some(p) ==> mnemonic_parses(p@) && canonical_phrase(p@) == p@ && space_count(p@)
            + 1 == words,
{
    let kind = MnemonicType::for_word_count(words).ok()?;
    let key: GeneratedKey<Mnemonic, BareCtx> = Mnemonic::generate((kind, Language::English)).ok()?;
    Some(key.into_key().phrase().to_string())
}

/// Relies on `Mnemonic::from_phrase` of tiny-bip39 (English) and
/// `Mnemonic::phrase`: the phrase in its normal form, which reads back as
/// itself.
#[verifier::external_body]
fn restore_phrase(s: &str) -> (r: Option<String>)
    ensures
        r is Some <==> mnemonic_parses(s@),
        r matches Some(p) ==> p@ == canonical_phrase(s@),
{
    match Mnemonic::from_phrase(s, Language::English) {
        Ok(m) => Some(m.phrase().to_string()),
        Err(_) => None,
    }
}

/// A master private key in base58, and its fingerprint in hexadecimal.
struct MasterKey {
    xprv: String,
    fingerprint: String,
}

/// Relies on `Mnemonic::from_phrase` (tiny-bip39, English), bdk's
/// `DerivableKey::into_extended_key` for a phrase and password (the BIP-39
/// seed's master key), `ExtendedKey::into_xprv` for `network`, which is always
/// a private key here, and bitcoin's `ExtendedPrivKey` `Display` and
/// `fingerprint`: the master key in base58 and its fingerprint.
#[verifier::external_body]
fn derive_master_key(s: &str, password: Option<String>, network: Network) -> (r: Option<MasterKey>)
    ensures
        r is Some ==> mnemonic_parses(s@) && has_master_key(s@, text_view(password)),
        r is None ==> !mnemonic_parses(s@) || !has_master_key(s@, text_view(password)),
        r matches Some(k) ==> k.xprv@ == xprv_of(s@, text_view(password), network_code(network))
            && k.fingerprint@ == fingerprint_of(s@, text_view(password)),
{
    let m = Mnemonic::from_phrase(s, Language::English).ok()?;
    let key: ExtendedKey = (m, password).into_extended_key().ok()?;
    let xprv = key.into_xprv(network)?;
    Some(MasterKey { xprv: xprv.to_string(), fingerprint: xprv.fingerprint(&Secp256k1::new()).to_string() })
}

/// A seed phrase, its master private key and that key's fingerprint.
#[derive(Debug)]
pub struct ExtendedKeyInfo {
    pub mnemonic: String,
    pub xprv: String,
    pub fingerprint: String,
}

pub open spec fn mnemonic_words_spec(word_count: usize) -> usize {
    if word_count == 12 {
        12
    } else {
        24
    }
}

/// The length of a fresh seed phrase: twelve words when asked for twelve,
/// twenty-four otherwise.
pub fn mnemonic_words(word_count: usize) -> (r: usize)
    ensures
        r == mnemonic_words_spec(word_count),
{
    if word_count == 12 {
        12
    } else {
        24
    }
}

/// `k` holds phrase `s`, and the master key and fingerprint that `s` and
/// `password` give on `network`.
pub open spec fn key_info_of(k: ExtendedKeyInfo, s: Seq<char>, password: Option<String>, network: Network) -> bool {
    &&& k.xprv@ == xprv_of(s, text_view(password), network_code(network))
    &&& k.fingerprint@ == fingerprint_of(s, text_view(password))
}

/// Serves a key request. Generation makes a fresh phrase of
/// `mnemonic_words(word_count)` words and derives its master key; it fails
/// only when the seed drawn has no master key. Restoring reads the phrase
/// given and derives its master key: a phrase that is not a valid English seed
/// phrase is a parse failure, a seed without master key a library failure.
/// Any other request is refused as unsupported.
pub fn do_key_call(req: BdkRequest) -> (r: Result<ExtendedKeyInfo, BdkJniError>)
    ensures
        req.route_spec() != Route::Keys ==> (r matches Err(e) && e.kind_spec()
            == ErrorKind::UnsupportedOperation),
        req matches BdkRequest::GenerateExtendedKey { network, word_count, password } ==> {
            &&& r matches Ok(k) ==> {
                &&& mnemonic_parses(k.mnemonic@)
                &&& canonical_phrase(k.mnemonic@) == k.mnemonic@
                &&& space_count(k.mnemonic@) + 1 == mnemonic_words_spec(word_count)
                &&& has_master_key(k.mnemonic@, text_view(password))
                &&& key_info_of(k, k.mnemonic@, password, network)
            }
            &&& r matches Err(e) ==> {
                &&& e.kind_spec() == ErrorKind::NativeLibraryFailure
                &&& exists|p: Seq<char>|
                    mnemonic_parses(p) && space_count(p) + 1 == mnemonic_words_spec(word_count)
                        && !has_master_key(p, text_view(password))
            }
        },
        req matches BdkRequest::RestoreExtendedKey { network, mnemonic, password } ==> {
            &&& r is Ok <==> mnemonic_parses(mnemonic@) && has_master_key(mnemonic@, text_view(password))
            &&& r matches Ok(k) ==> k.mnemonic@ == canonical_phrase(mnemonic@) && key_info_of(
                k,
                mnemonic@,
                password,
                network,
            )
            &&& r matches Err(e) ==> if mnemonic_parses(mnemonic@) {
                e.kind_spec() == ErrorKind::NativeLibraryFailure
            } else {
                e.kind_spec() == ErrorKind::ParameterParseFailure
            }
        },
{
    match req {
        BdkRequest::GenerateExtendedKey { network, word_count, password } => {
            let phrase = match generate_phrase(mnemonic_words(word_count)) {
                Some(p) => p,
                None => {
                    return Err(BdkJniError::ExtKeyError(String::from_str("seed phrase generation failed")));
                },
            };
            match derive_master_key(phrase.as_str(), password, network) {
                Some(k) => Ok(ExtendedKeyInfo { mnemonic: phrase, xprv: k.xprv, fingerprint: k.fingerprint }),
                None => Err(BdkJniError::ExtKeyError(String::from_str("the seed gives no master key"))),
            }
        },
        BdkRequest::RestoreExtendedKey { network, mnemonic, password } => {
            let phrase = match restore_phrase(mnemonic.as_str()) {
                Some(p) => p,
                None => {
                    return Err(BdkJniError::Parsing(String::from_str("invalid seed phrase")));
                },
            };
            match derive_master_key(mnemonic.as_str(), password, network) {
                Some(k) => Ok(ExtendedKeyInfo { mnemonic: phrase, xprv: k.xprv, fingerprint: k.fingerprint }),
                None => Err(BdkJniError::ExtKeyError(String::from_str("the seed gives no master key"))),
            }
        },
        _ => Err(BdkJniError::Unsupported(String::from_str("not a key request"))),
    }
}

/// Restoring a freshly generated phrase, with the same password and network,
/// gives back the same phrase, master key and fingerprint.
pub proof fn lemma_generated_phrase_restores(
    generated: ExtendedKeyInfo,
    restored: ExtendedKeyInfo,
    password: Option<String>,
    network: Network,
)
    requires
        mnemonic_parses(generated.mnemonic@),
        canonical_phrase(generated.mnemonic@) == generated.mnemonic@,
        has_master_key(generated.mnemonic@, text_view(password)),
        key_info_of(generated, generated.mnemonic@, password, network),
        restored.mnemonic@ == canonical_phrase(generated.mnemonic@),
        key_info_of(restored, generated.mnemonic@, password, network),
    ensures
        restored.mnemonic@ == generated.mnemonic@,
        restored.xprv@ == generated.xprv@,
        restored.fingerprint@ == generated.fingerprint@,
{
}

} // verus!
