use bdk::bitcoin::consensus::encode::serialize;
use bdk::bitcoin::util::psbt::PartiallySignedTransaction;
use bdk::bitcoin::{Address, Network, OutPoint, Script, Transaction, TxIn, TxOut};
use std::str::FromStr;
use bdk::bitcoin::hashes::Hash as HashValue;
use bdk_jni::codec::{hex_decode, hex_encode, parse_outpoint_text};
use bdk_jni::construct::{plan_connection, plan_constructor, starts_with, Transport};
use bdk_jni::error::ErrorKind;
use bdk_jni::handle::IntermediatePtr;
use bdk_jni::keys::{do_key_call, mnemonic_words};
use bdk_jni::operation::{encode_psbt, prepare_wallet_op, WalletOp};
use bdk_jni::request::{BdkRequest, Route};

const P2WPKH: &str = "bc1qw508d6qejxtdg4y5r3zarvary0c5xw7kv8f3t4";
const P2PKH: &str = "1BvBMSEYstWetqTFn5Au4m4GFg7xJaNVN2";
const TXID: &str = "4a5e1e4baab89f3a32518a88c31bc87f618f76673e2cc77ab2127b7afdeda33b";

fn handle() -> IntermediatePtr {
    IntermediatePtr { raw: [0; 8], id: [0; 8] }
}

fn create_tx(addressees: Vec<(&str, &str)>, send_all: Option<bool>, utxos: Option<Vec<&str>>) -> BdkRequest {
    BdkRequest::CreateTx {
        wallet: handle(),
        fee_rate_bits: 1.0f32.to_bits(),
        addressees: addressees.into_iter().map(|(a, v)| (a.to_string(), v.to_string())).collect(),
        unspendable: None,
        utxos: utxos.map(|u| u.into_iter().map(|s| s.to_string()).collect()),
        send_all,
        policy: None,
    }
}

fn sample_tx() -> Transaction {
    Transaction {
        version: 2,
        lock_time: 0,
        input: vec![TxIn {
            previous_output: OutPoint::null(),
            script_sig: Script::new(),
            sequence: 0xffff_ffff,
            witness: vec![],
        }],
        output: vec![TxOut { value: 1000, script_pubkey: Script::new() }],
    }
}

fn kind_of(r: Result<WalletOp, bdk_jni::error::BdkJniError>) -> ErrorKind {
    match r {
        Ok(_) => panic!("expected a failure"),
        Err(e) => e.kind(),
    }
}

#[test]
fn routes() {
    let c = BdkRequest::Constructor {
        name: "w".to_string(),
        network: Network::Testnet,
        path: "/tmp/w".to_string(),
        descriptor: "wpkh(x)".to_string(),
        change_descriptor: None,
        electrum_url: "tcp://localhost:50001".to_string(),
        electrum_proxy: None,
    };
    assert_eq!(c.route(), Route::Construct);
    assert!(c.handle().is_none());
    let g = BdkRequest::GetBalance { wallet: handle() };
    assert_eq!(g.route(), Route::Wallet);
    assert!(g.handle().is_some());
    assert!(!g.is_destructor());
    assert!(BdkRequest::Destructor { wallet: handle() }.is_destructor());
    let k = BdkRequest::RestoreExtendedKey { network: Network::Bitcoin, mnemonic: String::new(), password: None };
    assert_eq!(k.route(), Route::Keys);
    assert!(k.handle().is_none());
}

#[test]
fn connection_plans() {
    let p = plan_connection(&"tcp://host:50001".to_string(), &None).unwrap();
    assert_eq!(p.transport, Transport::Plaintext);
    assert_eq!(p.url, "tcp://host:50001");
    let p = plan_connection(&"host:50001".to_string(), &None).unwrap();
    assert_eq!(p.transport, Transport::Plaintext);
    let p = plan_connection(&"ssl://host:50002".to_string(), &None).unwrap();
    assert_eq!(p.transport, Transport::Tls);
    let p = plan_connection(&"tcp://host:50001".to_string(), &Some("socks5://127.0.0.1:9050".to_string())).unwrap();
    assert_eq!(p.proxy.as_deref(), Some("socks5://127.0.0.1:9050"));
    let e = plan_connection(&"ssl://host:50002".to_string(), &Some("127.0.0.1:9050".to_string())).unwrap_err();
    assert_eq!(e.kind(), ErrorKind::UnsupportedOperation);
    let e = plan_constructor(&BdkRequest::GetBalance { wallet: handle() }).unwrap_err();
    assert_eq!(e.kind(), ErrorKind::UnsupportedOperation);
}

#[test]
fn prefix_test() {
    assert!(starts_with("ssl://x", "ssl://"));
    assert!(!starts_with("ssl:/", "ssl://"));
    assert!(starts_with("abc", ""));
    assert!(!starts_with("tcp://x", "ssl://"));
}

#[test]
fn hex_codec() {
    assert_eq!(hex_decode("00ff10Ab"), Some(vec![0x00, 0xff, 0x10, 0xab]));
    assert_eq!(hex_decode(""), Some(vec![]));
    assert_eq!(hex_decode("abc"), None);
    assert_eq!(hex_decode("zz"), None);
    assert_eq!(hex_encode(&[0x00, 0xff, 0x10, 0xab]), "00ff10ab");
    assert_eq!(hex_encode(&[]), "");
}

fn amount_of(text: &str) -> Option<u64> {
    match prepare_wallet_op(create_tx(vec![(P2WPKH, text)], None, None)) {
        Ok(WalletOp::CreateTx(plan)) => Some(plan.recipients[0].1),
        Ok(_) => panic!("expected a transaction plan"),
        Err(e) => {
            assert_eq!(e.kind(), ErrorKind::ParameterParseFailure);
            None
        }
    }
}

#[test]
fn amounts() {
    assert_eq!(amount_of("0.001"), Some(100_000));
    assert_eq!(amount_of("1"), Some(100_000_000));
    assert_eq!(amount_of("0.00000001"), Some(1));
    assert_eq!(amount_of("21000000"), Some(2_100_000_000_000_000));
    assert_eq!(amount_of("0"), Some(0));
    assert_eq!(amount_of("0.000000001"), None);
    assert_eq!(amount_of("-1"), None);
    assert_eq!(amount_of(""), None);
    assert_eq!(amount_of("1.2.3"), None);
    assert_eq!(amount_of("1 "), None);
    assert_eq!(amount_of("100000000000"), None);
}

#[test]
fn create_tx_plan() {
    let r = prepare_wallet_op(create_tx(vec![(P2WPKH, "0.001"), (P2PKH, "0.000025")], None, None));
    match r {
        Ok(WalletOp::CreateTx(plan)) => {
            assert_eq!(plan.fee_rate_bits, 1.0f32.to_bits());
            assert_eq!(plan.recipients.len(), 2);
            assert_eq!(plan.recipients[0].1, 100000);
            assert_eq!(plan.recipients[1].1, 2500);
            assert_eq!(plan.recipients[0].0, Address::from_str(P2WPKH).unwrap().script_pubkey());
            assert!(plan.drain_to.is_none());
            assert!(plan.utxos.is_none());
        }
        _ => panic!("expected a transaction plan"),
    }
}

#[test]
fn create_tx_drain() {
    let r = prepare_wallet_op(create_tx(vec![(P2PKH, "1")], Some(true), None));
    match r {
        Ok(WalletOp::CreateTx(plan)) => {
            assert!(plan.recipients.is_empty());
            assert_eq!(plan.drain_to, Some(Address::from_str(P2PKH).unwrap().script_pubkey()));
        }
        _ => panic!("expected a drain plan"),
    }
    let r = prepare_wallet_op(create_tx(vec![], Some(true), None));
    assert_eq!(kind_of(r), ErrorKind::ParameterParseFailure);
    let r = prepare_wallet_op(create_tx(vec![], Some(false), None));
    assert!(matches!(r, Ok(WalletOp::CreateTx(_))));
}

#[test]
fn create_tx_parse_failures() {
    let r = prepare_wallet_op(create_tx(vec![("not-an-address", "1000")], None, None));
    assert_eq!(kind_of(r), ErrorKind::ParameterParseFailure);
    let r = prepare_wallet_op(create_tx(vec![(P2WPKH, "0.001"), (P2PKH, "0.1.0")], None, None));
    assert_eq!(kind_of(r), ErrorKind::ParameterParseFailure);
    let good = format!("{}:0", TXID);
    let r = prepare_wallet_op(create_tx(vec![(P2WPKH, "1000")], None, Some(vec![good.as_str()])));
    match r {
        Ok(WalletOp::CreateTx(plan)) => {
            let utxos = plan.utxos.unwrap();
            assert_eq!(utxos.len(), 1);
            assert_eq!(utxos[0], OutPoint::from_str(&good).unwrap());
            assert_eq!(utxos[0].vout, 0);
            assert_eq!(utxos[0].txid.to_string(), TXID);
        }
        _ => panic!("expected a transaction plan"),
    }
    let r = prepare_wallet_op(create_tx(vec![(P2WPKH, "1000")], None, Some(vec![good.as_str(), "nonsense"])));
    assert_eq!(kind_of(r), ErrorKind::ParameterParseFailure);
}

#[test]
fn simple_operations() {
    assert!(matches!(prepare_wallet_op(BdkRequest::Destructor { wallet: handle() }), Ok(WalletOp::Destroy)));
    assert!(matches!(prepare_wallet_op(BdkRequest::GetNewAddress { wallet: handle() }), Ok(WalletOp::GetNewAddress)));
    assert!(matches!(prepare_wallet_op(BdkRequest::Sync { wallet: handle(), max_address: Some(5) }), Ok(WalletOp::Sync { max_address: Some(5) })));
    assert!(matches!(prepare_wallet_op(BdkRequest::ListUnspent { wallet: handle() }), Ok(WalletOp::ListUnspent)));
    assert!(matches!(prepare_wallet_op(BdkRequest::GetBalance { wallet: handle() }), Ok(WalletOp::GetBalance)));
    assert!(matches!(
        prepare_wallet_op(BdkRequest::ListTransactions { wallet: handle(), include_raw: None }),
        Ok(WalletOp::ListTransactions { include_raw: false })
    ));
    assert!(matches!(
        prepare_wallet_op(BdkRequest::ListTransactions { wallet: handle(), include_raw: Some(true) }),
        Ok(WalletOp::ListTransactions { include_raw: true })
    ));
    assert!(matches!(prepare_wallet_op(BdkRequest::PublicDescriptors { wallet: handle() }), Ok(WalletOp::PublicDescriptors)));
    let k = BdkRequest::GenerateExtendedKey { network: Network::Bitcoin, word_count: 12, password: None };
    assert_eq!(kind_of(prepare_wallet_op(k)), ErrorKind::UnsupportedOperation);
}

#[test]
fn psbt_round_trip_and_extract() {
    let tx = sample_tx();
    let psbt = PartiallySignedTransaction::from_unsigned_tx(tx.clone()).unwrap();
    let text = encode_psbt(&psbt);
    assert_eq!(base64::decode(&text).unwrap(), serialize(&psbt));
    let r = prepare_wallet_op(BdkRequest::Sign { wallet: handle(), psbt: text.clone(), assume_height: Some(10) });
    match r {
        Ok(WalletOp::Sign { psbt: back, assume_height }) => {
            assert_eq!(back, psbt);
            assert_eq!(assume_height, Some(10));
        }
        _ => panic!("expected a signing operation"),
    }
    let r = prepare_wallet_op(BdkRequest::ExtractPsbt { wallet: handle(), psbt: text });
    match r {
        Ok(WalletOp::ExtractPsbt { hex }) => {
            let expected: String = serialize(&tx).iter().map(|b| format!("{:02x}", b)).collect();
            assert_eq!(hex, expected);
        }
        _ => panic!("expected an extracted transaction"),
    }
}

#[test]
fn psbt_parse_failures() {
    let r = prepare_wallet_op(BdkRequest::Sign { wallet: handle(), psbt: "%%%".to_string(), assume_height: None });
    assert_eq!(kind_of(r), ErrorKind::ParameterParseFailure);
    let r = prepare_wallet_op(BdkRequest::ExtractPsbt { wallet: handle(), psbt: base64::encode(b"not a psbt") });
    assert_eq!(kind_of(r), ErrorKind::ParameterParseFailure);
}

#[test]
fn broadcast_parsing() {
    let tx = sample_tx();
    let hex = hex_encode(&serialize(&tx));
    match prepare_wallet_op(BdkRequest::Broadcast { wallet: handle(), raw_tx: hex.clone() }) {
        Ok(WalletOp::Broadcast { transaction }) => assert_eq!(transaction, tx),
        _ => panic!("expected a broadcast"),
    }
    let r = prepare_wallet_op(BdkRequest::Broadcast { wallet: handle(), raw_tx: hex[1..].to_string() });
    assert_eq!(kind_of(r), ErrorKind::ParameterParseFailure);
    let r = prepare_wallet_op(BdkRequest::Broadcast { wallet: handle(), raw_tx: "00".to_string() });
    assert_eq!(kind_of(r), ErrorKind::ParameterParseFailure);
}

#[test]
fn word_counts() {
    assert_eq!(mnemonic_words(12), 12);
    assert_eq!(mnemonic_words(24), 24);
    assert_eq!(mnemonic_words(18), 24);
    assert_eq!(mnemonic_words(0), 24);
}

#[test]
fn generate_keys() {
    let r = do_key_call(BdkRequest::GenerateExtendedKey { network: Network::Testnet, word_count: 12, password: None }).unwrap();
    assert_eq!(r.mnemonic.split_whitespace().count(), 12);
    assert!(r.xprv.starts_with("tprv"));
    assert_eq!(r.fingerprint.len(), 8);
    let r = do_key_call(BdkRequest::GenerateExtendedKey { network: Network::Bitcoin, word_count: 15, password: None }).unwrap();
    assert_eq!(r.mnemonic.split_whitespace().count(), 24);
    assert!(r.xprv.starts_with("xprv"));
}

#[test]
fn generated_phrase_restores() {
    let password = Some("pass".to_string());
    let g = do_key_call(BdkRequest::GenerateExtendedKey { network: Network::Testnet, word_count: 24, password: password.clone() }).unwrap();
    let r = do_key_call(BdkRequest::RestoreExtendedKey { network: Network::Testnet, mnemonic: g.mnemonic.clone(), password }).unwrap();
    assert_eq!(r.mnemonic, g.mnemonic);
    assert_eq!(r.xprv, g.xprv);
    assert_eq!(r.fingerprint, g.fingerprint);
}

#[test]
fn restore_keys() {
    let phrase = "abandon abandon abandon abandon abandon abandon abandon abandon abandon abandon abandon about";
    let r = do_key_call(BdkRequest::RestoreExtendedKey { network: Network::Bitcoin, mnemonic: phrase.to_string(), password: None }).unwrap();
    assert_eq!(r.mnemonic, phrase);
    assert_eq!(r.fingerprint, "73c5da0a");
    assert!(r.xprv.starts_with("xprv"));
    let spaced = format!("  {}  ", phrase.replace(' ', "   "));
    let again = do_key_call(BdkRequest::RestoreExtendedKey { network: Network::Bitcoin, mnemonic: spaced, password: None }).unwrap();
    assert_eq!(again.mnemonic, phrase);
    assert_eq!(again.xprv, r.xprv);
    let with_password = do_key_call(BdkRequest::RestoreExtendedKey { network: Network::Bitcoin, mnemonic: phrase.to_string(), password: Some("x".to_string()) }).unwrap();
    assert_ne!(with_password.fingerprint, r.fingerprint);
    let e = do_key_call(BdkRequest::RestoreExtendedKey { network: Network::Bitcoin, mnemonic: "abandon".to_string(), password: None }).unwrap_err();
    assert_eq!(e.kind(), ErrorKind::ParameterParseFailure);
    let e = do_key_call(BdkRequest::GetBalance { wallet: handle() }).unwrap_err();
    assert_eq!(e.kind(), ErrorKind::UnsupportedOperation);
}

#[test]
fn outpoints_match_bitcoin() {
    let upper = TXID.to_uppercase();
    let cases: Vec<String> = vec![
        format!("{}:0", TXID),
        format!("{}:7", TXID),
        format!("{}:4294967295", TXID),
        format!("{}:4294967296", TXID),
        format!("{}:01", TXID),
        format!("{}:+1", TXID),
        format!("{}:", TXID),
        format!("{}:1:2", TXID),
        format!("{}:12", upper),
        format!("{}:1", &TXID[1..]),
        format!("{}0:1", TXID),
        format!(":{}", TXID),
        format!("{}:0000000001", TXID),
        format!("{}:1x", TXID),
        "nonsense".to_string(),
        String::new(),
    ];
    for c in cases {
        let mine = parse_outpoint_text(&c);
        let theirs = OutPoint::from_str(&c).ok();
        match (mine, theirs) {
            (Some((txid, vout)), Some(op)) => {
                assert_eq!(txid, op.txid.into_inner().to_vec(), "{}", c);
                assert_eq!(vout, op.vout, "{}", c);
            }
            (None, None) => {}
            (m, t) => panic!("disagree on {:?}: {:?} vs {:?}", c, m, t),
        }
    }
    let (txid, vout) = parse_outpoint_text(&format!("{}:3", TXID)).unwrap();
    assert_eq!(txid[0], 0x3b);
    assert_eq!(txid[31], 0x4a);
    assert_eq!(vout, 3);
}
