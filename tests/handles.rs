use bdk_jni::dispatch::dispatch_wallet_call;
use bdk_jni::error::{BdkJniError, ErrorKind};
use bdk_jni::handle::{u64_from_be_bytes, u64_to_be_bytes, IntermediatePtr, ObjectKind, OpaquePtr};
use bdk_jni::registry::Registry;
use bdk_jni::request::BdkRequest;

fn text_handle() -> (Registry<String>, IntermediatePtr) {
    let mut reg: Registry<String> = Registry::new(ObjectKind::Text);
    let h = match reg.encode(String::from("HelloWorld!")) {
        Ok(h) => h,
        Err(_) => panic!("the table is not full"),
    };
    (reg, h)
}

fn to_json(h: &IntermediatePtr) -> serde_json::Value {
    let mut obj = serde_json::Map::new();
    obj.insert("raw".to_string(), serde_json::to_value(h.raw).unwrap());
    obj.insert("id".to_string(), serde_json::to_value(h.id).unwrap());
    serde_json::Value::Object(obj)
}

fn from_json(val: &serde_json::Value) -> IntermediatePtr {
    IntermediatePtr {
        raw: serde_json::from_value(val["raw"].clone()).unwrap(),
        id: serde_json::from_value(val["id"].clone()).unwrap(),
    }
}

#[test]
fn test_opaque_ptr() {
    let (_reg, h) = text_handle();
    let val = to_json(&h);
    assert!(val.is_object());
    assert!(val.as_object().unwrap().contains_key("raw"));
    assert!(val.as_object().unwrap().contains_key("id"));
    let deser = from_json(&val);
    assert!(OpaquePtr::convert_from(&deser, ObjectKind::Wallet).is_err());
    assert!(OpaquePtr::convert_from(&deser, ObjectKind::Text).is_ok());
}

#[test]
fn lib_test_opaque_ptr() {
    let (reg, h) = text_handle();
    let copy = from_json(&to_json(&h));
    assert!(OpaquePtr::convert_from(&copy, ObjectKind::Wallet).is_err());
    assert!(OpaquePtr::convert_from(&copy, ObjectKind::Text).is_ok());
    assert_eq!(reg.resolve(&copy).map(|s| s.as_str()), Some("HelloWorld!"));
}

#[test]
fn be_bytes_round_trip() {
    assert_eq!(u64_to_be_bytes(0x0102_0304_0506_0708), [1, 2, 3, 4, 5, 6, 7, 8]);
    assert_eq!(u64_from_be_bytes([1, 2, 3, 4, 5, 6, 7, 8]), 0x0102_0304_0506_0708);
    assert_eq!(u64_from_be_bytes(u64_to_be_bytes(u64::MAX)), u64::MAX);
    assert_eq!(u64_from_be_bytes(u64_to_be_bytes(0)), 0);
}

#[test]
fn convert_from_keeps_address() {
    let h = IntermediatePtr { raw: [0, 0, 0, 1, 0, 0, 0, 2], id: u64_to_be_bytes(ObjectKind::Wallet.tag()) };
    let p = OpaquePtr::convert_from(&h, ObjectKind::Wallet).unwrap();
    assert_eq!(p.raw, 0x0000_0001_0000_0002);
    assert_eq!(p.kind, ObjectKind::Wallet);
    let back = p.to_intermediate();
    assert_eq!(back.raw, h.raw);
    assert_eq!(back.id, h.id);
}

#[test]
fn kinds_have_distinct_tags() {
    assert_ne!(ObjectKind::Wallet.tag(), ObjectKind::Text.tag());
}

#[test]
fn decode_is_stable_and_identical() {
    let (mut reg, h) = text_handle();
    let first = reg.resolve(&h).unwrap();
    let second = reg.resolve(&h).unwrap();
    assert!(std::ptr::eq(first, second));
    let other = reg.encode(String::from("other")).ok().unwrap();
    assert_eq!(reg.resolve(&h).map(|s| s.as_str()), Some("HelloWorld!"));
    assert_eq!(reg.release(&other), Some(String::from("other")));
    assert_eq!(reg.resolve(&h).map(|s| s.as_str()), Some("HelloWorld!"));
}

#[test]
fn forged_handles_rejected() {
    let (reg, h) = text_handle();
    let zero = IntermediatePtr { raw: [0; 8], id: [0; 8] };
    assert!(reg.resolve(&zero).is_none());
    let wrong_tag = IntermediatePtr { raw: h.raw, id: u64_to_be_bytes(ObjectKind::Wallet.tag()) };
    assert!(reg.resolve(&wrong_tag).is_none());
    let random = IntermediatePtr { raw: [0x5a, 0x13, 0xf0, 0x07, 0x99, 0x21, 0x3c, 0xe4], id: h.id };
    assert!(reg.resolve(&random).is_none());
    let mut bad_tag = h;
    bad_tag.id[7] ^= 1;
    assert!(OpaquePtr::convert_from(&bad_tag, ObjectKind::Text).is_err());
    assert!(reg.resolve(&bad_tag).is_none());
}

#[test]
fn release_is_single_use() {
    let (mut reg, h) = text_handle();
    assert_eq!(reg.release(&h), Some(String::from("HelloWorld!")));
    assert!(reg.resolve(&h).is_none());
    assert_eq!(reg.release(&h), None);
    // the freed slot is reused under a new generation
    let again = reg.encode(String::from("next")).ok().unwrap();
    assert_ne!(again.raw, h.raw);
    assert!(reg.resolve(&h).is_none());
    assert_eq!(reg.resolve(&again).map(|s| s.as_str()), Some("next"));
}

#[test]
fn round_trip_for_two_kinds() {
    let mut texts: Registry<String> = Registry::new(ObjectKind::Text);
    let mut wallets: Registry<u32> = Registry::new(ObjectKind::Wallet);
    let t = texts.encode(String::from("a")).ok().unwrap();
    let w = wallets.encode(7).ok().unwrap();
    assert_eq!(t.raw, w.raw);
    assert_eq!(texts.resolve(&t).map(|s| s.as_str()), Some("a"));
    assert_eq!(wallets.resolve(&w), Some(&7));
    assert!(wallets.resolve(&t).is_none());
    assert!(texts.resolve(&w).is_none());
    assert_eq!(texts.kind(), ObjectKind::Text);
}

#[test]
fn insert_get_remove_by_handle() {
    let mut reg: Registry<u64> = Registry::new(ObjectKind::Wallet);
    let a = reg.insert(10).ok().unwrap();
    let b = reg.insert(20).ok().unwrap();
    assert_ne!(a, b);
    assert_eq!(reg.get(&a), Some(&10));
    assert_eq!(reg.get(&b), Some(&20));
    assert_eq!(reg.remove(&a), Some(10));
    assert_eq!(reg.get(&a), None);
    assert_eq!(reg.remove(&a), None);
    let foreign = OpaquePtr { raw: b.raw, kind: ObjectKind::Text };
    assert_eq!(reg.get(&foreign), None);
}

fn balance_of(w: &u64, _req: BdkRequest) -> Result<u64, BdkJniError> {
    Ok(*w)
}

#[test]
fn wallet_lifecycle_through_dispatch() {
    let mut reg: Registry<u64> = Registry::new(ObjectKind::Wallet);
    let h = reg.encode(5000).ok().unwrap();
    let (r, freed) = dispatch_wallet_call(&mut reg, BdkRequest::GetBalance { wallet: h }, balance_of);
    assert_eq!(r.unwrap(), 5000);
    assert!(freed.is_none());
    let (r, freed) = dispatch_wallet_call(&mut reg, BdkRequest::GetBalance { wallet: h }, balance_of);
    assert_eq!(r.unwrap(), 5000);
    assert!(freed.is_none());
    let (r, freed) = dispatch_wallet_call(&mut reg, BdkRequest::Destructor { wallet: h }, |_w: &u64, _req: BdkRequest| Ok(0u64));
    assert!(r.is_ok());
    assert_eq!(freed, Some(5000));
    let (r, freed) = dispatch_wallet_call(&mut reg, BdkRequest::GetBalance { wallet: h }, balance_of);
    let e = r.unwrap_err();
    assert_eq!(e.kind(), ErrorKind::InvalidHandle);
    assert_eq!(e.code(), -1002);
    assert!(freed.is_none());
    let (r, freed) = dispatch_wallet_call(&mut reg, BdkRequest::Destructor { wallet: h }, |_w: &u64, _req: BdkRequest| Ok(0u64));
    assert_eq!(r.unwrap_err().kind(), ErrorKind::InvalidHandle);
    assert!(freed.is_none());
}

#[test]
fn dispatch_refuses_requests_without_handle() {
    let mut reg: Registry<u64> = Registry::new(ObjectKind::Wallet);
    let req = BdkRequest::GenerateExtendedKey { network: bdk::bitcoin::Network::Bitcoin, word_count: 12, password: None };
    let (r, freed) = dispatch_wallet_call(&mut reg, req, balance_of);
    assert_eq!(r.unwrap_err().kind(), ErrorKind::UnsupportedOperation);
    assert!(freed.is_none());
}

#[test]
fn operation_failure_still_destroys() {
    let mut reg: Registry<u64> = Registry::new(ObjectKind::Wallet);
    let h = reg.encode(1).ok().unwrap();
    let (r, freed) = dispatch_wallet_call(&mut reg, BdkRequest::Destructor { wallet: h }, |_w: &u64, _req: BdkRequest| -> Result<u64, BdkJniError> {
        Err(BdkJniError::WalletError(String::from("boom")))
    });
    assert_eq!(r.unwrap_err().kind(), ErrorKind::NativeLibraryFailure);
    assert_eq!(freed, Some(1));
    assert!(reg.resolve(&h).is_none());
}

#[test]
fn error_kinds_and_codes() {
    let cases: Vec<(BdkJniError, ErrorKind, i32)> = vec![
        (BdkJniError::WalletError(String::new()), ErrorKind::NativeLibraryFailure, -1),
        (BdkJniError::ElectrumClientError(String::new()), ErrorKind::NativeLibraryFailure, -1),
        (BdkJniError::ExtKeyError(String::new()), ErrorKind::NativeLibraryFailure, -1),
        (BdkJniError::Serialization(String::new()), ErrorKind::SerializationFailure, -1),
        (BdkJniError::Unsupported(String::new()), ErrorKind::UnsupportedOperation, -1),
        (BdkJniError::InvalidHandle, ErrorKind::InvalidHandle, -1002),
        (BdkJniError::CantOpenDb(String::new(), String::new()), ErrorKind::StorageOpenFailure, -1),
        (BdkJniError::CantOpenTree(String::new(), String::new()), ErrorKind::StorageOpenFailure, -1),
        (BdkJniError::Parsing(String::new()), ErrorKind::ParameterParseFailure, -1),
    ];
    for (e, kind, code) in cases {
        assert_eq!(e.kind(), kind);
        assert_eq!(e.code(), code);
    }
}
