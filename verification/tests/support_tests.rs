use pkcs11::attr::{CkRawAttr, CkRawAttrTemplate, Error as AttrError};
use pkcs11::config::{
    combine_configs, config_file_candidates, password_env_var, P11Config, SlotConfig,
};
use pkcs11::constants;
use pkcs11::der::{der_element, TAG_OCTET_STRING, TAG_SEQUENCE};
use pkcs11::device::is_connected;
use pkcs11::le_bytes::u64_le_bytes;

#[test]
fn constants_agree_with_cryptoki() {
    assert_eq!(constants::CKA_CLASS, cryptoki_sys::CKA_CLASS);
    assert_eq!(constants::CKA_TOKEN, cryptoki_sys::CKA_TOKEN);
    assert_eq!(constants::CKA_PRIVATE, cryptoki_sys::CKA_PRIVATE);
    assert_eq!(constants::CKA_LABEL, cryptoki_sys::CKA_LABEL);
    assert_eq!(constants::CKA_KEY_TYPE, cryptoki_sys::CKA_KEY_TYPE);
    assert_eq!(constants::CKA_ID, cryptoki_sys::CKA_ID);
    assert_eq!(constants::CKA_SENSITIVE, cryptoki_sys::CKA_SENSITIVE);
    assert_eq!(constants::CKA_ENCRYPT, cryptoki_sys::CKA_ENCRYPT);
    assert_eq!(constants::CKA_DECRYPT, cryptoki_sys::CKA_DECRYPT);
    assert_eq!(constants::CKA_WRAP, cryptoki_sys::CKA_WRAP);
    assert_eq!(constants::CKA_UNWRAP, cryptoki_sys::CKA_UNWRAP);
    assert_eq!(constants::CKA_SIGN, cryptoki_sys::CKA_SIGN);
    assert_eq!(constants::CKA_SIGN_RECOVER, cryptoki_sys::CKA_SIGN_RECOVER);
    assert_eq!(constants::CKA_VERIFY, cryptoki_sys::CKA_VERIFY);
    assert_eq!(constants::CKA_DERIVE, cryptoki_sys::CKA_DERIVE);
    assert_eq!(constants::CKA_MODULUS, cryptoki_sys::CKA_MODULUS);
    assert_eq!(constants::CKA_MODULUS_BITS, cryptoki_sys::CKA_MODULUS_BITS);
    assert_eq!(constants::CKA_PUBLIC_EXPONENT, cryptoki_sys::CKA_PUBLIC_EXPONENT);
    assert_eq!(constants::CKA_EXTRACTABLE, cryptoki_sys::CKA_EXTRACTABLE);
    assert_eq!(constants::CKA_LOCAL, cryptoki_sys::CKA_LOCAL);
    assert_eq!(constants::CKA_NEVER_EXTRACTABLE, cryptoki_sys::CKA_NEVER_EXTRACTABLE);
    assert_eq!(constants::CKA_ALWAYS_SENSITIVE, cryptoki_sys::CKA_ALWAYS_SENSITIVE);
    assert_eq!(constants::CKA_KEY_GEN_MECHANISM, cryptoki_sys::CKA_KEY_GEN_MECHANISM);
    assert_eq!(constants::CKA_MODIFIABLE, cryptoki_sys::CKA_MODIFIABLE);
    assert_eq!(constants::CKA_EC_PARAMS, cryptoki_sys::CKA_EC_PARAMS);
    assert_eq!(constants::CKA_EC_POINT, cryptoki_sys::CKA_EC_POINT);
    assert_eq!(constants::CKA_ALWAYS_AUTHENTICATE, cryptoki_sys::CKA_ALWAYS_AUTHENTICATE);
    assert_eq!(constants::CKA_WRAP_WITH_TRUSTED, cryptoki_sys::CKA_WRAP_WITH_TRUSTED);
    assert_eq!(constants::CKO_PUBLIC_KEY, cryptoki_sys::CKO_PUBLIC_KEY);
    assert_eq!(constants::CKO_PRIVATE_KEY, cryptoki_sys::CKO_PRIVATE_KEY);
    assert_eq!(constants::CKK_RSA, cryptoki_sys::CKK_RSA);
    assert_eq!(constants::CKK_EC, cryptoki_sys::CKK_EC);
    assert_eq!(constants::CKK_EC_EDWARDS, cryptoki_sys::CKK_EC_EDWARDS);
    assert_eq!(constants::CKR_OK, cryptoki_sys::CKR_OK);
    assert_eq!(constants::CKR_ATTRIBUTE_SENSITIVE, cryptoki_sys::CKR_ATTRIBUTE_SENSITIVE);
    assert_eq!(constants::CKR_ATTRIBUTE_TYPE_INVALID, cryptoki_sys::CKR_ATTRIBUTE_TYPE_INVALID);
    assert_eq!(constants::CKR_BUFFER_TOO_SMALL, cryptoki_sys::CKR_BUFFER_TOO_SMALL);
    assert_eq!(constants::CK_UNAVAILABLE_INFORMATION, cryptoki_sys::CK_UNAVAILABLE_INFORMATION);
    assert_eq!(constants::CK_TRUE, cryptoki_sys::CK_TRUE);
    assert_eq!(constants::CK_FALSE, cryptoki_sys::CK_FALSE);
}

#[test]
fn le_bytes_match_std() {
    for x in [0u64, 1, 0x0102_0304_0506_0708, u64::MAX, 0x8000_0000_0000_0000] {
        assert_eq!(u64_le_bytes(x), x.to_le_bytes());
    }
}

#[test]
fn der_lengths() {
    assert_eq!(der_element(TAG_OCTET_STRING, &[]), vec![0x04, 0x00]);
    assert_eq!(der_element(TAG_OCTET_STRING, &[7; 127])[..2], [0x04, 0x7f]);
    assert_eq!(der_element(TAG_OCTET_STRING, &[7; 128])[..3], [0x04, 0x81, 0x80]);
    assert_eq!(der_element(TAG_OCTET_STRING, &[7; 256])[..4], [0x04, 0x82, 0x01, 0x00]);
    for n in [0usize, 1, 127, 128, 255, 256, 1000, 70000] {
        let content = vec![0xabu8; n];
        let mine = der_element(TAG_SEQUENCE, &der_element(TAG_OCTET_STRING, &content));
        let theirs = asn1::write_single(&asn1::SequenceOfWriter::new(vec![content.as_slice()])).unwrap();
        assert_eq!(mine, theirs);
    }
}

#[test]
fn raw_attr_writes() {
    let mut a = CkRawAttr::new(1, None, 4);
    assert_eq!(a.set_val_bytes(&[1]), Err(AttrError::NullPtrDeref));
    assert!(a.val_bytes().is_none());
    let mut b = CkRawAttr::new(1, Some(vec![0; 4]), 2);
    assert_eq!(b.val_bytes().unwrap(), &[0, 0]);
    assert_eq!(b.set_val_bytes(&[1, 2, 3]), Err(AttrError::BufTooSmall));
    assert_eq!(b.buffer().unwrap(), &[0, 0, 0, 0]);
    assert_eq!(b.set_val_bytes(&[1, 2]), Ok(()));
    assert_eq!(b.buffer().unwrap(), &[1, 2, 0, 0]);
    b.set_len(9);
    assert_eq!(b.len(), 9);
    assert_eq!(b.val_bytes().unwrap(), &[1, 2, 0, 0]);
    assert_eq!(b.type_(), 1);
    let mut t = CkRawAttrTemplate::new(vec![b]);
    assert_eq!(t.len(), 1);
    t.set_len(0, 3);
    assert_eq!(t.get(0).len(), 3);
    assert_eq!(t.set_val_bytes(0, &[5]), Ok(()));
    assert_eq!(t.get(0).buffer().unwrap(), &[5, 2, 0, 0]);
}

fn slot(label: &str) -> SlotConfig {
    SlotConfig {
        label: label.to_string(),
        description: None,
        url: format!("https://{}", label),
        user: "operator".to_string(),
        password: "secret".to_string(),
    }
}

#[test]
fn merge_configs() {
    let mut a = P11Config::default();
    assert!(a.log_file.is_none());
    assert!(a.slots.is_empty());
    a.merge(P11Config { log_file: Some("/tmp/a.log".to_string()), slots: vec![slot("one")] });
    a.merge(P11Config { log_file: Some("/tmp/b.log".to_string()), slots: vec![slot("two"), slot("three")] });
    assert_eq!(a.log_file.as_deref(), Some("/tmp/a.log"));
    let labels: Vec<&str> = a.slots.iter().map(|s| s.label.as_str()).collect();
    assert_eq!(labels, vec!["one", "two", "three"]);
}

#[test]
fn combine_found_configs() {
    assert!(combine_configs(vec![]).is_none());
    let c = combine_configs(vec![
        P11Config { log_file: None, slots: vec![slot("one")] },
        P11Config { log_file: Some("x".to_string()), slots: vec![] },
        P11Config { log_file: Some("y".to_string()), slots: vec![slot("two")] },
    ])
    .unwrap();
    assert_eq!(c.log_file.as_deref(), Some("x"));
    assert_eq!(c.slots.len(), 2);
    assert_eq!(c.slots[1].label, "two");
}

#[test]
fn candidate_paths() {
    assert_eq!(
        config_file_candidates(None),
        vec!["/etc/nitrokey/p11nethsm.conf".to_string(), "/usr/local/etc/nitrokey/p11nethsm.conf".to_string()]
    );
    assert_eq!(
        config_file_candidates(Some("/home/u")),
        vec![
            "/etc/nitrokey/p11nethsm.conf".to_string(),
            "/usr/local/etc/nitrokey/p11nethsm.conf".to_string(),
            "/home/u/.config/nitrokey/p11nethsm.conf".to_string(),
        ]
    );
}

#[test]
fn password_references() {
    assert_eq!(password_env_var("plain"), None);
    assert_eq!(password_env_var("en:v"), None);
    assert_eq!(password_env_var("env:PASS"), Some("PASS".to_string()));
    assert_eq!(password_env_var("env:env:PASS"), Some("env:PASS".to_string()));
    assert_eq!(password_env_var("env:"), Some("".to_string()));
    assert_eq!(password_env_var("env:ä"), Some("ä".to_string()));
    assert_eq!(password_env_var("xenv:A"), None);
}

#[test]
fn connected_slots() {
    assert!(!is_connected(&vec![]));
    assert!(!is_connected(&vec![None]));
    assert!(!is_connected(&vec![Some(("u".to_string(), None))]));
    assert!(!is_connected(&vec![Some(("u".to_string(), Some(String::new())))]));
    assert!(is_connected(&vec![Some(("u".to_string(), Some("p".to_string())))]));
    assert!(!is_connected(&vec![None, Some(("u".to_string(), Some("p".to_string())))]));
}

#[test]
fn merge_identity_and_grouping() {
    let c = P11Config { log_file: Some("l".to_string()), slots: vec![slot("a")] };
    let mut left = P11Config::default();
    left.merge(c.clone());
    assert_eq!(left.log_file.as_deref(), Some("l"));
    assert_eq!(left.slots.len(), 1);
    let mut right = c.clone();
    right.merge(P11Config::default());
    assert_eq!(right.log_file.as_deref(), Some("l"));
    assert_eq!(right.slots.len(), 1);

    let a = P11Config { log_file: None, slots: vec![slot("a")] };
    let b = P11Config { log_file: Some("b".to_string()), slots: vec![slot("b")] };
    let d = P11Config { log_file: Some("d".to_string()), slots: vec![slot("d")] };
    let mut ab_d = a.clone();
    ab_d.merge(b.clone());
    ab_d.merge(d.clone());
    let mut bd = b.clone();
    bd.merge(d.clone());
    let mut a_bd = a.clone();
    a_bd.merge(bd);
    assert_eq!(ab_d.log_file, a_bd.log_file);
    let l1: Vec<String> = ab_d.slots.iter().map(|s| s.label.clone()).collect();
    let l2: Vec<String> = a_bd.slots.iter().map(|s| s.label.clone()).collect();
    assert_eq!(l1, l2);
}

#[test]
fn le_bytes_distinct() {
    assert_ne!(u64_le_bytes(1), u64_le_bytes(256));
    assert_eq!(u64_le_bytes(256), [0, 1, 0, 0, 0, 0, 0, 0]);
}
