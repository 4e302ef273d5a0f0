use pkcs11::attr::{CkRawAttr, CkRawAttrTemplate};
use pkcs11::constants::{
    CKA_CLASS, CKA_DECRYPT, CKA_DERIVE, CKA_EC_PARAMS, CKA_EC_POINT, CKA_ENCRYPT, CKA_ID,
    CKA_KEY_TYPE, CKA_LABEL, CKA_MODULUS, CKA_MODULUS_BITS, CKA_PRIVATE, CKA_PUBLIC_EXPONENT,
    CKA_SENSITIVE, CKA_SIGN, CKA_TOKEN, CKA_VERIFY, CKK_EC, CKK_EC_EDWARDS, CKK_RSA,
    CKO_PRIVATE_KEY, CKO_PUBLIC_KEY, CKR_ATTRIBUTE_SENSITIVE, CKR_ATTRIBUTE_TYPE_INVALID,
    CKR_BUFFER_TOO_SMALL, CKR_OK, CK_UNAVAILABLE_INFORMATION,
};
use pkcs11::mechanism::Mechanism;
use pkcs11::object::{
    from_key_data, Attr, Error, KeyPublicData, KeyType, Object, ObjectHandle, ObjectKind, PublicKey,
};
use std::collections::HashMap;
use base64::Engine;
use pkcs11::codec::DecodeError as D;

fn rsa_key(modulus: Option<&str>, exponent: Option<&str>) -> PublicKey {
    PublicKey {
        key_type: KeyType::Rsa,
        key: KeyPublicData {
            modulus: modulus.map(|s| s.to_string()),
            public_exponent: exponent.map(|s| s.to_string()),
            data: None,
        },
    }
}

fn ec_key(t: KeyType, data: Option<&str>) -> PublicKey {
    PublicKey {
        key_type: t,
        key: KeyPublicData { modulus: None, public_exponent: None, data: data.map(|s| s.to_string()) },
    }
}

fn bytes_of(o: &Object, t: u64) -> Vec<u8> {
    o.attr(t).expect("attribute present").as_bytes().to_vec()
}

#[test]
fn handle_conversions() {
    let h = ObjectHandle::from(42u64);
    assert_eq!(u64::from(h), 42);
    assert_eq!(usize::from(h), 42usize);
    assert_eq!(u64::from(ObjectHandle::from(7usize)), 7);
    assert_eq!(u64::from(ObjectHandle::from(9u32)), 9);
    assert_eq!(u64::from(ObjectHandle::from(u64::MAX)), u64::MAX);
}

#[test]
fn attr_bytes_and_len() {
    let a = Attr::CkKeyType(0x0102u64.to_le_bytes());
    assert_eq!(a.len(), 8);
    assert_eq!(a.as_bytes(), &[2, 1, 0, 0, 0, 0, 0, 0]);
    assert_eq!(Attr::Sensitive.len(), 0);
    assert_eq!(Attr::Null.as_bytes(), &[] as &[u8]);
    assert_eq!(Attr::Bytes(vec![5, 6, 7]).len(), 3);
}

#[test]
fn attr_equality_is_byte_equality() {
    assert!(Attr::CkBbool([1]) == Attr::Bytes(vec![1]));
    assert!(Attr::CkBbool([1]) != Attr::CkBbool([0]));
    assert!(Attr::Null == Attr::Sensitive);
    assert!(Attr::Bytes(vec![]) == Attr::Null);
    assert!(Attr::Bytes(vec![1, 2]) != Attr::Bytes(vec![1]));
}

#[test]
fn rsa_key_objects() {
    // "AQAB" is 0x01 0x00 0x01, "AAEC" is 0x00 0x01 0x02.
    let objs = from_key_data(rsa_key(Some("AAEC"), Some("AQAB")), "mykey".to_string()).unwrap();
    assert_eq!(objs.len(), 2);
    let public = &objs[0];
    let private = &objs[1];
    assert_eq!(public.id, "mykey");
    assert_eq!(private.id, "mykey");
    assert!(matches!(public.kind(), ObjectKind::Key));
    assert!(matches!(private.kind(), ObjectKind::Key));

    assert_eq!(bytes_of(private, CKA_MODULUS), vec![0, 1, 2]);
    assert_eq!(bytes_of(private, CKA_PUBLIC_EXPONENT), vec![1, 0, 1]);
    assert_eq!(bytes_of(public, CKA_MODULUS), vec![0, 1, 2]);
    assert_eq!(bytes_of(private, CKA_ID), b"mykey".to_vec());
    assert_eq!(bytes_of(private, CKA_LABEL), b"mykey".to_vec());
    assert_eq!(bytes_of(private, CKA_CLASS), CKO_PRIVATE_KEY.to_le_bytes().to_vec());
    assert_eq!(bytes_of(public, CKA_CLASS), CKO_PUBLIC_KEY.to_le_bytes().to_vec());
    assert_eq!(bytes_of(private, CKA_KEY_TYPE), CKK_RSA.to_le_bytes().to_vec());
    assert_eq!(bytes_of(public, CKA_KEY_TYPE), CKK_RSA.to_le_bytes().to_vec());
    assert_eq!(bytes_of(private, CKA_DECRYPT), vec![1]);
    assert_eq!(bytes_of(private, CKA_SIGN), vec![1]);
    assert_eq!(bytes_of(private, CKA_DERIVE), vec![0]);
    assert_eq!(bytes_of(public, CKA_SIGN), vec![0]);
    assert_eq!(bytes_of(public, CKA_ENCRYPT), vec![0]);
    assert_eq!(bytes_of(public, CKA_VERIFY), vec![0]);
    assert_eq!(bytes_of(private, CKA_TOKEN), vec![1]);
    assert_eq!(bytes_of(public, CKA_SENSITIVE), vec![0]);
    assert_eq!(bytes_of(private, CKA_SENSITIVE), vec![1]);
    assert!(matches!(private.attr(CKA_MODULUS_BITS), Some(Attr::Null)));
    assert!(private.attr(CKA_ENCRYPT).is_none());
    assert!(private.attr(CKA_EC_POINT).is_none());
    assert!(private.is_private());
    assert!(!public.is_private());
    assert!(!private.is_mechanism());
}

#[test]
fn ec_key_objects() {
    // "BAEC" is 0x04 0x01 0x02.
    let objs = from_key_data(ec_key(KeyType::EcP256, Some("BAEC")), "ec".to_string()).unwrap();
    let private = &objs[1];
    let public = &objs[0];
    // SEQUENCE { OBJECT IDENTIFIER 1.2.840.10045.3.1.7 }
    assert_eq!(
        bytes_of(private, CKA_EC_PARAMS),
        vec![0x30, 0x0a, 0x06, 0x08, 0x2a, 0x86, 0x48, 0xce, 0x3d, 0x03, 0x01, 0x07]
    );
    // SEQUENCE { OCTET STRING 04 01 02 }
    assert_eq!(bytes_of(private, CKA_EC_POINT), vec![0x30, 0x05, 0x04, 0x03, 0x04, 0x01, 0x02]);
    assert_eq!(bytes_of(public, CKA_EC_POINT), vec![0x30, 0x05, 0x04, 0x03, 0x04, 0x01, 0x02]);
    assert_eq!(bytes_of(private, CKA_KEY_TYPE), CKK_EC.to_le_bytes().to_vec());
    assert_eq!(bytes_of(private, CKA_DERIVE), vec![1]);
    assert_eq!(bytes_of(private, CKA_DECRYPT), vec![0]);
    assert_eq!(bytes_of(public, CKA_DERIVE), vec![0]);
    assert!(private.attr(CKA_MODULUS).is_none());
}

#[test]
fn ed25519_key_objects() {
    let objs = from_key_data(ec_key(KeyType::Curve25519, Some("AAAA")), "ed".to_string()).unwrap();
    let private = &objs[1];
    assert_eq!(bytes_of(private, CKA_KEY_TYPE), CKK_EC_EDWARDS.to_le_bytes().to_vec());
    assert_eq!(bytes_of(&objs[0], CKA_KEY_TYPE), CKK_EC_EDWARDS.to_le_bytes().to_vec());
    // SEQUENCE { OBJECT IDENTIFIER 1.3.101.112 }
    assert_eq!(bytes_of(private, CKA_EC_PARAMS), vec![0x30, 0x05, 0x06, 0x03, 0x2b, 0x65, 0x70]);
    assert_eq!(bytes_of(private, CKA_EC_POINT), vec![0x30, 0x05, 0x04, 0x03, 0, 0, 0]);
}

#[test]
fn p224_p384_p521_params() {
    let p224 = from_key_data(ec_key(KeyType::EcP224, Some("AA==")), "a".to_string()).unwrap();
    assert_eq!(bytes_of(&p224[1], CKA_EC_PARAMS), vec![0x30, 0x07, 0x06, 0x05, 0x2b, 0x81, 0x04, 0x00, 0x21]);
    let p384 = from_key_data(ec_key(KeyType::EcP384, Some("AA==")), "a".to_string()).unwrap();
    assert_eq!(bytes_of(&p384[1], CKA_EC_PARAMS), vec![0x30, 0x07, 0x06, 0x05, 0x2b, 0x81, 0x04, 0x00, 0x22]);
    let p521 = from_key_data(ec_key(KeyType::EcP521, Some("AA==")), "a".to_string()).unwrap();
    assert_eq!(bytes_of(&p521[1], CKA_EC_PARAMS), vec![0x30, 0x07, 0x06, 0x05, 0x2b, 0x81, 0x04, 0x00, 0x23]);
}

#[test]
fn long_ec_point_uses_long_length_form() {
    // 200 zero bytes: 268 characters of Base64 without padding issues.
    let point = vec![0u8; 200];
    let text = base64::engine::general_purpose::STANDARD.encode(&point);
    let objs = from_key_data(ec_key(KeyType::EcP384, Some(&text)), "a".to_string()).unwrap();
    let v = bytes_of(&objs[1], CKA_EC_POINT);
    assert_eq!(&v[..6], &[0x30, 0x81, 0xcb, 0x04, 0x81, 0xc8]);
    assert_eq!(v.len(), 6 + 200);
    let expected = asn1::write_single(&asn1::SequenceOfWriter::new(vec![point.as_slice()])).unwrap();
    assert_eq!(v, expected);
}

#[test]
fn missing_modulus() {
    match from_key_data(rsa_key(None, Some("AQAB")), "k".to_string()) {
        Err(Error::KeyData(s)) => assert_eq!(s, "modulus"),
        other => panic!("unexpected {:?}", other),
    }
}

#[test]
fn missing_exponent() {
    match from_key_data(rsa_key(Some("AQAB"), None), "k".to_string()) {
        Err(Error::KeyData(s)) => assert_eq!(s, "public_exponent"),
        other => panic!("unexpected {:?}", other),
    }
}

#[test]
fn bad_base64() {
    assert!(matches!(from_key_data(rsa_key(Some("!!"), Some("AQAB")), "k".to_string()), Err(Error::Decode(_))));
    assert!(matches!(from_key_data(rsa_key(Some("AQAB"), Some("A")), "k".to_string()), Err(Error::Decode(_))));
    assert!(matches!(from_key_data(ec_key(KeyType::EcP256, Some("*")), "k".to_string()), Err(Error::Decode(_))));
}

#[test]
fn missing_ec_data() {
    match from_key_data(ec_key(KeyType::EcP521, None), "k".to_string()) {
        Err(Error::KeyData(s)) => assert_eq!(s, "data"),
        other => panic!("unexpected {:?}", other),
    }
}

#[test]
fn unsupported_types() {
    for t in [KeyType::Generic, KeyType::EcP256K1, KeyType::BrainpoolP256, KeyType::BrainpoolP384, KeyType::BrainpoolP512] {
        assert!(matches!(from_key_data(ec_key(t, Some("AAAA")), "k".to_string()), Err(Error::UnsupportedType)));
    }
}

fn sample_object(kind: ObjectKind) -> Object {
    let mut attrs = HashMap::new();
    attrs.insert(CKA_CLASS, Attr::CkObjectClass(CKO_PRIVATE_KEY.to_le_bytes()));
    attrs.insert(CKA_ID, Attr::Bytes(b"abc".to_vec()));
    attrs.insert(CKA_SENSITIVE, Attr::Sensitive);
    attrs.insert(CKA_PRIVATE, Attr::Bytes(vec![1]));
    Object::new(attrs, kind, "abc".to_string())
}

fn slot(t: u64, buf: Option<Vec<u8>>) -> CkRawAttr {
    let len = buf.as_ref().map(|b| b.len() as u64).unwrap_or(0);
    CkRawAttr::new(t, buf, len)
}

#[test]
fn match_template() {
    let obj = sample_object(ObjectKind::Key);
    assert!(obj.is_private());
    assert!(obj.match_attr_template(&CkRawAttrTemplate::new(vec![])));
    assert!(obj.match_attr_template(&CkRawAttrTemplate::new(vec![slot(CKA_ID, Some(b"abc".to_vec()))])));
    assert!(!obj.match_attr_template(&CkRawAttrTemplate::new(vec![slot(CKA_ID, Some(b"abd".to_vec()))])));
    assert!(!obj.match_attr_template(&CkRawAttrTemplate::new(vec![slot(CKA_ID, None)])));
    assert!(!obj.match_attr_template(&CkRawAttrTemplate::new(vec![slot(CKA_LABEL, Some(b"abc".to_vec()))])));
    assert!(!obj.match_attr_template(&CkRawAttrTemplate::new(vec![
        slot(CKA_ID, Some(b"abc".to_vec())),
        slot(CKA_CLASS, Some(CKO_PUBLIC_KEY.to_le_bytes().to_vec())),
    ])));
}

#[test]
fn mechanism_needs_class_in_template() {
    let obj = sample_object(ObjectKind::Mechanism(Mechanism { ck_type: 0x1 }));
    assert!(obj.is_mechanism());
    assert!(!obj.match_attr_template(&CkRawAttrTemplate::new(vec![])));
    assert!(!obj.match_attr_template(&CkRawAttrTemplate::new(vec![slot(CKA_ID, Some(b"abc".to_vec()))])));
    assert!(obj.match_attr_template(&CkRawAttrTemplate::new(vec![
        slot(CKA_ID, Some(b"abc".to_vec())),
        slot(CKA_CLASS, Some(CKO_PRIVATE_KEY.to_le_bytes().to_vec())),
    ])));
}

#[test]
fn fill_template_ok() {
    let obj = sample_object(ObjectKind::Key);
    let mut tpl = CkRawAttrTemplate::new(vec![slot(CKA_ID, Some(vec![9; 5])), slot(CKA_CLASS, None)]);
    assert_eq!(obj.fill_attr_template(&mut tpl), CKR_OK);
    let attrs = tpl.into_attrs();
    assert_eq!(attrs[0].len(), 3);
    assert_eq!(attrs[0].buffer().unwrap(), &[b'a', b'b', b'c', 9, 9]);
    assert_eq!(attrs[0].val_bytes().unwrap(), b"abc");
    assert_eq!(attrs[1].len(), 8);
    assert!(attrs[1].buffer().is_none());
}

#[test]
fn fill_template_errors_last_code_wins() {
    let obj = sample_object(ObjectKind::Key);
    let mut tpl = CkRawAttrTemplate::new(vec![
        slot(CKA_LABEL, Some(vec![0; 4])),
        slot(CKA_ID, Some(vec![0; 2])),
        slot(CKA_SENSITIVE, Some(vec![7; 4])),
        slot(CKA_PRIVATE, Some(vec![0; 1])),
    ]);
    assert_eq!(obj.fill_attr_template(&mut tpl), CKR_ATTRIBUTE_SENSITIVE);
    let attrs = tpl.into_attrs();
    assert_eq!(attrs[0].len(), CK_UNAVAILABLE_INFORMATION);
    assert_eq!(attrs[1].len(), CK_UNAVAILABLE_INFORMATION);
    assert_eq!(attrs[1].buffer().unwrap(), &[0, 0]);
    assert_eq!(attrs[2].len(), CK_UNAVAILABLE_INFORMATION);
    assert_eq!(attrs[2].buffer().unwrap(), &[7, 7, 7, 7]);
    assert_eq!(attrs[3].len(), 1);
    assert_eq!(attrs[3].buffer().unwrap(), &[1]);

    let mut tpl = CkRawAttrTemplate::new(vec![slot(CKA_SENSITIVE, None), slot(CKA_ID, Some(vec![0; 2]))]);
    assert_eq!(obj.fill_attr_template(&mut tpl), CKR_BUFFER_TOO_SMALL);
    let mut tpl = CkRawAttrTemplate::new(vec![slot(CKA_ID, Some(vec![0; 2])), slot(CKA_LABEL, None)]);
    assert_eq!(obj.fill_attr_template(&mut tpl), CKR_ATTRIBUTE_TYPE_INVALID);
}

#[test]
fn filled_template_is_found_again() {
    let objs = from_key_data(rsa_key(Some("AAEC"), Some("AQAB")), "mykey".to_string()).unwrap();
    let private = &objs[1];
    let mut tpl = CkRawAttrTemplate::new(vec![
        slot(CKA_ID, Some(vec![0; 16])),
        slot(CKA_MODULUS, Some(vec![0; 16])),
        slot(CKA_CLASS, Some(vec![0; 8])),
    ]);
    assert_eq!(private.fill_attr_template(&mut tpl), CKR_OK);
    assert!(private.match_attr_template(&tpl));
    assert!(!objs[0].match_attr_template(&tpl));
}

#[test]
fn integer_values_decode_back() {
    let objs = from_key_data(rsa_key(Some("AAEC"), Some("AQAB")), "k".to_string()).unwrap();
    let class = bytes_of(&objs[1], CKA_CLASS);
    assert_eq!(u64::from_le_bytes(class.try_into().unwrap()), CKO_PRIVATE_KEY);
    let kt = bytes_of(&objs[0], CKA_KEY_TYPE);
    assert_eq!(u64::from_le_bytes(kt.try_into().unwrap()), CKK_RSA);
}

#[test]
fn errors_follow_the_key_type() {
    // An RSA key without its modulus reports the RSA error even when EC data is present.
    let mut k = rsa_key(None, Some("AQAB"));
    k.key.data = Some("AAAA".to_string());
    match from_key_data(k, "k".to_string()) {
        Err(Error::KeyData(s)) => assert_eq!(s, "modulus"),
        other => panic!("unexpected {:?}", other),
    }
    // A curve key without data reports the EC error even when RSA parts are present.
    let mut k = ec_key(KeyType::EcP256, None);
    k.key.modulus = Some("AQAB".to_string());
    match from_key_data(k, "k".to_string()) {
        Err(Error::KeyData(s)) => assert_eq!(s, "data"),
        other => panic!("unexpected {:?}", other),
    }
}

fn expected_decode_error(text: &str) -> D {
    match base64::engine::general_purpose::STANDARD.decode(text).unwrap_err() {
        base64::DecodeError::InvalidByte(o, b) => D::InvalidByte(o, b),
        base64::DecodeError::InvalidLength(l) => D::InvalidLength(l),
        base64::DecodeError::InvalidLastSymbol { offset, symbol, symbol_value } => {
            D::InvalidLastSymbol { offset, symbol, symbol_value }
        }
        base64::DecodeError::InvalidPadding => D::InvalidPadding,
    }
}

#[test]
fn decode_errors_are_reported_exactly() {
    match from_key_data(rsa_key(Some("!!"), Some("AQAB")), "k".to_string()) {
        Err(Error::Decode(e)) => {
            assert_eq!(e, expected_decode_error("!!"));
            assert_eq!(e, D::InvalidByte(0, b'!'));
        }
        other => panic!("unexpected {:?}", other),
    }
    for text in ["A", "AB", "AQ==x", "AR==", "A=AA"] {
        match from_key_data(rsa_key(Some("AQAB"), Some(text)), "k".to_string()) {
            Err(Error::Decode(e)) => assert_eq!(e, expected_decode_error(text)),
            other => panic!("unexpected {:?} for {}", other, text),
        }
        match from_key_data(ec_key(KeyType::EcP256, Some(text)), "k".to_string()) {
            Err(Error::Decode(e)) => assert_eq!(e, expected_decode_error(text)),
            other => panic!("unexpected {:?} for {}", other, text),
        }
    }
    // Both texts invalid: the modulus is decoded first.
    match from_key_data(rsa_key(Some("A"), Some("!!")), "k".to_string()) {
        Err(Error::Decode(e)) => assert_eq!(e, expected_decode_error("A")),
        other => panic!("unexpected {:?}", other),
    }
}

#[test]
fn integer_constructors_round_trip() {
    for x in [0u64, 1, 0x1234_5678_9abc_def0, u64::MAX] {
        let a = Attr::from_ck_ulong(x);
        assert!(matches!(a, Attr::CkUlong(_)));
        assert_eq!(u64::from_le_bytes(a.as_bytes().try_into().unwrap()), x);
        assert!(matches!(Attr::from_ck_key_type(x), Attr::CkKeyType(_)));
        assert_eq!(Attr::from_ck_object_class(x).as_bytes(), &x.to_le_bytes());
        assert_eq!(Attr::from_ck_mechanism_type(x).as_bytes(), &x.to_le_bytes());
        assert_eq!(Attr::from_ck_cert_type(x).as_bytes(), &x.to_le_bytes());
        assert_eq!(Attr::from_ck_cert_category(x).as_bytes(), &x.to_le_bytes());
    }
    assert_eq!(Attr::from_ck_byte(7).as_bytes(), &[7]);
    assert_eq!(Attr::from_ck_mechanism_type_vec(vec![1, 2]).as_bytes(), &[1, 0, 0, 0, 0, 0, 0, 0, 2, 0, 0, 0, 0, 0, 0, 0]);
}
