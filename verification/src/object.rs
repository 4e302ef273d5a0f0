//! Object and object attribute handling, after PKCS#11 section 4: each
//! object has a handle, a class (private key, public key, mechanism, ...)
//! and, for that class, a set of attributes. The key objects are built from
//! the public key data that the NetHSM reports.
use vstd::prelude::*;
use vstd::bytes::{spec_u64_from_le_bytes, spec_u64_to_le_bytes};
use vstd::std_specs::cmp::PartialEqSpecImpl;
use vstd::std_specs::iter::IteratorSpec;
use vstd::std_specs::convert::{FromSpec, FromSpecImpl};
use crate::le_bytes::{u64_le_bytes, lemma_le_bytes_injective};
use crate::constants::{
    CK_FALSE, CK_TRUE, CK_UNAVAILABLE_INFORMATION, CKA_ALWAYS_AUTHENTICATE, CKA_ALWAYS_SENSITIVE,
    CKA_CLASS, CKA_DECRYPT, CKA_DERIVE, CKA_EC_PARAMS, CKA_EC_POINT, CKA_ENCRYPT, CKA_EXTRACTABLE,
    CKA_ID, CKA_KEY_GEN_MECHANISM, CKA_KEY_TYPE, CKA_LABEL, CKA_LOCAL, CKA_MODIFIABLE, CKA_MODULUS,
    CKA_MODULUS_BITS, CKA_NEVER_EXTRACTABLE, CKA_PRIVATE, CKA_PUBLIC_EXPONENT, CKA_SENSITIVE,
    CKA_SIGN, CKA_SIGN_RECOVER, CKA_TOKEN, CKA_UNWRAP, CKA_VERIFY, CKA_WRAP, CKA_WRAP_WITH_TRUSTED,
    CKK_EC, CKK_EC_EDWARDS, CKK_RSA, CKO_PRIVATE_KEY, CKO_PUBLIC_KEY, CKR_ATTRIBUTE_SENSITIVE,
    CKR_ATTRIBUTE_TYPE_INVALID, CKR_BUFFER_TOO_SMALL, CKR_OK,
};
use crate::codec::{
    base64_decode, base64_standard_decoding, base64_standard_encoding, is_standard_base64,
    lemma_base64_encoding_injective, oid_der_content, oid_from_text, DecodeError,
};
use crate::der::{der_element, der_tlv, TAG_OBJECT_IDENTIFIER, TAG_OCTET_STRING, TAG_SEQUENCE};
use vstd::utf8::encode_utf8;
use vstd::slice::slice_to_vec;
use crate::attr::{CkRawAttrTemplate, RawAttrView, Error as AttrError};
use crate::mechanism::Mechanism;
use std::collections::HashMap;

verus! {

// ---------------------------------------------------------------------------
// Handles
// ---------------------------------------------------------------------------

/// The handle of an object (a `CK_OBJECT_HANDLE`).
#[derive(Clone, Copy, Debug, Hash)]
pub struct ObjectHandle(u64);

impl View for ObjectHandle {
    type V = u64;

    closed spec fn view(&self) -> u64 {
        self.0
    }
}

impl From<u64> for ObjectHandle {
    fn from(src: u64) -> (r: ObjectHandle) {
        ObjectHandle(src)
    }
}

impl FromSpecImpl<u64> for ObjectHandle {
    open spec fn obeys_from_spec() -> bool {
        true
    }

    closed spec fn from_spec(v: u64) -> ObjectHandle {
        ObjectHandle(v)
    }
}

impl From<usize> for ObjectHandle {
    fn from(src: usize) -> (r: ObjectHandle) {
        ObjectHandle(src as u64)
    }
}

impl FromSpecImpl<usize> for ObjectHandle {
    open spec fn obeys_from_spec() -> bool {
        true
    }

    closed spec fn from_spec(v: usize) -> ObjectHandle {
        ObjectHandle(v as u64)
    }
}

impl From<u32> for ObjectHandle {
    fn from(src: u32) -> (r: ObjectHandle) {
        ObjectHandle(src as u64)
    }
}

impl FromSpecImpl<u32> for ObjectHandle {
    open spec fn obeys_from_spec() -> bool {
        true
    }

    closed spec fn from_spec(v: u32) -> ObjectHandle {
        ObjectHandle(v as u64)
    }
}

impl From<ObjectHandle> for u64 {
    fn from(src: ObjectHandle) -> (r: u64) {
        src.0
    }
}

impl FromSpecImpl<ObjectHandle> for u64 {
    open spec fn obeys_from_spec() -> bool {
        true
    }

    closed spec fn from_spec(v: ObjectHandle) -> u64 {
        v.0
    }
}

impl From<ObjectHandle> for usize {
    fn from(src: ObjectHandle) -> (r: usize) {
        src.0 as usize
    }
}

impl FromSpecImpl<ObjectHandle> for usize {
    open spec fn obeys_from_spec() -> bool {
        true
    }

    closed spec fn from_spec(v: ObjectHandle) -> usize {
        v.0 as usize
    }
}

/// What the conversions between handles and integers do: a handle made from
/// an integer holds that integer, and a handle converts back to the integer
/// it holds (to `usize` by truncation on a platform whose `usize` is
/// narrower than 64 bits).
pub proof fn lemma_handle_conversions(x: u64, y: usize, z: u32, h: ObjectHandle)
    ensures
        <ObjectHandle as FromSpec<u64>>::from_spec(x)@ == x,
        <ObjectHandle as FromSpec<usize>>::from_spec(y)@ == y as u64,
        <ObjectHandle as FromSpec<u32>>::from_spec(z)@ == z as u64,
        <u64 as FromSpec<ObjectHandle>>::from_spec(h) == h@,
        <usize as FromSpec<ObjectHandle>>::from_spec(h) == h@ as usize,
{
}

/// Converting a `CK_OBJECT_HANDLE` to a handle and back gives it back
/// unchanged, and so does a round trip through `usize` of a `usize`.
pub proof fn lemma_handle_round_trip(x: u64, y: usize)
    ensures
        <u64 as FromSpec<ObjectHandle>>::from_spec(<ObjectHandle as FromSpec<u64>>::from_spec(x)) == x,
        <usize as FromSpec<ObjectHandle>>::from_spec(<ObjectHandle as FromSpec<usize>>::from_spec(y)) == y,
{
}


// ---------------------------------------------------------------------------
// Attribute values
// ---------------------------------------------------------------------------

/// The value of an attribute, in the byte layout that PKCS#11 callers read
/// (native little-endian integers on this platform).
#[derive(Debug, Clone)]
pub enum Attr {
    /// A byte string.
    Bytes(Vec<u8>),
    /// A `CK_BBOOL`.
    CkBbool([u8; 1]),
    /// A `CK_BYTE`.
    CkByte([u8; 1]),
    /// A `CK_KEY_TYPE`.
    CkKeyType([u8; 8]),
    /// A `CK_CERTIFICATE_TYPE`.
    CkCertType([u8; 8]),
    /// A certificate category (a `CK_ULONG`).
    CkCertCategory([u8; 8]),
    /// A `CK_MECHANISM_TYPE`.
    CkMechanismType([u8; 8]),
    /// A `CK_OBJECT_CLASS`.
    CkObjectClass([u8; 8]),
    /// A `CK_ULONG`.
    CkUlong([u8; 8]),
    /// A value that is never revealed.
    Sensitive,
    /// An empty value.
    Null,
}

/// An attribute value: its variant and its bytes.
pub enum AttrValue {
    Bytes(Seq<u8>),
    CkBbool(Seq<u8>),
    CkByte(Seq<u8>),
    CkKeyType(Seq<u8>),
    CkCertType(Seq<u8>),
    CkCertCategory(Seq<u8>),
    CkMechanismType(Seq<u8>),
    CkObjectClass(Seq<u8>),
    CkUlong(Seq<u8>),
    Sensitive,
    Null,
}

impl AttrValue {
    /// The bytes a caller reads for this value (none for `Sensitive` and
    /// `Null`).
    pub open spec fn bytes(self) -> Seq<u8> {
        match self {
            AttrValue::Bytes(b) => b,
            AttrValue::CkBbool(b) => b,
            AttrValue::CkByte(b) => b,
            AttrValue::CkKeyType(b) => b,
            AttrValue::CkCertType(b) => b,
            AttrValue::CkCertCategory(b) => b,
            AttrValue::CkMechanismType(b) => b,
            AttrValue::CkObjectClass(b) => b,
            AttrValue::CkUlong(b) => b,
            AttrValue::Sensitive => Seq::empty(),
            AttrValue::Null => Seq::empty(),
        }
    }
}

impl View for Attr {
    type V = AttrValue;

    open spec fn view(&self) -> AttrValue {
        match self {
            Attr::Bytes(v) => AttrValue::Bytes(v@),
            Attr::CkBbool(v) => AttrValue::CkBbool(v@),
            Attr::CkByte(v) => AttrValue::CkByte(v@),
            Attr::CkKeyType(v) => AttrValue::CkKeyType(v@),
            Attr::CkCertType(v) => AttrValue::CkCertType(v@),
            Attr::CkCertCategory(v) => AttrValue::CkCertCategory(v@),
            Attr::CkMechanismType(v) => AttrValue::CkMechanismType(v@),
            Attr::CkObjectClass(v) => AttrValue::CkObjectClass(v@),
            Attr::CkUlong(v) => AttrValue::CkUlong(v@),
            Attr::Sensitive => AttrValue::Sensitive,
            Attr::Null => AttrValue::Null,
        }
    }
}

/// The `CK_BBOOL` value of `b`.
pub open spec fn bool_value(b: bool) -> AttrValue {
    AttrValue::CkBbool(seq![if b { CK_TRUE } else { CK_FALSE }])
}

/// The `CK_KEY_TYPE` value `k`.
pub open spec fn key_type_value(k: u64) -> AttrValue {
    AttrValue::CkKeyType(spec_u64_to_le_bytes(k))
}

/// The `CK_OBJECT_CLASS` value `c`.
pub open spec fn object_class_value(c: u64) -> AttrValue {
    AttrValue::CkObjectClass(spec_u64_to_le_bytes(c))
}

/// The `CK_MECHANISM_TYPE` value `m`.
pub open spec fn mechanism_type_value(m: u64) -> AttrValue {
    AttrValue::CkMechanismType(spec_u64_to_le_bytes(m))
}

/// The concatenated little-endian images of the mechanism types `ms`.
pub open spec fn mechanism_list_bytes(ms: Seq<u64>) -> Seq<u8>
    decreases ms.len(),
{
    if ms.len() == 0 {
        Seq::empty()
    } else {
        mechanism_list_bytes(ms.drop_last()) + spec_u64_to_le_bytes(ms.last())
    }
}

/// Whether `a` and `b` hold the same bytes.
fn bytes_equal(a: &[u8], b: &[u8]) -> (r: bool)
    ensures
        r == (a@ == b@),
{
    if a.len() != b.len() {
        return false;
    }
    let n = a.len();
    let mut i: usize = 0;
    while i < n
        invariant
            0 <= i <= n,
            n == a@.len(),
            n == b@.len(),
            forall|k: int| 0 <= k < i ==> a@[k] == b@[k],
        decreases n - i,
    {
        if a[i] != b[i] {
            return false;
        }
        i = i + 1;
    }
    assert(a@ =~= b@);
    true
}

impl Attr {
    /// `CK_TRUE` as an attribute value.
    fn ck_true() -> (r: Attr)
        ensures
            r@ == bool_value(true),
    {
        let r = Attr::CkBbool([CK_TRUE; 1]);
        assert(r@ == bool_value(true)) by {
            if let Attr::CkBbool(v) = r {
                assert(v@ =~= seq![CK_TRUE]);
            }
        }
        r
    }

    /// `CK_FALSE` as an attribute value.
    fn ck_false() -> (r: Attr)
        ensures
            r@ == bool_value(false),
    {
        let r = Attr::CkBbool([CK_FALSE; 1]);
        assert(r@ == bool_value(false)) by {
            if let Attr::CkBbool(v) = r {
                assert(v@ =~= seq![CK_FALSE]);
            }
        }
        r
    }

    /// The number of bytes a caller reads for this value.
    pub fn len(&self) -> (r: usize)
        ensures
            r == self@.bytes().len(),
    {
        match self {
            Attr::CkBbool(v) => v.len(),
            Attr::CkByte(v) => v.len(),
            Attr::CkKeyType(v) => v.len(),
            Attr::CkCertType(v) => v.len(),
            Attr::CkCertCategory(v) => v.len(),
            Attr::CkMechanismType(v) => v.len(),
            Attr::CkObjectClass(v) => v.len(),
            Attr::CkUlong(v) => v.len(),
            Attr::Bytes(v) => v.len(),
            Attr::Sensitive => 0,
            Attr::Null => 0,
        }
    }

    /// The bytes a caller reads for this value.
    pub fn as_bytes(&self) -> (r: &[u8])
        ensures
            r@ == self@.bytes(),
    {
        match self {
            Attr::CkBbool(v) => v.as_slice(),
            Attr::CkByte(v) => v.as_slice(),
            Attr::CkKeyType(v) => v.as_slice(),
            Attr::CkCertType(v) => v.as_slice(),
            Attr::CkCertCategory(v) => v.as_slice(),
            Attr::CkMechanismType(v) => v.as_slice(),
            Attr::CkObjectClass(v) => v.as_slice(),
            Attr::CkUlong(v) => v.as_slice(),
            Attr::Bytes(v) => v.as_slice(),
            Attr::Sensitive => &[],
            Attr::Null => &[],
        }
    }

    /// A copy of this value.
    fn duplicate(&self) -> (r: Attr)
        ensures
            r@ == self@,
    {
        match self {
            Attr::Bytes(v) => {
                let c = v.clone();
                assert(c@ =~= v@);
                Attr::Bytes(c)
            },
            Attr::CkBbool(v) => Attr::CkBbool(*v),
            Attr::CkByte(v) => Attr::CkByte(*v),
            Attr::CkKeyType(v) => Attr::CkKeyType(*v),
            Attr::CkCertType(v) => Attr::CkCertType(*v),
            Attr::CkCertCategory(v) => Attr::CkCertCategory(*v),
            Attr::CkMechanismType(v) => Attr::CkMechanismType(*v),
            Attr::CkObjectClass(v) => Attr::CkObjectClass(*v),
            Attr::CkUlong(v) => Attr::CkUlong(*v),
            Attr::Sensitive => Attr::Sensitive,
            Attr::Null => Attr::Null,
        }
    }

    /// The `CK_BYTE` value `src`.
    pub fn from_ck_byte(src: u8) -> (r: Attr)
        ensures
            r@ == AttrValue::CkByte(seq![src]),
    {
        let r = Attr::CkByte([src; 1]);
        assert(r@ == AttrValue::CkByte(seq![src])) by {
            if let Attr::CkByte(v) = r {
                assert(v@ =~= seq![src]);
            }
        }
        r
    }

    /// The `CK_KEY_TYPE` value `src`.
    pub fn from_ck_key_type(src: u64) -> (r: Attr)
        ensures
            r@ == key_type_value(src),
            spec_u64_from_le_bytes(r@.bytes()) == src,
    {
        proof {
            lemma_le_bytes_injective(src, src);
        }
        Attr::CkKeyType(u64_le_bytes(src))
    }

    /// The `CK_CERTIFICATE_TYPE` value `src`.
    pub fn from_ck_cert_type(src: u64) -> (r: Attr)
        ensures
            r@ == AttrValue::CkCertType(spec_u64_to_le_bytes(src)),
            spec_u64_from_le_bytes(r@.bytes()) == src,
    {
        proof {
            lemma_le_bytes_injective(src, src);
        }
        Attr::CkCertType(u64_le_bytes(src))
    }

    /// The certificate category `src`.
    pub fn from_ck_cert_category(src: u64) -> (r: Attr)
        ensures
            r@ == AttrValue::CkCertCategory(spec_u64_to_le_bytes(src)),
            spec_u64_from_le_bytes(r@.bytes()) == src,
    {
        proof {
            lemma_le_bytes_injective(src, src);
        }
        Attr::CkCertCategory(u64_le_bytes(src))
    }

    /// The `CK_MECHANISM_TYPE` value `src`.
    pub fn from_ck_mechanism_type(src: u64) -> (r: Attr)
        ensures
            r@ == mechanism_type_value(src),
            spec_u64_from_le_bytes(r@.bytes()) == src,
    {
        proof {
            lemma_le_bytes_injective(src, src);
        }
        Attr::CkMechanismType(u64_le_bytes(src))
    }

    /// The list of mechanism types `src` as one byte string: the
    /// little-endian images of its members, in order.
    pub fn from_ck_mechanism_type_vec(src: Vec<u64>) -> (r: Attr)
        ensures
            r@ == AttrValue::Bytes(mechanism_list_bytes(src@)),
    {
        let mut out: Vec<u8> = Vec::new();
        let mut i: usize = 0;
        while i < src.len()
            invariant
                0 <= i <= src@.len(),
                out@ == mechanism_list_bytes(src@.take(i as int)),
            decreases src@.len() - i,
        {
            let b = u64_le_bytes(src[i]);
            out.extend_from_slice(b.as_slice());
            assert(src@.take(i + 1).drop_last() =~= src@.take(i as int));
            i = i + 1;
        }
        assert(src@.take(src@.len() as int) =~= src@);
        Attr::Bytes(out)
    }

    /// The `CK_OBJECT_CLASS` value `src`.
    pub fn from_ck_object_class(src: u64) -> (r: Attr)
        ensures
            r@ == object_class_value(src),
            spec_u64_from_le_bytes(r@.bytes()) == src,
    {
        proof {
            lemma_le_bytes_injective(src, src);
        }
        Attr::CkObjectClass(u64_le_bytes(src))
    }

    /// The `CK_ULONG` value `src`.
    pub fn from_ck_ulong(src: u64) -> (r: Attr)
        ensures
            r@ == AttrValue::CkUlong(spec_u64_to_le_bytes(src)),
            spec_u64_from_le_bytes(r@.bytes()) == src,
    {
        proof {
            lemma_le_bytes_injective(src, src);
        }
        Attr::CkUlong(u64_le_bytes(src))
    }
}

/// Two attribute values are equal when a caller reads the same bytes from
/// them, whatever their variants.
impl PartialEq<Attr> for Attr {
    fn eq(&self, other: &Attr) -> (r: bool) {
        bytes_equal(self.as_bytes(), other.as_bytes())
    }
}

impl PartialEqSpecImpl<Attr> for Attr {
    open spec fn obeys_eq_spec() -> bool {
        true
    }

    open spec fn eq_spec(&self, other: &Attr) -> bool {
        self@.bytes() == other@.bytes()
    }
}


// ---------------------------------------------------------------------------
// Objects
// ---------------------------------------------------------------------------

/// The class of an object.
#[derive(Clone, Copy, Debug, PartialEq, Eq, Structural)]
pub enum ObjectKind {
    Mechanism(Mechanism),
    Data,
    Key,
    Certificate,
}

/// An object of the token: its attributes by type, its class and the id of
/// the NetHSM key it stands for.
#[derive(Debug, Clone)]
pub struct Object {
    attrs: HashMap<u64, Attr>,
    kind: ObjectKind,
    pub id: String,
}

/// What an object holds: its attribute values by attribute type, its class
/// and its id.
pub struct ObjectView {
    pub attrs: Map<u64, AttrValue>,
    pub kind: ObjectKind,
    pub id: Seq<char>,
}

/// The values of a map of attributes.
pub open spec fn attr_values(m: Map<u64, Attr>) -> Map<u64, AttrValue> {
    m.map_values(|a: Attr| a@)
}

impl View for Object {
    type V = ObjectView;

    closed spec fn view(&self) -> ObjectView {
        ObjectView { attrs: attr_values(self.attrs@), kind: self.kind, id: self.id@ }
    }
}

/// The public and the private object of one key.
#[derive(Debug, Clone)]
pub struct KeyPair {
    pub public_key: Object,
    pub private_key: Object,
}

/// Whether the template slot `slot` asks for an attribute that `attrs`
/// holds, and offers exactly its bytes.
pub open spec fn slot_matches(attrs: Map<u64, AttrValue>, slot: RawAttrView) -> bool {
    &&& attrs.contains_key(slot.attr_type)
    &&& slot.offered() == Some(attrs[slot.attr_type].bytes())
}

/// Whether an object matches a search template: every slot matches one of
/// its attributes, and a mechanism object is only matched by a template
/// that names its class (PKCS#11 v2.40: mechanism objects only match
/// templates that give `CKA_CLASS` explicitly).
pub open spec fn template_matches(obj: ObjectView, tpl: Seq<RawAttrView>) -> bool {
    &&& forall|i: int| 0 <= i < tpl.len() ==> slot_matches(obj.attrs, #[trigger] tpl[i])
    &&& (obj.kind is Mechanism ==> exists|i: int|
        0 <= i < tpl.len() && (#[trigger] tpl[i]).attr_type == CKA_CLASS)
}

/// The return value that reading the slot `slot` from `attrs` reports, if
/// it reports one: the type is unknown, the value is sensitive, or the
/// slot's buffer is too small.
pub open spec fn slot_code(attrs: Map<u64, AttrValue>, slot: RawAttrView) -> Option<u64> {
    if !attrs.contains_key(slot.attr_type) {
        Some(CKR_ATTRIBUTE_TYPE_INVALID)
    } else if attrs[slot.attr_type] is Sensitive {
        Some(CKR_ATTRIBUTE_SENSITIVE)
    } else if slot.value is Some && slot.capacity() < attrs[slot.attr_type].bytes().len() {
        Some(CKR_BUFFER_TOO_SMALL)
    } else {
        None
    }
}

/// The slot `slot` after its attribute was read from `attrs`: where a code
/// is reported its length field becomes `CK_UNAVAILABLE_INFORMATION`; else
/// its length field becomes the length of the value, and the value is
/// written at the start of its buffer, if it has one.
pub open spec fn filled_slot(attrs: Map<u64, AttrValue>, slot: RawAttrView) -> RawAttrView {
    if slot_code(attrs, slot) is Some {
        RawAttrView { len: CK_UNAVAILABLE_INFORMATION, ..slot }
    } else {
        let v = attrs[slot.attr_type].bytes();
        RawAttrView {
            value: match slot.value {
                Some(b) => Some(v + b.skip(v.len() as int)),
                None => None,
            },
            len: v.len() as u64,
            ..slot
        }
    }
}

/// The return value of reading the template `tpl` from `attrs`: the code of
/// the last slot that reports one, or `CKR_OK` where none does.
pub open spec fn template_code(attrs: Map<u64, AttrValue>, tpl: Seq<RawAttrView>) -> u64
    decreases tpl.len(),
{
    if tpl.len() == 0 {
        CKR_OK
    } else {
        match slot_code(attrs, tpl.last()) {
            Some(c) => c,
            None => template_code(attrs, tpl.drop_last()),
        }
    }
}

impl Object {
    /// The object with attributes `attrs`, class `kind` and id `id`.
    pub fn new(attrs: HashMap<u64, Attr>, kind: ObjectKind, id: String) -> (r: Object)
        ensures
            r@ == (ObjectView { attrs: attr_values(attrs@), kind, id: id@ }),
    {
        Object { attrs, kind, id }
    }

    /// The value of the attribute of type `attr_type`, if the object has it.
    pub fn attr(&self, attr_type: u64) -> (r: Option<&Attr>)
        ensures
            match r {
                Some(a) => self@.attrs.contains_key(attr_type) && self@.attrs[attr_type] == a@,
                None => !self@.attrs.contains_key(attr_type),
            },
    {
        broadcast use vstd::std_specs::hash::group_hash_axioms;
        self.attrs.get(&attr_type)
    }

    /// The class of the object.
    pub fn kind(&self) -> (r: &ObjectKind)
        ensures
            *r == self@.kind,
    {
        &self.kind
    }

    /// Whether the object is private: its `CKA_PRIVATE` reads as `CK_TRUE`.
    pub fn is_private(&self) -> (r: bool)
        ensures
            r == (self@.attrs.contains_key(CKA_PRIVATE) && self@.attrs[CKA_PRIVATE].bytes()
                == seq![CK_TRUE]),
    {
        match self.attr(CKA_PRIVATE) {
            Some(attr) => {
                let t = Attr::ck_true();
                *attr == t
            },
            _ => false,
        }
    }

    /// Whether the object is a mechanism.
    pub fn is_mechanism(&self) -> (r: bool)
        ensures
            r == (self@.kind is Mechanism),
    {
        match self.kind {
            ObjectKind::Mechanism(_) => true,
            _ => false,
        }
    }

    /// Whether the object matches the search template `tpl`.
    pub fn match_attr_template(&self, tpl: &CkRawAttrTemplate) -> (r: bool)
        ensures
            r == template_matches(self@, tpl@),
    {
        let mut class_matched = false;
        let n = tpl.len();
        let mut i: usize = 0;
        while i < n
            invariant
                0 <= i <= n,
                n == tpl@.len(),
                forall|k: int| 0 <= k < i ==> slot_matches(self@.attrs, #[trigger] tpl@[k]),
                class_matched == exists|k: int| 0 <= k < i && (#[trigger] tpl@[k]).attr_type == CKA_CLASS,
            decreases n - i,
        {
            let raw_attr = tpl.get(i);
            match self.attr(raw_attr.type_()) {
                Some(attr) => match raw_attr.val_bytes() {
                    Some(raw_bytes) => {
                        if !bytes_equal(attr.as_bytes(), raw_bytes) {
                            assert(!slot_matches(self@.attrs, tpl@[i as int]));
                            return false;
                        }
                    },
                    None => {
                        assert(!slot_matches(self@.attrs, tpl@[i as int]));
                        return false;
                    },
                },
                None => {
                    assert(!slot_matches(self@.attrs, tpl@[i as int]));
                    return false;
                },
            };
            class_matched = class_matched || (raw_attr.type_() == CKA_CLASS);
            i = i + 1;
        }
        if self.is_mechanism() {
            class_matched
        } else {
            true
        }
    }

    /// Reads the object's attributes into the slots of `tpl`, as
    /// `C_GetAttributeValue` does, and returns the code of the last slot that
    /// reports one, or `CKR_OK`.
    pub fn fill_attr_template(&self, tpl: &mut CkRawAttrTemplate) -> (r: u64)
        ensures
            final(tpl)@ == old(tpl)@.map_values(|s: RawAttrView| filled_slot(self@.attrs, s)),
            r == template_code(self@.attrs, old(tpl)@),
    {
        let mut rcode = CKR_OK;
        let n = tpl.len();
        let mut i: usize = 0;
        while i < n
            invariant
                0 <= i <= n,
                n == tpl@.len(),
                n == old(tpl)@.len(),
                forall|k: int| 0 <= k < i ==> #[trigger] tpl@[k] == filled_slot(self@.attrs, old(tpl)@[k]),
                forall|k: int| i <= k < n ==> #[trigger] tpl@[k] == old(tpl)@[k],
                rcode == template_code(self@.attrs, old(tpl)@.take(i as int)),
            decreases n - i,
        {
            let ghost slot = tpl@[i as int];
            let ghost before = tpl@;
            let t = tpl.get(i).type_();
            match self.attr(t) {
                Some(attr) => {
                    match attr {
                        Attr::Sensitive => {
                            rcode = CKR_ATTRIBUTE_SENSITIVE;
                            tpl.set_len(i, CK_UNAVAILABLE_INFORMATION);
                        },
                        a => {
                            let sres = tpl.set_val_bytes(i, a.as_bytes());
                            match sres {
                                Err(AttrError::BufTooSmall) => {
                                    rcode = CKR_BUFFER_TOO_SMALL;
                                    tpl.set_len(i, CK_UNAVAILABLE_INFORMATION);
                                },
                                _ => {
                                    let l = attr.len();
                                    tpl.set_len(i, l as u64);
                                },
                            }
                        },
                    }
                },
                None => {
                    rcode = CKR_ATTRIBUTE_TYPE_INVALID;
                    tpl.set_len(i, CK_UNAVAILABLE_INFORMATION);
                },
            }
            assert(old(tpl)@.take(i + 1).drop_last() =~= old(tpl)@.take(i as int));
            assert(tpl@ =~= before.update(i as int, filled_slot(self@.attrs, slot)));
            i = i + 1;
        }
        assert(old(tpl)@.take(n as int) =~= old(tpl)@);
        assert(tpl@ =~= old(tpl)@.map_values(|s: RawAttrView| filled_slot(self@.attrs, s)));
        rcode
    }
}


/// Puts every attribute of `src` into `dst`, replacing the value of a type
/// that `dst` already holds.
fn extend_attrs(dst: &mut HashMap<u64, Attr>, src: &HashMap<u64, Attr>)
    ensures
        attr_values(final(dst)@) == attr_values(old(dst)@).union_prefer_right(attr_values(src@)),
{
    broadcast use vstd::std_specs::hash::group_hash_axioms;

    let keys = src.keys();
    let ghost ks = keys.remaining().unref();
    assert(ks.to_set() == src@.dom());
    let ghost mut n: int = 0;
    for k in it: keys
        invariant
            it.seq().unref() == ks,
            ks.to_set() == src@.dom(),
            n == it.index(),
            attr_values(dst@) == attr_values(old(dst)@).union_prefer_right(
                attr_values(src@).restrict(ks.take(n).to_set()),
            ),
    {
        let ghost done = ks.take(n).to_set();
        assert(ks[n] == *k);
        assert(src@.dom().contains(*k));
        let ghost before = dst@;
        let v = src.get(k).unwrap();
        assert(src@[*k] == *v);
        let d = v.duplicate();
        dst.insert(*k, d);
        assert(dst@ == before.insert(*k, d));
        assert(attr_values(dst@) =~= attr_values(before).insert(*k, v@));
        assert(attr_values(src@).restrict(done.insert(*k)) =~= attr_values(src@).restrict(done).insert(*k, v@));
        assert(ks.take(n + 1).to_set() =~= done.insert(*k)) by {
            let t = ks.take(n + 1);
            assert(t.drop_last() =~= ks.take(n));
            assert(t.last() == *k);
            assert forall|x: u64| t.to_set().contains(x) <==> done.insert(*k).contains(x) by {
                if t.contains(x) {
                    let j = choose|j: int| 0 <= j < t.len() && t[j] == x;
                    if j < n {
                        assert(ks.take(n)[j] == x);
                        assert(ks.take(n).contains(x));
                    }
                }
                if ks.take(n).contains(x) {
                    let j = choose|j: int| 0 <= j < n && ks.take(n)[j] == x;
                    assert(t[j] == x);
                }
                if x == *k {
                    assert(t[n] == x);
                }
            }
        }
        assert(attr_values(dst@) =~= attr_values(old(dst)@).union_prefer_right(
            attr_values(src@).restrict(done.insert(*k))));
        proof { n = n + 1; }
    }
    assert(n == ks.len());
    assert(ks.take(n) =~= ks);
    assert(attr_values(src@).restrict(src@.dom()) =~= attr_values(src@));
}


// ---------------------------------------------------------------------------
// Key objects from NetHSM key data
// ---------------------------------------------------------------------------

/// The type of a NetHSM key.
#[derive(Clone, Copy, Debug, PartialEq, Eq, Structural)]
pub enum KeyType {
    Rsa,
    Curve25519,
    EcP224,
    EcP256,
    EcP384,
    EcP521,
    EcP256K1,
    BrainpoolP256,
    BrainpoolP384,
    BrainpoolP512,
    Generic,
}

/// The public parts of a NetHSM key, Base64 encoded: the modulus and the
/// public exponent of an RSA key, the public point of an elliptic-curve key.
#[derive(Clone, Debug)]
pub struct KeyPublicData {
    pub modulus: Option<String>,
    pub public_exponent: Option<String>,
    pub data: Option<String>,
}

/// The public key of a NetHSM key, as the NetHSM reports it.
#[derive(Clone, Debug)]
pub struct PublicKey {
    pub key_type: KeyType,
    pub key: KeyPublicData,
}

/// Why key objects could not be built from NetHSM key data.
#[derive(Debug)]
pub enum Error {
    /// A part of the key data is missing or unusable; the text names it.
    KeyData(String),
    /// A Base64 text of the key data does not decode.
    Decode(DecodeError),
    /// A DER value could not be written.
    Asn1Write(asn1::WriteError),
    /// A DER value could not be parsed.
    Asn1Parse(asn1::ParseError),
    /// The key type has no key objects.
    UnsupportedType,
}

/// The object identifier, in dotted form, of the curve of an
/// elliptic-curve key type.
pub open spec fn curve_oid_text(t: KeyType) -> Option<Seq<char>> {
    match t {
        KeyType::EcP224 => Some("1.3.132.0.33"@),
        KeyType::EcP256 => Some("1.2.840.10045.3.1.7"@),
        KeyType::EcP384 => Some("1.3.132.0.34"@),
        KeyType::EcP521 => Some("1.3.132.0.35"@),
        KeyType::Curve25519 => Some("1.3.101.112"@),
        _ => None,
    }
}

/// Whether the key type is one that key objects are built for through its
/// curve.
pub open spec fn is_ec_key_type(t: KeyType) -> bool {
    t is Curve25519 || t is EcP224 || t is EcP256 || t is EcP384 || t is EcP521
}

/// The `CK_KEY_TYPE` of an elliptic-curve key type.
pub open spec fn ec_ck_key_type(t: KeyType) -> u64 {
    if t is Curve25519 {
        CKK_EC_EDWARDS
    } else {
        CKK_EC
    }
}

/// Why building key objects fails, up to the value of a decoding error.
pub enum KeyFailure {
    /// `Error::KeyData` with this text.
    KeyData(Seq<char>),
    /// `Error::Decode` with this decoding error.
    Decode(DecodeError),
    /// `Error::UnsupportedType`.
    UnsupportedType,
}

/// Whether the error `e` is the failure `f`.
pub open spec fn error_is(e: Error, f: KeyFailure) -> bool {
    match (e, f) {
        (Error::KeyData(s), KeyFailure::KeyData(t)) => s@ == t,
        (Error::Decode(d), KeyFailure::Decode(g)) => d == g,
        (Error::UnsupportedType, KeyFailure::UnsupportedType) => true,
        _ => false,
    }
}

/// What the Base64 text `s` decodes to.
pub open spec fn decoded(s: String) -> Result<Seq<u8>, DecodeError> {
    base64_standard_decoding(encode_utf8(s@))
}

/// What the OID of the curve of `t` encodes to: the DER content of its
/// object identifier, or the failure.
pub open spec fn curve_oid(t: KeyType) -> Result<Seq<u8>, KeyFailure> {
    match curve_oid_text(t) {
        None => Err(KeyFailure::KeyData("key_type"@)),
        Some(text) => match oid_der_content(text) {
            None => Err(KeyFailure::KeyData("parsing key"@)),
            Some(c) => Ok(c),
        },
    }
}

/// The attributes that every private key object starts with.
pub open spec fn common_private_attrs(id: Seq<u8>) -> Map<u64, AttrValue> {
    Map::empty()
        .insert(CKA_ID, AttrValue::Bytes(id))
        .insert(CKA_CLASS, object_class_value(CKO_PRIVATE_KEY))
        .insert(CKA_LABEL, AttrValue::Bytes(id))
        .insert(CKA_KEY_GEN_MECHANISM, mechanism_type_value(CK_UNAVAILABLE_INFORMATION))
        .insert(CKA_LOCAL, bool_value(false))
        .insert(CKA_MODIFIABLE, bool_value(false))
        .insert(CKA_TOKEN, bool_value(true))
        .insert(CKA_ALWAYS_AUTHENTICATE, bool_value(false))
        .insert(CKA_SENSITIVE, bool_value(true))
        .insert(CKA_ALWAYS_SENSITIVE, bool_value(true))
        .insert(CKA_EXTRACTABLE, bool_value(false))
        .insert(CKA_NEVER_EXTRACTABLE, bool_value(true))
        .insert(CKA_PRIVATE, bool_value(true))
}

/// The attributes of an RSA private key with modulus `m` and public
/// exponent `e`.
pub open spec fn rsa_attrs(m: Seq<u8>, e: Seq<u8>) -> Map<u64, AttrValue> {
    Map::empty()
        .insert(CKA_KEY_TYPE, key_type_value(CKK_RSA))
        .insert(CKA_DERIVE, bool_value(false))
        .insert(CKA_DECRYPT, bool_value(true))
        .insert(CKA_SIGN, bool_value(true))
        .insert(CKA_SIGN_RECOVER, bool_value(false))
        .insert(CKA_UNWRAP, bool_value(false))
        .insert(CKA_WRAP_WITH_TRUSTED, bool_value(false))
        .insert(CKA_MODULUS, AttrValue::Bytes(m))
        .insert(CKA_PUBLIC_EXPONENT, AttrValue::Bytes(e))
        .insert(CKA_MODULUS_BITS, AttrValue::Null)
}

/// The attributes of an elliptic-curve private key of `CK_KEY_TYPE` `k`,
/// with curve parameters `params` and public point `point` (both DER).
pub open spec fn ec_attrs(k: u64, params: Seq<u8>, point: Seq<u8>) -> Map<u64, AttrValue> {
    Map::empty()
        .insert(CKA_KEY_TYPE, key_type_value(k))
        .insert(CKA_DERIVE, bool_value(true))
        .insert(CKA_DECRYPT, bool_value(false))
        .insert(CKA_SIGN, bool_value(true))
        .insert(CKA_SIGN_RECOVER, bool_value(false))
        .insert(CKA_UNWRAP, bool_value(false))
        .insert(CKA_WRAP_WITH_TRUSTED, bool_value(false))
        .insert(CKA_EC_PARAMS, AttrValue::Bytes(params))
        .insert(CKA_EC_POINT, AttrValue::Bytes(point))
}

/// The attributes of the public key object made from a private key object
/// with attributes `private` and `CK_KEY_TYPE` `k`: its class is public
/// key, and every usage and protection flag is false.
pub open spec fn public_attrs(private: Map<u64, AttrValue>, k: u64) -> Map<u64, AttrValue> {
    private
        .insert(CKA_CLASS, object_class_value(CKO_PUBLIC_KEY))
        .insert(CKA_KEY_TYPE, key_type_value(k))
        .insert(CKA_PRIVATE, bool_value(false))
        .insert(CKA_SENSITIVE, bool_value(false))
        .insert(CKA_ALWAYS_SENSITIVE, bool_value(false))
        .insert(CKA_EXTRACTABLE, bool_value(false))
        .insert(CKA_NEVER_EXTRACTABLE, bool_value(false))
        .insert(CKA_DECRYPT, bool_value(false))
        .insert(CKA_ENCRYPT, bool_value(false))
        .insert(CKA_SIGN, bool_value(false))
        .insert(CKA_VERIFY, bool_value(false))
        .insert(CKA_DERIVE, bool_value(false))
        .insert(CKA_SIGN_RECOVER, bool_value(false))
        .insert(CKA_UNWRAP, bool_value(false))
        .insert(CKA_WRAP, bool_value(false))
        .insert(CKA_WRAP_WITH_TRUSTED, bool_value(false))
}

/// Whether the public key object sets the attribute type `t` itself rather
/// than taking it from the private key object.
pub open spec fn public_overridden(t: u64) -> bool {
    t == CKA_CLASS || t == CKA_KEY_TYPE || t == CKA_PRIVATE || t == CKA_SENSITIVE
        || t == CKA_ALWAYS_SENSITIVE || t == CKA_EXTRACTABLE || t == CKA_NEVER_EXTRACTABLE
        || t == CKA_DECRYPT || t == CKA_ENCRYPT || t == CKA_SIGN || t == CKA_VERIFY
        || t == CKA_DERIVE || t == CKA_SIGN_RECOVER || t == CKA_UNWRAP || t == CKA_WRAP
        || t == CKA_WRAP_WITH_TRUSTED
}

/// The `CK_KEY_TYPE` and the type-specific attributes of an RSA key, or the
/// failure.
pub open spec fn rsa_material(key: KeyPublicData) -> Result<(u64, Map<u64, AttrValue>), KeyFailure> {
    match (key.modulus, key.public_exponent) {
        (None, _) => Err(KeyFailure::KeyData("modulus"@)),
        (Some(_), None) => Err(KeyFailure::KeyData("public_exponent"@)),
        (Some(m), Some(e)) => match (decoded(m), decoded(e)) {
            (Err(d), _) => Err(KeyFailure::Decode(d)),
            (Ok(_), Err(d)) => Err(KeyFailure::Decode(d)),
            (Ok(mb), Ok(eb)) => Ok((CKK_RSA, rsa_attrs(mb, eb))),
        },
    }
}

/// The `CK_KEY_TYPE` and the type-specific attributes of an
/// elliptic-curve key of type `t`, or the failure: the parameters are a
/// SEQUENCE of the curve's OBJECT IDENTIFIER, the point a SEQUENCE of an
/// OCTET STRING of the decoded public point.
pub open spec fn ec_material(t: KeyType, key: KeyPublicData) -> Result<(u64, Map<u64, AttrValue>), KeyFailure> {
    match key.data {
        None => Err(KeyFailure::KeyData("data"@)),
        Some(d) => match decoded(d) {
            Err(e) => Err(KeyFailure::Decode(e)),
            Ok(point) => match curve_oid(t) {
                Err(f) => Err(f),
                Ok(oid) => Ok((
                    ec_ck_key_type(t),
                    ec_attrs(
                        ec_ck_key_type(t),
                        der_tlv(TAG_SEQUENCE, der_tlv(TAG_OBJECT_IDENTIFIER, oid)),
                        der_tlv(TAG_SEQUENCE, der_tlv(TAG_OCTET_STRING, point)),
                    ),
                )),
            },
        },
    }
}

/// The `CK_KEY_TYPE` and the type-specific attributes of the key `key`, or
/// the failure.
pub open spec fn key_material(key: PublicKey) -> Result<(u64, Map<u64, AttrValue>), KeyFailure> {
    if key.key_type is Rsa {
        rsa_material(key.key)
    } else if is_ec_key_type(key.key_type) {
        ec_material(key.key_type, key.key)
    } else {
        Err(KeyFailure::UnsupportedType)
    }
}

/// The DER content of the object identifier of the curve of `key_type`.
fn key_type_to_asn1(key_type: KeyType) -> (r: Result<Vec<u8>, Error>)
    ensures
        match curve_oid(key_type) {
            Ok(c) => r matches Ok(v) && v@ == c,
            Err(f) => r matches Err(e) && error_is(e, f),
        },
{
    let text = match key_type {
        KeyType::EcP224 => "1.3.132.0.33",
        KeyType::EcP256 => "1.2.840.10045.3.1.7",
        KeyType::EcP384 => "1.3.132.0.34",
        KeyType::EcP521 => "1.3.132.0.35",
        KeyType::Curve25519 => "1.3.101.112",
        _ => {
            return Err(Error::KeyData("key_type".to_owned()));
        },
    };
    proof {
        reveal_strlit("1.3.132.0.33");
        reveal_strlit("1.2.840.10045.3.1.7");
        reveal_strlit("1.3.132.0.34");
        reveal_strlit("1.3.132.0.35");
        reveal_strlit("1.3.101.112");
    }
    match oid_from_text(text) {
        Some(v) => Ok(v),
        None => Err(Error::KeyData("parsing key".to_owned())),
    }
}

/// Whether the optional text `s` is present and its UTF-8 bytes are `t`.
pub open spec fn text_is(s: Option<String>, t: Seq<u8>) -> bool {
    s matches Some(v) && encode_utf8(v@) == t
}

/// What decoding the Base64 text `t` is known to give: a padded standard
/// encoding decodes to the bytes it encodes.
pub open spec fn decoding_known(t: Seq<u8>) -> bool {
    is_standard_base64(t) ==> (base64_standard_decoding(t) matches Ok(v) && base64_standard_encoding(v) == t)
}

/// An RSA key whose modulus and exponent texts are the standard Base64
/// encodings of `mb` and `eb` has the attributes of that modulus and
/// exponent, where the decoding of its texts is known.
proof fn lemma_rsa_material_of_encodings(key: PublicKey, mb: Seq<u8>, eb: Seq<u8>)
    requires
        key.key_type is Rsa,
        text_is(key.key.modulus, base64_standard_encoding(mb)),
        text_is(key.key.public_exponent, base64_standard_encoding(eb)),
        decoding_known(base64_standard_encoding(mb)),
        decoded(key.key.modulus.unwrap()) is Ok ==> decoding_known(base64_standard_encoding(eb)),
    ensures
        key_material(key) == Ok::<(u64, Map<u64, AttrValue>), KeyFailure>((CKK_RSA, rsa_attrs(mb, eb))),
{
    let m = key.key.modulus.unwrap();
    let e = key.key.public_exponent.unwrap();
    assert(is_standard_base64(base64_standard_encoding(mb)));
    let v = decoded(m)->Ok_0;
    lemma_base64_encoding_injective(v, mb);
    assert(is_standard_base64(base64_standard_encoding(eb)));
    let w = decoded(e)->Ok_0;
    lemma_base64_encoding_injective(w, eb);
}

/// A key on a supported curve whose point text is the standard Base64
/// encoding of `pb`, and whose curve identifier encodes, has the attributes
/// of that point, where the decoding of its text is known.
proof fn lemma_ec_material_of_encoding(key: PublicKey, pb: Seq<u8>)
    requires
        is_ec_key_type(key.key_type),
        text_is(key.key.data, base64_standard_encoding(pb)),
        decoding_known(base64_standard_encoding(pb)),
        curve_oid(key.key_type) is Ok,
    ensures
        key_material(key) == Ok::<(u64, Map<u64, AttrValue>), KeyFailure>((
            ec_ck_key_type(key.key_type),
            ec_attrs(
                ec_ck_key_type(key.key_type),
                der_tlv(TAG_SEQUENCE, der_tlv(TAG_OBJECT_IDENTIFIER, curve_oid(key.key_type)->Ok_0)),
                der_tlv(TAG_SEQUENCE, der_tlv(TAG_OCTET_STRING, pb)),
            ),
        )),
{
    let d = key.key.data.unwrap();
    assert(is_standard_base64(base64_standard_encoding(pb)));
    let v = decoded(d)->Ok_0;
    lemma_base64_encoding_injective(v, pb);
}

/// The `CK_KEY_TYPE` and type-specific attributes of an RSA key.
fn configure_rsa(key_data: PublicKey) -> (r: Result<(u64, HashMap<u64, Attr>), Error>)
    ensures
        match rsa_material(key_data.key) {
            Ok((k, m)) => r matches Ok((rk, rm)) && rk == k && attr_values(rm@) == m,
            Err(f) => r matches Err(e) && error_is(e, f),
        },
        key_data.key.modulus is Some && key_data.key.public_exponent is Some ==> decoding_known(
            encode_utf8(key_data.key.modulus.unwrap()@),
        ) && (decoded(key_data.key.modulus.unwrap()) is Ok ==> decoding_known(
            encode_utf8(key_data.key.public_exponent.unwrap()@),
        )),
{
    broadcast use vstd::std_specs::hash::group_hash_axioms;

    let key_data = key_data.key;
    let modulus = match key_data.modulus {
        Some(m) => m,
        None => {
            return Err(Error::KeyData("modulus".to_owned()));
        },
    };
    let public_exponent = match key_data.public_exponent {
        Some(e) => e,
        None => {
            return Err(Error::KeyData("public_exponent".to_owned()));
        },
    };
    let modulus = match base64_decode(modulus.as_str().as_bytes()) {
        Ok(v) => v,
        Err(e) => {
            return Err(Error::Decode(e));
        },
    };
    let public_exponent = match base64_decode(public_exponent.as_str().as_bytes()) {
        Ok(v) => v,
        Err(e) => {
            return Err(Error::Decode(e));
        },
    };
    let ghost mb = modulus@;
    let ghost eb = public_exponent@;

    let mut attrs: HashMap<u64, Attr> = HashMap::new();
    attrs.insert(CKA_KEY_TYPE, Attr::from_ck_key_type(CKK_RSA));
    attrs.insert(CKA_DERIVE, Attr::ck_false());
    attrs.insert(CKA_DECRYPT, Attr::ck_true());
    attrs.insert(CKA_SIGN, Attr::ck_true());
    attrs.insert(CKA_SIGN_RECOVER, Attr::ck_false());
    attrs.insert(CKA_UNWRAP, Attr::ck_false());
    attrs.insert(CKA_WRAP_WITH_TRUSTED, Attr::ck_false());
    attrs.insert(CKA_MODULUS, Attr::Bytes(modulus));
    attrs.insert(CKA_PUBLIC_EXPONENT, Attr::Bytes(public_exponent));
    attrs.insert(CKA_MODULUS_BITS, Attr::Null);
    assert(attr_values(attrs@) =~= rsa_attrs(mb, eb));
    Ok((CKK_RSA, attrs))
}


/// The `CK_KEY_TYPE` and type-specific attributes of an elliptic-curve key.
fn configure_ec(key_data: PublicKey) -> (r: Result<(u64, HashMap<u64, Attr>), Error>)
    ensures
        match ec_material(key_data.key_type, key_data.key) {
            Ok((k, m)) => r matches Ok((rk, rm)) && rk == k && attr_values(rm@) == m,
            Err(f) => r matches Err(e) && error_is(e, f),
        },
        key_data.key.data matches Some(d) ==> decoding_known(encode_utf8(d@)),
{
    broadcast use vstd::std_specs::hash::group_hash_axioms;

    let ec_points = match key_data.key.data {
        Some(d) => d,
        None => {
            return Err(Error::KeyData("data".to_owned()));
        },
    };
    let ec_point_bytes = match base64_decode(ec_points.as_str().as_bytes()) {
        Ok(v) => v,
        Err(e) => {
            return Err(Error::Decode(e));
        },
    };
    let point_octets = der_element(TAG_OCTET_STRING, ec_point_bytes.as_slice());
    let ec_point_serialized = der_element(TAG_SEQUENCE, point_octets.as_slice());

    let key_params = key_type_to_asn1(key_data.key_type)?;
    let oid = der_element(TAG_OBJECT_IDENTIFIER, key_params.as_slice());
    let ec_params = der_element(TAG_SEQUENCE, oid.as_slice());

    let key_type = match key_data.key_type {
        KeyType::Curve25519 => CKK_EC_EDWARDS,
        _ => CKK_EC,
    };
    let ghost params = ec_params@;
    let ghost point = ec_point_serialized@;

    let mut attrs: HashMap<u64, Attr> = HashMap::new();
    attrs.insert(CKA_KEY_TYPE, Attr::from_ck_key_type(key_type));
    attrs.insert(CKA_DERIVE, Attr::ck_true());
    attrs.insert(CKA_DECRYPT, Attr::ck_false());
    attrs.insert(CKA_SIGN, Attr::ck_true());
    attrs.insert(CKA_SIGN_RECOVER, Attr::ck_false());
    attrs.insert(CKA_UNWRAP, Attr::ck_false());
    attrs.insert(CKA_WRAP_WITH_TRUSTED, Attr::ck_false());
    attrs.insert(CKA_EC_PARAMS, Attr::Bytes(ec_params));
    attrs.insert(CKA_EC_POINT, Attr::Bytes(ec_point_serialized));
    assert(attr_values(attrs@) =~= ec_attrs(key_type, params, point));
    Ok((key_type, attrs))
}

/// The key objects of the NetHSM key `key_data` with id `id`: the public key
/// object first, then the private key object.
///
/// Both objects are keys with id `id`. The private object holds the common
/// private-key attributes (id and label `id`, class private key, token,
/// private, sensitive, never extractable, not modifiable), overridden by the
/// attributes of its type; the public object holds the same, with class
/// public key and every usage and protection flag false. RSA keys carry
/// their decoded modulus and exponent, elliptic-curve keys their DER curve
/// parameters and point. Fails where the key data lacks or cannot decode a
/// part that its type needs, and for key types other than RSA and the
/// supported curves.
pub fn from_key_data(key_data: PublicKey, id: String) -> (r: Result<Vec<Object>, Error>)
    ensures
        match key_material(key_data) {
            Err(f) => r matches Err(e) && error_is(e, f),
            Ok((k, m)) => r matches Ok(objs) && objs@.len() == 2 && ({
                let private = common_private_attrs(encode_utf8(id@)).union_prefer_right(m);
                &&& objs@[0]@ == (ObjectView { attrs: public_attrs(private, k), kind: ObjectKind::Key, id: id@ })
                &&& objs@[1]@ == (ObjectView { attrs: private, kind: ObjectKind::Key, id: id@ })
            }),
        },
        forall|mb: Seq<u8>, eb: Seq<u8>|
            #![trigger base64_standard_encoding(mb), base64_standard_encoding(eb)]
            key_data.key_type is Rsa && text_is(key_data.key.modulus, base64_standard_encoding(mb))
                && text_is(key_data.key.public_exponent, base64_standard_encoding(eb)) ==> (r matches Ok(objs)
                && objs@.len() == 2 && objs@[1]@.attrs[CKA_MODULUS] == AttrValue::Bytes(mb)
                && objs@[1]@.attrs[CKA_PUBLIC_EXPONENT] == AttrValue::Bytes(eb)
                && objs@[0]@.attrs[CKA_MODULUS] == AttrValue::Bytes(mb)
                && objs@[0]@.attrs[CKA_PUBLIC_EXPONENT] == AttrValue::Bytes(eb)),
        forall|pb: Seq<u8>|
            #![trigger base64_standard_encoding(pb)]
            is_ec_key_type(key_data.key_type) && text_is(key_data.key.data, base64_standard_encoding(pb))
                && curve_oid(key_data.key_type) is Ok ==> (r matches Ok(objs) && objs@.len() == 2
                && objs@[1]@.attrs[CKA_EC_POINT] == AttrValue::Bytes(der_tlv(TAG_SEQUENCE, der_tlv(TAG_OCTET_STRING, pb)))
                && objs@[0]@.attrs[CKA_EC_POINT] == AttrValue::Bytes(der_tlv(TAG_SEQUENCE, der_tlv(TAG_OCTET_STRING, pb)))),
{
    broadcast use vstd::std_specs::hash::group_hash_axioms;

    let ghost key0 = key_data;
    let ghost idb = encode_utf8(id@);
    let id_bytes = id.as_str().as_bytes();
    let mut attrs: HashMap<u64, Attr> = HashMap::new();
    attrs.insert(CKA_ID, Attr::Bytes(slice_to_vec(id_bytes)));
    attrs.insert(CKA_CLASS, Attr::from_ck_object_class(CKO_PRIVATE_KEY));
    attrs.insert(CKA_LABEL, Attr::Bytes(slice_to_vec(id_bytes)));
    attrs.insert(CKA_KEY_GEN_MECHANISM, Attr::from_ck_mechanism_type(CK_UNAVAILABLE_INFORMATION));
    attrs.insert(CKA_LOCAL, Attr::ck_false());
    attrs.insert(CKA_MODIFIABLE, Attr::ck_false());
    attrs.insert(CKA_TOKEN, Attr::ck_true());
    attrs.insert(CKA_ALWAYS_AUTHENTICATE, Attr::ck_false());
    attrs.insert(CKA_SENSITIVE, Attr::ck_true());
    attrs.insert(CKA_ALWAYS_SENSITIVE, Attr::ck_true());
    attrs.insert(CKA_EXTRACTABLE, Attr::ck_false());
    attrs.insert(CKA_NEVER_EXTRACTABLE, Attr::ck_true());
    attrs.insert(CKA_PRIVATE, Attr::ck_true());
    assert(attr_values(attrs@) =~= common_private_attrs(idb));

    let configured = match key_data.key_type {
        KeyType::Rsa => configure_rsa(key_data),
        KeyType::Curve25519 | KeyType::EcP224 | KeyType::EcP256 | KeyType::EcP384
        | KeyType::EcP521 => configure_ec(key_data),
        _ => {
            return Err(Error::UnsupportedType);
        },
    };
    proof {
        assert forall|mb: Seq<u8>, eb: Seq<u8>|
            #![trigger base64_standard_encoding(mb), base64_standard_encoding(eb)]
            key0.key_type is Rsa && text_is(key0.key.modulus, base64_standard_encoding(mb))
                && text_is(key0.key.public_exponent, base64_standard_encoding(eb)) implies key_material(key0)
                == Ok::<(u64, Map<u64, AttrValue>), KeyFailure>((CKK_RSA, rsa_attrs(mb, eb))) by {
            lemma_rsa_material_of_encodings(key0, mb, eb);
        }
        assert forall|pb: Seq<u8>|
            #![trigger base64_standard_encoding(pb)]
            is_ec_key_type(key0.key_type) && text_is(key0.key.data, base64_standard_encoding(pb))
                && curve_oid(key0.key_type) is Ok implies key_material(key0) == Ok::<(u64, Map<u64, AttrValue>), KeyFailure>((
                    ec_ck_key_type(key0.key_type),
                    ec_attrs(
                        ec_ck_key_type(key0.key_type),
                        der_tlv(TAG_SEQUENCE, der_tlv(TAG_OBJECT_IDENTIFIER, curve_oid(key0.key_type)->Ok_0)),
                        der_tlv(TAG_SEQUENCE, der_tlv(TAG_OCTET_STRING, pb)),
                    ),
                )) by {
            lemma_ec_material_of_encoding(key0, pb);
        }
    }
    let key_data = match configured {
        Ok(c) => c,
        Err(e) => {
            return Err(e);
        },
    };
    extend_attrs(&mut attrs, &key_data.1);
    let ghost private = attr_values(attrs@);

    let mut public_key = Object { attrs: attrs.clone(), kind: ObjectKind::Key, id: id.clone() };
    let private_key = Object { attrs, kind: ObjectKind::Key, id };

    public_key.attrs.insert(CKA_CLASS, Attr::from_ck_object_class(CKO_PUBLIC_KEY));
    public_key.attrs.insert(CKA_KEY_TYPE, Attr::from_ck_key_type(key_data.0));
    public_key.attrs.insert(CKA_PRIVATE, Attr::ck_false());
    public_key.attrs.insert(CKA_SENSITIVE, Attr::ck_false());
    public_key.attrs.insert(CKA_ALWAYS_SENSITIVE, Attr::ck_false());
    public_key.attrs.insert(CKA_EXTRACTABLE, Attr::ck_false());
    public_key.attrs.insert(CKA_NEVER_EXTRACTABLE, Attr::ck_false());
    public_key.attrs.insert(CKA_DECRYPT, Attr::ck_false());
    public_key.attrs.insert(CKA_ENCRYPT, Attr::ck_false());
    public_key.attrs.insert(CKA_SIGN, Attr::ck_false());
    public_key.attrs.insert(CKA_VERIFY, Attr::ck_false());
    public_key.attrs.insert(CKA_DERIVE, Attr::ck_false());
    public_key.attrs.insert(CKA_SIGN_RECOVER, Attr::ck_false());
    public_key.attrs.insert(CKA_UNWRAP, Attr::ck_false());
    public_key.attrs.insert(CKA_WRAP, Attr::ck_false());
    public_key.attrs.insert(CKA_WRAP_WITH_TRUSTED, Attr::ck_false());
    assert(attr_values(public_key.attrs@) =~= public_attrs(private, key_data.0));

    let mut objs: Vec<Object> = Vec::new();
    objs.push(public_key);
    objs.push(private_key);
    Ok(objs)
}

} // verus!
