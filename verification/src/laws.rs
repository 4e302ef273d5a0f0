//! Properties of the object model and the configuration that hold across
//! calls and for all inputs.
use vstd::prelude::*;
use crate::attr::RawAttrView;
use crate::config::{merged, merged_all, empty_config, P11ConfigView};
use crate::constants::{CKA_CLASS, CKR_OK, CK_UNAVAILABLE_INFORMATION};
use crate::constants::{
    CKA_ALWAYS_AUTHENTICATE, CKA_ALWAYS_SENSITIVE, CKA_DECRYPT, CKA_DERIVE, CKA_ENCRYPT,
    CKA_EXTRACTABLE, CKA_ID, CKA_KEY_GEN_MECHANISM, CKA_KEY_TYPE, CKA_LABEL, CKA_LOCAL,
    CKA_MODIFIABLE, CKA_NEVER_EXTRACTABLE, CKA_PRIVATE, CKA_SENSITIVE, CKA_SIGN, CKA_SIGN_RECOVER,
    CKA_TOKEN, CKA_UNWRAP, CKA_VERIFY, CKA_WRAP, CKA_WRAP_WITH_TRUSTED, CKK_EC, CKK_EC_EDWARDS,
    CKK_RSA, CKO_PRIVATE_KEY, CKO_PUBLIC_KEY, CKR_ATTRIBUTE_SENSITIVE, CKR_ATTRIBUTE_TYPE_INVALID,
    CKR_BUFFER_TOO_SMALL, CK_FALSE, CK_TRUE, CKA_MODULUS_BITS, CKA_EC_PARAMS, CKA_EC_POINT,
};
use crate::object::{
    common_private_attrs, filled_slot, key_material, key_type_value, object_class_value,
    public_attrs, public_overridden, slot_code, slot_matches, template_code, template_matches,
    AttrValue, KeyFailure, ObjectView, PublicKey, ec_material, is_ec_key_type, mechanism_type_value,
    mechanism_list_bytes, rsa_material, curve_oid, decoded,
};
use crate::der::der_tlv;
use vstd::utf8::encode_utf8;
use vstd::bytes::{spec_u64_from_le_bytes, spec_u64_to_le_bytes};
use crate::le_bytes::lemma_le_bytes_injective;

verus! {

/// A mechanism object matches only templates that ask for its class and
/// offer exactly the bytes of its `CKA_CLASS` value.
pub proof fn lemma_mechanism_match_names_class(obj: ObjectView, tpl: Seq<RawAttrView>)
    requires
        obj.kind is Mechanism,
        template_matches(obj, tpl),
    ensures
        exists|i: int|
            0 <= i < tpl.len() && (#[trigger] tpl[i]).attr_type == CKA_CLASS && tpl[i].offered()
                == Some(obj.attrs[CKA_CLASS].bytes()),
{
    let i = choose|i: int| 0 <= i < tpl.len() && (#[trigger] tpl[i]).attr_type == CKA_CLASS;
    assert(slot_matches(obj.attrs, tpl[i]));
}

/// The empty template matches every object but a mechanism, and no
/// mechanism.
pub proof fn lemma_empty_template(obj: ObjectView)
    ensures
        template_matches(obj, Seq::empty()) == !(obj.kind is Mechanism),
{
}

/// Reading a template reports `CKR_OK` exactly when no slot reports a code:
/// every slot asks for an attribute that the object has, that is not
/// sensitive, and that fits the slot's buffer where it has one.
pub proof fn lemma_template_ok(attrs: Map<u64, AttrValue>, tpl: Seq<RawAttrView>)
    ensures
        template_code(attrs, tpl) == CKR_OK <==> forall|i: int|
            0 <= i < tpl.len() ==> #[trigger] slot_code(attrs, tpl[i]) is None,
    decreases tpl.len(),
{
    if tpl.len() > 0 {
        lemma_template_ok(attrs, tpl.drop_last());
        if slot_code(attrs, tpl.last()) is None {
            assert forall|i: int| 0 <= i < tpl.len() - 1 implies #[trigger] tpl.drop_last()[i] == tpl[i] by {}
            if template_code(attrs, tpl) == CKR_OK {
                assert forall|i: int| 0 <= i < tpl.len() implies #[trigger] slot_code(attrs, tpl[i]) is None by {
                    if i < tpl.len() - 1 {
                        assert(tpl.drop_last()[i] == tpl[i]);
                    }
                }
            }
            if forall|i: int| 0 <= i < tpl.len() ==> #[trigger] slot_code(attrs, tpl[i]) is None {
                assert forall|i: int| 0 <= i < tpl.len() - 1 implies #[trigger] slot_code(attrs, tpl.drop_last()[i]) is None by {
                    assert(tpl.drop_last()[i] == tpl[i]);
                }
            }
        } else {
            assert(slot_code(attrs, tpl[tpl.len() - 1]) is Some);
        }
    }
}

/// Reading a template never reveals a sensitive value: a slot that asks
/// for one keeps its buffer as it was and gets `CK_UNAVAILABLE_INFORMATION`
/// as its length, and a slot that asks for an unknown type does the same.
pub proof fn lemma_fill_hides_sensitive(attrs: Map<u64, AttrValue>, slot: RawAttrView)
    requires
        !attrs.contains_key(slot.attr_type) || attrs[slot.attr_type] is Sensitive,
    ensures
        filled_slot(attrs, slot) == (RawAttrView { len: CK_UNAVAILABLE_INFORMATION, ..slot }),
{
}

/// Reading a template keeps each slot's type and the size of its buffer,
/// and changes a buffer only where the slot is read without a code.
pub proof fn lemma_fill_keeps_shape(attrs: Map<u64, AttrValue>, slot: RawAttrView)
    ensures
        filled_slot(attrs, slot).attr_type == slot.attr_type,
        filled_slot(attrs, slot).value is Some == slot.value is Some,
        slot.value is Some ==> filled_slot(attrs, slot).value.unwrap().len() == slot.value.unwrap().len(),
        slot_code(attrs, slot) is Some ==> filled_slot(attrs, slot).value == slot.value,
{
    if let Some(b) = slot.value {
        if slot_code(attrs, slot) is None {
            let v = attrs[slot.attr_type].bytes();
            assert(v.len() <= slot.capacity());
        }
    }
}

/// What a read gives back to a search: where every slot of a template has a
/// buffer and is read without a code, the filled template matches the
/// object, unless the object is a mechanism and the template does not ask
/// for its class.
pub proof fn lemma_filled_template_matches(obj: ObjectView, tpl: Seq<RawAttrView>)
    requires
        template_code(obj.attrs, tpl) == CKR_OK,
        forall|i: int| 0 <= i < tpl.len() ==> (#[trigger] tpl[i]).value is Some,
        obj.kind is Mechanism ==> exists|i: int| 0 <= i < tpl.len() && (#[trigger] tpl[i]).attr_type == CKA_CLASS,
    ensures
        template_matches(obj, tpl.map_values(|s: RawAttrView| filled_slot(obj.attrs, s))),
{
    lemma_template_ok(obj.attrs, tpl);
    let filled = tpl.map_values(|s: RawAttrView| filled_slot(obj.attrs, s));
    assert forall|i: int| 0 <= i < filled.len() implies slot_matches(obj.attrs, #[trigger] filled[i]) by {
        let s = tpl[i];
        assert(slot_code(obj.attrs, s) is None);
        let v = obj.attrs[s.attr_type].bytes();
        let b = s.value.unwrap();
        let f = filled_slot(obj.attrs, s);
        assert(f.value.unwrap() =~= v + b.skip(v.len() as int));
        assert(f.value.unwrap().take(v.len() as int) =~= v);
    }
    if obj.kind is Mechanism {
        let i = choose|i: int| 0 <= i < tpl.len() && (#[trigger] tpl[i]).attr_type == CKA_CLASS;
        assert(filled[i].attr_type == CKA_CLASS);
    }
}

/// Merging with the empty configuration, on either side, changes nothing.
pub proof fn lemma_merge_identity(c: P11ConfigView)
    ensures
        merged(c, empty_config()) == c,
        merged(empty_config(), c) == c,
{
    assert(merged(c, empty_config()).slots =~= c.slots);
    assert(merged(empty_config(), c).slots =~= c.slots);
}

/// Merging is associative: configuration files can be merged in groups.
pub proof fn lemma_merge_associative(a: P11ConfigView, b: P11ConfigView, c: P11ConfigView)
    ensures
        merged(merged(a, b), c) == merged(a, merged(b, c)),
{
    assert(merged(merged(a, b), c).slots =~= merged(a, merged(b, c)).slots);
}

/// Merging configuration files in order keeps the log file of the first file
/// that names one, and all slots of all files in file order.
pub proof fn lemma_merged_all(cs: Seq<P11ConfigView>)
    ensures
        merged_all(cs).slots == cs.map_values(|c: P11ConfigView| c.slots).flatten(),
        merged_all(cs).log_file is Some <==> exists|i: int| 0 <= i < cs.len() && (#[trigger] cs[i]).log_file is Some,
        merged_all(cs).log_file is Some ==> exists|i: int| 0 <= i < cs.len() && (#[trigger] cs[i]).log_file
            == merged_all(cs).log_file && forall|j: int| 0 <= j < i ==> (#[trigger] cs[j]).log_file is None,
    decreases cs.len(),
{
    if cs.len() > 0 {
        let init = cs.drop_last();
        lemma_merged_all(init);
        let ss = cs.map_values(|c: P11ConfigView| c.slots);
        assert(ss.drop_last() =~= init.map_values(|c: P11ConfigView| c.slots));
        ss.drop_last().lemma_flatten_push(ss.last());
        assert(ss =~= ss.drop_last().push(ss.last()));
        assert forall|i: int| 0 <= i < init.len() implies #[trigger] init[i] == cs[i] by {}
        if merged_all(init).log_file is Some {
            let i = choose|i: int| 0 <= i < init.len() && (#[trigger] init[i]).log_file
                == merged_all(init).log_file && forall|j: int| 0 <= j < i ==> (#[trigger] init[j]).log_file is None;
            assert(cs[i] == init[i]);
            assert forall|j: int| 0 <= j < i implies (#[trigger] cs[j]).log_file is None by {
                assert(cs[j] == init[j]);
            }
        } else {
            assert forall|j: int| 0 <= j < cs.len() - 1 implies (#[trigger] cs[j]).log_file is None by {
                assert(cs[j] == init[j]);
            }
            if cs.last().log_file is Some {
                assert(cs[cs.len() - 1].log_file is Some);
            }
        }
    }
}

/// The two key objects of one NetHSM key: the private object is private
/// and of class private key, the public one is not private and of class
/// public key; both carry the key's id and key type; the public object has
/// the attributes of the private one and the flags it sets itself, and the
/// two agree on every attribute but those.
pub proof fn lemma_key_pair(key: PublicKey, id: Seq<char>, k: u64, m: Map<u64, AttrValue>, t: u64)
    requires
        key_material(key) == Ok::<(u64, Map<u64, AttrValue>), KeyFailure>((k, m)),
    ensures
        ({
            let private = common_private_attrs(encode_utf8(id)).union_prefer_right(m);
            let public = public_attrs(private, k);
            &&& private[CKA_PRIVATE].bytes() == seq![CK_TRUE]
            &&& public[CKA_PRIVATE].bytes() == seq![CK_FALSE]
            &&& private[CKA_CLASS] == object_class_value(CKO_PRIVATE_KEY)
            &&& public[CKA_CLASS] == object_class_value(CKO_PUBLIC_KEY)
            &&& private[CKA_ID] == AttrValue::Bytes(encode_utf8(id))
            &&& public[CKA_ID] == AttrValue::Bytes(encode_utf8(id))
            &&& private[CKA_KEY_TYPE] == key_type_value(k)
            &&& public[CKA_KEY_TYPE] == key_type_value(k)
            &&& (public.contains_key(t) <==> private.contains_key(t) || public_overridden(t))
            &&& (private.contains_key(t) && !public_overridden(t) ==> public[t] == private[t])
        }),
{
    let private = common_private_attrs(encode_utf8(id)).union_prefer_right(m);
    assert(!m.contains_key(CKA_PRIVATE));
    assert(!m.contains_key(CKA_CLASS));
    assert(!m.contains_key(CKA_ID));
    assert(m.contains_key(CKA_KEY_TYPE) && m[CKA_KEY_TYPE] == key_type_value(k));
}

/// Building key objects fails exactly as building the attributes of the
/// key's type fails: with the RSA errors for an RSA key, with the
/// elliptic-curve errors for a key on a supported curve; and never with the
/// `key_type` error, which only a key type without a curve can raise.
pub proof fn lemma_key_material_failures(key: PublicKey)
    ensures
        key.key_type is Rsa ==> key_material(key) == rsa_material(key.key),
        is_ec_key_type(key.key_type) ==> key_material(key) == ec_material(key.key_type, key.key),
        !(key.key_type is Rsa) && !is_ec_key_type(key.key_type) ==> key_material(key)
            == Err::<(u64, Map<u64, AttrValue>), KeyFailure>(KeyFailure::UnsupportedType),
        !(key_material(key) matches Err(KeyFailure::KeyData(t)) && t == "key_type"@),
{
    reveal_strlit("key_type");
    reveal_strlit("modulus");
    reveal_strlit("public_exponent");
    reveal_strlit("data");
    reveal_strlit("parsing key");
    assert("key_type"@ != "modulus"@) by { assert("key_type"@[0] != "modulus"@[0]); }
    assert("key_type"@ != "public_exponent"@) by { assert("key_type"@[0] != "public_exponent"@[0]); }
    assert("key_type"@ != "data"@) by { assert("key_type"@.len() != "data"@.len()); }
    assert("key_type"@ != "parsing key"@) by { assert("key_type"@.len() != "parsing key"@.len()); }
}

/// An integer attribute value (a key type, an object class, a mechanism
/// type or a plain `CK_ULONG`) holds eight bytes that decode back to the
/// integer, so distinct integers give distinct values.
pub proof fn lemma_ulong_values_round_trip(x: u64, y: u64)
    ensures
        key_type_value(x).bytes().len() == 8,
        spec_u64_from_le_bytes(key_type_value(x).bytes()) == x,
        spec_u64_from_le_bytes(object_class_value(x).bytes()) == x,
        spec_u64_from_le_bytes(mechanism_type_value(x).bytes()) == x,
        spec_u64_from_le_bytes(AttrValue::CkUlong(spec_u64_to_le_bytes(x)).bytes()) == x,
        AttrValue::CkUlong(spec_u64_to_le_bytes(x)).bytes() == AttrValue::CkUlong(spec_u64_to_le_bytes(y)).bytes()
            <==> x == y,
{
    lemma_le_bytes_injective(x, y);
}

/// The bytes a slot offers as a search value, in terms of its buffer and
/// length field: the first `min(len, buffer size)` bytes of its buffer.
pub open spec fn offered_bytes(slot: RawAttrView) -> Option<Seq<u8>> {
    match slot.value {
        Some(b) => Some(b.take(if (slot.len as int) < b.len() { slot.len as int } else { b.len() as int })),
        None => None,
    }
}

/// A search template matches an object exactly when every slot asks for an
/// attribute that the object has and offers exactly that attribute's bytes
/// (neither a prefix nor a longer value, for every attribute type), and, for
/// a mechanism object, some slot asks for `CKA_CLASS`.
pub proof fn lemma_match_is_exact(obj: ObjectView, tpl: Seq<RawAttrView>)
    ensures
        template_matches(obj, tpl) <==> ({
            &&& forall|i: int| 0 <= i < tpl.len() ==> {
                &&& obj.attrs.contains_key(#[trigger] tpl[i].attr_type)
                &&& offered_bytes(tpl[i]) == Some(obj.attrs[tpl[i].attr_type].bytes())
            }
            &&& (obj.kind is Mechanism ==> exists|i: int| 0 <= i < tpl.len() && #[trigger] tpl[i].attr_type == CKA_CLASS)
        }),
        forall|i: int| #![trigger tpl[i]] template_matches(obj, tpl) && 0 <= i < tpl.len() ==> (tpl[i].value matches Some(b)
            && obj.attrs[tpl[i].attr_type].bytes().len() <= b.len()
            && b.take(obj.attrs[tpl[i].attr_type].bytes().len() as int) == obj.attrs[tpl[i].attr_type].bytes()),
{
    assert forall|i: int| 0 <= i < tpl.len() implies #[trigger] tpl[i].offered() == offered_bytes(tpl[i]) by {}
    if template_matches(obj, tpl) {
        assert forall|i: int| 0 <= i < tpl.len() implies (#[trigger] tpl[i]).value matches Some(b)
            && obj.attrs[tpl[i].attr_type].bytes().len() <= b.len()
            && b.take(obj.attrs[tpl[i].attr_type].bytes().len() as int) == obj.attrs[tpl[i].attr_type].bytes() by {
            assert(slot_matches(obj.attrs, tpl[i]));
        }
    }
    if obj.kind is Mechanism && template_matches(obj, tpl) {
        let i = choose|i: int| 0 <= i < tpl.len() && (#[trigger] tpl[i]).attr_type == CKA_CLASS;
        assert(tpl[i].attr_type == CKA_CLASS);
    }
}

/// Reading one slot, in terms of the slot and the object's attributes:
/// - an unknown type: code `CKR_ATTRIBUTE_TYPE_INVALID`, buffer unchanged,
///   length `CK_UNAVAILABLE_INFORMATION`;
/// - a sensitive value: code `CKR_ATTRIBUTE_SENSITIVE`, likewise;
/// - no buffer (a size query): no code, buffer still absent, length the
///   length of the value (for every value whose length fits the field);
/// - a buffer smaller than the value: code `CKR_BUFFER_TOO_SMALL`, buffer
///   unchanged, length `CK_UNAVAILABLE_INFORMATION`;
/// - otherwise: no code, the buffer starts with the value and keeps its other
///   bytes, and the length is the length of the value.
pub proof fn lemma_read_slot(attrs: Map<u64, AttrValue>, s: RawAttrView)
    ensures
        ({
            let f = filled_slot(attrs, s);
            let t = s.attr_type;
            let code = template_code(attrs, seq![s]);
            &&& f.attr_type == t
            &&& !attrs.contains_key(t) ==> code == CKR_ATTRIBUTE_TYPE_INVALID && f.value == s.value
                && f.len == CK_UNAVAILABLE_INFORMATION
            &&& attrs.contains_key(t) && attrs[t] is Sensitive ==> code == CKR_ATTRIBUTE_SENSITIVE
                && f.value == s.value && f.len == CK_UNAVAILABLE_INFORMATION
            &&& attrs.contains_key(t) && !(attrs[t] is Sensitive) && s.value is None ==> code == CKR_OK
                && f.value is None && f.len == attrs[t].bytes().len() as u64
            &&& attrs.contains_key(t) && !(attrs[t] is Sensitive) && s.value is None
                && attrs[t].bytes().len() <= u64::MAX ==> f.len == attrs[t].bytes().len()
            &&& attrs.contains_key(t) && !(attrs[t] is Sensitive) && s.value is Some ==> {
                let b = s.value.unwrap();
                let cap = if (s.len as int) < b.len() { s.len as int } else { b.len() as int };
                let v = attrs[t].bytes();
                &&& cap < v.len() ==> code == CKR_BUFFER_TOO_SMALL && f.value == s.value
                    && f.len == CK_UNAVAILABLE_INFORMATION
                &&& v.len() <= cap ==> {
                    &&& code == CKR_OK
                    &&& f.len == v.len()
                    &&& f.value is Some
                    &&& f.value.unwrap().len() == b.len()
                    &&& f.value.unwrap().take(v.len() as int) == v
                    &&& f.value.unwrap().skip(v.len() as int) == b.skip(v.len() as int)
                }
            }
        }),
{
    let f = filled_slot(attrs, s);
    let t = s.attr_type;
    assert(seq![s].last() == s);
    assert(seq![s].drop_last() =~= Seq::<RawAttrView>::empty());
    assert(template_code(attrs, seq![s].drop_last()) == CKR_OK);
    if attrs.contains_key(t) && !(attrs[t] is Sensitive) {
        if let Some(b) = s.value {
            let v = attrs[t].bytes();
            if v.len() <= s.capacity() {
                let nb = f.value.unwrap();
                assert(nb =~= v + b.skip(v.len() as int));
                assert(nb.take(v.len() as int) =~= v);
                assert(nb.skip(v.len() as int) =~= b.skip(v.len() as int));
            }
        }
    }
}

/// Reading a template reports `CKR_OK` exactly when every slot asks for an
/// attribute the object has, that is not sensitive, and whose value fits the
/// slot's buffer where it has one.
pub proof fn lemma_read_template_ok(attrs: Map<u64, AttrValue>, tpl: Seq<RawAttrView>)
    ensures
        template_code(attrs, tpl) == CKR_OK <==> forall|i: int| 0 <= i < tpl.len() ==> {
            &&& attrs.contains_key(#[trigger] tpl[i].attr_type)
            &&& !(attrs[tpl[i].attr_type] is Sensitive)
            &&& (tpl[i].value matches Some(b) ==> attrs[tpl[i].attr_type].bytes().len() <= (if (tpl[i].len as int) < b.len() {
                tpl[i].len as int
            } else {
                b.len() as int
            }))
        },
{
    lemma_template_ok(attrs, tpl);
    if template_code(attrs, tpl) == CKR_OK {
        assert forall|i: int| 0 <= i < tpl.len() implies {
            &&& attrs.contains_key(#[trigger] tpl[i].attr_type)
            &&& !(attrs[tpl[i].attr_type] is Sensitive)
            &&& (tpl[i].value matches Some(b) ==> attrs[tpl[i].attr_type].bytes().len() <= (if (tpl[i].len as int) < b.len() {
                tpl[i].len as int
            } else {
                b.len() as int
            }))
        } by {
            assert(slot_code(attrs, tpl[i]) is None);
        }
    } else {
        let i = choose|i: int| 0 <= i < tpl.len() && #[trigger] slot_code(attrs, tpl[i]) is Some;
        assert(slot_code(attrs, tpl[i]) is Some);
        assert(0 <= i < tpl.len());
    }
}

/// The protection and usage flags and the identity of the two key objects of
/// every supported key, in the bytes a caller reads: the private object is
/// a token object of class private key, private, sensitive, never
/// extractable and not extractable, not modifiable, able to sign; an RSA
/// private key decrypts and does not derive, an elliptic-curve private key
/// derives and does not decrypt. The public object is of class public key,
/// with every usage and protection flag false. Both carry the id as `CKA_ID`
/// and `CKA_LABEL` and the same key type: `CKK_RSA` for RSA,
/// `CKK_EC_EDWARDS` for Curve25519, `CKK_EC` for the other curves. An RSA
/// key's `CKA_MODULUS_BITS` is empty; an elliptic-curve key's parameters
/// are a DER SEQUENCE of the curve's OBJECT IDENTIFIER and its point a DER
/// SEQUENCE of an OCTET STRING of the decoded point, in both objects.
pub proof fn lemma_key_object_flags(key: PublicKey, id: Seq<char>, k: u64, m: Map<u64, AttrValue>)
    requires
        key_material(key) == Ok::<(u64, Map<u64, AttrValue>), KeyFailure>((k, m)),
    ensures
        ({
            let private = common_private_attrs(encode_utf8(id)).union_prefer_right(m);
            let public = public_attrs(private, k);
            let yes = seq![1u8];
            let no = seq![0u8];
            let rsa = key.key_type is Rsa;
            let key_type = if rsa { CKK_RSA } else if key.key_type is Curve25519 { CKK_EC_EDWARDS } else { CKK_EC };
            &&& spec_u64_from_le_bytes(private[CKA_CLASS].bytes()) == CKO_PRIVATE_KEY
            &&& spec_u64_from_le_bytes(public[CKA_CLASS].bytes()) == CKO_PUBLIC_KEY
            &&& spec_u64_from_le_bytes(private[CKA_KEY_TYPE].bytes()) == key_type
            &&& spec_u64_from_le_bytes(public[CKA_KEY_TYPE].bytes()) == key_type
            &&& k == key_type
            &&& spec_u64_from_le_bytes(private[CKA_KEY_GEN_MECHANISM].bytes()) == CK_UNAVAILABLE_INFORMATION
            &&& private[CKA_ID].bytes() == encode_utf8(id) && public[CKA_ID].bytes() == encode_utf8(id)
            &&& private[CKA_LABEL].bytes() == encode_utf8(id) && public[CKA_LABEL].bytes() == encode_utf8(id)
            &&& private[CKA_TOKEN].bytes() == yes && public[CKA_TOKEN].bytes() == yes
            &&& private[CKA_PRIVATE].bytes() == yes
            &&& private[CKA_SENSITIVE].bytes() == yes
            &&& private[CKA_ALWAYS_SENSITIVE].bytes() == yes
            &&& private[CKA_EXTRACTABLE].bytes() == no
            &&& private[CKA_NEVER_EXTRACTABLE].bytes() == yes
            &&& private[CKA_MODIFIABLE].bytes() == no
            &&& private[CKA_LOCAL].bytes() == no
            &&& private[CKA_ALWAYS_AUTHENTICATE].bytes() == no
            &&& private[CKA_SIGN].bytes() == yes
            &&& private[CKA_SIGN_RECOVER].bytes() == no
            &&& private[CKA_UNWRAP].bytes() == no
            &&& private[CKA_WRAP_WITH_TRUSTED].bytes() == no
            &&& private[CKA_DECRYPT].bytes() == (if rsa { yes } else { no })
            &&& private[CKA_DERIVE].bytes() == (if rsa { no } else { yes })
            &&& public[CKA_PRIVATE].bytes() == no
            &&& public[CKA_SENSITIVE].bytes() == no
            &&& public[CKA_ALWAYS_SENSITIVE].bytes() == no
            &&& public[CKA_EXTRACTABLE].bytes() == no
            &&& public[CKA_NEVER_EXTRACTABLE].bytes() == no
            &&& public[CKA_DECRYPT].bytes() == no
            &&& public[CKA_ENCRYPT].bytes() == no
            &&& public[CKA_SIGN].bytes() == no
            &&& public[CKA_VERIFY].bytes() == no
            &&& public[CKA_DERIVE].bytes() == no
            &&& public[CKA_SIGN_RECOVER].bytes() == no
            &&& public[CKA_UNWRAP].bytes() == no
            &&& public[CKA_WRAP].bytes() == no
            &&& public[CKA_WRAP_WITH_TRUSTED].bytes() == no
            &&& rsa ==> private[CKA_MODULUS_BITS] == AttrValue::Null && public[CKA_MODULUS_BITS] == AttrValue::Null
            &&& !rsa ==> (curve_oid(key.key_type) matches Ok(c)
                && private[CKA_EC_PARAMS].bytes() == der_tlv(0x30u8, der_tlv(0x06u8, c))
                && public[CKA_EC_PARAMS] == private[CKA_EC_PARAMS])
            &&& !rsa ==> (key.key.data matches Some(d) && decoded(d) matches Ok(p)
                && private[CKA_EC_POINT].bytes() == der_tlv(0x30u8, der_tlv(0x04u8, p))
                && public[CKA_EC_POINT] == private[CKA_EC_POINT])
        }),
{
    lemma_le_bytes_injective(CKO_PRIVATE_KEY, CKO_PRIVATE_KEY);
    lemma_le_bytes_injective(CKO_PUBLIC_KEY, CKO_PUBLIC_KEY);
    lemma_le_bytes_injective(k, k);
    lemma_le_bytes_injective(CK_UNAVAILABLE_INFORMATION, CK_UNAVAILABLE_INFORMATION);
}

/// Reading a template made of two parts reports the code of the second part
/// where that part reports one, and else the code of the first part: the
/// code of a read is that of the last slot that reports one.
pub proof fn lemma_template_code_of_parts(attrs: Map<u64, AttrValue>, a: Seq<RawAttrView>, b: Seq<RawAttrView>)
    ensures
        template_code(attrs, a + b) == if template_code(attrs, b) == CKR_OK {
            template_code(attrs, a)
        } else {
            template_code(attrs, b)
        },
    decreases b.len(),
{
    if b.len() == 0 {
        assert(a + b =~= a);
    } else {
        lemma_template_code_of_parts(attrs, a, b.drop_last());
        assert((a + b).last() == b.last());
        assert((a + b).drop_last() =~= a + b.drop_last());
    }
}

/// A list of mechanism types, as an attribute value, holds eight bytes per
/// mechanism, in list order: the eight bytes at position `8 * i` decode to
/// the `i`-th mechanism.
pub proof fn lemma_mechanism_list_layout(ms: Seq<u64>)
    ensures
        mechanism_list_bytes(ms).len() == 8 * ms.len(),
        forall|i: int| 0 <= i < ms.len() ==> spec_u64_from_le_bytes(
            #[trigger] mechanism_list_bytes(ms).subrange(8 * i, 8 * i + 8),
        ) == ms[i],
    decreases ms.len(),
{
    if ms.len() > 0 {
        let init = ms.drop_last();
        lemma_mechanism_list_layout(init);
        lemma_le_bytes_injective(ms.last(), ms.last());
        let whole = mechanism_list_bytes(ms);
        let front = mechanism_list_bytes(init);
        assert forall|i: int| 0 <= i < ms.len() implies spec_u64_from_le_bytes(
            #[trigger] whole.subrange(8 * i, 8 * i + 8),
        ) == ms[i] by {
            if i < ms.len() - 1 {
                assert(whole.subrange(8 * i, 8 * i + 8) =~= front.subrange(8 * i, 8 * i + 8));
                assert(init[i] == ms[i]);
            } else {
                assert(whole.subrange(8 * i, 8 * i + 8) =~= spec_u64_to_le_bytes(ms.last()));
            }
        }
    }
}

} // verus!
