//! The PKCS#11 numbers that this library reads and writes.
//!
//! The token runs on 64-bit little-endian platforms, where `CK_ULONG` is
//! an unsigned 64-bit integer; every attribute type, object class, key type
//! and return value below is such a `CK_ULONG`.
use vstd::prelude::*;

verus! {

/// `CKA_CLASS`
pub const CKA_CLASS: u64 = 0x0;
/// `CKA_TOKEN`
pub const CKA_TOKEN: u64 = 0x1;
/// `CKA_PRIVATE`
pub const CKA_PRIVATE: u64 = 0x2;
/// `CKA_LABEL`
pub const CKA_LABEL: u64 = 0x3;
/// `CKA_KEY_TYPE`
pub const CKA_KEY_TYPE: u64 = 0x100;
/// `CKA_ID`
pub const CKA_ID: u64 = 0x102;
/// `CKA_SENSITIVE`
pub const CKA_SENSITIVE: u64 = 0x103;
/// `CKA_ENCRYPT`
pub const CKA_ENCRYPT: u64 = 0x104;
/// `CKA_DECRYPT`
pub const CKA_DECRYPT: u64 = 0x105;
/// `CKA_WRAP`
pub const CKA_WRAP: u64 = 0x106;
/// `CKA_UNWRAP`
pub const CKA_UNWRAP: u64 = 0x107;
/// `CKA_SIGN`
pub const CKA_SIGN: u64 = 0x108;
/// `CKA_SIGN_RECOVER`
pub const CKA_SIGN_RECOVER: u64 = 0x109;
/// `CKA_VERIFY`
pub const CKA_VERIFY: u64 = 0x10A;
/// `CKA_DERIVE`
pub const CKA_DERIVE: u64 = 0x10C;
/// `CKA_MODULUS`
pub const CKA_MODULUS: u64 = 0x120;
/// `CKA_MODULUS_BITS`
pub const CKA_MODULUS_BITS: u64 = 0x121;
/// `CKA_PUBLIC_EXPONENT`
pub const CKA_PUBLIC_EXPONENT: u64 = 0x122;
/// `CKA_EXTRACTABLE`
pub const CKA_EXTRACTABLE: u64 = 0x162;
/// `CKA_LOCAL`
pub const CKA_LOCAL: u64 = 0x163;
/// `CKA_NEVER_EXTRACTABLE`
pub const CKA_NEVER_EXTRACTABLE: u64 = 0x164;
/// `CKA_ALWAYS_SENSITIVE`
pub const CKA_ALWAYS_SENSITIVE: u64 = 0x165;
/// `CKA_KEY_GEN_MECHANISM`
pub const CKA_KEY_GEN_MECHANISM: u64 = 0x166;
/// `CKA_MODIFIABLE`
pub const CKA_MODIFIABLE: u64 = 0x170;
/// `CKA_EC_PARAMS`
pub const CKA_EC_PARAMS: u64 = 0x180;
/// `CKA_EC_POINT`
pub const CKA_EC_POINT: u64 = 0x181;
/// `CKA_ALWAYS_AUTHENTICATE`
pub const CKA_ALWAYS_AUTHENTICATE: u64 = 0x202;
/// `CKA_WRAP_WITH_TRUSTED`
pub const CKA_WRAP_WITH_TRUSTED: u64 = 0x210;

/// `CKO_PUBLIC_KEY`
pub const CKO_PUBLIC_KEY: u64 = 0x2;
/// `CKO_PRIVATE_KEY`
pub const CKO_PRIVATE_KEY: u64 = 0x3;

/// `CKK_RSA`
pub const CKK_RSA: u64 = 0x0;
/// `CKK_EC`
pub const CKK_EC: u64 = 0x3;
/// `CKK_EC_EDWARDS`
pub const CKK_EC_EDWARDS: u64 = 0x40;

/// `CKR_OK`
pub const CKR_OK: u64 = 0x0;
/// `CKR_ATTRIBUTE_SENSITIVE`
pub const CKR_ATTRIBUTE_SENSITIVE: u64 = 0x11;
/// `CKR_ATTRIBUTE_TYPE_INVALID`
pub const CKR_ATTRIBUTE_TYPE_INVALID: u64 = 0x12;
/// `CKR_BUFFER_TOO_SMALL`
pub const CKR_BUFFER_TOO_SMALL: u64 = 0x150;

/// `CK_UNAVAILABLE_INFORMATION`: the largest `CK_ULONG`.
pub const CK_UNAVAILABLE_INFORMATION: u64 = 0xffff_ffff_ffff_ffff;

/// `CK_TRUE`, a `CK_BBOOL`.
pub const CK_TRUE: u8 = 1;
/// `CK_FALSE`, a `CK_BBOOL`.
pub const CK_FALSE: u8 = 0;

/// Certificate categories of `CKA_CERTIFICATE_CATEGORY`.
pub const CK_CERTIFICATE_CATEGORY_UNSPECIFIED: u64 = 0x0;
/// `CK_CERTIFICATE_CATEGORY_TOKEN_USER`
pub const CK_CERTIFICATE_CATEGORY_TOKEN_USER: u64 = 0x1;
/// `CK_CERTIFICATE_CATEGORY_AUTHORITY`
pub const CK_CERTIFICATE_CATEGORY_AUTHORITY: u64 = 0x2;
/// `CK_CERTIFICATE_CATEGORY_OTHER_ENTITY`
pub const CK_CERTIFICATE_CATEGORY_OTHER_ENTITY: u64 = 0x3;

} // verus!
