//! The two computations that this library takes from outside crates: the
//! standard Base64 decoding of the key material that the NetHSM reports,
//! and the DER content of an object identifier written in dotted form.
use vstd::prelude::*;
use base64::Engine;

verus! {

/// Why a Base64 text does not decode, as `base64::DecodeError` reports it.
#[derive(Clone, Copy, Debug, PartialEq, Eq, Structural)]
pub enum DecodeError {
    /// An invalid byte at this offset.
    InvalidByte(usize, u8),
    /// The number of symbols is invalid; the length as counted by the decoder.
    InvalidLength(usize),
    /// The last symbol has bits set that the decoding would discard.
    InvalidLastSymbol { offset: usize, symbol: u8, symbol_value: u8 },
    /// The padding is absent or not canonical.
    InvalidPadding,
}

/// `asn1::WriteError`, the error of a failed DER write; opaque here.
#[verifier::external_type_specification]
#[verifier::external_body]
pub struct ExAsn1WriteError(asn1::WriteError);

/// `asn1::ParseError`, the error of a failed DER parse; opaque here.
#[verifier::external_type_specification]
#[verifier::external_body]
pub struct ExAsn1ParseError(asn1::ParseError);

/// The bytes that the standard Base64 alphabet, with padding, decodes
/// `input` to, or the error that the decoder reports where `input` is no
/// canonical Base64 text.
pub uninterp spec fn base64_standard_decoding(input: Seq<u8>) -> Result<Seq<u8>, DecodeError>;

/// The symbol of the standard Base64 alphabet (RFC 4648, table 1) for the
/// six-bit value `v`: `A`-`Z`, `a`-`z`, `0`-`9`, `+`, `/`.
pub open spec fn base64_symbol(v: int) -> u8 {
    if v < 26 {
        (65 + v) as u8
    } else if v < 52 {
        (97 + v - 26) as u8
    } else if v < 62 {
        (48 + v - 52) as u8
    } else if v == 62 {
        43
    } else {
        47
    }
}

/// The padded standard Base64 encoding of `b` (RFC 4648, section 4): each
/// group of three bytes gives four symbols of six bits each; a final group
/// of one or two bytes is filled with zero bits and padded with `=`.
pub open spec fn base64_standard_encoding(b: Seq<u8>) -> Seq<u8>
    decreases b.len(),
{
    if b.len() == 0 {
        Seq::empty()
    } else if b.len() == 1 {
        seq![base64_symbol((b[0] as int) / 4), base64_symbol(((b[0] as int) % 4) * 16), 61u8, 61u8]
    } else if b.len() == 2 {
        seq![
            base64_symbol((b[0] as int) / 4),
            base64_symbol(((b[0] as int) % 4) * 16 + (b[1] as int) / 16),
            base64_symbol(((b[1] as int) % 16) * 4),
            61u8,
        ]
    } else {
        seq![
            base64_symbol((b[0] as int) / 4),
            base64_symbol(((b[0] as int) % 4) * 16 + (b[1] as int) / 16),
            base64_symbol(((b[1] as int) % 16) * 4 + (b[2] as int) / 64),
            base64_symbol((b[2] as int) % 64),
        ] + base64_standard_encoding(b.skip(3))
    }
}

/// Whether `text` is the padded standard Base64 encoding of some bytes.
pub open spec fn is_standard_base64(text: Seq<u8>) -> bool {
    exists|b: Seq<u8>| #[trigger] base64_standard_encoding(b) == text
}

/// A six-bit value is told apart by its symbol, and no symbol is `=`.
proof fn lemma_base64_symbol(x: int, y: int)
    requires
        0 <= x < 64,
        0 <= y < 64,
    ensures
        base64_symbol(x) == base64_symbol(y) ==> x == y,
        base64_symbol(x) != 61,
{
}

/// The padded standard Base64 encoding is one to one: a text encodes at
/// most one byte string.
pub proof fn lemma_base64_encoding_injective(a: Seq<u8>, b: Seq<u8>)
    ensures
        base64_standard_encoding(a) == base64_standard_encoding(b) ==> a == b,
    decreases a.len(),
{
    let ea = base64_standard_encoding(a);
    let eb = base64_standard_encoding(b);
    if ea == eb && a.len() > 0 && b.len() > 0 {
        assert(ea[0] == eb[0]);
        assert(ea[1] == eb[1]);
        assert(ea[2] == eb[2]);
        assert(ea[3] == eb[3]);
        lemma_base64_symbol((a[0] as int) / 4, (b[0] as int) / 4);
        if a.len() == 1 {
            lemma_base64_symbol(((a[0] as int) % 4) * 16, 0);
            if b.len() == 2 {
                lemma_base64_symbol(((b[1] as int) % 16) * 4, 0);
            } else if b.len() >= 3 {
                lemma_base64_symbol(((b[1] as int) % 16) * 4 + (b[2] as int) / 64, 0);
            }
            if b.len() == 1 {
                lemma_base64_symbol(((a[0] as int) % 4) * 16, ((b[0] as int) % 4) * 16);
                assert(a =~= b);
            }
        } else if a.len() == 2 {
            lemma_base64_symbol(((a[1] as int) % 16) * 4, 0);
            if b.len() == 1 {
                lemma_base64_symbol(((b[0] as int) % 4) * 16, 0);
            } else if b.len() >= 3 {
                lemma_base64_symbol((b[2] as int) % 64, 0);
            } else {
                lemma_base64_symbol(((a[0] as int) % 4) * 16 + (a[1] as int) / 16, ((b[0] as int) % 4) * 16 + (b[1] as int) / 16);
                lemma_base64_symbol(((a[1] as int) % 16) * 4, ((b[1] as int) % 16) * 4);
                assert(a =~= b);
            }
        } else {
            lemma_base64_symbol((a[2] as int) % 64, 0);
            lemma_base64_symbol(((a[1] as int) % 16) * 4 + (a[2] as int) / 64, 0);
            if b.len() == 1 {
                lemma_base64_symbol(((b[0] as int) % 4) * 16, 0);
            } else if b.len() == 2 {
                lemma_base64_symbol(((b[1] as int) % 16) * 4, 0);
            } else {
                lemma_base64_symbol(((a[0] as int) % 4) * 16 + (a[1] as int) / 16, ((b[0] as int) % 4) * 16 + (b[1] as int) / 16);
                lemma_base64_symbol(((a[1] as int) % 16) * 4 + (a[2] as int) / 64, ((b[1] as int) % 16) * 4 + (b[2] as int) / 64);
                lemma_base64_symbol((a[2] as int) % 64, (b[2] as int) % 64);
                let ra = base64_standard_encoding(a.skip(3));
                let rb = base64_standard_encoding(b.skip(3));
                assert(ra =~= ea.skip(4));
                assert(rb =~= eb.skip(4));
                lemma_base64_encoding_injective(a.skip(3), b.skip(3));
                assert((a[0] as int) == (b[0] as int));
                assert((a[1] as int) == (b[1] as int));
                assert((a[2] as int) == (b[2] as int));
                assert(a =~= seq![a[0], a[1], a[2]] + a.skip(3));
                assert(b =~= seq![b[0], b[1], b[2]] + b.skip(3));
            }
        }
    } else if ea == eb && a.len() == 0 && b.len() > 0 {
        assert(eb.len() >= 4);
    } else if ea == eb && a.len() > 0 && b.len() == 0 {
        assert(ea.len() >= 4);
    } else if ea == eb {
        assert(a =~= b);
    }
}

/// The DER content bytes (the base-128 arcs, without tag and length) of the
/// object identifier that the dotted text `text` writes, or `None` where
/// `text` is no valid object identifier.
pub uninterp spec fn oid_der_content(text: Seq<char>) -> Option<Seq<u8>>;

/// Decodes `input` with `base64::engine::general_purpose::STANDARD`.
///
/// Claimed of `Engine::decode`: its outcome, the decoded bytes or the
/// error, is the named decoding of `input`; the error is converted variant
/// by variant, fields unchanged. `STANDARD` uses the standard alphabet with
/// canonical padding and without trailing bits (`GeneralPurposeConfig::new`),
/// so it decodes exactly the padded standard encodings, each to the bytes
/// it encodes.
#[verifier::external_body]
pub(crate) fn base64_decode(input: &[u8]) -> (r: Result<Vec<u8>, DecodeError>)
    ensures
        is_standard_base64(input@) ==> r is Ok,
        r matches Ok(v) ==> base64_standard_encoding(v@) == input@,
        match r {
            Ok(v) => base64_standard_decoding(input@) == Ok::<Seq<u8>, DecodeError>(v@),
            Err(e) => base64_standard_decoding(input@) == Err::<Seq<u8>, DecodeError>(e),
        },
{
    match base64::engine::general_purpose::STANDARD.decode(input) {
        Ok(v) => Ok(v),
        Err(base64::DecodeError::InvalidByte(o, b)) => Err(DecodeError::InvalidByte(o, b)),
        Err(base64::DecodeError::InvalidLength(l)) => Err(DecodeError::InvalidLength(l)),
        Err(base64::DecodeError::InvalidLastSymbol { offset, symbol, symbol_value }) => {
            Err(DecodeError::InvalidLastSymbol { offset, symbol, symbol_value })
        },
        Err(base64::DecodeError::InvalidPadding) => Err(DecodeError::InvalidPadding),
    }
}

/// Parses the dotted text `text` with `asn1::ObjectIdentifier::from_string`
/// and hands out the DER content that `ObjectIdentifier::as_der` returns.
///
/// Claimed: the result is `None` exactly where the named content is
/// undefined, and otherwise the named content. `from_string` computes
/// `40 * first + second` of the first two arcs in `u128`, which overflows,
/// and panics in a debug build, for a second arc of 39 digits; texts of at
/// most 38 characters cannot hold one.
#[verifier::external_body]
pub(crate) fn oid_from_text(text: &str) -> (r: Option<Vec<u8>>)
    requires
        text@.len() <= 38,
    ensures
        r is Some <==> oid_der_content(text@) is Some,
        r matches Some(v) ==> oid_der_content(text@) == Some(v@),
{
    match asn1::ObjectIdentifier::from_string(text) {
        Some(oid) => Some(oid.as_der().to_vec()),
        None => None,
    }
}

} // verus!
