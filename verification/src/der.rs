//! The DER framing of the elliptic-curve attribute values: a tag byte, a
//! definite length and the content.
use vstd::prelude::*;

verus! {

/// The DER tag of an OCTET STRING.
pub const TAG_OCTET_STRING: u8 = 0x04;
/// The DER tag of an OBJECT IDENTIFIER.
pub const TAG_OBJECT_IDENTIFIER: u8 = 0x06;
/// The DER tag of a constructed SEQUENCE.
pub const TAG_SEQUENCE: u8 = 0x30;

/// The big-endian digits of `n` in base 256, without leading zeros
/// (empty for zero).
pub open spec fn be_digits(n: nat) -> Seq<u8>
    decreases n,
{
    if n == 0 {
        Seq::empty()
    } else {
        be_digits(n / 256) + seq![(n % 256) as u8]
    }
}

/// The DER definite length of a content of `n` bytes: one byte below 128,
/// else `0x80` plus the number of big-endian digits, then the digits.
pub open spec fn der_length(n: nat) -> Seq<u8> {
    if n < 128 {
        seq![n as u8]
    } else {
        seq![(0x80 + be_digits(n).len()) as u8] + be_digits(n)
    }
}

/// The DER encoding of one element: tag, length and content.
pub open spec fn der_tlv(tag: u8, content: Seq<u8>) -> Seq<u8> {
    seq![tag] + der_length(content.len()) + content
}

/// `256` to the power `k`.
pub open spec fn pow256(k: nat) -> nat
    decreases k,
{
    if k == 0 {
        1
    } else {
        256 * pow256((k - 1) as nat)
    }
}

/// A number below `256^k` has at most `k` digits in base 256.
proof fn lemma_be_digits_len(n: nat, k: nat)
    requires
        n < pow256(k),
    ensures
        be_digits(n).len() <= k,
    decreases k,
{
    if n != 0 {
        assert(k > 0);
        assert(n / 256 < pow256((k - 1) as nat)) by (nonlinear_arith)
            requires
                n < 256 * pow256((k - 1) as nat),
        ;
        lemma_be_digits_len(n / 256, (k - 1) as nat);
    }
}

/// Appends the big-endian digits of `n` to `out`.
fn push_be_digits(n: usize, out: &mut Vec<u8>)
    ensures
        final(out)@ == old(out)@ + be_digits(n as nat),
    decreases n,
{
    if n != 0 {
        push_be_digits(n / 256, out);
        out.push((n % 256) as u8);
        assert(final(out)@ =~= old(out)@ + be_digits(n as nat));
    }
}

/// Appends the DER encoding of one element, with tag `tag` and content
/// `content`, to `out`.
pub fn push_der_tlv(tag: u8, content: &[u8], out: &mut Vec<u8>)
    ensures
        final(out)@ == old(out)@ + der_tlv(tag, content@),
{
    let n = content.len();
    out.push(tag);
    if n < 128 {
        out.push(n as u8);
    } else {
        let mut digits: Vec<u8> = Vec::new();
        push_be_digits(n, &mut digits);
        assert(digits@ =~= be_digits(n as nat));
        proof {
            reveal_with_fuel(pow256, 9);
            assert(pow256(8) == 0x1_0000_0000_0000_0000);
            lemma_be_digits_len(n as nat, 8);
        }
        let count = digits.len();
        out.push((0x80 + count) as u8);
        let mut i: usize = 0;
        while i < count
            invariant
                0 <= i <= count,
                count == digits@.len(),
                digits@ == be_digits(n as nat),
                count <= 8,
                out@ == old(out)@ + seq![tag] + seq![(0x80 + count) as u8] + digits@.take(i as int),
            decreases count - i,
        {
            out.push(digits[i]);
            assert(digits@.take(i + 1) =~= digits@.take(i as int) + seq![digits@[i as int]]);
            i = i + 1;
        }
        assert(digits@.take(count as int) =~= digits@);
    }
    let mut j: usize = 0;
    let ghost before = out@;
    while j < n
        invariant
            0 <= j <= n,
            n == content@.len(),
            out@ == before + content@.take(j as int),
        decreases n - j,
    {
        out.push(content[j]);
        assert(content@.take(j + 1) =~= content@.take(j as int) + seq![content@[j as int]]);
        j = j + 1;
    }
    assert(content@.take(n as int) =~= content@);
    assert(final(out)@ =~= old(out)@ + der_tlv(tag, content@));
}

/// The DER encoding of one element, with tag `tag` and content `content`.
pub fn der_element(tag: u8, content: &[u8]) -> (r: Vec<u8>)
    ensures
        r@ == der_tlv(tag, content@),
{
    let mut out: Vec<u8> = Vec::new();
    push_der_tlv(tag, content, &mut out);
    assert(out@ =~= der_tlv(tag, content@));
    out
}

/// The number that the big-endian base-256 digits `s` write.
pub open spec fn be_value(s: Seq<u8>) -> nat
    decreases s.len(),
{
    if s.len() == 0 {
        0
    } else {
        be_value(s.drop_last()) * 256 + s.last() as nat
    }
}

/// The digits of `n` write `n`, and the first of them is not zero.
proof fn lemma_be_digits_value(n: nat)
    ensures
        be_value(be_digits(n)) == n,
        n > 0 ==> be_digits(n).len() > 0 && be_digits(n)[0] != 0,
    decreases n,
{
    if n > 0 {
        lemma_be_digits_value(n / 256);
        let d = be_digits(n);
        assert(d.drop_last() =~= be_digits(n / 256));
        assert(d.last() == (n % 256) as u8);
        assert((n / 256) * 256 + n % 256 == n) by (nonlinear_arith);
        if n / 256 == 0 {
            assert(n % 256 == n) by (nonlinear_arith)
                requires
                    n / 256 == 0,
            ;
        } else {
            assert(d[0] == be_digits(n / 256)[0]);
        }
    }
}

/// An encoded element reads back as its tag and content: its first byte is
/// the tag; a content of fewer than 128 bytes has its length in the second
/// byte and follows it; a longer one has `0x80` plus the number of length
/// bytes in the second byte, then the length in that many big-endian bytes
/// without a leading zero (at most eight for a length that fits 64 bits),
/// then the content.
pub proof fn lemma_der_tlv_reads_back(tag: u8, content: Seq<u8>)
    requires
        content.len() <= u64::MAX,
    ensures
        ({
            let e = der_tlv(tag, content);
            let k = e[1] - 0x80;
            &&& e.len() >= 2
            &&& e[0] == tag
            &&& content.len() < 128 ==> e[1] == content.len() && e.skip(2) == content
            &&& content.len() >= 128 ==> {
                &&& 0x81 <= e[1] <= 0x88
                &&& e.len() >= 2 + k
                &&& e[2] != 0
                &&& be_value(e.subrange(2, 2 + k)) == content.len()
                &&& e.skip(2 + k) == content
            }
        }),
{
    let n = content.len();
    let e = der_tlv(tag, content);
    if n < 128 {
        assert(e.skip(2) =~= content);
    } else {
        let d = be_digits(n);
        lemma_be_digits_value(n);
        reveal_with_fuel(pow256, 9);
        assert(pow256(8) == 0x1_0000_0000_0000_0000);
        lemma_be_digits_len(n, 8);
        assert(e[1] == 0x80 + d.len());
        let k: int = d.len() as int;
        assert(e.subrange(2, 2 + k) =~= d);
        assert(e.skip(2 + k) =~= content);
    }
}

} // verus!
