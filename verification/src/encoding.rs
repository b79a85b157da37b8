//! Canonical byte encodings used as hashing payloads, and helpers for
//! reading a digest prefix as an integer.
//!
//! Every encoder has a spec-level twin, so the content hash of a
//! transaction or block is a mathematical function of its fields.

use vstd::prelude::*;
use vstd::string::StrSliceExecFns;
use vstd::utf8::encode_utf8;

verus! {

/// Byte `i` (most significant first) of the big-endian encoding of `x`.
pub open spec fn u128_be_byte(x: u128, i: int) -> u8 {
    (x >> (((15 - i) * 8) as u128)) as u8
}

/// The 16-byte big-endian encoding of `x`.
pub open spec fn u128_be_bytes(x: u128) -> Seq<u8> {
    Seq::new(16, |i: int| u128_be_byte(x, i))
}

/// A string's encoding: the length of its UTF-8 form, then its UTF-8 bytes.
pub open spec fn str_encoding(s: Seq<char>) -> Seq<u8> {
    u128_be_bytes(encode_utf8(s).len() as u128) + encode_utf8(s)
}

/// An optional string's encoding: a presence tag, then the string.
pub open spec fn opt_str_encoding(s: Option<Seq<char>>) -> Seq<u8> {
    match s {
        None => seq![0u8],
        Some(inner) => seq![1u8] + str_encoding(inner),
    }
}

/// The lowercase hex digit with value `n`.
pub open spec fn hex_digit(n: int) -> char {
    seq!['0', '1', '2', '3', '4', '5', '6', '7', '8', '9', 'a', 'b', 'c', 'd', 'e', 'f'][n]
}

/// Lowercase hex encoding: two digits per byte, high nibble first.
pub open spec fn hex_of(bytes: Seq<u8>) -> Seq<char> {
    Seq::new(
        bytes.len() * 2,
        |i: int| if i % 2 == 0 {
            hex_digit(bytes[i / 2] as int / 16)
        } else {
            hex_digit(bytes[i / 2] as int % 16)
        },
    )
}

/// The integer held by the first `n` bytes of `bytes`, big-endian.
pub open spec fn be_prefix_value(bytes: Seq<u8>, n: int) -> int
    decreases n,
{
    if n <= 0 {
        0
    } else {
        be_prefix_value(bytes, n - 1) * 256 + bytes[n - 1]
    }
}

/// `256^n`.
pub open spec fn pow256(n: int) -> int
    decreases n,
{
    if n <= 0 {
        1
    } else {
        256 * pow256(n - 1)
    }
}

/// A big-endian prefix of `n` bytes holds a value below `256^n`.
pub proof fn lemma_be_prefix_value_bound(bytes: Seq<u8>, n: int)
    requires
        0 <= n <= bytes.len(),
    ensures
        0 <= be_prefix_value(bytes, n) < pow256(n),
    decreases n,
{
    if n > 0 {
        lemma_be_prefix_value_bound(bytes, n - 1);
    }
}

/// Append the 16-byte big-endian encoding of `x` to `out`.
pub fn push_u128_be(out: &mut Vec<u8>, x: u128)
    ensures
        final(out)@ == old(out)@ + u128_be_bytes(x),
{
    let ghost pre = old(out)@;
    let mut i: usize = 0;
    while i < 16
        invariant
            i <= 16,
            out@ == pre + Seq::new(i as nat, |j: int| u128_be_byte(x, j)),
        decreases 16 - i,
    {
        let sh: u128 = ((15 - i) as u128) * 8;
        let b: u8 = #[verifier::truncate] ((x >> sh) as u8);
        out.push(b);
        proof {
            assert(out@ =~= pre + Seq::new((i + 1) as nat, |j: int| u128_be_byte(x, j)));
        }
        i += 1;
    }
    proof {
        assert(out@ =~= pre + u128_be_bytes(x));
    }
}

/// Append all of `bytes` to `out`.
pub fn push_bytes(out: &mut Vec<u8>, bytes: &Vec<u8>)
    ensures
        final(out)@ == old(out)@ + bytes@,
{
    let ghost pre = old(out)@;
    let mut i: usize = 0;
    while i < bytes.len()
        invariant
            i <= bytes@.len(),
            out@ == pre + bytes@.subrange(0, i as int),
        decreases bytes@.len() - i,
    {
        out.push(bytes[i]);
        proof {
            assert(out@ =~= pre + bytes@.subrange(0, (i + 1) as int));
        }
        i += 1;
    }
    proof {
        assert(out@ =~= pre + bytes@);
    }
}

/// Append the length-prefixed UTF-8 encoding of `s` to `out`.
pub fn push_str(out: &mut Vec<u8>, s: &String)
    ensures
        final(out)@ == old(out)@ + str_encoding(s@),
{
    let bytes = s.as_str().as_bytes_vec();
    push_u128_be(out, bytes.len() as u128);
    push_bytes(out, &bytes);
}

/// An owned copy of a byte vector.
pub fn clone_bytes(v: &Vec<u8>) -> (r: Vec<u8>)
    ensures
        r@ == v@,
{
    let mut r: Vec<u8> = Vec::new();
    let mut i: usize = 0;
    while i < v.len()
        invariant
            i <= v@.len(),
            r@ == v@.subrange(0, i as int),
        decreases v@.len() - i,
    {
        r.push(v[i]);
        proof {
            assert(r@ =~= v@.subrange(0, (i + 1) as int));
        }
        i += 1;
    }
    proof {
        assert(r@ =~= v@);
    }
    r
}

} // verus!
