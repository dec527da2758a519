use vstd::prelude::*;
use vstd::string::StrSliceExecFns;

use crate::error::{DecodeKind, FetchError};

verus! {

/// Whether `c` is an ASCII decimal digit.
pub open spec fn is_digit(c: char) -> bool {
    '0' <= c && c <= '9'
}

/// The value of the decimal digit `c`.
pub open spec fn digit_value(c: char) -> nat {
    (c as nat - '0' as nat) as nat
}

/// Whether every character of `s` is a decimal digit.
pub open spec fn all_digits(s: Seq<char>) -> bool {
    forall|i: int| 0 <= i < s.len() ==> is_digit(#[trigger] s[i])
}

/// The number that the digits `s` spell, most significant first.
pub open spec fn decimal_value(s: Seq<char>) -> nat
    decreases s.len(),
{
    if s.len() == 0 {
        0
    } else {
        decimal_value(s.drop_last()) * 10 + digit_value(s.last())
    }
}

/// The digits of an unsigned decimal: `s` without one leading `+`.
pub open spec fn unsigned_digits(s: Seq<char>) -> Seq<char> {
    if s.len() > 0 && s[0] == '+' {
        s.drop_first()
    } else {
        s
    }
}

/// The `u64` that the text `s` denotes as an unsigned decimal, if any: an
/// optional `+` followed by one or more digits whose value fits in 64 bits.
pub open spec fn parse_u64(s: Seq<char>) -> Option<u64> {
    let d = unsigned_digits(s);
    if d.len() > 0 && all_digits(d) && decimal_value(d) <= u64::MAX {
        Some(decimal_value(d) as u64)
    } else {
        None
    }
}

/// A prefix of a string of digits never spells more than the whole.
proof fn lemma_prefix_value_le(s: Seq<char>, k: int)
    requires
        all_digits(s),
        0 <= k <= s.len(),
    ensures
        decimal_value(s.subrange(0, k)) <= decimal_value(s),
    decreases s.len(),
{
    if k < s.len() {
        let t = s.drop_last();
        assert(all_digits(t));
        lemma_prefix_value_le(t, k);
        assert(t.subrange(0, k) =~= s.subrange(0, k));
    } else {
        assert(s.subrange(0, k) =~= s);
    }
}

/// Reads a string-encoded integer field: the `u64` that `s` denotes as an
/// unsigned decimal, or `Decode(Integer)` where it denotes none.
pub fn from_str(s: &str) -> (r: Result<u64, FetchError>)
    ensures
        match parse_u64(s@) {
            Some(v) => r == Ok::<u64, FetchError>(v),
            None => r == Err::<u64, FetchError>(FetchError::Decode(DecodeKind::Integer)),
        },
{
    let n = s.unicode_len();
    let start: usize = if n > 0 && s.get_char(0) == '+' { 1 } else { 0 };
    let ghost d = unsigned_digits(s@);
    assert(d =~= s@.subrange(start as int, n as int));
    if start >= n {
        return Err(FetchError::Decode(DecodeKind::Integer));
    }
    let mut acc: u64 = 0;
    let mut i: usize = start;
    while i < n
        invariant
            start <= i <= n,
            n == s@.len(),
            d == unsigned_digits(s@),
            d =~= s@.subrange(start as int, n as int),
            all_digits(d.subrange(0, i - start)),
            acc as nat == decimal_value(d.subrange(0, i - start)),
        decreases n - i,
    {
        let c = s.get_char(i);
        if !('0' <= c && c <= '9') {
            assert(!is_digit(d[i - start]));
            return Err(FetchError::Decode(DecodeKind::Integer));
        }
        let dv: u64 = (c as u32 - '0' as u32) as u64;
        let ghost pre = d.subrange(0, i - start);
        let ghost next = d.subrange(0, i - start + 1);
        assert(next.drop_last() =~= pre);
        assert(next.last() == c);
        assert(all_digits(next)) by {
            assert forall|j: int| 0 <= j < next.len() implies is_digit(#[trigger] next[j]) by {
                if j < pre.len() {
                    assert(next[j] == pre[j]);
                }
            }
        }
        if acc > (u64::MAX - dv) / 10 {
            assert(decimal_value(next) > u64::MAX);
            proof {
                if all_digits(d) {
                    lemma_prefix_value_le(d, i - start + 1);
                }
            }
            return Err(FetchError::Decode(DecodeKind::Integer));
        }
        acc = acc * 10 + dv;
        i = i + 1;
    }
    assert(d.subrange(0, n - start) =~= d);
    Ok(acc)
}

/// The ASCII digit for `d`, where `d < 10`.
pub open spec fn digit_char(d: nat) -> char {
    if d == 0 { '0' }
    else if d == 1 { '1' }
    else if d == 2 { '2' }
    else if d == 3 { '3' }
    else if d == 4 { '4' }
    else if d == 5 { '5' }
    else if d == 6 { '6' }
    else if d == 7 { '7' }
    else if d == 8 { '8' }
    else { '9' }
}

/// The shortest decimal text of `n`: no sign, no leading zero but for `0`.
pub open spec fn decimal_text(n: nat) -> Seq<char>
    decreases n,
{
    if n < 10 {
        seq![digit_char(n)]
    } else {
        decimal_text(n / 10).push(digit_char(n % 10))
    }
}

proof fn lemma_decimal_text_digits(n: nat)
    ensures
        decimal_text(n).len() > 0,
        all_digits(decimal_text(n)),
        decimal_value(decimal_text(n)) == n,
    decreases n,
{
    let t = decimal_text(n);
    if n < 10 {
        assert(t.drop_last() =~= Seq::<char>::empty());
        assert(decimal_value(Seq::<char>::empty()) == 0);
    } else {
        lemma_decimal_text_digits(n / 10);
        let p = decimal_text(n / 10);
        assert(t.drop_last() =~= p);
        assert forall|i: int| 0 <= i < t.len() implies is_digit(#[trigger] t[i]) by {
            if i < p.len() {
                assert(t[i] == p[i]);
            }
        }
    }
}

/// Reading back the decimal text of any `u64` gives that same `u64`.
pub proof fn lemma_parse_decimal_text(n: u64)
    ensures
        parse_u64(decimal_text(n as nat)) == Some(n),
{
    lemma_decimal_text_digits(n as nat);
    let t = decimal_text(n as nat);
    assert(is_digit(t[0]));
    assert(unsigned_digits(t) == t);
}

/// Relies on `u64`'s `Display` impl, through `ToString`: the shortest decimal
/// form of the number.
#[verifier::external_body]
pub(crate) fn decimal_string(n: u64) -> (r: String)
    ensures
        r@ == decimal_text(n as nat),
{
    n.to_string()
}

/// What base64 0.13's `decode` gives for the text `s` under the standard
/// alphabet: the bytes, or `None` where `s` is not base64.
pub uninterp spec fn base64_decoded(s: Seq<char>) -> Option<Seq<u8>>;

/// Relies on `base64::decode` (standard alphabet): the bytes that `s` encodes,
/// or an error where it is not base64.
#[verifier::external_body]
fn base64_decode(s: &str) -> (r: Option<Vec<u8>>)
    ensures
        match base64_decoded(s@) {
            Some(b) => r matches Some(v) && v@ == b,
            None => r is None,
        },
{
    base64::decode(s).ok()
}

/// Reads a base64-encoded bytes field: the bytes that `s` encodes, or
/// `Decode(Base64)` where it is not base64.
pub fn from_base64_to_bytes(s: &str) -> (r: Result<Vec<u8>, FetchError>)
    ensures
        match base64_decoded(s@) {
            Some(b) => r matches Ok(v) && v@ == b,
            None => r == Err::<Vec<u8>, FetchError>(FetchError::Decode(DecodeKind::Base64)),
        },
{
    match base64_decode(s) {
        Some(v) => Ok(v),
        None => Err(FetchError::Decode(DecodeKind::Base64)),
    }
}

/// The number that the bytes `b` spell in big-endian order.
pub open spec fn be_value(b: Seq<u8>) -> nat
    decreases b.len(),
{
    if b.len() == 0 {
        0
    } else {
        be_value(b.drop_last()) * 256 + b.last() as nat
    }
}

/// `256` to the power `k`.
pub open spec fn pow256(k: nat) -> nat
    decreases k,
{
    if k == 0 {
        1
    } else {
        pow256((k - 1) as nat) * 256
    }
}

proof fn lemma_be_value_bound(b: Seq<u8>)
    ensures
        be_value(b) < pow256(b.len() as nat),
    decreases b.len(),
{
    if b.len() > 0 {
        let k = (b.len() - 1) as nat;
        lemma_be_value_bound(b.drop_last());
        let p = pow256(k);
        assert(be_value(b.drop_last()) * 256 + (b.last() as nat) < p * 256) by (nonlinear_arith)
            requires
                be_value(b.drop_last()) < p,
                (b.last() as nat) < 256,
        ;
    }
}

/// Eight bytes always spell a number that fits in a `u64`.
pub proof fn lemma_be_value_u64(b: Seq<u8>)
    requires
        b.len() == 8,
    ensures
        be_value(b) <= u64::MAX,
{
    lemma_be_value_bound(b);
    reveal_with_fuel(pow256, 9);
    assert(pow256(8) == 0x1_0000_0000_0000_0000);
}

/// What obi's decoding of a `u64` gives for the bytes `b`: the big-endian
/// value of exactly eight bytes, and nothing for any other length.
pub open spec fn obi_u64(b: Seq<u8>) -> Option<u64> {
    if b.len() == 8 {
        Some(be_value(b) as u64)
    } else {
        None
    }
}

/// Relies on obi's `OBIDecode::try_from_slice` for `u64`: it reads eight
/// big-endian bytes and fails on a shorter input or on bytes left over.
#[verifier::external_body]
fn obi_decode_u64(b: &[u8]) -> (r: Option<u64>)
    ensures
        r == obi_u64(b@),
{
    <u64 as obi::OBIDecode>::try_from_slice(b).ok()
}

/// The price that a resolved request carries, in its binary encoding a single
/// unsigned 64-bit field.
#[derive(Debug, Clone, Copy, PartialEq, Eq, Structural)]
pub struct Price {
    pub px: u64,
}

impl Price {
    /// Decodes a price from its binary encoding: exactly the eight big-endian
    /// bytes of `px`; any other length is `BinaryDecode`.
    pub fn try_from_slice(v: &[u8]) -> (r: Result<Price, FetchError>)
        ensures
            match obi_u64(v@) {
                Some(px) => r == Ok::<Price, FetchError>(Price { px }),
                None => r == Err::<Price, FetchError>(FetchError::BinaryDecode),
            },
            r is Ok <==> v@.len() == 8,
            r matches Ok(p) ==> p.px as nat == be_value(v@),
    {
        proof {
            if v@.len() == 8 {
                lemma_be_value_u64(v@);
            }
        }
        match obi_decode_u64(v) {
            Some(px) => Ok(Price { px }),
            None => Err(FetchError::BinaryDecode),
        }
    }
}

} // verus!
