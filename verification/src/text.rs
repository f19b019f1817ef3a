//! Byte and text encodings shared by the proof and commitment builders:
//! little-endian integers, decimal numerals, and concatenation helpers.
use vstd::prelude::*;
use vstd::string::*;
use crate::crypto::string_push;

verus! {

/// The eight little-endian bytes of a `u64` (what `u64::to_le_bytes` gives).
pub open spec fn le_bytes_u64(n: u64) -> Seq<u8> {
    seq![
        (n % 0x100) as u8,
        ((n / 0x100) % 0x100) as u8,
        ((n / 0x1_0000) % 0x100) as u8,
        ((n / 0x100_0000) % 0x100) as u8,
        ((n / 0x1_0000_0000) % 0x100) as u8,
        ((n / 0x100_0000_0000) % 0x100) as u8,
        ((n / 0x1_0000_0000_0000) % 0x100) as u8,
        ((n / 0x100_0000_0000_0000) % 0x100) as u8,
    ]
}

/// The four little-endian bytes of a `u32`.
pub open spec fn le_bytes_u32(n: u32) -> Seq<u8> {
    seq![
        (n % 0x100) as u8,
        ((n / 0x100) % 0x100) as u8,
        ((n / 0x1_0000) % 0x100) as u8,
        ((n / 0x100_0000) % 0x100) as u8,
    ]
}

/// The ASCII bytes of the decimal numeral of `n`, without leading zeros.
pub open spec fn decimal_bytes(n: nat) -> Seq<u8>
    decreases n,
{
    if n < 10 {
        seq![(48 + n) as u8]
    } else {
        decimal_bytes(n / 10).push((48 + n % 10) as u8)
    }
}

/// The decimal numeral of `n` as characters (what `format!("{}", n)` prints).
pub open spec fn decimal_chars(n: nat) -> Seq<char> {
    decimal_bytes(n).map_values(|b: u8| b as char)
}

/// `u64::to_le_bytes`, as a vector.
pub fn u64_le_bytes(n: u64) -> (res: Vec<u8>)
    ensures
        res@ == le_bytes_u64(n),
{
    let mut v: Vec<u8> = Vec::new();
    v.push((n % 0x100) as u8);
    v.push(((n / 0x100) % 0x100) as u8);
    v.push(((n / 0x1_0000) % 0x100) as u8);
    v.push(((n / 0x100_0000) % 0x100) as u8);
    v.push(((n / 0x1_0000_0000) % 0x100) as u8);
    v.push(((n / 0x100_0000_0000) % 0x100) as u8);
    v.push(((n / 0x1_0000_0000_0000) % 0x100) as u8);
    v.push(((n / 0x100_0000_0000_0000) % 0x100) as u8);
    assert(v@ =~= le_bytes_u64(n));
    v
}

/// `u32::to_le_bytes`, as a vector.
pub fn u32_le_bytes(n: u32) -> (res: Vec<u8>)
    ensures
        res@ == le_bytes_u32(n),
{
    let mut v: Vec<u8> = Vec::new();
    v.push((n % 0x100) as u8);
    v.push(((n / 0x100) % 0x100) as u8);
    v.push(((n / 0x1_0000) % 0x100) as u8);
    v.push(((n / 0x100_0000) % 0x100) as u8);
    assert(v@ =~= le_bytes_u32(n));
    v
}

/// Decimal numerals are non-empty and made of ASCII digits.
pub proof fn lemma_decimal_bytes_shape(n: nat)
    ensures
        1 <= decimal_bytes(n).len(),
        forall|i: int| 0 <= i < decimal_bytes(n).len() ==> 48 <= #[trigger] decimal_bytes(n)[i] <= 57,
    decreases n,
{
    if n >= 10 {
        lemma_decimal_bytes_shape(n / 10);
    }
}

/// The decimal numeral of `n` as ASCII bytes.
pub fn u64_decimal_bytes(n: u64) -> (res: Vec<u8>)
    ensures
        res@ == decimal_bytes(n as nat),
    decreases n,
{
    if n < 10 {
        let mut v: Vec<u8> = Vec::new();
        v.push((48 + n) as u8);
        assert(v@ =~= decimal_bytes(n as nat));
        v
    } else {
        let mut v = u64_decimal_bytes(n / 10);
        v.push((48 + n % 10) as u8);
        v
    }
}

/// The decimal numeral of `n` as ASCII bytes.
pub fn u128_decimal_bytes(n: u128) -> (res: Vec<u8>)
    ensures
        res@ == decimal_bytes(n as nat),
    decreases n,
{
    if n < 10 {
        let mut v: Vec<u8> = Vec::new();
        v.push((48 + n) as u8);
        assert(v@ =~= decimal_bytes(n as nat));
        v
    } else {
        let mut v = u128_decimal_bytes(n / 10);
        v.push((48 + n % 10) as u8);
        v
    }
}

/// Appends `s` to `v`.
pub fn extend_bytes(v: &mut Vec<u8>, s: &[u8])
    ensures
        final(v)@ == old(v)@ + s@,
{
    let ghost start = v@;
    let mut i: usize = 0;
    while i < s.len()
        invariant
            i <= s@.len(),
            v@ == start + s@.subrange(0, i as int),
        decreases s@.len() - i,
    {
        v.push(s[i]);
        i = i + 1;
        assert(v@ =~= start + s@.subrange(0, i as int));
    }
    assert(s@.subrange(0, s@.len() as int) =~= s@);
}

/// Appends the UTF-8 bytes of `s` to `v`.
pub fn extend_str_bytes(v: &mut Vec<u8>, s: &str)
    ensures
        final(v)@ == old(v)@ + s.spec_bytes(),
{
    extend_bytes(v, s.as_bytes());
}

/// Appends the ASCII decimal numeral of `n` to `v`.
pub fn extend_decimal(v: &mut Vec<u8>, n: u64)
    ensures
        final(v)@ == old(v)@ + decimal_bytes(n as nat),
{
    let d = u64_decimal_bytes(n);
    extend_bytes(v, d.as_slice());
}

/// Appends the characters of the ASCII bytes `bytes` to `s`.
pub fn push_ascii(s: &mut String, bytes: &[u8])
    ensures
        final(s)@ == old(s)@ + bytes@.map_values(|b: u8| b as char),
{
    let ghost start = s@;
    let mut i: usize = 0;
    while i < bytes.len()
        invariant
            i <= bytes@.len(),
            s@ == start + bytes@.subrange(0, i as int).map_values(|b: u8| b as char),
        decreases bytes@.len() - i,
    {
        string_push(s, bytes[i] as char);
        i = i + 1;
        assert(s@ =~= start + bytes@.subrange(0, i as int).map_values(|b: u8| b as char));
    }
    assert(bytes@.subrange(0, bytes@.len() as int) =~= bytes@);
}

/// Appends the decimal numeral of `n` to `s` (what `s += &n.to_string()` does).
pub fn push_decimal(s: &mut String, n: u64)
    ensures
        final(s)@ == old(s)@ + decimal_chars(n as nat),
{
    let d = u64_decimal_bytes(n);
    push_ascii(s, d.as_slice());
}

/// Appends the decimal numeral of `n` to `s`.
pub fn push_decimal_u128(s: &mut String, n: u128)
    ensures
        final(s)@ == old(s)@ + decimal_chars(n as nat),
{
    let d = u128_decimal_bytes(n);
    push_ascii(s, d.as_slice());
}

/// Byte-wise equality of two slices.
pub fn bytes_equal(a: &[u8], b: &[u8]) -> (res: bool)
    ensures
        res == (a@ == b@),
{
    if a.len() != b.len() {
        return false;
    }
    let mut i: usize = 0;
    while i < a.len()
        invariant
            a@.len() == b@.len(),
            i <= a@.len(),
            forall|j: int| 0 <= j < i ==> a@[j] == b@[j],
        decreases a@.len() - i,
    {
        if a[i] != b[i] {
            return false;
        }
        i = i + 1;
    }
    assert(a@ =~= b@);
    true
}

/// Whether `data` begins with `prefix`.
pub fn starts_with(data: &[u8], prefix: &[u8]) -> (res: bool)
    ensures
        res == (prefix@.len() <= data@.len() && data@.subrange(0, prefix@.len() as int) == prefix@),
{
    if prefix.len() > data.len() {
        return false;
    }
    let mut i: usize = 0;
    while i < prefix.len()
        invariant
            prefix@.len() <= data@.len(),
            i <= prefix@.len(),
            forall|j: int| 0 <= j < i ==> data@[j] == prefix@[j],
        decreases prefix@.len() - i,
    {
        if data[i] != prefix[i] {
            assert(data@.subrange(0, prefix@.len() as int)[i as int] != prefix@[i as int]);
            return false;
        }
        i = i + 1;
    }
    assert(data@.subrange(0, prefix@.len() as int) =~= prefix@);
    true
}

/// Whether every byte of `a` is zero.
pub fn all_zero(a: &[u8]) -> (res: bool)
    ensures
        res == (forall|j: int| 0 <= j < a@.len() ==> a@[j] == 0),
{
    let mut i: usize = 0;
    while i < a.len()
        invariant
            i <= a@.len(),
            forall|j: int| 0 <= j < i ==> a@[j] == 0,
        decreases a@.len() - i,
    {
        if a[i] != 0 {
            return false;
        }
        i = i + 1;
    }
    true
}

/// A string in double quotes, as `{:?}` prints one without escapes.
pub open spec fn quoted(s: Seq<char>) -> Seq<char> {
    "\""@ + s + "\""@
}

/// The items quoted and separated by `, ` (the inside of `{:?}` of a list of
/// strings that need no escapes).
pub open spec fn quoted_join(items: Seq<Seq<char>>) -> Seq<char>
    decreases items.len(),
{
    if items.len() == 0 {
        Seq::empty()
    } else if items.len() == 1 {
        quoted(items[0])
    } else {
        quoted_join(items.drop_last()) + ", "@ + quoted(items.last())
    }
}

/// `{:?}` of a list of strings that need no escapes: `["a", "b"]`.
pub open spec fn debug_list(items: Seq<Seq<char>>) -> Seq<char> {
    "["@ + quoted_join(items) + "]"@
}

/// The views of a list of strings.
pub open spec fn string_views(items: Seq<String>) -> Seq<Seq<char>> {
    items.map_values(|s: String| s@)
}

/// Writes a list of strings the way `{:?}` does when no character needs an
/// escape (as for hex digests).
pub fn debug_string_list(items: &Vec<String>) -> (res: String)
    ensures
        res@ == debug_list(string_views(items@)),
{
    let ghost views = string_views(items@);
    let mut s = owned("[");
    let mut i: usize = 0;
    while i < items.len()
        invariant
            i <= items@.len(),
            views == string_views(items@),
            s@ == "["@ + quoted_join(views.take(i as int)),
        decreases items@.len() - i,
    {
        if i > 0 {
            s.append(", ");
        }
        s.append("\"");
        s.append(items[i].as_str());
        s.append("\"");
        proof {
            assert(views.take(i + 1).drop_last() =~= views.take(i as int));
            assert(views.take(i + 1).last() == items@[i as int]@);
            if i == 0 {
                assert(views.take(1).len() == 1);
            }
        }
        i = i + 1;
    }
    s.append("]");
    assert(views.take(items@.len() as int) =~= views);
    s
}

/// A non-empty string has a non-empty UTF-8 encoding.
pub proof fn lemma_encode_utf8_nonempty(chars: Seq<char>)
    requires
        chars.len() > 0,
    ensures
        vstd::utf8::encode_utf8(chars).len() > 0,
{
    let c = chars[0] as u32;
    assert(vstd::utf8::encode_scalar(c).len() >= 1);
}

/// Equality of two strings, by their UTF-8 bytes.
pub fn str_equal(a: &str, b: &str) -> (res: bool)
    ensures
        res == (a@ == b@),
{
    let r = bytes_equal(a.as_bytes(), b.as_bytes());
    proof {
        vstd::utf8::encode_utf8_decode_utf8(a@);
        vstd::utf8::encode_utf8_decode_utf8(b@);
    }
    r
}

/// The strings one after the other.
pub open spec fn join_all(items: Seq<Seq<char>>) -> Seq<char>
    decreases items.len(),
{
    if items.len() == 0 {
        Seq::empty()
    } else {
        join_all(items.drop_last()) + items.last()
    }
}

/// `join_all` of one more item.
pub proof fn lemma_join_all_push(items: Seq<Seq<char>>, x: Seq<char>)
    ensures
        join_all(items.push(x)) == join_all(items) + x,
{
    assert(items.push(x).drop_last() =~= items);
}

/// Appends the decimal numeral of `n` to `s`, then the literal `tail`.
pub fn push_decimal_then(s: &mut String, n: u64, tail: &str)
    ensures
        final(s)@ == old(s)@ + decimal_chars(n as nat) + tail@,
{
    push_decimal(s, n);
    s.append(tail);
}

/// A string from a literal (what `"..".to_string()` gives).
pub fn owned(s: &str) -> (res: String)
    ensures
        res@ == s@,
{
    s.to_owned()
}

} // verus!
