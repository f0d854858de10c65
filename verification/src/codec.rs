//! The typed value codec: how single values are laid out in bytes.
//!
//! Integers are little-endian and width-exact; tags and magic identifiers are
//! big-endian. A value of variable length carries its element count in eight
//! bytes before its elements. Every decoder reads at a position of a byte
//! slice and gives the value together with the position behind it; on failure
//! nothing is consumed.

use vstd::prelude::*;
use vstd::bytes::*;
use vstd::slice::*;
use vstd::utf8::*;
use crate::error::{ZffError, ZffErrorKind};

verus! {

/// Whether `n` bytes can be read from `data` at `pos`.
pub open spec fn fits(data: Seq<u8>, pos: int, n: int) -> bool {
    0 <= pos && 0 <= n && pos + n <= data.len()
}

/// What an executable decoder returned agrees with what the format says:
/// the same value at the same end position, or an error of the same kind.
pub open spec fn agrees<T: View>(
    res: Result<(T, usize), ZffError>,
    expected: Result<(T::V, int), ZffErrorKind>,
) -> bool {
    match expected {
        Ok((value, end)) => res matches Ok((v, p)) && v@ == value && p as int == end,
        Err(kind) => res matches Err(e) && e.kind == kind,
    }
}

/// The bytes of one byte.
pub open spec fn spec_encode_u8(v: u8) -> Seq<u8> {
    seq![v]
}

/// The four bytes of `v`, most significant first.
pub open spec fn spec_encode_u32_be(v: u32) -> Seq<u8> {
    seq![
        (v / 0x1000000) as u8,
        ((v / 0x10000) % 0x100) as u8,
        ((v / 0x100) % 0x100) as u8,
        (v % 0x100) as u8,
    ]
}

/// The number that four bytes spell, most significant first.
pub open spec fn spec_u32_from_be(s: Seq<u8>) -> u32
    recommends
        s.len() == 4,
{
    (s[0] as int * 0x1000000 + s[1] as int * 0x10000 + s[2] as int * 0x100 + s[3] as int) as u32
}

/// The four bytes of `v`, least significant first.
pub open spec fn spec_encode_u32(v: u32) -> Seq<u8> {
    seq![
        (v % 0x100) as u8,
        ((v / 0x100) % 0x100) as u8,
        ((v / 0x10000) % 0x100) as u8,
        (v / 0x1000000) as u8,
    ]
}

/// The number that four bytes spell, least significant first.
pub open spec fn spec_u32_from_le(s: Seq<u8>) -> u32
    recommends
        s.len() == 4,
{
    (s[0] as int + s[1] as int * 0x100 + s[2] as int * 0x10000 + s[3] as int * 0x1000000) as u32
}

/// The eight bytes of `v`, least significant first.
pub open spec fn spec_encode_u64(v: u64) -> Seq<u8> {
    spec_u64_to_le_bytes(v)
}

/// The unsigned number with the bit pattern of `v`.
pub open spec fn spec_i64_bits(v: i64) -> u64 {
    if v >= 0 {
        v as u64
    } else {
        (v + 0x1_0000_0000_0000_0000) as u64
    }
}

/// The signed number with the bit pattern of `u`.
pub open spec fn spec_i64_of_bits(u: u64) -> i64 {
    if u <= i64::MAX {
        u as i64
    } else {
        (u - 0x1_0000_0000_0000_0000) as i64
    }
}

/// The eight bytes of `v` in two's complement, least significant first.
pub open spec fn spec_encode_i64(v: i64) -> Seq<u8> {
    spec_u64_to_le_bytes(spec_i64_bits(v))
}

/// A byte string behind its length.
pub open spec fn spec_encode_bytes(b: Seq<u8>) -> Seq<u8> {
    spec_encode_u64(b.len() as u64) + b
}

/// A string as its UTF-8 bytes behind their number.
pub open spec fn spec_encode_string(s: Seq<char>) -> Seq<u8> {
    spec_encode_bytes(encode_utf8(s))
}

/// The numbers of `v`, eight bytes each, one after the other.
pub open spec fn spec_encode_u64_items(v: Seq<u64>) -> Seq<u8>
    decreases v.len(),
{
    if v.len() == 0 {
        Seq::empty()
    } else {
        spec_encode_u64_items(v.drop_last()) + spec_encode_u64(v.last())
    }
}

/// A sequence of numbers behind its length.
pub open spec fn spec_encode_u64_seq(v: Seq<u64>) -> Seq<u8> {
    spec_encode_u64(v.len() as u64) + spec_encode_u64_items(v)
}

/// A value behind the tag that announces it.
pub open spec fn spec_encode_for_key(key: u32, value: Seq<u8>) -> Seq<u8> {
    spec_encode_u32_be(key) + value
}

/// One byte at `pos`.
pub open spec fn spec_decode_u8(data: Seq<u8>, pos: int) -> Result<(u8, int), ZffErrorKind> {
    if fits(data, pos, 1) {
        Ok((data[pos], pos + 1))
    } else {
        Err(ZffErrorKind::MalformedInput)
    }
}

/// A big-endian `u32` at `pos`.
pub open spec fn spec_decode_u32_be(data: Seq<u8>, pos: int) -> Result<(u32, int), ZffErrorKind> {
    if fits(data, pos, 4) {
        Ok((spec_u32_from_be(data.subrange(pos, pos + 4)), pos + 4))
    } else {
        Err(ZffErrorKind::MalformedInput)
    }
}

/// A little-endian `u32` at `pos`.
pub open spec fn spec_decode_u32(data: Seq<u8>, pos: int) -> Result<(u32, int), ZffErrorKind> {
    if fits(data, pos, 4) {
        Ok((spec_u32_from_le(data.subrange(pos, pos + 4)), pos + 4))
    } else {
        Err(ZffErrorKind::MalformedInput)
    }
}

/// A little-endian `u64` at `pos`.
pub open spec fn spec_decode_u64(data: Seq<u8>, pos: int) -> Result<(u64, int), ZffErrorKind> {
    if fits(data, pos, 8) {
        Ok((spec_u64_from_le_bytes(data.subrange(pos, pos + 8)), pos + 8))
    } else {
        Err(ZffErrorKind::MalformedInput)
    }
}

/// A little-endian `i64` at `pos`.
pub open spec fn spec_decode_i64(data: Seq<u8>, pos: int) -> Result<(i64, int), ZffErrorKind> {
    match spec_decode_u64(data, pos) {
        Ok((u, end)) => Ok((spec_i64_of_bits(u), end)),
        Err(kind) => Err(kind),
    }
}

/// `n` bytes at `pos`, taken as they are.
pub open spec fn spec_decode_fixed(data: Seq<u8>, pos: int, n: int) -> Result<
    (Seq<u8>, int),
    ZffErrorKind,
> {
    if fits(data, pos, n) {
        Ok((data.subrange(pos, pos + n), pos + n))
    } else {
        Err(ZffErrorKind::MalformedInput)
    }
}

/// A byte string behind its length at `pos`.
pub open spec fn spec_decode_bytes(data: Seq<u8>, pos: int) -> Result<(Seq<u8>, int), ZffErrorKind> {
    match spec_decode_u64(data, pos) {
        Ok((n, start)) => spec_decode_fixed(data, start, n as int),
        Err(kind) => Err(kind),
    }
}

/// A string at `pos`: a byte string that is valid UTF-8.
pub open spec fn spec_decode_string(data: Seq<u8>, pos: int) -> Result<
    (Seq<char>, int),
    ZffErrorKind,
> {
    match spec_decode_bytes(data, pos) {
        Ok((bytes, end)) => if valid_utf8(bytes) {
            Ok((decode_utf8(bytes), end))
        } else {
            Err(ZffErrorKind::MalformedInput)
        },
        Err(kind) => Err(kind),
    }
}

/// The `i`-th of the numbers that lie one after the other from `start`.
pub open spec fn spec_u64_item(data: Seq<u8>, start: int, i: int) -> u64 {
    spec_u64_from_le_bytes(data.subrange(start + 8 * i, start + 8 * i + 8))
}

/// A sequence of numbers behind its length at `pos`.
pub open spec fn spec_decode_u64_seq(data: Seq<u8>, pos: int) -> Result<
    (Seq<u64>, int),
    ZffErrorKind,
> {
    match spec_decode_u64(data, pos) {
        Ok((n, start)) => if fits(data, start, 8 * n) {
            Ok((Seq::new(n as nat, |i: int| spec_u64_item(data, start, i)), start + 8 * n))
        } else {
            Err(ZffErrorKind::MalformedInput)
        },
        Err(kind) => Err(kind),
    }
}

/// Whether the tag `key` stands at `pos`.
pub open spec fn spec_key_at(data: Seq<u8>, pos: int, key: u32) -> bool {
    fits(data, pos, 4) && spec_u32_from_be(data.subrange(pos, pos + 4)) == key
}

/// A tagged string at `pos`: absent unless the tag stands there.
pub open spec fn spec_decode_string_for_key(data: Seq<u8>, pos: int, key: u32) -> Result<
    (Seq<char>, int),
    ZffErrorKind,
> {
    if spec_key_at(data, pos, key) {
        spec_decode_string(data, pos + 4)
    } else {
        Err(ZffErrorKind::HeaderDecoderKeyNotOnPosition)
    }
}

/// A tagged little-endian `u32` at `pos`: absent unless the tag stands there.
pub open spec fn spec_decode_u32_for_key(data: Seq<u8>, pos: int, key: u32) -> Result<
    (u32, int),
    ZffErrorKind,
> {
    if spec_key_at(data, pos, key) {
        spec_decode_u32(data, pos + 4)
    } else {
        Err(ZffErrorKind::HeaderDecoderKeyNotOnPosition)
    }
}

/// `enc` stands in `data` at `pos`.
pub open spec fn stands_at(data: Seq<u8>, pos: int, enc: Seq<u8>) -> bool {
    fits(data, pos, enc.len() as int) && data.subrange(pos, pos + enc.len()) == enc
}

/// Where a concatenation stands, its two parts stand one behind the other.
pub proof fn lemma_stands_at_split(data: Seq<u8>, pos: int, a: Seq<u8>, b: Seq<u8>)
    requires
        stands_at(data, pos, a + b),
    ensures
        stands_at(data, pos, a),
        stands_at(data, pos + a.len(), b),
{
    let ab = a + b;
    assert(data.subrange(pos, pos + a.len()) =~= a) by {
        assert forall|i: int| 0 <= i < a.len() implies data.subrange(pos, pos + a.len())[i]
            == a[i] by {
            assert(data.subrange(pos, pos + ab.len())[i] == ab[i]);
        }
    }
    assert(data.subrange(pos + a.len(), pos + a.len() + b.len()) =~= b) by {
        assert forall|i: int| 0 <= i < b.len() implies data.subrange(
            pos + a.len(),
            pos + a.len() + b.len(),
        )[i] == b[i] by {
            assert(data.subrange(pos, pos + ab.len())[a.len() + i] == ab[a.len() + i]);
        }
    }
}

/// A sequence stands at its own start.
pub proof fn lemma_stands_at_self(enc: Seq<u8>)
    ensures
        stands_at(enc, 0, enc),
{
    assert(enc.subrange(0, enc.len() as int) =~= enc);
}

/// The bytes that `spec_encode_u32_be` gives spell the number they came from.
pub proof fn lemma_u32_be_roundtrip(v: u32)
    ensures
        spec_encode_u32_be(v).len() == 4,
        spec_u32_from_be(spec_encode_u32_be(v)) == v,
{
}

/// The bytes that `spec_encode_u32` gives spell the number they came from.
pub proof fn lemma_u32_le_roundtrip(v: u32)
    ensures
        spec_encode_u32(v).len() == 4,
        spec_u32_from_le(spec_encode_u32(v)) == v,
{
}

/// The bit pattern of a signed number names that number again.
pub proof fn lemma_i64_bits_roundtrip(v: i64)
    ensures
        spec_i64_of_bits(spec_i64_bits(v)) == v,
{
}

/// What is encoded at `pos` is what the decoder finds there.
pub proof fn lemma_decode_u8(data: Seq<u8>, pos: int, v: u8)
    requires
        stands_at(data, pos, spec_encode_u8(v)),
    ensures
        spec_decode_u8(data, pos) == Ok::<_, ZffErrorKind>((v, pos + 1)),
{
    assert(data.subrange(pos, pos + 1)[0] == v);
}

/// What is encoded at `pos` is what the decoder finds there.
pub proof fn lemma_decode_u32_be(data: Seq<u8>, pos: int, v: u32)
    requires
        stands_at(data, pos, spec_encode_u32_be(v)),
    ensures
        spec_decode_u32_be(data, pos) == Ok::<_, ZffErrorKind>((v, pos + 4)),
        spec_key_at(data, pos, v),
{
    lemma_u32_be_roundtrip(v);
}

/// What is encoded at `pos` is what the decoder finds there.
pub proof fn lemma_decode_u32(data: Seq<u8>, pos: int, v: u32)
    requires
        stands_at(data, pos, spec_encode_u32(v)),
    ensures
        spec_encode_u32(v).len() == 4,
        spec_decode_u32(data, pos) == Ok::<_, ZffErrorKind>((v, pos + 4)),
{
    lemma_u32_le_roundtrip(v);
}

/// What is encoded at `pos` is what the decoder finds there.
pub proof fn lemma_decode_u64(data: Seq<u8>, pos: int, v: u64)
    requires
        stands_at(data, pos, spec_encode_u64(v)),
    ensures
        spec_encode_u64(v).len() == 8,
        spec_decode_u64(data, pos) == Ok::<_, ZffErrorKind>((v, pos + 8)),
{
    lemma_auto_spec_u64_to_from_le_bytes();
}

/// What is encoded at `pos` is what the decoder finds there.
pub proof fn lemma_decode_i64(data: Seq<u8>, pos: int, v: i64)
    requires
        stands_at(data, pos, spec_encode_i64(v)),
    ensures
        spec_encode_i64(v).len() == 8,
        spec_decode_i64(data, pos) == Ok::<_, ZffErrorKind>((v, pos + 8)),
{
    lemma_decode_u64(data, pos, spec_i64_bits(v));
}

/// What is encoded at `pos` is what the decoder finds there.
pub proof fn lemma_decode_fixed(data: Seq<u8>, pos: int, b: Seq<u8>)
    requires
        stands_at(data, pos, b),
    ensures
        spec_decode_fixed(data, pos, b.len() as int) == Ok::<_, ZffErrorKind>(
            (b, pos + b.len()),
        ),
{
}

/// What is encoded at `pos` is what the decoder finds there.
pub proof fn lemma_decode_bytes(data: Seq<u8>, pos: int, b: Seq<u8>)
    requires
        b.len() <= u64::MAX,
        stands_at(data, pos, spec_encode_bytes(b)),
    ensures
        spec_encode_bytes(b).len() == 8 + b.len(),
        spec_decode_bytes(data, pos) == Ok::<_, ZffErrorKind>((b, pos + 8 + b.len())),
{
    lemma_auto_spec_u64_to_from_le_bytes();
    lemma_stands_at_split(data, pos, spec_encode_u64(b.len() as u64), b);
    lemma_decode_u64(data, pos, b.len() as u64);
}

/// What is encoded at `pos` is what the decoder finds there.
pub proof fn lemma_decode_string(data: Seq<u8>, pos: int, s: Seq<char>)
    requires
        encode_utf8(s).len() <= u64::MAX,
        stands_at(data, pos, spec_encode_string(s)),
    ensures
        spec_encode_string(s).len() == 8 + encode_utf8(s).len(),
        spec_decode_string(data, pos) == Ok::<_, ZffErrorKind>(
            (s, pos + 8 + encode_utf8(s).len()),
        ),
{
    lemma_decode_bytes(data, pos, encode_utf8(s));
    encode_utf8_valid_utf8(s);
    encode_utf8_decode_utf8(s);
}

/// The items of a sequence of numbers take eight bytes each.
pub proof fn lemma_u64_items_len(v: Seq<u64>)
    ensures
        spec_encode_u64_items(v).len() == 8 * v.len(),
    decreases v.len(),
{
    lemma_auto_spec_u64_to_from_le_bytes();
    if v.len() > 0 {
        lemma_u64_items_len(v.drop_last());
    }
}

/// Where the items of `v` stand, the `i`-th number read there is `v[i]`.
pub proof fn lemma_u64_items_at(data: Seq<u8>, start: int, v: Seq<u64>, i: int)
    requires
        stands_at(data, start, spec_encode_u64_items(v)),
        0 <= i < v.len(),
    ensures
        spec_u64_item(data, start, i) == v[i],
    decreases v.len(),
{
    lemma_auto_spec_u64_to_from_le_bytes();
    lemma_u64_items_len(v.drop_last());
    lemma_stands_at_split(
        data,
        start,
        spec_encode_u64_items(v.drop_last()),
        spec_encode_u64(v.last()),
    );
    if i == v.len() - 1 {
    } else {
        lemma_u64_items_at(data, start, v.drop_last(), i);
    }
}

/// What is encoded at `pos` is what the decoder finds there.
pub proof fn lemma_decode_u64_seq(data: Seq<u8>, pos: int, v: Seq<u64>)
    requires
        v.len() <= u64::MAX,
        stands_at(data, pos, spec_encode_u64_seq(v)),
    ensures
        spec_encode_u64_seq(v).len() == 8 + 8 * v.len(),
        spec_decode_u64_seq(data, pos) == Ok::<_, ZffErrorKind>((v, pos + 8 + 8 * v.len())),
{
    lemma_auto_spec_u64_to_from_le_bytes();
    lemma_u64_items_len(v);
    lemma_stands_at_split(data, pos, spec_encode_u64(v.len() as u64), spec_encode_u64_items(v));
    lemma_decode_u64(data, pos, v.len() as u64);
    let start = pos + 8;
    let found = Seq::new(v.len(), |i: int| spec_u64_item(data, start, i));
    assert forall|i: int| 0 <= i < v.len() implies found[i] == v[i] by {
        lemma_u64_items_at(data, start, v, i);
    }
    assert(found =~= v);
}

/// An error of the kind `MalformedInput`, without a detail.
pub fn malformed_input() -> (e: ZffError)
    ensures
        e.kind == ZffErrorKind::MalformedInput,
        e.details@ == Seq::<char>::empty(),
{
    ZffError::of_kind(ZffErrorKind::MalformedInput)
}

/// Whether `n` bytes can be read from `data` at `pos`.
pub fn has_bytes(data: &[u8], pos: usize, n: usize) -> (b: bool)
    ensures
        b == fits(data@, pos as int, n as int),
        data@.len() <= usize::MAX,
{
    pos <= data.len() && n <= data.len() - pos
}

/// `String::from_utf8` of std: it accepts exactly the byte strings that are
/// valid UTF-8, and gives the string that those bytes spell.
#[verifier::external_body]
fn string_from_utf8(bytes: Vec<u8>) -> (res: Option<String>)
    ensures
        res is Some <==> valid_utf8(bytes@),
        res matches Some(s) ==> s@ == decode_utf8(bytes@),
{
    String::from_utf8(bytes).ok()
}

/// Encodes one byte.
pub fn encode_u8(v: u8) -> (out: Vec<u8>)
    ensures
        out@ == spec_encode_u8(v),
{
    let mut out: Vec<u8> = Vec::new();
    out.push(v);
    out
}

/// Encodes a `u32`, most significant byte first.
pub fn encode_u32_be(v: u32) -> (out: Vec<u8>)
    ensures
        out@ == spec_encode_u32_be(v),
        out@.len() == 4,
{
    let mut out: Vec<u8> = Vec::new();
    out.push((v / 0x1000000) as u8);
    out.push(((v / 0x10000) % 0x100) as u8);
    out.push(((v / 0x100) % 0x100) as u8);
    out.push((v % 0x100) as u8);
    assert(out@ =~= spec_encode_u32_be(v));
    out
}

/// Encodes a `u32`, least significant byte first.
pub fn encode_u32(v: u32) -> (out: Vec<u8>)
    ensures
        out@ == spec_encode_u32(v),
        out@.len() == 4,
{
    let mut out: Vec<u8> = Vec::new();
    out.push((v % 0x100) as u8);
    out.push(((v / 0x100) % 0x100) as u8);
    out.push(((v / 0x10000) % 0x100) as u8);
    out.push((v / 0x1000000) as u8);
    assert(out@ =~= spec_encode_u32(v));
    out
}

/// Encodes a `u64`, least significant byte first.
pub fn encode_u64(v: u64) -> (out: Vec<u8>)
    ensures
        out@ == spec_encode_u64(v),
        out@.len() == 8,
{
    u64_to_le_bytes(v)
}

/// The unsigned number with the bit pattern of `v`.
pub fn i64_bits(v: i64) -> (u: u64)
    ensures
        u == spec_i64_bits(v),
{
    if v >= 0 {
        v as u64
    } else {
        let low: u64 = ((v + i64::MAX) + 1) as u64;
        low + 0x8000_0000_0000_0000u64
    }
}

/// The signed number with the bit pattern of `u`.
pub fn i64_of_bits(u: u64) -> (v: i64)
    ensures
        v == spec_i64_of_bits(u),
{
    if u <= 0x7fff_ffff_ffff_ffffu64 {
        u as i64
    } else {
        let low: i64 = (u - 0x8000_0000_0000_0000u64) as i64;
        (low - i64::MAX) - 1
    }
}

/// Encodes an `i64` in two's complement, least significant byte first.
pub fn encode_i64(v: i64) -> (out: Vec<u8>)
    ensures
        out@ == spec_encode_i64(v),
        out@.len() == 8,
{
    u64_to_le_bytes(i64_bits(v))
}

/// Encodes a byte string behind its length.
pub fn encode_bytes(b: &[u8]) -> (out: Vec<u8>)
    ensures
        out@ == spec_encode_bytes(b@),
        out@.len() == 8 + b@.len(),
        b@.len() <= usize::MAX,
{
    let mut out = u64_to_le_bytes(b.len() as u64);
    out.extend_from_slice(b);
    out
}

/// Encodes a string as its UTF-8 bytes behind their number.
pub fn encode_string(s: &str) -> (out: Vec<u8>)
    ensures
        out@ == spec_encode_string(s@),
        out@.len() == 8 + encode_utf8(s@).len(),
        encode_utf8(s@).len() <= usize::MAX,
{
    encode_bytes(s.as_bytes())
}

/// Encodes a sequence of numbers behind its length.
pub fn encode_u64_seq(v: &Vec<u64>) -> (out: Vec<u8>)
    ensures
        out@ == spec_encode_u64_seq(v@),
        out@.len() == 8 + 8 * v@.len(),
{
    let mut out = u64_to_le_bytes(v.len() as u64);
    let mut i: usize = 0;
    while i < v.len()
        invariant
            i <= v.len(),
            out@ == spec_encode_u64(v@.len() as u64) + spec_encode_u64_items(v@.take(i as int)),
        decreases v.len() - i,
    {
        let mut item = u64_to_le_bytes(v[i]);
        out.append(&mut item);
        proof {
            let next = v@.take(i + 1);
            assert(next.drop_last() =~= v@.take(i as int));
            assert(out@ =~= spec_encode_u64(v@.len() as u64) + spec_encode_u64_items(next));
        }
        i += 1;
    }
    proof {
        assert(v@.take(i as int) =~= v@);
        lemma_u64_items_len(v@);
    }
    out
}

/// Encodes a string behind the tag `key`.
pub fn encode_string_for_key(s: &str, key: u32) -> (out: Vec<u8>)
    ensures
        out@ == spec_encode_for_key(key, spec_encode_string(s@)),
        out@.len() == 12 + encode_utf8(s@).len(),
        encode_utf8(s@).len() <= usize::MAX,
{
    let mut out = encode_u32_be(key);
    let mut value = encode_string(s);
    out.append(&mut value);
    out
}

/// Encodes a `u32` behind the tag `key`.
pub fn encode_u32_for_key(v: u32, key: u32) -> (out: Vec<u8>)
    ensures
        out@ == spec_encode_for_key(key, spec_encode_u32(v)),
{
    let mut out = encode_u32_be(key);
    let mut value = encode_u32(v);
    out.append(&mut value);
    out
}

/// Decodes one byte at `pos`.
pub fn decode_u8(data: &[u8], pos: usize) -> (res: Result<(u8, usize), ZffError>)
    ensures
        agrees(res, spec_decode_u8(data@, pos as int)),
{
    if !has_bytes(data, pos, 1) {
        return Err(malformed_input());
    }
    Ok((data[pos], pos + 1))
}

/// Decodes a big-endian `u32` at `pos`.
pub fn decode_u32_be(data: &[u8], pos: usize) -> (res: Result<(u32, usize), ZffError>)
    ensures
        agrees(res, spec_decode_u32_be(data@, pos as int)),
{
    if !has_bytes(data, pos, 4) {
        return Err(malformed_input());
    }
    let b0: u32 = data[pos] as u32;
    let b1: u32 = data[pos + 1] as u32;
    let b2: u32 = data[pos + 2] as u32;
    let b3: u32 = data[pos + 3] as u32;
    let v: u32 = b0 * 0x1000000 + b1 * 0x10000 + b2 * 0x100 + b3;
    proof {
        let s = data@.subrange(pos as int, pos + 4);
        assert(s[0] == data@[pos as int] && s[1] == data@[pos + 1] && s[2] == data@[pos + 2]
            && s[3] == data@[pos + 3]);
    }
    Ok((v, pos + 4))
}

/// Decodes a little-endian `u32` at `pos`.
pub fn decode_u32(data: &[u8], pos: usize) -> (res: Result<(u32, usize), ZffError>)
    ensures
        agrees(res, spec_decode_u32(data@, pos as int)),
{
    if !has_bytes(data, pos, 4) {
        return Err(malformed_input());
    }
    let b0: u32 = data[pos] as u32;
    let b1: u32 = data[pos + 1] as u32;
    let b2: u32 = data[pos + 2] as u32;
    let b3: u32 = data[pos + 3] as u32;
    let v: u32 = b0 + b1 * 0x100 + b2 * 0x10000 + b3 * 0x1000000;
    proof {
        let s = data@.subrange(pos as int, pos + 4);
        assert(s[0] == data@[pos as int] && s[1] == data@[pos + 1] && s[2] == data@[pos + 2]
            && s[3] == data@[pos + 3]);
    }
    Ok((v, pos + 4))
}

/// Decodes a little-endian `u64` at `pos`.
pub fn decode_u64(data: &[u8], pos: usize) -> (res: Result<(u64, usize), ZffError>)
    ensures
        agrees(res, spec_decode_u64(data@, pos as int)),
{
    if !has_bytes(data, pos, 8) {
        return Err(malformed_input());
    }
    let v = u64_from_le_bytes(slice_subrange(data, pos, pos + 8));
    Ok((v, pos + 8))
}

/// Decodes a little-endian `i64` at `pos`.
pub fn decode_i64(data: &[u8], pos: usize) -> (res: Result<(i64, usize), ZffError>)
    ensures
        agrees(res, spec_decode_i64(data@, pos as int)),
{
    match decode_u64(data, pos) {
        Ok((u, end)) => Ok((i64_of_bits(u), end)),
        Err(e) => Err(e),
    }
}

/// Copies `n` bytes at `pos`.
pub fn decode_fixed(data: &[u8], pos: usize, n: usize) -> (res: Result<(Vec<u8>, usize), ZffError>)
    ensures
        agrees(res, spec_decode_fixed(data@, pos as int, n as int)),
{
    if !has_bytes(data, pos, n) {
        return Err(malformed_input());
    }
    let bytes = slice_to_vec(slice_subrange(data, pos, pos + n));
    Ok((bytes, pos + n))
}

/// Copies the `N` bytes at `pos` into an array.
pub fn decode_array<const N: usize>(data: &[u8], pos: usize) -> (res: Result<
    ([u8; N], usize),
    ZffError,
>)
    ensures
        agrees(res, spec_decode_fixed(data@, pos as int, N as int)),
{
    if !has_bytes(data, pos, N) {
        return Err(malformed_input());
    }
    let mut out: [u8; N] = [0u8; N];
    let mut i: usize = 0;
    while i < N
        invariant
            i <= N,
            pos + N <= data@.len(),
            data@.len() <= usize::MAX,
            forall|j: int| 0 <= j < i ==> out@[j] == data@[pos + j],
        decreases N - i,
    {
        out[i] = data[pos + i];
        i += 1;
    }
    assert(out@ =~= data@.subrange(pos as int, pos + N));
    Ok((out, pos + N))
}

/// Decodes a byte string behind its length at `pos`.
pub fn decode_bytes(data: &[u8], pos: usize) -> (res: Result<(Vec<u8>, usize), ZffError>)
    ensures
        agrees(res, spec_decode_bytes(data@, pos as int)),
{
    let (n, start) = match decode_u64(data, pos) {
        Ok(found) => found,
        Err(e) => { return Err(e); },
    };
    if n > (data.len() - start) as u64 {
        return Err(malformed_input());
    }
    decode_fixed(data, start, n as usize)
}

/// Decodes a string at `pos`.
pub fn decode_string(data: &[u8], pos: usize) -> (res: Result<(String, usize), ZffError>)
    ensures
        agrees(res, spec_decode_string(data@, pos as int)),
{
    let (bytes, end) = match decode_bytes(data, pos) {
        Ok(found) => found,
        Err(e) => { return Err(e); },
    };
    match string_from_utf8(bytes) {
        Some(s) => Ok((s, end)),
        None => Err(malformed_input()),
    }
}

/// Decodes a sequence of numbers behind its length at `pos`.
pub fn decode_u64_seq(data: &[u8], pos: usize) -> (res: Result<(Vec<u64>, usize), ZffError>)
    ensures
        agrees(res, spec_decode_u64_seq(data@, pos as int)),
{
    let (n, start) = match decode_u64(data, pos) {
        Ok(found) => found,
        Err(e) => { return Err(e); },
    };
    if n > ((data.len() - start) / 8) as u64 {
        return Err(malformed_input());
    }
    let count: usize = n as usize;
    let mut out: Vec<u64> = Vec::new();
    let mut i: usize = 0;
    while i < count
        invariant
            i <= count,
            start + 8 * count <= data@.len(),
            data@.len() <= usize::MAX,
            out@.len() == i,
            forall|j: int| 0 <= j < i ==> out@[j] == spec_u64_item(data@, start as int, j),
        decreases count - i,
    {
        let at: usize = start + 8 * i;
        let v = u64_from_le_bytes(slice_subrange(data, at, at + 8));
        out.push(v);
        i += 1;
    }
    assert(out@ =~= Seq::new(n as nat, |j: int| spec_u64_item(data@, start as int, j)));
    Ok((out, start + 8 * count))
}

/// Whether the tag `key` stands at `pos`.
pub fn key_at(data: &[u8], pos: usize, key: u32) -> (b: bool)
    ensures
        b == spec_key_at(data@, pos as int, key),
        data@.len() <= usize::MAX,
{
    if !has_bytes(data, pos, 4) {
        return false;
    }
    match decode_u32_be(data, pos) {
        Ok((found, _)) => found == key,
        Err(_) => false,
    }
}

/// An error of the kind `HeaderDecoderKeyNotOnPosition`, without a detail.
pub fn key_not_on_position() -> (e: ZffError)
    ensures
        e.kind == ZffErrorKind::HeaderDecoderKeyNotOnPosition,
        e.details@ == Seq::<char>::empty(),
{
    ZffError::of_kind(ZffErrorKind::HeaderDecoderKeyNotOnPosition)
}

/// Decodes a tagged string at `pos`; the tag missing there is reported as
/// `HeaderDecoderKeyNotOnPosition`.
pub fn decode_string_for_key(data: &[u8], pos: usize, key: u32) -> (res: Result<
    (String, usize),
    ZffError,
>)
    ensures
        agrees(res, spec_decode_string_for_key(data@, pos as int, key)),
{
    if !key_at(data, pos, key) {
        return Err(key_not_on_position());
    }
    decode_string(data, pos + 4)
}

/// Decodes a tagged `u32` at `pos`; the tag missing there is reported as
/// `HeaderDecoderKeyNotOnPosition`.
pub fn decode_u32_for_key(data: &[u8], pos: usize, key: u32) -> (res: Result<
    (u32, usize),
    ZffError,
>)
    ensures
        agrees(res, spec_decode_u32_for_key(data@, pos as int, key)),
{
    if !key_at(data, pos, key) {
        return Err(key_not_on_position());
    }
    decode_u32(data, pos + 4)
}

} // verus!
