//! The borsh byte layout of the values these programs read and write: little-endian
//! integers, one byte per `bool`, 32 bytes per address, and strings as a `u32` byte
//! length followed by UTF-8 bytes.
use crate::error::BorshError;
use crate::key::Pubkey;
use crate::runtime::string_from_utf8;
use vstd::prelude::*;
use vstd::slice::slice_subrange;
use vstd::utf8::{decode_utf8, encode_utf8, valid_utf8};

verus! {

broadcast use vstd::utf8::group_utf8_lib;

// ---------------------------------------------------------------------------------------
// Integers
// ---------------------------------------------------------------------------------------

/// The little-endian `u16` in `s[p..p + 2]`.
pub open spec fn u16_le(s: Seq<u8>, p: int) -> u16 {
    (s[p] as u16) | ((s[p + 1] as u16) << 8u16)
}

/// The little-endian `u32` in `s[p..p + 4]`.
pub open spec fn u32_le(s: Seq<u8>, p: int) -> u32 {
    (s[p] as u32) | ((s[p + 1] as u32) << 8u32) | ((s[p + 2] as u32) << 16u32) | ((s[p
        + 3] as u32) << 24u32)
}

/// The little-endian `u64` in `s[p..p + 8]`.
pub open spec fn u64_le(s: Seq<u8>, p: int) -> u64 {
    (s[p] as u64) | ((s[p + 1] as u64) << 8u64) | ((s[p + 2] as u64) << 16u64) | ((s[p
        + 3] as u64) << 24u64) | ((s[p + 4] as u64) << 32u64) | ((s[p + 5] as u64) << 40u64)
        | ((s[p + 6] as u64) << 48u64) | ((s[p + 7] as u64) << 56u64)
}

/// The little-endian two's-complement `i64` in `s[p..p + 8]`.
pub open spec fn i64_le(s: Seq<u8>, p: int) -> i64 {
    u64_le(s, p) as i64
}

pub open spec fn u32_bytes(v: u32) -> Seq<u8> {
    seq![v as u8, (v >> 8u32) as u8, (v >> 16u32) as u8, (v >> 24u32) as u8]
}

pub open spec fn u64_bytes(v: u64) -> Seq<u8> {
    seq![
        v as u8,
        (v >> 8u64) as u8,
        (v >> 16u64) as u8,
        (v >> 24u64) as u8,
        (v >> 32u64) as u8,
        (v >> 40u64) as u8,
        (v >> 48u64) as u8,
        (v >> 56u64) as u8,
    ]
}

pub open spec fn i64_bytes(v: i64) -> Seq<u8> {
    u64_bytes(v as u64)
}

pub open spec fn bool_byte(b: bool) -> u8 {
    if b {
        1
    } else {
        0
    }
}

/// A string's encoding: its UTF-8 byte length as a `u32`, then its UTF-8 bytes.
pub open spec fn string_bytes(chars: Seq<char>) -> Seq<u8> {
    u32_bytes(encode_utf8(chars).len() as u32) + encode_utf8(chars)
}

/// Whether a string's UTF-8 byte length fits the `u32` length prefix.
pub open spec fn string_fits(chars: Seq<char>) -> bool {
    encode_utf8(chars).len() <= u32::MAX
}

// ---------------------------------------------------------------------------------------
// Reading: each step takes the bytes and a position, and gives the value and the next
// position, or the error borsh reports.
// ---------------------------------------------------------------------------------------

pub open spec fn take_u8(s: Seq<u8>, pos: usize) -> Result<(u8, usize), BorshError> {
    if pos + 1 <= s.len() {
        Ok((s[pos as int], (pos + 1) as usize))
    } else {
        Err(BorshError::UnexpectedLength)
    }
}

pub open spec fn take_bool(s: Seq<u8>, pos: usize) -> Result<(bool, usize), BorshError> {
    match take_u8(s, pos) {
        Ok((b, p)) => if b == 0 {
            Ok((false, p))
        } else if b == 1 {
            Ok((true, p))
        } else {
            Err(BorshError::InvalidBool(b))
        },
        Err(e) => Err(e),
    }
}

pub open spec fn take_u32(s: Seq<u8>, pos: usize) -> Result<(u32, usize), BorshError> {
    if pos + 4 <= s.len() {
        Ok((u32_le(s, pos as int), (pos + 4) as usize))
    } else {
        Err(BorshError::UnexpectedLength)
    }
}

pub open spec fn take_u64(s: Seq<u8>, pos: usize) -> Result<(u64, usize), BorshError> {
    if pos + 8 <= s.len() {
        Ok((u64_le(s, pos as int), (pos + 8) as usize))
    } else {
        Err(BorshError::UnexpectedLength)
    }
}

pub open spec fn take_i64(s: Seq<u8>, pos: usize) -> Result<(i64, usize), BorshError> {
    if pos + 8 <= s.len() {
        Ok((i64_le(s, pos as int), (pos + 8) as usize))
    } else {
        Err(BorshError::UnexpectedLength)
    }
}

/// An address: 32 bytes, as its byte sequence.
pub open spec fn take_key(s: Seq<u8>, pos: usize) -> Result<(Seq<u8>, usize), BorshError> {
    if pos + 32 <= s.len() {
        Ok((s.subrange(pos as int, pos + 32), (pos + 32) as usize))
    } else {
        Err(BorshError::UnexpectedLength)
    }
}

/// A string: a `u32` length, then that many bytes, which must be UTF-8.
pub open spec fn take_string(s: Seq<u8>, pos: usize) -> Result<(Seq<char>, usize), BorshError> {
    match take_u32(s, pos) {
        Ok((n, p)) => if p + n <= s.len() {
            let bytes = s.subrange(p as int, p + n);
            if valid_utf8(bytes) {
                Ok((decode_utf8(bytes), (p + n) as usize))
            } else {
                Err(BorshError::InvalidUtf8)
            }
        } else {
            Err(BorshError::UnexpectedLength)
        },
        Err(e) => Err(e),
    }
}

/// The end of a value read from a whole slice: every byte must have been read.
pub open spec fn at_end(s: Seq<u8>, pos: usize) -> Result<(), BorshError> {
    if pos == s.len() {
        Ok(())
    } else {
        Err(BorshError::NotAllBytesRead)
    }
}

pub fn read_u8(s: &[u8], pos: usize) -> (r: Result<(u8, usize), BorshError>)
    ensures
        r == take_u8(s@, pos),
{
    if pos < s.len() {
        Ok((s[pos], pos + 1))
    } else {
        Err(BorshError::UnexpectedLength)
    }
}

pub fn read_bool(s: &[u8], pos: usize) -> (r: Result<(bool, usize), BorshError>)
    ensures
        r == take_bool(s@, pos),
{
    let (b, p) = read_u8(s, pos)?;
    if b == 0 {
        Ok((false, p))
    } else if b == 1 {
        Ok((true, p))
    } else {
        Err(BorshError::InvalidBool(b))
    }
}

pub fn read_u32(s: &[u8], pos: usize) -> (r: Result<(u32, usize), BorshError>)
    ensures
        r == take_u32(s@, pos),
{
    if pos <= s.len() && s.len() - pos >= 4 {
        let v = (s[pos] as u32) | ((s[pos + 1] as u32) << 8u32) | ((s[pos + 2] as u32) << 16u32)
            | ((s[pos + 3] as u32) << 24u32);
        Ok((v, pos + 4))
    } else {
        Err(BorshError::UnexpectedLength)
    }
}

pub fn read_u64(s: &[u8], pos: usize) -> (r: Result<(u64, usize), BorshError>)
    ensures
        r == take_u64(s@, pos),
{
    if pos <= s.len() && s.len() - pos >= 8 {
        let v = (s[pos] as u64) | ((s[pos + 1] as u64) << 8u64) | ((s[pos + 2] as u64) << 16u64)
            | ((s[pos + 3] as u64) << 24u64) | ((s[pos + 4] as u64) << 32u64) | ((s[pos
            + 5] as u64) << 40u64) | ((s[pos + 6] as u64) << 48u64) | ((s[pos + 7] as u64)
            << 56u64);
        Ok((v, pos + 8))
    } else {
        Err(BorshError::UnexpectedLength)
    }
}

pub fn read_i64(s: &[u8], pos: usize) -> (r: Result<(i64, usize), BorshError>)
    ensures
        r == take_i64(s@, pos),
{
    let (v, p) = read_u64(s, pos)?;
    Ok((v as i64, p))
}

pub fn read_key(s: &[u8], pos: usize) -> (r: Result<(Pubkey, usize), BorshError>)
    ensures
        match r {
            Ok((k, p)) => take_key(s@, pos) == Ok::<(Seq<u8>, usize), BorshError>((k@, p)),
            Err(e) => take_key(s@, pos) == Err::<(Seq<u8>, usize), BorshError>(e),
        },
{
    if pos <= s.len() && s.len() - pos >= 32 {
        let lim = s.len();
        let mut bytes: [u8; 32] = [0u8; 32];
        let mut i: usize = 0;
        while i < 32
            invariant
                i <= 32,
                lim == s@.len(),
                pos + 32 <= lim,
                bytes@.len() == 32,
                forall|j: int| 0 <= j < i ==> bytes@[j] == s@[pos + j],
            decreases 32 - i,
        {
            bytes[i] = s[pos + i];
            i = i + 1;
        }
        assert(bytes@ =~= s@.subrange(pos as int, pos + 32));
        Ok((Pubkey { bytes }, pos + 32))
    } else {
        Err(BorshError::UnexpectedLength)
    }
}

pub fn read_string(s: &[u8], pos: usize) -> (r: Result<(String, usize), BorshError>)
    ensures
        match r {
            Ok((st, p)) => take_string(s@, pos) == Ok::<(Seq<char>, usize), BorshError>((st@, p)),
            Err(e) => take_string(s@, pos) == Err::<(Seq<char>, usize), BorshError>(e),
        },
{
    let (n, p) = read_u32(s, pos)?;
    let n = n as usize;
    if p <= s.len() && n <= s.len() - p {
        let bytes = slice_subrange(s, p, p + n);
        match string_from_utf8(bytes) {
            Some(st) => Ok((st, p + n)),
            None => Err(BorshError::InvalidUtf8),
        }
    } else {
        Err(BorshError::UnexpectedLength)
    }
}

pub fn check_end(s: &[u8], pos: usize) -> (r: Result<(), BorshError>)
    ensures
        r == at_end(s@, pos),
{
    if pos == s.len() {
        Ok(())
    } else {
        Err(BorshError::NotAllBytesRead)
    }
}

// ---------------------------------------------------------------------------------------
// Writing
// ---------------------------------------------------------------------------------------

pub fn write_u8(out: &mut Vec<u8>, v: u8)
    ensures
        final(out)@ == old(out)@.push(v),
{
    out.push(v);
}

pub fn write_bool(out: &mut Vec<u8>, v: bool)
    ensures
        final(out)@ == old(out)@.push(bool_byte(v)),
{
    if v {
        out.push(1);
    } else {
        out.push(0);
    }
}

pub fn write_u32(out: &mut Vec<u8>, v: u32)
    ensures
        final(out)@ == old(out)@ + u32_bytes(v),
{
    let ghost start = out@;
    out.push(v as u8);
    out.push((v >> 8u32) as u8);
    out.push((v >> 16u32) as u8);
    out.push((v >> 24u32) as u8);
    assert(out@ =~= start + u32_bytes(v));
}

pub fn write_u64(out: &mut Vec<u8>, v: u64)
    ensures
        final(out)@ == old(out)@ + u64_bytes(v),
{
    let ghost start = out@;
    out.push(v as u8);
    out.push((v >> 8u64) as u8);
    out.push((v >> 16u64) as u8);
    out.push((v >> 24u64) as u8);
    out.push((v >> 32u64) as u8);
    out.push((v >> 40u64) as u8);
    out.push((v >> 48u64) as u8);
    out.push((v >> 56u64) as u8);
    assert(out@ =~= start + u64_bytes(v));
}

pub fn write_i64(out: &mut Vec<u8>, v: i64)
    ensures
        final(out)@ == old(out)@ + i64_bytes(v),
{
    write_u64(out, v as u64);
}

pub fn write_bytes(out: &mut Vec<u8>, bytes: &[u8])
    ensures
        final(out)@ == old(out)@ + bytes@,
{
    let ghost start = out@;
    let mut i: usize = 0;
    while i < bytes.len()
        invariant
            i <= bytes@.len(),
            out@ == start + bytes@.subrange(0, i as int),
        decreases bytes@.len() - i,
    {
        out.push(bytes[i]);
        i = i + 1;
        assert(out@ =~= start + bytes@.subrange(0, i as int));
    }
    assert(bytes@.subrange(0, bytes@.len() as int) =~= bytes@);
}

pub fn write_key(out: &mut Vec<u8>, k: &Pubkey)
    ensures
        final(out)@ == old(out)@ + k@,
{
    let ghost start = out@;
    let mut i: usize = 0;
    while i < 32
        invariant
            i <= 32,
            k@.len() == 32,
            out@ == start + k@.subrange(0, i as int),
        decreases 32 - i,
    {
        out.push(k.bytes[i]);
        i = i + 1;
        assert(out@ =~= start + k@.subrange(0, i as int));
    }
    assert(k@.subrange(0, 32) =~= k@);
}

/// Writes a string, or fails when its byte length does not fit a `u32`.
pub fn write_string(out: &mut Vec<u8>, s: &String) -> (r: Result<(), BorshError>)
    ensures
        r is Ok <==> string_fits(s@),
        r is Ok ==> final(out)@ == old(out)@ + string_bytes(s@),
        r matches Err(e) ==> e == BorshError::LengthTooLarge,
{
    let bytes = s.as_str().as_bytes();
    if bytes.len() > 0xffff_ffffusize {
        return Err(BorshError::LengthTooLarge);
    }
    write_u32(out, bytes.len() as u32);
    write_bytes(out, bytes);
    proof {
        assert(bytes@ == encode_utf8(s@));
    }
    Ok(())
}

// ---------------------------------------------------------------------------------------
// Round trips
// ---------------------------------------------------------------------------------------

pub proof fn lemma_u16_le_slice(s: Seq<u8>, p: int)
    requires
        0 <= p,
        p + 2 <= s.len(),
    ensures
        u16_le(s, p) == u16_le(s.subrange(p, p + 2), 0),
{
}

pub proof fn lemma_u32_bytes_le(v: u32)
    ensures
        u32_le(u32_bytes(v), 0) == v,
{
    let s = u32_bytes(v);
    let (b0, b1, b2, b3) = (s[0], s[1], s[2], s[3]);
    assert(b0 == v as u8 && b1 == (v >> 8u32) as u8 && b2 == (v >> 16u32) as u8 && b3 == (v
        >> 24u32) as u8);
    assert(((v as u8) as u32) | ((((v >> 8u32) as u8) as u32) << 8u32) | ((((v >> 16u32) as u8)
        as u32) << 16u32) | ((((v >> 24u32) as u8) as u32) << 24u32) == v) by (bit_vector);
}

pub proof fn lemma_u32_le_bytes(s: Seq<u8>, p: int)
    requires
        0 <= p,
        p + 4 <= s.len(),
    ensures
        u32_bytes(u32_le(s, p)) == s.subrange(p, p + 4),
{
    let (b0, b1, b2, b3) = (s[p], s[p + 1], s[p + 2], s[p + 3]);
    let x = u32_le(s, p);
    assert(x == (b0 as u32) | ((b1 as u32) << 8u32) | ((b2 as u32) << 16u32) | ((b3 as u32)
        << 24u32));
    assert({
        let x = (b0 as u32) | ((b1 as u32) << 8u32) | ((b2 as u32) << 16u32) | ((b3 as u32)
            << 24u32);
        &&& x as u8 == b0
        &&& (x >> 8u32) as u8 == b1
        &&& (x >> 16u32) as u8 == b2
        &&& (x >> 24u32) as u8 == b3
    }) by (bit_vector);
    assert(u32_bytes(x) =~= s.subrange(p, p + 4));
}

pub proof fn lemma_u64_bytes_le(v: u64)
    ensures
        u64_le(u64_bytes(v), 0) == v,
{
    let s = u64_bytes(v);
    assert(s[0] == v as u8 && s[1] == (v >> 8u64) as u8 && s[2] == (v >> 16u64) as u8 && s[3]
        == (v >> 24u64) as u8 && s[4] == (v >> 32u64) as u8 && s[5] == (v >> 40u64) as u8
        && s[6] == (v >> 48u64) as u8 && s[7] == (v >> 56u64) as u8);
    assert(((v as u8) as u64) | ((((v >> 8u64) as u8) as u64) << 8u64) | ((((v >> 16u64) as u8)
        as u64) << 16u64) | ((((v >> 24u64) as u8) as u64) << 24u64) | ((((v >> 32u64) as u8)
        as u64) << 32u64) | ((((v >> 40u64) as u8) as u64) << 40u64) | ((((v >> 48u64) as u8)
        as u64) << 48u64) | ((((v >> 56u64) as u8) as u64) << 56u64) == v) by (bit_vector);
}

pub proof fn lemma_u64_le_bytes(s: Seq<u8>, p: int)
    requires
        0 <= p,
        p + 8 <= s.len(),
    ensures
        u64_bytes(u64_le(s, p)) == s.subrange(p, p + 8),
{
    let (b0, b1, b2, b3, b4, b5, b6, b7) = (
        s[p],
        s[p + 1],
        s[p + 2],
        s[p + 3],
        s[p + 4],
        s[p + 5],
        s[p + 6],
        s[p + 7],
    );
    let x = u64_le(s, p);
    assert(x == (b0 as u64) | ((b1 as u64) << 8u64) | ((b2 as u64) << 16u64) | ((b3 as u64)
        << 24u64) | ((b4 as u64) << 32u64) | ((b5 as u64) << 40u64) | ((b6 as u64) << 48u64)
        | ((b7 as u64) << 56u64));
    assert({
        let x = (b0 as u64) | ((b1 as u64) << 8u64) | ((b2 as u64) << 16u64) | ((b3 as u64)
            << 24u64) | ((b4 as u64) << 32u64) | ((b5 as u64) << 40u64) | ((b6 as u64) << 48u64)
            | ((b7 as u64) << 56u64);
        &&& x as u8 == b0
        &&& (x >> 8u64) as u8 == b1
        &&& (x >> 16u64) as u8 == b2
        &&& (x >> 24u64) as u8 == b3
        &&& (x >> 32u64) as u8 == b4
        &&& (x >> 40u64) as u8 == b5
        &&& (x >> 48u64) as u8 == b6
        &&& (x >> 56u64) as u8 == b7
    }) by (bit_vector);
    assert(u64_bytes(x) =~= s.subrange(p, p + 8));
}

pub proof fn lemma_i64_bytes_le(v: i64)
    ensures
        i64_le(i64_bytes(v), 0) == v,
{
    lemma_u64_bytes_le(v as u64);
    assert(((v as u64) as i64) == v) by (bit_vector);
}

pub proof fn lemma_i64_le_bytes(s: Seq<u8>, p: int)
    requires
        0 <= p,
        p + 8 <= s.len(),
    ensures
        i64_bytes(i64_le(s, p)) == s.subrange(p, p + 8),
{
    let x = u64_le(s, p);
    lemma_u64_le_bytes(s, p);
    assert(((x as i64) as u64) == x) by (bit_vector);
}

/// Reading a `u64` back from where its bytes stand.
pub proof fn lemma_take_u64(s: Seq<u8>, pos: usize, v: u64)
    requires
        pos + 8 <= s.len(),
        s.subrange(pos as int, pos + 8) == u64_bytes(v),
    ensures
        take_u64(s, pos) == Ok::<(u64, usize), BorshError>((v, (pos + 8) as usize)),
{
    lemma_u64_bytes_le(v);
    let t = s.subrange(pos as int, pos + 8);
    assert(u64_le(s, pos as int) == u64_le(t, 0));
}

pub proof fn lemma_take_i64(s: Seq<u8>, pos: usize, v: i64)
    requires
        pos + 8 <= s.len(),
        s.subrange(pos as int, pos + 8) == i64_bytes(v),
    ensures
        take_i64(s, pos) == Ok::<(i64, usize), BorshError>((v, (pos + 8) as usize)),
{
    lemma_i64_bytes_le(v);
    let t = s.subrange(pos as int, pos + 8);
    assert(u64_le(s, pos as int) == u64_le(t, 0));
}

pub proof fn lemma_take_u32(s: Seq<u8>, pos: usize, v: u32)
    requires
        pos + 4 <= s.len(),
        s.subrange(pos as int, pos + 4) == u32_bytes(v),
    ensures
        take_u32(s, pos) == Ok::<(u32, usize), BorshError>((v, (pos + 4) as usize)),
{
    lemma_u32_bytes_le(v);
    let t = s.subrange(pos as int, pos + 4);
    assert(u32_le(s, pos as int) == u32_le(t, 0));
}

/// Reading a string back from where its encoding stands.
pub proof fn lemma_take_string(s: Seq<u8>, pos: usize, chars: Seq<char>)
    requires
        string_fits(chars),
        s.len() <= usize::MAX,
        pos + string_bytes(chars).len() <= s.len(),
        s.subrange(pos as int, pos + string_bytes(chars).len()) == string_bytes(chars),
    ensures
        take_string(s, pos) == Ok::<(Seq<char>, usize), BorshError>(
            (chars, (pos + string_bytes(chars).len()) as usize),
        ),
{
    let b = encode_utf8(chars);
    let n = b.len() as u32;
    let sb = string_bytes(chars);
    assert(s.subrange(pos as int, pos + 4) =~= sb.subrange(0, 4));
    assert(sb.subrange(0, 4) =~= u32_bytes(n));
    lemma_take_u32(s, pos, n);
    assert(s.subrange(pos + 4, pos + 4 + n) =~= sb.subrange(4, 4 + n as int));
    assert(sb.subrange(4, 4 + n as int) =~= b);
    assert(valid_utf8(b));
    assert(decode_utf8(b) == chars);
    assert(sb.len() == 4 + n);
}

} // verus!

verus! {

/// A string that was read stands in the bytes as its own encoding, and fits the prefix.
pub proof fn lemma_take_string_bytes(s: Seq<u8>, pos: usize)
    requires
        take_string(s, pos) is Ok,
        s.len() <= usize::MAX,
    ensures
        ({
            let (chars, p) = take_string(s, pos)->Ok_0;
            &&& string_fits(chars)
            &&& p == pos + string_bytes(chars).len()
            &&& s.subrange(pos as int, p as int) == string_bytes(chars)
        }),
{
    let (n, p) = take_u32(s, pos)->Ok_0;
    assert(p == pos + 4);
    assert(p + n <= s.len());
    let bytes = s.subrange(p as int, p + n);
    assert(valid_utf8(bytes));
    assert(encode_utf8(decode_utf8(bytes)) == bytes);
    lemma_u32_le_bytes(s, pos as int);
    assert(s.subrange(pos as int, p + n) =~= u32_bytes(n) + bytes);
    assert(encode_utf8(decode_utf8(bytes)).len() == n);
    assert(u32_bytes(encode_utf8(decode_utf8(bytes)).len() as u32) == u32_bytes(n));
}

} // verus!
