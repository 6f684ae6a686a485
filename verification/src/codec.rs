//! The envelope of Flutter's StandardMethodCodec: a method call starts with
//! the string tag 7, a variable-length size and the method name's bytes.
use vstd::prelude::*;

verus! {

/// The tag that the standard codec writes before a string.
pub const STANDARD_STRING_TAG: u8 = 7;

/// The size that the standard codec encodes at `position`, and the position
/// just after it: one byte below 254; 254 and two little-endian bytes; 255
/// and four little-endian bytes. None when the bytes run out.
pub open spec fn standard_size(payload: Seq<u8>, position: int) -> Option<(int, int)> {
    if position < 0 || position >= payload.len() {
        None
    } else {
        let first = payload[position];
        if first < 254 {
            Some((first as int, position + 1))
        } else if first == 254 {
            if position + 3 > payload.len() {
                None
            } else {
                Some(
                    (
                        payload[position + 1] as int + 256 * payload[position + 2] as int,
                        position + 3,
                    ),
                )
            }
        } else if position + 5 > payload.len() {
            None
        } else {
            Some(
                (
                    payload[position + 1] as int + 256 * payload[position + 2] as int + 65536
                        * payload[position + 3] as int + 16777216 * payload[position + 4] as int,
                    position + 5,
                ),
            )
        }
    }
}

/// Where the reading position stands after an attempt to read a size at
/// `position`: past the size when it was read, just past its first byte when
/// the longer forms ran out of bytes, and unmoved when there was no byte.
pub open spec fn standard_size_end(payload: Seq<u8>, position: int) -> int {
    match standard_size(payload, position) {
        Some((_, end)) => end,
        None => if position < payload.len() {
            position + 1
        } else {
            position
        },
    }
}

/// The method name that a standard-codec payload carries, if it is one.
pub open spec fn standard_method_name(payload: Seq<u8>) -> Option<Seq<u8>> {
    if payload.len() == 0 || payload[0] != STANDARD_STRING_TAG {
        None
    } else {
        match standard_size(payload, 1) {
            None => None,
            Some((length, start)) => if start + length > payload.len() {
                None
            } else {
                Some(payload.subrange(start, start + length))
            },
        }
    }
}

/// How the standard codec writes a size (below 2^32).
pub open spec fn encode_standard_size(size: nat) -> Seq<u8> {
    if size < 254 {
        seq![size as u8]
    } else if size <= 0xffff {
        seq![254u8, (size % 256) as u8, (size / 256) as u8]
    } else {
        seq![
            255u8,
            (size % 256) as u8,
            ((size / 256) % 256) as u8,
            ((size / 65536) % 256) as u8,
            (size / 16777216) as u8,
        ]
    }
}

/// Reads a size at `*position` and moves `*position` past what it read.
pub fn read_standard_size(payload: &[u8], position: &mut usize) -> (size: Option<usize>)
    ensures
        size matches Some(v) ==> standard_size(payload@, *old(position) as int) matches Some(
            (w, _),
        ) && w == v as int,
        size is None ==> standard_size(payload@, *old(position) as int) is None,
        *final(position) as int == standard_size_end(payload@, *old(position) as int),
{
    let len: usize = payload.len();
    if *position >= len {
        return None;
    }
    let first = payload[*position];
    *position = *position + 1;
    if first < 254 {
        return Some(first as usize);
    }
    let p: usize = *position;
    if first == 254 {
        if len - p < 2 {
            return None;
        }
        let b0 = payload[p];
        let b1 = payload[p + 1];
        let value: usize = b0 as usize | ((b1 as usize) << 8);
        assert(value == b0 as int + 256 * b1 as int) by (bit_vector)
            requires
                value == b0 as usize | ((b1 as usize) << 8),
        ;
        *position = p + 2;
        return Some(value);
    }
    if len - p < 4 {
        return None;
    }
    let b0 = payload[p];
    let b1 = payload[p + 1];
    let b2 = payload[p + 2];
    let b3 = payload[p + 3];
    let value: usize = b0 as usize | ((b1 as usize) << 8) | ((b2 as usize) << 16) | ((
    b3 as usize) << 24);
    assert(value == b0 as int + 256 * b1 as int + 65536 * b2 as int + 16777216 * b3 as int)
        by (bit_vector)
        requires
            value == b0 as usize | ((b1 as usize) << 8) | ((b2 as usize) << 16) | ((
            b3 as usize) << 24),
    ;
    *position = p + 4;
    Some(value)
}

/// The method name of a standard-codec method call, as a view into the payload.
pub fn standard_method<'a>(payload: &'a [u8]) -> (name: Option<&'a [u8]>)
    ensures
        name matches Some(n) ==> standard_method_name(payload@) == Some(n@),
        name is None ==> standard_method_name(payload@) is None,
{
    if payload.len() == 0 || payload[0] != STANDARD_STRING_TAG {
        return None;
    }
    let mut position: usize = 1;
    let length = match read_standard_size(payload, &mut position) {
        Some(length) => length,
        None => {
            return None;
        },
    };
    if position > payload.len() || length > payload.len() - position {
        return None;
    }
    Some(vstd::slice::slice_subrange(payload, position, position + length))
}

/// Law: reading a size undoes the standard codec's encoding of it, at any
/// offset: after any `prefix`, `encode_standard_size(size)` reads back as
/// `size`, and the reading position ends just past the encoding, whatever
/// follows.
pub proof fn lemma_standard_size_roundtrip(prefix: Seq<u8>, size: nat, suffix: Seq<u8>)
    requires
        size < 0x1_0000_0000,
    ensures
        standard_size(prefix + encode_standard_size(size) + suffix, prefix.len() as int) == Some(
            (size as int, prefix.len() + encode_standard_size(size).len() as int),
        ),
        standard_size_end(prefix + encode_standard_size(size) + suffix, prefix.len() as int)
            == prefix.len() + encode_standard_size(size).len(),
{
    let n = size;
    let code = encode_standard_size(n);
    let payload = prefix + code + suffix;
    let p = prefix.len() as int;
    assert(payload[p] == code[0]);
    if n < 254 {
    } else if n <= 0xffff {
        assert(payload[p + 1] == code[1]);
        assert(payload[p + 2] == code[2]);
        assert((n % 256) + 256 * (n / 256) == n) by (nonlinear_arith);
        assert(n / 256 < 256) by (nonlinear_arith)
            requires
                n <= 0xffff,
        ;
    } else {
        assert(payload[p + 1] == code[1]);
        assert(payload[p + 2] == code[2]);
        assert(payload[p + 3] == code[3]);
        assert(payload[p + 4] == code[4]);
        assert((n % 256) + 256 * ((n / 256) % 256) + 65536 * ((n / 65536) % 256) + 16777216 * (
        n / 16777216) == n) by (nonlinear_arith);
        assert(n / 16777216 < 256) by (nonlinear_arith)
            requires
                n < 0x1_0000_0000,
        ;
    }
}

/// Law: a method call that the standard codec wrote, `7`, the encoded size of
/// the name, the name, then any arguments, is read back as exactly that name.
pub proof fn lemma_standard_method_roundtrip(name: Seq<u8>, arguments: Seq<u8>)
    requires
        name.len() < 0x1_0000_0000,
    ensures
        standard_method_name(
            seq![STANDARD_STRING_TAG] + encode_standard_size(name.len()) + name + arguments,
        ) == Some(name),
{
    let tag = seq![STANDARD_STRING_TAG];
    let code = encode_standard_size(name.len());
    let payload = tag + code + name + arguments;
    assert(payload =~= tag + code + (name + arguments));
    lemma_standard_size_roundtrip(tag, name.len(), name + arguments);
    let start: int = 1 + code.len() as int;
    assert(payload[0] == STANDARD_STRING_TAG);
    assert(payload.subrange(start, start + name.len()) =~= name);
}

} // verus!
