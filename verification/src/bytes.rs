//! Byte-string primitives used by the router: equality, substring search,
//! the JSON sniffing test, and the bounded copy into a C log buffer.
use vstd::prelude::*;

verus! {

/// `needle` occurs somewhere in `haystack` as a contiguous run.
/// The empty needle occurs in every haystack.
pub open spec fn seq_contains(haystack: Seq<u8>, needle: Seq<u8>) -> bool {
    exists|i: int|
        0 <= i && i + needle.len() <= haystack.len() && #[trigger] haystack.subrange(
            i,
            i + needle.len(),
        ) == needle
}

/// The whitespace bytes that may precede a JSON document.
pub open spec fn is_json_space(b: u8) -> bool {
    b == 0x20 || b == 0x09 || b == 0x0d || b == 0x0a
}

/// The first byte of `s` that is not JSON whitespace opens an object or
/// an array; false when `s` is all whitespace.
pub open spec fn opens_json(s: Seq<u8>) -> bool
    decreases s.len(),
{
    if s.len() == 0 {
        false
    } else if is_json_space(s[0]) {
        opens_json(s.drop_first())
    } else {
        s[0] == 0x7b || s[0] == 0x5b
    }
}

/// How many of `value`'s bytes fit into a buffer of `capacity` bytes written
/// from `position` on, one byte always being kept back for the NUL terminator.
pub open spec fn copy_count(capacity: int, position: int, value_len: int) -> int {
    let room = capacity - 1 - position;
    if room <= 0 {
        0
    } else if value_len < room {
        value_len
    } else {
        room
    }
}

/// The buffer after copying `value` into `output` from `position` on, as
/// far as it fits before the last byte; unchanged from a position past its end.
pub open spec fn copied(output: Seq<u8>, position: int, value: Seq<u8>) -> Seq<u8> {
    if position >= output.len() {
        output
    } else {
        let count = copy_count(output.len() as int, position, value.len() as int);
        output.take(position) + value.take(count) + output.skip(position + count)
    }
}

/// Whether two byte strings are equal.
pub fn bytes_equal(left: &[u8], right: &[u8]) -> (equal: bool)
    ensures
        equal == (left@ == right@),
{
    if left.len() != right.len() {
        return false;
    }
    let mut i: usize = 0;
    while i < left.len()
        invariant
            left.len() == right.len(),
            i <= left.len(),
            forall|j: int| 0 <= j < i ==> left@[j] == right@[j],
        decreases left.len() - i,
    {
        if left[i] != right[i] {
            return false;
        }
        i = i + 1;
    }
    assert(left@ =~= right@);
    true
}

/// Whether `haystack[start..start + needle.len()]` equals `needle`.
fn matches_at(haystack: &[u8], needle: &[u8], start: usize) -> (found: bool)
    requires
        start + needle@.len() <= haystack@.len(),
    ensures
        found == (haystack@.subrange(start as int, start + needle@.len()) == needle@),
{
    let total: usize = haystack.len();
    let mut k: usize = 0;
    while k < needle.len()
        invariant
            total == haystack@.len(),
            start + needle@.len() <= haystack@.len(),
            k <= needle@.len(),
            forall|j: int| 0 <= j < k ==> haystack@[start + j] == needle@[j],
        decreases needle.len() - k,
    {
        if haystack[start + k] != needle[k] {
            assert(haystack@.subrange(start as int, start + needle@.len())[k as int]
                != needle@[k as int]);
            return false;
        }
        k = k + 1;
    }
    assert(haystack@.subrange(start as int, start + needle@.len()) =~= needle@);
    true
}

/// Whether `needle` occurs in `haystack`.
pub fn contains(haystack: &[u8], needle: &[u8]) -> (found: bool)
    ensures
        found == seq_contains(haystack@, needle@),
{
    if needle.len() == 0 {
        assert(haystack@.subrange(0, 0 + needle@.len() as int) =~= needle@);
        return true;
    }
    if needle.len() > haystack.len() {
        return false;
    }
    let last: usize = haystack.len() - needle.len();
    let mut index: usize = 0;
    while index <= last
        invariant
            needle@.len() >= 1,
            needle@.len() <= haystack@.len(),
            haystack@.len() <= usize::MAX,
            last == haystack@.len() - needle@.len(),
            index <= last + 1,
            forall|i: int|
                0 <= i < index ==> #[trigger] haystack@.subrange(i, i + needle@.len())
                    != needle@,
        decreases last + 1 - index,
    {
        if matches_at(haystack, needle, index) {
            return true;
        }
        index = index + 1;
    }
    false
}

/// Whether a JSON method call names `method`: the payload mentions it.
pub fn json_method_is(payload: &[u8], method: &[u8]) -> (found: bool)
    ensures
        found == seq_contains(payload@, method@),
{
    contains(payload, method)
}

/// The part of a payload that is sniffed for JSON: its first eight bytes.
pub open spec fn json_window(s: Seq<u8>) -> Seq<u8> {
    if s.len() < 8 {
        s
    } else {
        s.take(8)
    }
}

/// Whether the payload looks like a JSON document: among its first eight
/// bytes, the first that is not whitespace is `{` or `[`.
pub fn looks_json(payload: &[u8]) -> (json: bool)
    ensures
        json == opens_json(json_window(payload@)),
{
    let limit: usize = if payload.len() < 8 { payload.len() } else { 8 };
    let ghost window = payload@.take(limit as int);
    assert(window =~= json_window(payload@));
    let mut i: usize = 0;
    assert(window.skip(0) =~= window);
    while i < limit
        invariant
            limit <= payload@.len(),
            window == payload@.take(limit as int),
            window == json_window(payload@),
            i <= limit,
            opens_json(window) == opens_json(window.skip(i as int)),
        decreases limit - i,
    {
        let byte = payload[i];
        assert(window.skip(i as int).len() > 0);
        assert(window.skip(i as int)[0] == byte);
        if byte == 0x20 || byte == 0x09 || byte == 0x0d || byte == 0x0a {
            assert(window.skip(i as int).drop_first() =~= window.skip(i + 1));
            i = i + 1;
        } else {
            assert(!is_json_space(byte));
            assert(opens_json(window.skip(i as int)) == (byte == 0x7b || byte == 0x5b));
            return byte == 0x7b || byte == 0x5b;
        }
    }
    assert(window.skip(i as int).len() == 0);
    false
}

/// Copies `value` into `output` from `*position` on, one byte at a time,
/// stopping while one byte of `output` is still free for a terminator.
pub fn copy_bytes(output: &mut [u8], position: &mut usize, value: &[u8])
    ensures
        final(output)@.len() == old(output)@.len(),
        *final(position) == *old(position) + copy_count(
            old(output)@.len() as int,
            *old(position) as int,
            value@.len() as int,
        ),
        final(output)@ == copied(old(output)@, *old(position) as int, value@),
{
    if *position >= output.len() {
        return;
    }
    assert(copy_count(output@.len() as int, *position as int, value@.len() as int) >= 0);
    let ghost start = *position;
    let ghost initial = output@;
    let ghost count = copy_count(output@.len() as int, start as int, value@.len() as int);
    let vlen: usize = value.len();
    let mut i: usize = 0;
    assert(initial.take(start as int) + value@.take(0) + initial.skip(start as int) =~= initial);
    while i < vlen
        invariant_except_break
            vlen == value@.len(),
            initial == old(output)@,
            start == *old(position),
            count == copy_count(initial.len() as int, start as int, value@.len() as int),
            i <= value@.len(),
            start < initial.len(),
            output@.len() == initial.len(),
            *position == start + i,
            i <= count,
            output@ == initial.take(start as int) + value@.take(i as int) + initial.skip(
                *position as int,
            ),
        ensures
            output@.len() == initial.len(),
            *position == start + count,
            output@ == initial.take(start as int) + value@.take(count) + initial.skip(
                *position as int,
            ),
        decreases vlen - i,
    {
        if *position >= output.len() || output.len() - *position <= 1 {
            assert(count == i);
            return;
        }
        output[*position] = value[i];
        *position = *position + 1;
        i = i + 1;
        assert(output@ =~= initial.take(start as int) + value@.take(i as int) + initial.skip(
            *position as int,
        ));
    }
}

} // verus!
