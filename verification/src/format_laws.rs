//! What the byte-level helpers compute, stated without their definitions:
//! substring search, JSON sniffing, the bounded copy, the codec's sizes and
//! the log line's layout.
use vstd::prelude::*;
use vstd::string::StringSliceAdditionalSpecFns;
use crate::bytes::{copied, copy_count, json_window, opens_json, seq_contains};
use crate::codec::{encode_standard_size, standard_method_name, standard_size, standard_size_end};
use crate::logline::{log_text, CHANNEL_LABEL, LOG_PAYLOAD_LIMIT, PAYLOAD_LABEL};

verus! {

broadcast use vstd::string::is_ascii_spec_bytes;

/// Law: a needle is found wherever it stands in the haystack, and never in
/// a shorter haystack.
pub proof fn lemma_contains_anywhere(before: Seq<u8>, needle: Seq<u8>, after: Seq<u8>)
    ensures
        seq_contains(before + needle + after, needle),
        forall|h: Seq<u8>| #[trigger] seq_contains(h, needle) ==> needle.len() <= h.len(),
{
    let h = before + needle + after;
    let i = before.len() as int;
    assert(h.subrange(i, i + needle.len()) =~= needle);
}

/// JSON whitespace, as bytes.
pub open spec fn is_blank(b: u8) -> bool {
    b == 0x20 || b == 0x09 || b == 0x0d || b == 0x0a
}

/// Law: a payload opens JSON exactly when its first byte that is not a
/// space, tab, CR or LF is `{` or `[`; an all-blank payload does not.
pub proof fn lemma_opens_json_first_byte(s: Seq<u8>)
    ensures
        forall|i: int|
            0 <= i < s.len() && (forall|j: int| 0 <= j < i ==> is_blank(#[trigger] s[j])) && !is_blank(
                s[i],
            ) ==> opens_json(s) == (s[i] == 0x7b || s[i] == 0x5b),
        (forall|j: int| 0 <= j < s.len() ==> is_blank(#[trigger] s[j])) ==> !opens_json(s),
    decreases s.len(),
{
    if s.len() > 0 {
        lemma_opens_json_first_byte(s.drop_first());
        let t = s.drop_first();
        assert forall|i: int|
            0 <= i < s.len() && (forall|j: int| 0 <= j < i ==> is_blank(#[trigger] s[j])) && !is_blank(
                s[i],
            ) implies opens_json(s) == (s[i] == 0x7b || s[i] == 0x5b) by {
            if i > 0 {
                assert(is_blank(s[0]));
                assert(forall|j: int| 0 <= j < i - 1 ==> is_blank(#[trigger] t[j]) <== is_blank(s[j + 1]));
                assert(t[i - 1] == s[i]);
            }
        }
        if forall|j: int| 0 <= j < s.len() ==> is_blank(#[trigger] s[j]) {
            assert(is_blank(s[0]));
            assert forall|j: int| 0 <= j < t.len() implies is_blank(#[trigger] t[j]) by {
                assert(t[j] == s[j + 1]);
            }
        }
    }
}

/// Law: the JSON sniffer looks at the first eight bytes, or at all of a
/// shorter payload.
pub proof fn lemma_json_window(s: Seq<u8>)
    ensures
        json_window(s) == s.take(if s.len() < 8 { s.len() as int } else { 8 }),
{
    if s.len() < 8 {
        assert(s.take(s.len() as int) =~= s);
    }
}

/// Law: a copy takes as much of the value as fits before the last byte of
/// the buffer: never more than the value, never past that byte, and either
/// the whole value or up to that byte.
pub proof fn lemma_copy_count_fills(capacity: int, position: int, value_len: int)
    requires
        0 <= position,
        0 <= value_len,
    ensures
        0 <= copy_count(capacity, position, value_len) <= value_len,
        position < capacity ==> position + copy_count(capacity, position, value_len) <= capacity - 1,
        copy_count(capacity, position, value_len) == value_len || position + copy_count(
            capacity,
            position,
            value_len,
        ) >= capacity - 1,
{
}

/// Law: a copy from inside the buffer keeps its length, leaves the bytes
/// before the position and after the copied ones alone, and writes the
/// value's first bytes from the position on; from past the end it changes
/// nothing.
pub proof fn lemma_copied_bytes(output: Seq<u8>, position: int, value: Seq<u8>)
    requires
        0 <= position,
    ensures
        position >= output.len() ==> copied(output, position, value) == output,
        position < output.len() ==> ({
            let count = copy_count(output.len() as int, position, value.len() as int);
            let result = copied(output, position, value);
            &&& result.len() == output.len()
            &&& forall|i: int| 0 <= i < position ==> #[trigger] result[i] == output[i]
            &&& forall|i: int| 0 <= i < count ==> #[trigger] result[position + i] == value[i]
            &&& forall|i: int| position + count <= i < output.len() ==> #[trigger] result[i] == output[i]
        }),
{
    if position < output.len() {
        let count = copy_count(output.len() as int, position, value.len() as int);
        let result = copied(output, position, value);
        assert forall|i: int| 0 <= i < count implies #[trigger] result[position + i] == value[i] by {
            assert(result[position + i] == value.take(count)[i]);
        }
    }
}

/// Law: the codec writes a size in one byte below 254, in three up to
/// 0xffff and in five above.
pub proof fn lemma_encoded_size_length(size: nat)
    requires
        size < 0x1_0000_0000,
    ensures
        size < 254 ==> encode_standard_size(size).len() == 1,
        254 <= size <= 0xffff ==> encode_standard_size(size).len() == 3 && encode_standard_size(
            size,
        )[0] == 254,
        size > 0xffff ==> encode_standard_size(size).len() == 5 && encode_standard_size(size)[0]
            == 255,
{
}

/// Law: nothing is read past the end: there a size reads as none and the
/// position stays; a payload that does not start with the string tag 7
/// names no method.
pub proof fn lemma_codec_failures(payload: Seq<u8>, position: int)
    ensures
        position >= payload.len() ==> standard_size(payload, position) is None
            && standard_size_end(payload, position) == position,
        (payload.len() == 0 || payload[0] != 7) ==> standard_method_name(payload) is None,
        (0 <= position < payload.len() && payload[position] == 254 && position + 3 > payload.len())
            ==> standard_size(payload, position) is None && standard_size_end(payload, position)
            == position + 1,
        (0 <= position < payload.len() && payload[position] == 255 && position + 5 > payload.len())
            ==> standard_size(payload, position) is None && standard_size_end(payload, position)
            == position + 1,
        (0 <= position < payload.len() && payload[position] < 254) ==> standard_size(
            payload,
            position,
        ) == Some((payload[position] as int, position + 1)),
        (payload.len() > 0 && payload[0] == 7) ==> (standard_size(payload, 1) matches Some(
            (length, start),
        ) ==> (start + length > payload.len() ==> standard_method_name(payload) is None)),
{
}

/// Law: the logged text is `channel=`, the channel, ` payload=`, then at
/// most 384 bytes of the payload, each printable ASCII byte as itself and
/// every other byte as a dot.
pub proof fn lemma_log_text_layout(channel: Seq<u8>, payload: Seq<u8>)
    ensures
        ({
            let label = seq![0x63u8, 0x68, 0x61, 0x6e, 0x6e, 0x65, 0x6c, 0x3d];
            let middle = seq![0x20u8, 0x70, 0x61, 0x79, 0x6c, 0x6f, 0x61, 0x64, 0x3d];
            let shown: int = if payload.len() < 384 { payload.len() as int } else { 384 };
            let text = log_text(channel, payload);
            &&& text.len() == 17 + channel.len() + shown
            &&& text.take(8) == label
            &&& text.subrange(8, 8 + channel.len() as int) == channel
            &&& text.subrange(8 + channel.len() as int, 17 + channel.len() as int) == middle
            &&& forall|i: int|
                0 <= i < shown ==> #[trigger] text[17 + channel.len() + i] == if 0x20 <= payload[i]
                    <= 0x7e {
                    payload[i]
                } else {
                    0x2eu8
                }
        }),
{
    reveal_strlit("channel=");
    reveal_strlit(" payload=");
    assert(vstd::string::is_ascii(CHANNEL_LABEL));
    assert(vstd::string::is_ascii(PAYLOAD_LABEL));
    let label = seq![0x63u8, 0x68, 0x61, 0x6e, 0x6e, 0x65, 0x6c, 0x3d];
    let middle = seq![0x20u8, 0x70, 0x61, 0x79, 0x6c, 0x6f, 0x61, 0x64, 0x3d];
    assert(CHANNEL_LABEL.spec_bytes() =~= label);
    assert(PAYLOAD_LABEL.spec_bytes() =~= middle);
    let text = log_text(channel, payload);
    assert(text.take(8) =~= label);
    assert(text.subrange(8, 8 + channel.len() as int) =~= channel);
    assert(text.subrange(8 + channel.len() as int, 17 + channel.len() as int) =~= middle);
    assert(LOG_PAYLOAD_LIMIT == 384);
}

} // verus!
