//! The line that the router logs for every platform message it receives:
//! the channel and a printable excerpt of the payload, in a fixed-size,
//! NUL-terminated buffer.
use vstd::prelude::*;
use vstd::string::StringSliceAdditionalSpecFns;
use crate::bytes::{copy_bytes, copy_count};

verus! {

/// Size of the log buffer, terminator included.
pub const LOG_BUFFER_SIZE: usize = 640;

/// How many payload bytes at most go into the log line.
pub const LOG_PAYLOAD_LIMIT: usize = 384;

/// Label before the channel name.
pub const CHANNEL_LABEL: &'static str = "channel=";

/// Label before the payload excerpt.
pub const PAYLOAD_LABEL: &'static str = " payload=";

/// How a payload byte appears in the log: printable ASCII and the space as
/// themselves, every other byte as a dot.
pub open spec fn printable(b: u8) -> u8 {
    if 0x20 <= b <= 0x7e {
        b
    } else {
        0x2e
    }
}

/// The payload excerpt: its first bytes, each made printable.
pub open spec fn payload_excerpt(payload: Seq<u8>) -> Seq<u8> {
    let n = if payload.len() < LOG_PAYLOAD_LIMIT { payload.len() as int } else { LOG_PAYLOAD_LIMIT as int };
    payload.take(n).map_values(|b: u8| printable(b))
}

/// The full text before it is cut to the buffer.
pub open spec fn log_text(channel: Seq<u8>, payload: Seq<u8>) -> Seq<u8> {
    CHANNEL_LABEL.spec_bytes() + channel + PAYLOAD_LABEL.spec_bytes() + payload_excerpt(payload)
}

/// `n` cut to what fits before the terminator.
pub open spec fn fitted(n: int) -> int {
    if n < LOG_BUFFER_SIZE - 1 {
        n
    } else {
        LOG_BUFFER_SIZE - 1
    }
}

/// The logged line: the text cut to the buffer, then the terminator.
pub open spec fn log_line(channel: Seq<u8>, payload: Seq<u8>) -> Seq<u8> {
    log_text(channel, payload).take(fitted(log_text(channel, payload).len() as int)).push(0u8)
}

/// Copies `value` into the log buffer after the text `written`, which
/// `output[..*position]` holds, and proves that the buffer then holds the
/// longer text cut to what fits.
fn append(output: &mut Vec<u8>, position: &mut usize, value: &[u8], Ghost(written): Ghost<Seq<u8>>)
    requires
        old(output)@.len() == LOG_BUFFER_SIZE,
        *old(position) as int == fitted(written.len() as int),
        old(output)@.take(*old(position) as int) == written.take(*old(position) as int),
    ensures
        final(output)@.len() == LOG_BUFFER_SIZE,
        *final(position) as int == fitted((written + value@).len() as int),
        final(output)@.take(*final(position) as int) == (written + value@).take(
            *final(position) as int,
        ),
{
    let ghost before = output@;
    let ghost start = *position;
    copy_bytes(output.as_mut_slice(), position, value);
    let ghost count = copy_count(LOG_BUFFER_SIZE as int, start as int, value@.len() as int);
    assert(output@.take(*position as int) =~= (written + value@).take(*position as int)) by {
        assert forall|j: int| 0 <= j < *position implies output@[j] == (written + value@)[j] by {
            if j < start {
                assert(output@[j] == before.take(start as int)[j]);
                assert(before.take(start as int)[j] == written.take(start as int)[j]);
            } else {
                assert(output@[j] == value@.take(count)[j - start]);
                if start < written.len() {
                    // the text was already cut, so nothing more was copied
                    assert(false);
                }
            }
        }
    }
}

/// The line to log for a platform message: `channel=<channel> payload=<excerpt>`,
/// cut to the buffer and NUL-terminated.
pub fn platform_message_log_line(channel: &[u8], payload: &[u8]) -> (line: Vec<u8>)
    ensures
        line@ == log_line(channel@, payload@),
{
    let mut output: Vec<u8> = Vec::new();
    while output.len() < LOG_BUFFER_SIZE
        invariant
            output@.len() <= LOG_BUFFER_SIZE,
        decreases LOG_BUFFER_SIZE - output@.len(),
    {
        output.push(0u8);
    }
    let mut position: usize = 0;
    let ghost empty = Seq::<u8>::empty();
    assert(output@.take(0) =~= empty.take(0));
    append(&mut output, &mut position, CHANNEL_LABEL.as_bytes(), Ghost(empty));
    let ghost text1 = empty + CHANNEL_LABEL.spec_bytes();
    append(&mut output, &mut position, channel, Ghost(text1));
    let ghost text2 = text1 + channel@;
    append(&mut output, &mut position, PAYLOAD_LABEL.as_bytes(), Ghost(text2));
    let ghost header = text2 + PAYLOAD_LABEL.spec_bytes();
    let limit: usize = if payload.len() < LOG_PAYLOAD_LIMIT { payload.len() } else { LOG_PAYLOAD_LIMIT };
    let ghost excerpt = payload_excerpt(payload@);
    let mut i: usize = 0;
    while i < limit
        invariant_except_break
            limit <= payload@.len(),
            limit == excerpt.len(),
            excerpt == payload_excerpt(payload@),
            i <= limit,
            output@.len() == LOG_BUFFER_SIZE,
            position as int == fitted((header + excerpt.take(i as int)).len() as int),
            output@.take(position as int) == (header + excerpt.take(i as int)).take(position as int),
        ensures
            output@.len() == LOG_BUFFER_SIZE,
            position as int == fitted((header + excerpt).len() as int),
            output@.take(position as int) == (header + excerpt).take(position as int),
        decreases limit - i,
    {
        if position + 1 >= output.len() {
            assert((header + excerpt.take(i as int)).take(position as int) =~= (header + excerpt).take(position as int));
            break;
        }
        let byte = payload[i];
        let shown: u8 = if 0x20 <= byte && byte <= 0x7e { byte } else { 0x2e };
        assert(excerpt[i as int] == shown);
        let ghost old_output = output@;
        let ghost old_text = header + excerpt.take(i as int);
        assert(position as int == old_text.len());
        output.set(position, shown);
        position = position + 1;
        i = i + 1;
        assert(header + excerpt.take(i as int) =~= (header + excerpt.take(i - 1)).push(shown));
        assert forall|j: int| 0 <= j < position implies #[trigger] output@[j] == (header
            + excerpt.take(i as int))[j] by {
            if j < position - 1 {
                assert(old_output.take(position - 1)[j] == old_text.take(position - 1)[j]);
            }
        }
        assert(output@.take(position as int) =~= (header + excerpt.take(i as int)).take(position as int));
    }
    assert(excerpt.take(limit as int) =~= excerpt);
    output.set(position, 0u8);
    let line = vstd::slice::slice_to_vec(vstd::slice::slice_subrange(output.as_slice(), 0, position + 1));
    assert(log_text(channel@, payload@) =~= header + excerpt);
    assert(line@ =~= log_line(channel@, payload@));
    line
}

} // verus!
