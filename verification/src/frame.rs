//! Server-sent-event framing: from the bytes of one chunk to the payloads of
//! its `data: ` lines.

use crate::choice::DecodeError;
use crate::text::chars_of;
use vstd::prelude::*;
use vstd::string::{StrSliceExecFns, StringSliceAdditionalSpecFns};
use vstd::utf8::{decode_utf8, encode_utf8_decode_utf8, valid_utf8};

verus! {

/// `core::str::Utf8Error`, the reason why bytes are not text. Opaque to the
/// verifier, and only ever turned into its message.
#[verifier::external_type_specification]
#[verifier::external_body]
pub struct ExUtf8Error(core::str::Utf8Error);

/// `core::str::from_utf8`. Trusted: it succeeds exactly on well-formed
/// UTF-8, and the text it hands out is made of the very bytes it was given.
#[verifier::external_body]
pub(crate) fn text_of_bytes(bytes: &[u8]) -> (r: Result<&str, core::str::Utf8Error>)
    ensures
        r is Ok <==> valid_utf8(bytes@),
        r matches Ok(text) ==> text.spec_bytes() == bytes@,
{
    core::str::from_utf8(bytes)
}

/// Reads a chunk as text. A chunk is read on its own: it is text exactly
/// when its bytes are well-formed UTF-8 from first to last.
pub fn decode_chunk(chunk: &[u8]) -> (r: Result<&str, DecodeError>)
    ensures
        match r {
            Ok(text) => valid_utf8(chunk@) && text@ == decode_utf8(chunk@),
            Err(failure) => !valid_utf8(chunk@) && failure is EncodingInvalid,
        },
{
    match text_of_bytes(chunk) {
        Ok(text) => {
            proof {
                encode_utf8_decode_utf8(text@);
            }
            Ok(text)
        },
        Err(cause) => Err(DecodeError::EncodingInvalid(cause.to_string())),
    }
}

/// The number of characters before the first line feed, or the length of the
/// text where it has none.
pub open spec fn first_break(text: Seq<char>) -> nat
    decreases text.len(),
{
    if text.len() == 0 || text[0] == '\n' {
        0
    } else {
        1 + first_break(text.skip(1))
    }
}

/// A line without the carriage return that may end it.
pub open spec fn without_return(line: Seq<char>) -> Seq<char> {
    if line.len() > 0 && line.last() == '\r' {
        line.drop_last()
    } else {
        line
    }
}

/// The lines of a text. A line ends at a line feed, which does not belong to
/// it, nor does a carriage return just before the line feed. What follows the
/// last line feed is a line too, unless it is empty.
pub open spec fn lines(text: Seq<char>) -> Seq<Seq<char>>
    decreases text.len(),
{
    if text.len() == 0 {
        Seq::empty()
    } else {
        let n = first_break(text) as int;
        if n < text.len() {
            seq![without_return(text.take(n))] + lines(text.skip(n + 1))
        } else {
            seq![text]
        }
    }
}

/// The marker that opens a data line.
pub open spec fn data_prefix() -> Seq<char> {
    seq!['d', 'a', 't', 'a', ':', ' ']
}

/// Whether a character is white space in the sense of Unicode.
pub open spec fn spec_is_whitespace(c: char) -> bool {
    let n = c as u32;
    ||| 0x09 <= n <= 0x0d
    ||| n == 0x20
    ||| n == 0x85
    ||| n == 0xa0
    ||| n == 0x1680
    ||| 0x2000 <= n <= 0x200a
    ||| n == 0x2028
    ||| n == 0x2029
    ||| n == 0x202f
    ||| n == 0x205f
    ||| n == 0x3000
}

/// Whether a character is white space in the sense of Unicode.
#[verifier::when_used_as_spec(spec_is_whitespace)]
pub fn is_whitespace(c: char) -> (r: bool)
    ensures
        r == spec_is_whitespace(c),
{
    let n: u32 = c as u32;
    (0x09 <= n && n <= 0x0d) || n == 0x20 || n == 0x85 || n == 0xa0 || n == 0x1680 || (0x2000 <= n
        && n <= 0x200a) || n == 0x2028 || n == 0x2029 || n == 0x202f || n == 0x205f || n == 0x3000
}

/// Whether a text holds nothing but white space.
pub open spec fn is_blank(text: Seq<char>) -> bool {
    forall|i: int| 0 <= i < text.len() ==> spec_is_whitespace(#[trigger] text[i])
}

/// The payload of a line: what follows the marker `data: `, unless the line
/// has no such marker or nothing but white space after it.
pub open spec fn payload_of(line: Seq<char>) -> Option<Seq<char>> {
    if line.len() >= 6 && line.take(6) == data_prefix() && !is_blank(line.skip(6)) {
        Some(line.skip(6))
    } else {
        None
    }
}

/// The payloads of some lines, in the order of the lines.
pub open spec fn payloads_in(lines: Seq<Seq<char>>) -> Seq<Seq<char>>
    decreases lines.len(),
{
    if lines.len() == 0 {
        Seq::empty()
    } else {
        let before = payloads_in(lines.drop_last());
        match payload_of(lines.last()) {
            Some(payload) => before.push(payload),
            None => before,
        }
    }
}

/// The payloads of a text.
pub open spec fn payloads(text: Seq<char>) -> Seq<Seq<char>> {
    payloads_in(lines(text))
}

/// Model of a run of payloads.
pub open spec fn texts_view(texts: Seq<String>) -> Seq<Seq<char>> {
    texts.map_values(|text: String| text@)
}

/// A text that has no line feed before `n`, and ends or has one at `n`,
/// breaks at `n`.
pub proof fn lemma_first_break(text: Seq<char>, n: int)
    requires
        0 <= n <= text.len(),
        forall|k: int| 0 <= k < n ==> text[k] != '\n',
        n < text.len() ==> text[n] == '\n',
    ensures
        first_break(text) == n,
    decreases n,
{
    if n > 0 {
        lemma_first_break(text.skip(1), n - 1);
    }
}

/// Finds the payload of the line that `chars` holds from `start` to `end`.
fn payload_bounds(chars: &Vec<char>, start: usize, end: usize) -> (r: Option<usize>)
    requires
        start <= end <= chars.len(),
    ensures
        match r {
            Some(from) => from == start + 6 && from <= end && payload_of(
                chars@.subrange(start as int, end as int),
            ) == Some(chars@.subrange(from as int, end as int)),
            None => payload_of(chars@.subrange(start as int, end as int)) is None,
        },
{
    let ghost line = chars@.subrange(start as int, end as int);
    if end - start < 6 {
        return None;
    }
    if !(chars[start] == 'd' && chars[start + 1] == 'a' && chars[start + 2] == 't' && chars[start
        + 3] == 'a' && chars[start + 4] == ':' && chars[start + 5] == ' ') {
        proof {
            let head = line.take(6);
            assert(head[0] == chars@[start as int]);
            assert(head[1] == chars@[start + 1]);
            assert(head[2] == chars@[start + 2]);
            assert(head[3] == chars@[start + 3]);
            assert(head[4] == chars@[start + 4]);
            assert(head[5] == chars@[start + 5]);
        }
        return None;
    }
    assert(line.take(6) =~= data_prefix());
    let from = start + 6;
    assert(line.skip(6) =~= chars@.subrange(from as int, end as int));
    let mut i: usize = from;
    while i < end
        invariant
            from <= i <= end <= chars.len(),
            from == start + 6,
            line == chars@.subrange(start as int, end as int),
            line.take(6) == data_prefix(),
            line.skip(6) == chars@.subrange(from as int, end as int),
            forall|k: int| from <= k < i ==> spec_is_whitespace(chars@[k]),
        decreases end - i,
    {
        if !is_whitespace(chars[i]) {
            proof {
                let rest = chars@.subrange(from as int, end as int);
                assert(rest[i - from] == chars@[i as int]);
                assert(!is_blank(rest));
            }
            return Some(from);
        }
        i += 1;
    }
    proof {
        let rest = chars@.subrange(from as int, end as int);
        assert forall|k: int| 0 <= k < rest.len() implies spec_is_whitespace(
            #[trigger] rest[k],
        ) by {
            assert(rest[k] == chars@[from + k]);
        }
    }
    None
}

/// Splits a text into lines and hands out the payload of each data line.
pub fn split_payloads(text: &str) -> (r: Vec<String>)
    ensures
        texts_view(r@) == payloads(text@),
{
    let chars = chars_of(text);
    let len = chars.len();
    let mut found: Vec<String> = Vec::new();
    let mut pos: usize = 0;
    let ghost mut done: Seq<Seq<char>> = Seq::empty();
    assert(text@.skip(0) =~= text@);
    assert(texts_view(found@) =~= payloads_in(done));
    while pos < len
        invariant
            chars@ == text@,
            len == chars.len(),
            pos <= len,
            lines(text@) == done + lines(text@.skip(pos as int)),
            texts_view(found@) == payloads_in(done),
        decreases len - pos,
    {
        let ghost rest = text@.skip(pos as int);
        let mut end: usize = pos;
        while end < len && chars[end] != '\n'
            invariant
                chars@ == text@,
                len == chars.len(),
                pos <= end <= len,
                forall|k: int| pos <= k < end ==> chars@[k] != '\n',
            decreases len - end,
        {
            end += 1;
        }
        proof {
            lemma_first_break(rest, end - pos);
            assert(rest.take(end - pos) =~= text@.subrange(pos as int, end as int));
        }
        let next: usize;
        let stop: usize;
        let ghost line: Seq<char>;
        if end < len {
            next = end + 1;
            if end > pos && chars[end - 1] == '\r' {
                stop = end - 1;
            } else {
                stop = end;
            }
            proof {
                let whole = text@.subrange(pos as int, end as int);
                line = without_return(whole);
                if end > pos && chars@[end - 1] == '\r' {
                    assert(whole.last() == chars@[end - 1]);
                    assert(whole.drop_last() =~= text@.subrange(pos as int, stop as int));
                }
                assert(rest.skip(end - pos + 1) =~= text@.skip(next as int));
            }
        } else {
            next = len;
            stop = len;
            proof {
                line = rest;
                assert(rest =~= text@.subrange(pos as int, stop as int));
                assert(text@.skip(len as int).len() == 0);
                assert(lines(text@.skip(next as int)) =~= Seq::empty());
            }
        }
        assert(line == text@.subrange(pos as int, stop as int));
        assert(lines(rest) =~= seq![line] + lines(text@.skip(next as int)));
        let ghost before = found@;
        match payload_bounds(&chars, pos, stop) {
            Some(from) => {
                let payload = text.substring_char(from, stop).to_owned();
                found.push(payload);
                assert(texts_view(found@) =~= texts_view(before).push(payload@));
            },
            None => {},
        }
        proof {
            assert(done.push(line).drop_last() =~= done);
            assert(done.push(line) + lines(text@.skip(next as int)) =~= done + lines(rest));
            done = done.push(line);
        }
        pos = next;
    }
    assert(lines(text@.skip(pos as int)) =~= Seq::empty());
    assert(done + Seq::<Seq<char>>::empty() =~= done);
    found
}

} // verus!
