//! What the receiver of a relayed message reads: the framing of one HTTP
//! request, read back from its bytes.

use crate::panel_bridge;
use crate::text;
use vstd::prelude::*;
use vstd::utf8;

verus! {

/// Whether a line break (carriage return, line feed) stands at `at`.
pub open spec fn break_at(bytes: Seq<u8>, at: int) -> bool {
    0 <= at && at + 2 <= bytes.len() && bytes[at] == 0x0d && bytes[at + 1] == 0x0a
}

/// The first line break at `from` or after it.
pub open spec fn first_break(bytes: Seq<u8>, from: int) -> Option<int>
    decreases bytes.len() - from,
{
    if from < 0 || from + 2 > bytes.len() {
        None
    } else if break_at(bytes, from) {
        Some(from)
    } else {
        first_break(bytes, from + 1)
    }
}

/// How a receiver splits what it was sent: the lines up to the first empty
/// one, and all that follows that.
pub open spec fn receive(bytes: Seq<u8>) -> Option<(Seq<Seq<u8>>, Seq<u8>)>
    decreases bytes.len(),
{
    match first_break(bytes, 0) {
        Some(end) => {
            let line = bytes.take(end);
            let rest = bytes.skip(end + 2);
            proof {
                lemma_first_break(bytes, 0);
            }
            if line.len() == 0 {
                Some((Seq::<Seq<u8>>::empty(), rest))
            } else {
                match receive(rest) {
                    Some((lines, body)) => Some((seq![line] + lines, body)),
                    None => None,
                }
            }
        },
        None => None,
    }
}

/// What [`first_break`] gives is the first line break, and it gives none only
/// where there is none.
pub proof fn lemma_first_break(bytes: Seq<u8>, from: int)
    requires
        0 <= from,
    ensures
        match first_break(bytes, from) {
            Some(at) => {
                &&& from <= at
                &&& break_at(bytes, at)
                &&& forall|earlier: int| from <= earlier < at ==> !break_at(bytes, earlier)
            },
            None => forall|at: int| from <= at ==> !break_at(bytes, at),
        },
    decreases bytes.len() - from,
{
    if from + 2 <= bytes.len() && !break_at(bytes, from) {
        lemma_first_break(bytes, from + 1);
    }
}

/// Whether a text holds no line break.
pub open spec fn unbroken(text: Seq<char>) -> bool {
    forall|i: int|
        0 <= i && i + 1 < text.len() ==> !(#[trigger] text[i] == '\r' && text[i + 1] == '\n')
}

/// The UTF-8 form of an ASCII character is one byte, which tells a carriage
/// return and a line feed; that of any other character has no ASCII byte.
proof fn lemma_scalar_bytes(c: char)
    ensures
        (c as u32) < 0x80 ==> {
            &&& utf8::encode_scalar(c as u32).len() == 1
            &&& utf8::encode_scalar(c as u32)[0] == 0x0d ==> c == '\r'
            &&& utf8::encode_scalar(c as u32)[0] == 0x0a ==> c == '\n'
        },
        (c as u32) >= 0x80 ==> forall|i: int|
            0 <= i < utf8::encode_scalar(c as u32).len() ==> #[trigger] utf8::encode_scalar(c as u32)[i] >= 0x80,
        utf8::encode_scalar(c as u32).len() > 0,
{
    let s = c as u32;
    utf8::char_is_scalar(c);
    if s < 0x80 {
        assert((s & 0x7f) as u8 as u32 == s) by (bit_vector)
            requires
                s < 0x80,
        ;
    } else {
        assert(0xc0 | ((s >> 6) & 0x1f) as u8 >= 0x80) by (bit_vector);
        assert(0xe0 | ((s >> 12) & 0x0f) as u8 >= 0x80) by (bit_vector);
        assert(0xf0 | ((s >> 18) & 0x7) as u8 >= 0x80) by (bit_vector);
        assert(0x80 | (s & 0x3f) as u8 >= 0x80) by (bit_vector);
        assert(0x80 | ((s >> 6) & 0x3f) as u8 >= 0x80) by (bit_vector);
        assert(0x80 | ((s >> 12) & 0x3f) as u8 >= 0x80) by (bit_vector);
    }
}

/// The UTF-8 form of two texts after one another.
proof fn lemma_encode_concat(first: Seq<char>, second: Seq<char>)
    ensures
        utf8::encode_utf8(first + second) == utf8::encode_utf8(first) + utf8::encode_utf8(second),
    decreases first.len(),
{
    if first.len() == 0 {
        assert(first + second =~= second);
        assert(utf8::encode_utf8(first) + utf8::encode_utf8(second) =~= utf8::encode_utf8(second));
    } else {
        lemma_encode_concat(first.drop_first(), second);
        assert((first + second).drop_first() =~= first.drop_first() + second);
        assert(utf8::encode_utf8(first + second) =~= utf8::encode_utf8(first) + utf8::encode_utf8(second));
    }
}

/// A text without a line break has none in its UTF-8 form.
proof fn lemma_encode_unbroken(text: Seq<char>)
    requires
        unbroken(text),
    ensures
        forall|at: int| !break_at(utf8::encode_utf8(text), at),
    decreases text.len(),
{
    if text.len() > 0 {
        let rest = text.drop_first();
        let head = utf8::encode_scalar(text[0] as u32);
        assert(unbroken(rest)) by {
            assert forall|i: int| 0 <= i && i + 1 < rest.len() implies !(#[trigger] rest[i] == '\r'
                && rest[i + 1] == '\n') by {
                assert(rest[i] == text[i + 1] && rest[i + 1] == text[i + 2]);
            }
        }
        lemma_encode_unbroken(rest);
        lemma_scalar_bytes(text[0]);
        if rest.len() > 0 {
            lemma_scalar_bytes(rest[0]);
        }
        assert forall|at: int| !break_at(utf8::encode_utf8(text), at) by {
            let bytes = utf8::encode_utf8(text);
            assert(bytes == head + utf8::encode_utf8(rest));
            if break_at(bytes, at) {
                if at >= head.len() {
                    assert(break_at(utf8::encode_utf8(rest), at - head.len()));
                } else if (text[0] as u32) < 0x80 {
                    assert(at == 0);
                    assert(text[0] == '\r');
                    assert(rest.len() > 0);
                    assert(bytes[1] == utf8::encode_utf8(rest)[0]);
                    assert(utf8::encode_utf8(rest)[0] == utf8::encode_scalar(rest[0] as u32)[0]);
                    assert(rest[0] == '\n');
                    assert(text[1] == '\n');
                } else {
                    assert(bytes[at] == head[at]);
                }
            }
        }
    }
}

/// A receiver takes a line off what it was sent.
proof fn lemma_receive_line(line: Seq<char>, rest: Seq<u8>)
    requires
        unbroken(line),
        line.len() > 0,
    ensures
        receive(utf8::encode_utf8(line) + seq![0x0du8, 0x0au8] + rest) == match receive(rest) {
            Some((lines, body)) => Some((seq![utf8::encode_utf8(line)] + lines, body)),
            None => None,
        },
{
    let start = utf8::encode_utf8(line);
    let bytes = start + seq![0x0du8, 0x0au8] + rest;
    lemma_encode_unbroken(line);
    lemma_first_break(bytes, 0);
    lemma_scalar_bytes(line[0]);
    assert(break_at(bytes, start.len() as int));
    assert forall|at: int| 0 <= at < start.len() implies !break_at(bytes, at) by {
        if break_at(bytes, at) {
            if at + 1 < start.len() {
                assert(break_at(start, at));
            } else {
                assert(bytes[at + 1] == 0x0d);
            }
        }
    }
    assert(first_break(bytes, 0) == Some(start.len() as int));
    assert(bytes.take(start.len() as int) =~= start);
    assert(bytes.skip(start.len() as int + 2) =~= rest);
}

/// A receiver stops at an empty line.
proof fn lemma_receive_end(body: Seq<u8>)
    ensures
        receive(seq![0x0du8, 0x0au8] + body) == Some((Seq::<Seq<u8>>::empty(), body)),
{
    let bytes = seq![0x0du8, 0x0au8] + body;
    assert(break_at(bytes, 0));
    assert(first_break(bytes, 0) == Some(0int));
    assert(bytes.skip(2) =~= body);
}

/// The lines of the request that posts `length` bytes of JSON.
pub open spec fn request_lines(authority: Seq<char>, path: Seq<char>, length: nat) -> Seq<
    Seq<char>,
> {
    seq![
        "POST "@ + path + " HTTP/1.1"@,
        "Host: "@ + authority,
        "Content-Type: application/json"@,
        "Content-Length: "@ + text::decimal_of(length),
        "Connection: close"@,
    ]
}

proof fn lemma_decimal_unbroken(number: nat)
    ensures
        text::decimal_of(number).len() > 0,
        forall|i: int|
            0 <= i < text::decimal_of(number).len() ==> '0' <= #[trigger] text::decimal_of(
                number,
            )[i] <= '9',
    decreases number,
{
    if number >= 10 {
        lemma_decimal_unbroken(number / 10);
    }
}

/// The head of a request is its lines, each ended by a line break, and an
/// empty line.
proof fn lemma_head_lines(authority: Seq<char>, path: Seq<char>, length: nat)
    ensures
        panel_bridge::post_head(authority, path, length) == {
            let lines = request_lines(authority, path, length);
            lines[0] + "\r\n"@ + (lines[1] + "\r\n"@ + (lines[2] + "\r\n"@ + (lines[3] + "\r\n"@ + (
            lines[4] + "\r\n"@ + "\r\n"@))))
        },
{
    reveal_strlit("\r\n");
    reveal_strlit(" HTTP/1.1");
    reveal_strlit("Host: ");
    reveal_strlit("Content-Type: application/json");
    reveal_strlit("Content-Length: ");
    reveal_strlit("Connection: close");
    reveal_strlit(" HTTP/1.1\r\nHost: ");
    reveal_strlit("\r\nContent-Type: application/json\r\nContent-Length: ");
    reveal_strlit("\r\nConnection: close\r\n\r\n");
    assert(" HTTP/1.1\r\nHost: "@ =~= " HTTP/1.1"@ + "\r\n"@ + "Host: "@);
    assert("\r\nContent-Type: application/json\r\nContent-Length: "@ =~= "\r\n"@
        + "Content-Type: application/json"@ + "\r\n"@ + "Content-Length: "@);
    assert("\r\nConnection: close\r\n\r\n"@ =~= "\r\n"@ + "Connection: close"@ + "\r\n"@ + "\r\n"@);
    let lines = request_lines(authority, path, length);
    assert(panel_bridge::post_head(authority, path, length) =~= lines[0] + "\r\n"@ + (lines[1]
        + "\r\n"@ + (lines[2] + "\r\n"@ + (lines[3] + "\r\n"@ + (lines[4] + "\r\n"@ + "\r\n"@)))));
}

proof fn lemma_unbroken_part(whole: Seq<char>, part: Seq<char>, from: int)
    requires
        0 <= from,
        text::occurs_at(whole, part, from),
        text::find_from(whole, "\r\n"@, 0) is None,
    ensures
        unbroken(part),
{
    reveal_strlit("\r\n");
    text::lemma_find_from(whole, "\r\n"@, 0);
    assert forall|i: int| 0 <= i && i + 1 < part.len() implies !(#[trigger] part[i] == '\r' && part[i
        + 1] == '\n') by {
        let found = whole.subrange(from, from + part.len());
        assert(found[i] == whole[from + i] && found[i + 1] == whole[from + i + 1]);
        if part[i] == '\r' && part[i + 1] == '\n' {
            assert(whole.subrange(from + i, from + i + 2) =~= "\r\n"@);
            assert(text::occurs_at(whole, "\r\n"@, from + i));
        }
    }
}

/// Neither the address nor the path of an endpoint without a line break has one.
proof fn lemma_target_unbroken(endpoint: Seq<char>)
    requires
        panel_bridge::target_of(endpoint) is Ok,
        text::find_from(endpoint, "\r\n"@, 0) is None,
    ensures
        unbroken(panel_bridge::target_of(endpoint)->Ok_0.0),
        unbroken(panel_bridge::target_of(endpoint)->Ok_0.1),
{
    reveal_strlit("http://");
    reveal_strlit("/");
    let (authority, path) = panel_bridge::target_of(endpoint)->Ok_0;
    let rest = endpoint.skip(7);
    text::lemma_find_from(rest, "/"@, 0);
    match text::find_from(rest, "/"@, 0) {
        Some(slash) => {
            assert(endpoint.subrange(7, 7 + slash) =~= authority);
            assert(endpoint.subrange(7 + slash, 7 + slash + path.len()) =~= path);
            lemma_unbroken_part(endpoint, authority, 7);
            lemma_unbroken_part(endpoint, path, 7 + slash);
        },
        None => {
            assert(endpoint.subrange(7, 7 + rest.len() as int) =~= rest);
            lemma_unbroken_part(endpoint, rest, 7);
        },
    }
}

/// The relay writes one well-formed request that carries the payload: whoever
/// splits the bytes at line breaks reads the request line with the endpoint's
/// path, the four header lines with its address and the length of the payload,
/// and after the empty line exactly the payload.
///
/// This is said of an endpoint without a line break of its own; one with a line
/// break adds lines to the request.
pub proof fn law_request_reads_back(endpoint: Seq<char>, body: Seq<u8>)
    requires
        panel_bridge::target_of(endpoint) is Ok,
        text::find_from(endpoint, "\r\n"@, 0) is None,
    ensures
        ({
            let (authority, path) = panel_bridge::target_of(endpoint)->Ok_0;
            let head = panel_bridge::post_head(authority, path, body.len());
            receive(utf8::encode_utf8(head) + body) == Some(
                (
                    request_lines(authority, path, body.len()).map_values(
                        |line: Seq<char>| utf8::encode_utf8(line),
                    ),
                    body,
                ),
            )
        }),
{
    let (authority, path) = panel_bridge::target_of(endpoint)->Ok_0;
    let lines = request_lines(authority, path, body.len());
    lemma_target_unbroken(endpoint);
    lemma_request_lines_unbroken(authority, path, body.len());
    lemma_head_lines(authority, path, body.len());
    lemma_break_bytes();
    let tail4 = lines[4] + "\r\n"@ + "\r\n"@;
    let tail3 = lines[3] + "\r\n"@ + tail4;
    let tail2 = lines[2] + "\r\n"@ + tail3;
    let tail1 = lines[1] + "\r\n"@ + tail2;
    let head = lines[0] + "\r\n"@ + tail1;
    lemma_receive_end(body);
    lemma_receive_text_line(lines[4], "\r\n"@, body);
    lemma_receive_text_line(lines[3], tail4, body);
    lemma_receive_text_line(lines[2], tail3, body);
    lemma_receive_text_line(lines[1], tail2, body);
    lemma_receive_text_line(lines[0], tail1, body);
    let read = receive(utf8::encode_utf8(head) + body)->Some_0;
    assert(read.0 =~= lines.map_values(|line: Seq<char>| utf8::encode_utf8(line)));
}

/// The UTF-8 form of a line break.
proof fn lemma_break_bytes()
    ensures
        utf8::encode_utf8("\r\n"@) == seq![0x0du8, 0x0au8],
{
    reveal_strlit("\r\n");
    utf8::is_ascii_chars_encode_utf8("\r\n"@);
    assert(utf8::encode_utf8("\r\n"@) =~= seq![0x0du8, 0x0au8]);
}

/// A receiver takes a line off a text and what follows that.
proof fn lemma_receive_text_line(line: Seq<char>, tail: Seq<char>, body: Seq<u8>)
    requires
        unbroken(line),
        line.len() > 0,
    ensures
        receive(utf8::encode_utf8(line + "\r\n"@ + tail) + body) == match receive(
            utf8::encode_utf8(tail) + body,
        ) {
            Some((lines, body)) => Some((seq![utf8::encode_utf8(line)] + lines, body)),
            None => None,
        },
{
    let cut = seq![0x0du8, 0x0au8];
    lemma_break_bytes();
    lemma_encode_concat(line + "\r\n"@, tail);
    lemma_encode_concat(line, "\r\n"@);
    lemma_receive_line(line, utf8::encode_utf8(tail) + body);
    assert(utf8::encode_utf8(line + "\r\n"@ + tail) + body =~= utf8::encode_utf8(line) + cut + (
    utf8::encode_utf8(tail) + body));
}

/// No line of a request has a line break in it, if neither the address nor the
/// path has.
proof fn lemma_request_lines_unbroken(authority: Seq<char>, path: Seq<char>, length: nat)
    requires
        unbroken(authority),
        unbroken(path),
    ensures
        forall|k: int|
            0 <= k < 5 ==> {
                &&& unbroken(#[trigger] request_lines(authority, path, length)[k])
                &&& request_lines(authority, path, length)[k].len() > 0
            },
{
    reveal_strlit("POST ");
    reveal_strlit(" HTTP/1.1");
    reveal_strlit("Host: ");
    reveal_strlit("Content-Type: application/json");
    reveal_strlit("Content-Length: ");
    reveal_strlit("Connection: close");
    lemma_decimal_unbroken(length);
    let lines = request_lines(authority, path, length);
    assert(unbroken(lines[0])) by {
        let line = lines[0];
        assert forall|i: int| 0 <= i && i + 1 < line.len() implies !(#[trigger] line[i] == '\r'
            && line[i + 1] == '\n') by {
            if 5 <= i < 5 + path.len() {
                assert(line[i] == path[i - 5]);
                if i + 1 < 5 + path.len() {
                    assert(line[i + 1] == path[i + 1 - 5]);
                }
            }
        }
    }
    assert(unbroken(lines[1])) by {
        let line = lines[1];
        assert forall|i: int| 0 <= i && i + 1 < line.len() implies !(#[trigger] line[i] == '\r'
            && line[i + 1] == '\n') by {
            if 6 <= i {
                assert(line[i] == authority[i - 6] && line[i + 1] == authority[i + 1 - 6]);
            }
        }
    }
    assert(unbroken(lines[3])) by {
        let line = lines[3];
        assert forall|i: int| 0 <= i && i + 1 < line.len() implies !(#[trigger] line[i] == '\r'
            && line[i + 1] == '\n') by {
            if 16 <= i {
                assert(line[i] == text::decimal_of(length)[i - 16]);
            }
        }
    }
}

/// Only a loopback endpoint may be relayed to, and only over http: an endpoint
/// is accepted exactly where it begins with the loopback address, in http.
pub proof fn law_only_loopback(endpoint: Seq<char>)
    ensures
        panel_bridge::target_of(endpoint) is Ok <==> text::begins_with(
            endpoint,
            "http://127.0.0.1:"@,
        ),
{
    reveal_strlit("http://");
    reveal_strlit("127.0.0.1:");
    reveal_strlit("http://127.0.0.1:");
    reveal_strlit("/");
    let whole = "http://127.0.0.1:"@;
    let scheme = "http://"@;
    let address = "127.0.0.1:"@;
    assert(whole =~= scheme + address);
    if text::begins_with(endpoint, scheme) {
        let rest = endpoint.skip(7);
        text::lemma_find_from(rest, "/"@, 0);
        assert(endpoint.subrange(0, 7) =~= scheme);
        if text::begins_with(endpoint, whole) {
            assert(rest.subrange(0, 10) =~= address) by {
                assert forall|i: int| 0 <= i < 10 implies rest[i] == address[i] by {
                    assert(rest[i] == endpoint.subrange(0, 17)[i + 7]);
                }
            }
            if let Some(slash) = text::find_from(rest, "/"@, 0) {
                if slash < 10 {
                    assert(rest.subrange(slash, slash + 1)[0] == '/');
                    assert(rest[slash] == rest.subrange(0, 10)[slash]);
                }
                assert(rest.take(slash).subrange(0, 10) =~= rest.subrange(0, 10));
            }
        } else if let Ok((authority, path)) = panel_bridge::target_of(endpoint) {
            assert forall|i: int| 0 <= i < 17 implies endpoint[i] == whole[i] by {
                if i < 7 {
                    assert(endpoint.subrange(0, 7)[i] == scheme[i]);
                } else {
                    assert(authority.subrange(0, 10)[i - 7] == address[i - 7]);
                }
            }
            assert(endpoint.subrange(0, 17) =~= whole);
        }
    } else if text::begins_with(endpoint, whole) {
        assert(endpoint.subrange(0, 7) =~= endpoint.subrange(0, 17).subrange(0, 7));
        assert(whole.subrange(0, 7) =~= scheme);
    }
}

} // verus!
