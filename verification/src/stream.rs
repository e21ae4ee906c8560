use vstd::prelude::*;
use crate::notifications::opt_text;
use crate::search::{lemma_first_index_found, lemma_first_index_is_first};
use crate::text::{chars_of, find_chars, first_occurrence, has_prefix, occurs_at, slice_chars, starts_with_text, string_of};

verus! {

/// How a streamed reply is cut into frames: server-sent events end with a
/// blank line and carry their text after `data: `; JSON lines end with a
/// line break.
#[derive(Debug, Clone, Copy, PartialEq, Eq, Structural)]
pub enum Framing {
    ServerSentEvents,
    JsonLines,
}

/// The text that ends a frame.
pub open spec fn delimiter(f: Framing) -> Seq<char> {
    match f {
        Framing::ServerSentEvents => "\n\n"@,
        Framing::JsonLines => "\n"@,
    }
}

/// The field name that starts the data line of an event.
pub open spec fn data_prefix() -> Seq<char> {
    "data: "@
}

/// What a frame carries: an event its text after `data: ` (nothing when it
/// does not start so); a JSON line itself.
pub open spec fn frame_payload(f: Framing, frame: Seq<char>) -> Option<Seq<char>> {
    match f {
        Framing::ServerSentEvents => if has_prefix(frame, data_prefix()) {
            Some(frame.subrange(data_prefix().len() as int, frame.len() as int))
        } else {
            None
        },
        Framing::JsonLines => Some(frame),
    }
}

/// What the text left when the reply ends carries: for events as for a
/// frame, for JSON lines the text when there is any.
pub open spec fn final_payload(f: Framing, rest: Seq<char>) -> Option<Seq<char>> {
    match f {
        Framing::ServerSentEvents => frame_payload(f, rest),
        Framing::JsonLines => if rest.len() > 0 { Some(rest) } else { None },
    }
}

/// Text of a streamed reply received so far and not yet cut into frames.
#[derive(Debug)]
pub struct StreamBuffer {
    framing: Framing,
    buffer: Vec<char>,
}

impl View for StreamBuffer {
    type V = (Framing, Seq<char>);

    closed spec fn view(&self) -> (Framing, Seq<char>) {
        (self.framing, self.buffer@)
    }
}

fn delimiter_chars(f: Framing) -> (r: Vec<char>)
    ensures
        r@ == delimiter(f),
{
    match f {
        Framing::ServerSentEvents => chars_of("\n\n"),
        Framing::JsonLines => chars_of("\n"),
    }
}

fn payload_of(f: Framing, frame: &Vec<char>) -> (r: Option<String>)
    ensures
        opt_text(r) == frame_payload(f, frame@),
{
    match f {
        Framing::JsonLines => Some(string_of(frame)),
        Framing::ServerSentEvents => {
            let text = string_of(frame);
            if starts_with_text(text.as_str(), "data: ") {
                let prefix = chars_of("data: ");
                let body = slice_chars(frame, prefix.len(), frame.len());
                Some(string_of(&body))
            } else {
                None
            }
        },
    }
}

impl StreamBuffer {
    /// An empty buffer for a reply framed as `framing`.
    pub fn new(framing: Framing) -> (r: StreamBuffer)
        ensures
            r@ == (framing, Seq::<char>::empty()),
    {
        StreamBuffer { framing, buffer: Vec::new() }
    }

    /// Appends received text.
    pub fn push_text(&mut self, s: &str)
        ensures
            final(self)@ == (old(self)@.0, old(self)@.1 + s@),
    {
        let t = chars_of(s);
        let ghost start = self.buffer@;
        let mut i: usize = 0;
        while i < t.len()
            invariant
                t@ == s@,
                i <= t@.len(),
                self.buffer@ == start + t@.subrange(0, i as int),
                self.framing == old(self).framing,
                start == old(self).buffer@,
            decreases t@.len() - i,
        {
            self.buffer.push(t[i]);
            i = i + 1;
            proof {
                assert(self.buffer@ =~= start + t@.subrange(0, i as int));
            }
        }
        proof {
            assert(t@.subrange(0, t@.len() as int) =~= t@);
        }
    }

    /// Cuts off the first complete frame: nothing when the text holds no
    /// delimiter yet (the buffer is unchanged); else what the frame before
    /// the first delimiter carries, the buffer keeping what follows the
    /// delimiter.
    pub fn next_frame(&mut self) -> (r: Option<Option<String>>)
        ensures
            final(self)@.0 == old(self)@.0,
            ({
                let f = old(self)@.0;
                let b = old(self)@.1;
                let k = first_occurrence(b, delimiter(f));
                if k < 0 {
                    r is None && final(self)@.1 == b
                } else {
                    &&& r matches Some(p) && opt_text(p) == frame_payload(f, b.subrange(0, k))
                    &&& final(self)@.1 == b.subrange(k + delimiter(f).len(), b.len() as int)
                }
            }),
    {
        let delim = delimiter_chars(self.framing);
        let ghost b = self.buffer@;
        let ghost d = delim@;
        proof {
            lemma_first_index_is_first(b.len() + 1int, |i: int| crate::text::occurs_at(b, d, i));
        }
        match find_chars(&self.buffer, &delim) {
            None => None,
            Some(k) => {
                proof {
                    assert(crate::text::occurs_at(b, d, k as int));
                }
                let n = self.buffer.len();
                let frame = slice_chars(&self.buffer, 0, k);
                let rest = slice_chars(&self.buffer, k + delim.len(), n);
                self.buffer = rest;
                Some(payload_of(self.framing, &frame))
            },
        }
    }

    /// Ends the reply: what the text left carries (see `final_payload`);
    /// the buffer is emptied.
    pub fn finish(&mut self) -> (r: Option<String>)
        ensures
            final(self)@ == (old(self)@.0, Seq::<char>::empty()),
            opt_text(r) == final_payload(old(self)@.0, old(self)@.1),
    {
        let mut rest: Vec<char> = Vec::new();
        std::mem::swap(&mut rest, &mut self.buffer);
        match self.framing {
            Framing::ServerSentEvents => payload_of(Framing::ServerSentEvents, &rest),
            Framing::JsonLines => if rest.len() > 0 {
                Some(string_of(&rest))
            } else {
                None
            },
        }
    }
}

/// A text without line breaks.
pub open spec fn single_line(x: Seq<char>) -> bool {
    forall|i: int| 0 <= i < x.len() ==> x[i] != '\n'
}

/// An event sent whole, `data: ` and a one-line text and a blank line, is
/// cut off first and read back as that text; what came after it is left.
pub proof fn lemma_event_read_back(x: Seq<char>, rest: Seq<char>)
    requires
        single_line(x),
    ensures
        ({
            let f = Framing::ServerSentEvents;
            let b = data_prefix() + x + delimiter(f) + rest;
            let k = first_occurrence(b, delimiter(f));
            &&& k == data_prefix().len() + x.len()
            &&& frame_payload(f, b.subrange(0, k)) == Some(x)
            &&& b.subrange(k + delimiter(f).len(), b.len() as int) == rest
        }),
{
    reveal_strlit("data: ");
    reveal_strlit("\n\n");
    let f = Framing::ServerSentEvents;
    let p = data_prefix();
    let d = delimiter(f);
    let b = p + x + d + rest;
    let k: int = p.len() + x.len() as int;
    let pred = |i: int| occurs_at(b, d, i);
    assert(b.subrange(k, k + d.len()) =~= d);
    assert(pred(k));
    assert forall|i: int| 0 <= i < k implies !#[trigger] pred(i) by {
        if i < p.len() {
            assert(b[i] == p[i]);
        } else {
            assert(b[i] == x[i - p.len()]);
        }
        if occurs_at(b, d, i) {
            assert(b.subrange(i, i + d.len())[0] == d[0]);
        }
    }
    lemma_first_index_found(b.len() + 1int, pred, k);
    let frame = b.subrange(0, k);
    assert(frame.subrange(0, p.len() as int) =~= p);
    assert(frame.subrange(p.len() as int, frame.len() as int) =~= x);
    assert(b.subrange(k + d.len(), b.len() as int) =~= rest);
}

/// A line sent whole, a one-line text and a line break, is cut off first
/// and read back as that text; what came after it is left.
pub proof fn lemma_line_read_back(x: Seq<char>, rest: Seq<char>)
    requires
        single_line(x),
    ensures
        ({
            let f = Framing::JsonLines;
            let b = x + delimiter(f) + rest;
            let k = first_occurrence(b, delimiter(f));
            &&& k == x.len()
            &&& frame_payload(f, b.subrange(0, k)) == Some(x)
            &&& b.subrange(k + delimiter(f).len(), b.len() as int) == rest
        }),
{
    reveal_strlit("\n");
    let f = Framing::JsonLines;
    let d = delimiter(f);
    let b = x + d + rest;
    let k = x.len() as int;
    let pred = |i: int| occurs_at(b, d, i);
    assert(b.subrange(k, k + d.len()) =~= d);
    assert(pred(k));
    assert forall|i: int| 0 <= i < k implies !#[trigger] pred(i) by {
        assert(b[i] == x[i]);
        if occurs_at(b, d, i) {
            assert(b.subrange(i, i + d.len())[0] == d[0]);
        }
    }
    lemma_first_index_found(b.len() + 1int, pred, k);
    assert(b.subrange(0, k) =~= x);
    assert(b.subrange(k + d.len(), b.len() as int) =~= rest);
}

/// What the `serde_json` crate finds in `payload`, parsed as JSON, at the
/// JSON pointer `pointer`, when that is a string: the string.
pub uninterp spec fn json_string_at(payload: Seq<char>, pointer: Seq<char>) -> Option<Seq<char>>;

/// Whether the `serde_json` crate finds an array in `payload`, parsed as
/// JSON, at the JSON pointer `pointer`.
pub uninterp spec fn json_array_at(payload: Seq<char>, pointer: Seq<char>) -> bool;

/// Parses `payload` with `serde_json::from_str` into a `serde_json::Value`,
/// looks `pointer` up with `Value::pointer` and reads the value found with
/// `Value::as_str`. The contract claims that the result is a function of
/// the payload and the pointer (`json_string_at`): nothing when the text is
/// no JSON, nothing is there, or what is there is no string.
#[verifier::external_body]
fn json_text_at(payload: &str, pointer: &str) -> (r: Option<String>)
    ensures
        opt_text(r) == json_string_at(payload@, pointer@),
{
    let value: serde_json::Value = serde_json::from_str(payload).ok()?;
    let text = value.pointer(pointer)?.as_str()?;
    Some(text.to_string())
}

/// Parses `payload` with `serde_json::from_str` into a `serde_json::Value`,
/// looks `pointer` up with `Value::pointer` and asks `Value::is_array` of
/// what is there. The contract claims that the answer is a function of the
/// payload and the pointer (`json_array_at`).
#[verifier::external_body]
fn json_is_array_at(payload: &str, pointer: &str) -> (r: bool)
    ensures
        r == json_array_at(payload@, pointer@),
{
    match serde_json::from_str::<serde_json::Value>(payload) {
        Ok(value) => match value.pointer(pointer) {
            Some(v) => v.is_array(),
            None => false,
        },
        Err(_) => false,
    }
}

/// The text that a streamed chunk carries. A server-sent event carries the
/// text of the first part of the first candidate's content (each of those
/// lists an array); a JSON line the content of its message. Empty text is
/// no text.
pub open spec fn chunk_text_of(f: Framing, payload: Seq<char>) -> Option<Seq<char>> {
    let found = match f {
        Framing::ServerSentEvents => if json_array_at(payload, "/candidates"@)
            && json_array_at(payload, "/candidates/0/content/parts"@) {
            json_string_at(payload, "/candidates/0/content/parts/0/text"@)
        } else {
            None
        },
        Framing::JsonLines => json_string_at(payload, "/message/content"@),
    };
    match found {
        Some(t) => if t.len() == 0 { None } else { Some(t) },
        None => None,
    }
}

/// The text that the JSON payload of one streamed frame carries, if any.
pub fn chunk_text(f: Framing, payload: &str) -> (r: Option<String>)
    ensures
        opt_text(r) == chunk_text_of(f, payload@),
{
    let found = match f {
        Framing::ServerSentEvents => {
            if json_is_array_at(payload, "/candidates") && json_is_array_at(payload, "/candidates/0/content/parts") {
                json_text_at(payload, "/candidates/0/content/parts/0/text")
            } else {
                None
            }
        },
        Framing::JsonLines => json_text_at(payload, "/message/content"),
    };
    match found {
        Some(t) => {
            if t.unicode_len() == 0 {
                None
            } else {
                Some(t)
            }
        },
        None => None,
    }
}

} // verus!
