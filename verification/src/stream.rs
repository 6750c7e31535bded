//! Recognising the texts of a streamed reply, one received line at a time.
//!
//! A line may be cut in the middle of a multi-byte character, or a chunk may
//! spread over several lines: bytes that cannot be recognised yet are kept
//! and retried together with the lines that follow.
use vstd::prelude::*;
use vstd::utf8::{decode_utf8, valid_utf8};
use crate::json::{is_json, json_accepts};
use crate::request_json::{chunk_content, ChatCompletionChunk};
use crate::text::{after_first, after_first_occurrence, occurs_at, remove_all, remove_occurrences, text_of, utf8_decode};

verus! {

/// The marker that precedes each event of the stream.
pub open spec fn data_marker() -> Seq<char> {
    seq!['d', 'a', 't', 'a', ':']
}

/// The marker as a string.
pub fn data_marker_str() -> (s: &'static str)
    ensures
        s@ == data_marker(),
{
    proof {
        reveal_strlit("data:");
    }
    "data:"
}

/// What the chunk parser `parse` may make of the event text `text`: the text
/// with every marker removed is handed to `parse`, and `out` is the content
/// of the first choice of the chunk that comes back (nothing when no chunk,
/// or a chunk without choices, comes back).
pub open spec fn decodes_to<F: Fn(String) -> Option<ChatCompletionChunk>>(
    parse: F,
    text: Seq<char>,
    out: Option<Seq<char>>,
) -> bool {
    exists|arg: String, chunk: Option<ChatCompletionChunk>|
        #![trigger call_ensures(parse, (arg,), chunk)]
        arg@ == remove_all(text, data_marker()) && call_ensures(parse, (arg,), chunk)
            && chunk_content(chunk) == out
}

/// The views of `s`, last element first.
pub open spec fn reversed_views(s: Seq<String>) -> Seq<Seq<char>> {
    Seq::new(s.len(), |i: int| s[s.len() - 1 - i]@)
}

/// Buffer and recognised texts after a line has been tried on its own:
/// a line that decodes and yields a text adds it and empties the buffer;
/// any other line is added to the buffer.
pub open spec fn after_line(
    buffered: Seq<u8>,
    ready: Seq<Seq<char>>,
    line: Seq<u8>,
    found: Option<Seq<char>>,
) -> (Seq<u8>, Seq<Seq<char>>) {
    if valid_utf8(line) && found is Some {
        (Seq::empty(), ready.push(found->0))
    } else {
        (buffered + line, ready)
    }
}

/// The text that the buffer is retried as: the buffer is retried when it is
/// not empty, decodes, and what follows its first marker is a JSON document.
pub open spec fn retry_text(buffered: Seq<u8>) -> Option<Seq<char>> {
    if buffered.len() > 0 && valid_utf8(buffered) && json_accepts(
        after_first(decode_utf8(buffered), data_marker()),
    ) {
        Some(decode_utf8(buffered))
    } else {
        None
    }
}

/// Buffer and recognised texts after the retry: a retried buffer is emptied
/// and adds the text it yields, if any; otherwise nothing changes.
pub open spec fn after_retry(
    buffered: Seq<u8>,
    ready: Seq<Seq<char>>,
    found: Option<Seq<char>>,
) -> (Seq<u8>, Seq<Seq<char>>) {
    if retry_text(buffered) is Some {
        (
            Seq::empty(),
            match found {
                Some(t) => ready.push(t),
                None => ready,
            },
        )
    } else {
        (buffered, ready)
    }
}

/// Buffer and recognised texts after a whole line has been taken, when the
/// line on its own yields `found1` and the retried buffer yields `found2`.
pub open spec fn line_result(
    b0: Seq<u8>,
    q0: Seq<Seq<char>>,
    line: Seq<u8>,
    found1: Option<Seq<char>>,
    found2: Option<Seq<char>>,
) -> (Seq<u8>, Seq<Seq<char>>) {
    let mid = after_line(b0, q0, line, found1);
    after_retry(mid.0, mid.1, found2)
}

/// How one line changes the buffer (`b0` to `b1`) and the recognised texts
/// (`q0` to `q1`), for some answers of `parse` to the texts handed to it.
pub open spec fn line_outcome<F: Fn(String) -> Option<ChatCompletionChunk>>(
    parse: F,
    b0: Seq<u8>,
    q0: Seq<Seq<char>>,
    line: Seq<u8>,
    b1: Seq<u8>,
    q1: Seq<Seq<char>>,
) -> bool {
    exists|found1: Option<Seq<char>>, found2: Option<Seq<char>>|
        #![trigger line_result(b0, q0, line, found1, found2)]
        {
            &&& valid_utf8(line) ==> decodes_to(parse, decode_utf8(line), found1)
            &&& (retry_text(after_line(b0, q0, line, found1).0) matches Some(t) ==> decodes_to(
                parse,
                t,
                found2,
            ))
            &&& line_result(b0, q0, line, found1, found2) == (b1, q1)
        }
}

/// The text that one event yields: the event with every marker removed is
/// handed to `parse`, and the first choice's content of the chunk it returns
/// is the text.
pub fn event_text<F: Fn(String) -> Option<ChatCompletionChunk>>(
    json_string: String,
    parse: &F,
) -> (r: Option<String>)
    requires
        forall|s: String| call_requires(*parse, (s,)),
    ensures
        decodes_to(*parse, json_string@, text_of(r)),
{
    let rp_string = remove_occurrences(json_string.as_str(), data_marker_str());
    let ghost arg = rp_string;
    let chunk = parse(rp_string);
    let r = match &chunk {
        Some(c) => c.first_content(),
        None => None,
    };
    assert(call_ensures(*parse, (arg,), chunk));
    assert(chunk_content(chunk) == text_of(r));
    r
}

/// What became of one line of a streamed reply.
pub enum LineOutcome {
    /// The line yielded this text, to be handed on.
    Deliver(String),
    /// The line yielded nothing and was added to the pending bytes.
    Kept,
}

/// One line of a streamed reply as the request loop takes it: a line that
/// decodes and yields a text empties the pending bytes and hands the text
/// on; any other line is added to the pending bytes.
pub fn handle_stream_line<F: Fn(String) -> Option<ChatCompletionChunk>>(
    fail_buf: &mut Vec<u8>,
    line_byte: &Vec<u8>,
    parse: &F,
) -> (r: LineOutcome)
    requires
        forall|s: String| call_requires(*parse, (s,)),
    ensures
        exists|found: Option<Seq<char>>|
            #![trigger after_line(old(fail_buf)@, Seq::empty(), line_byte@, found)]
            {
                &&& valid_utf8(line_byte@) ==> decodes_to(*parse, decode_utf8(line_byte@), found)
                &&& final(fail_buf)@ == after_line(old(fail_buf)@, Seq::empty(), line_byte@, found).0
                &&& match r {
                    LineOutcome::Deliver(s) => valid_utf8(line_byte@) && found == Some(s@),
                    LineOutcome::Kept => !(valid_utf8(line_byte@) && found is Some),
                }
            },
{
    let ghost mut found: Option<Seq<char>> = None;
    let r = match utf8_decode(line_byte.clone()) {
        Some(line_string) => {
            let got = event_text(line_string, parse);
            proof {
                found = text_of(got);
            }
            match got {
                Some(revice_content) => {
                    if fail_buf.len() > 0 {
                        fail_buf.clear();
                    }
                    assert(fail_buf@ =~= Seq::<u8>::empty());
                    LineOutcome::Deliver(revice_content)
                },
                None => {
                    let mut li_co = line_byte.clone();
                    fail_buf.append(&mut li_co);
                    LineOutcome::Kept
                },
            }
        },
        None => {
            let mut li_co = line_byte.clone();
            fail_buf.append(&mut li_co);
            LineOutcome::Kept
        },
    };
    assert(final(fail_buf)@ == after_line(old(fail_buf)@, Seq::empty(), line_byte@, found).0);
    r
}

/// The text of a byte sequence when it is UTF-8, and no text otherwise.
pub open spec fn text_or_empty(bytes: Seq<u8>) -> Seq<char> {
    if valid_utf8(bytes) {
        decode_utf8(bytes)
    } else {
        Seq::empty()
    }
}

/// A line break, as a string.
pub fn line_break_str() -> (s: &'static str)
    ensures
        s@ == seq!['\n'],
{
    proof {
        reveal_strlit("\n");
    }
    "\n"
}

/// What retrying the pending bytes `pending` may give: their text (none
/// when they are not UTF-8) without line breaks is handed to `parse`; `out`
/// is the content of the first choice of the chunk that comes back, and the
/// pending bytes become `after`: dropped when a chunk came back, kept
/// otherwise.
pub open spec fn retry_outcome<F: Fn(String) -> Option<ChatCompletionChunk>>(
    parse: F,
    pending: Seq<u8>,
    out: Option<Seq<char>>,
    after: Seq<u8>,
) -> bool {
    exists|arg: String, chunk: Option<ChatCompletionChunk>|
        #![trigger call_ensures(parse, (arg,), chunk)]
        {
            &&& arg@ == remove_all(text_or_empty(pending), seq!['\n'])
            &&& call_ensures(parse, (arg,), chunk)
            &&& out == chunk_content(chunk)
            &&& after == if chunk is Some {
                Seq::<u8>::empty()
            } else {
                pending
            }
        }
}

/// Retries the pending bytes of a streamed reply: their text (none when
/// they are not UTF-8) without line breaks is handed to `parse`; when a
/// chunk comes back the pending bytes are dropped, and the content of its
/// first choice, if any, is the answer.
pub fn try_exp_fail_buf<F: Fn(String) -> Option<ChatCompletionChunk>>(
    fail_buf: &mut Vec<u8>,
    parse: &F,
) -> (r: Option<String>)
    requires
        forall|s: String| call_requires(*parse, (s,)),
    ensures
        retry_outcome(*parse, old(fail_buf)@, text_of(r), final(fail_buf)@),
{
    let json_string = match utf8_decode(fail_buf.clone()) {
        Some(s) => s,
        None => String::new(),
    };
    let json_string = remove_occurrences(json_string.as_str(), line_break_str());
    let ghost arg = json_string;
    let chunk = parse(json_string);
    assert(call_ensures(*parse, (arg,), chunk));
    match chunk {
        Some(json_data) => {
            fail_buf.clear();
            json_data.first_content()
        },
        None => None,
    }
}

/// One line of a streamed reply, taken in full: a line that decodes and
/// yields a text empties the pending bytes and gives the text; any other
/// line is added to the pending bytes, which are then retried as
/// `try_exp_fail_buf` does.
pub fn stream_line_step<F: Fn(String) -> Option<ChatCompletionChunk>>(
    fail_buf: &mut Vec<u8>,
    line_byte: &Vec<u8>,
    parse: &F,
) -> (r: Option<String>)
    requires
        forall|s: String| call_requires(*parse, (s,)),
    ensures
        exists|found: Option<Seq<char>>|
            #![trigger after_line(old(fail_buf)@, Seq::empty(), line_byte@, found)]
            {
                &&& valid_utf8(line_byte@) ==> decodes_to(*parse, decode_utf8(line_byte@), found)
                &&& if valid_utf8(line_byte@) && found is Some {
                    text_of(r) == found && final(fail_buf)@ == Seq::<u8>::empty()
                } else {
                    retry_outcome(
                        *parse,
                        after_line(old(fail_buf)@, Seq::empty(), line_byte@, found).0,
                        text_of(r),
                        final(fail_buf)@,
                    )
                }
            },
{
    match handle_stream_line(fail_buf, line_byte, parse) {
        LineOutcome::Deliver(revice_content) => Some(revice_content),
        LineOutcome::Kept => try_exp_fail_buf(fail_buf, parse),
    }
}

/// The text handed to the chunk parser is the same with or without a
/// leading marker, and a leading `data: ` only adds the space.
pub proof fn lemma_leading_marker(s: Seq<char>)
    ensures
        remove_all(data_marker() + s, data_marker()) == remove_all(s, data_marker()),
        remove_all(data_marker() + seq![' '] + s, data_marker()) == seq![' '] + remove_all(
            s,
            data_marker(),
        ),
{
    let m = data_marker();
    assert((m + s).subrange(0, m.len() as int) =~= m);
    assert((m + s).skip(m.len() as int) =~= s);
    let t = m + seq![' '] + s;
    assert(t.subrange(0, m.len() as int) =~= m);
    assert(t.skip(m.len() as int) =~= seq![' '] + s);
    let u = seq![' '] + s;
    assert(!occurs_at(u, 0, m)) by {
        if u.len() >= m.len() {
            assert(u.subrange(0, m.len() as int)[0] == ' ');
        }
    }
    assert(u.skip(1) =~= s);
    assert(remove_all(u, m) == seq![u[0]] + remove_all(u.skip(1), m));
    assert(remove_all(t, m) == remove_all(t.skip(m.len() as int), m));
}

/// A leading marker does not change what an event yields: whatever `parse`
/// may make of `s`, it may make of `s` with a marker in front, and the
/// other way round.
pub proof fn lemma_marker_prefix_same_text<F: Fn(String) -> Option<ChatCompletionChunk>>(
    parse: F,
    s: Seq<char>,
    out: Option<Seq<char>>,
)
    ensures
        decodes_to(parse, data_marker() + s, out) == decodes_to(parse, s, out),
{
    lemma_leading_marker(s);
}

/// Bytes that cannot be recognised yet stay kept: when the line yields no
/// text on its own (or is no UTF-8), and the kept bytes with the line decode
/// but what follows their first marker is no JSON document, the line is
/// added to the kept bytes and no text is added.
pub proof fn lemma_incomplete_kept<F: Fn(String) -> Option<ChatCompletionChunk>>(
    parse: F,
    b0: Seq<u8>,
    q0: Seq<Seq<char>>,
    line: Seq<u8>,
    b1: Seq<u8>,
    q1: Seq<Seq<char>>,
)
    requires
        line_outcome(parse, b0, q0, line, b1, q1),
        valid_utf8(line) ==> forall|out: Option<Seq<char>>|
            decodes_to(parse, decode_utf8(line), out) ==> out is None,
        valid_utf8(b0 + line),
        !json_accepts(after_first(decode_utf8(b0 + line), data_marker())),
    ensures
        b1 == b0 + line,
        q1 == q0,
{
    let (found1, found2) = choose|found1: Option<Seq<char>>, found2: Option<Seq<char>>|
        {
            &&& valid_utf8(line) ==> decodes_to(parse, decode_utf8(line), found1)
            &&& (retry_text(after_line(b0, q0, line, found1).0) matches Some(t) ==> decodes_to(
                parse,
                t,
                found2,
            ))
            &&& #[trigger] line_result(b0, q0, line, found1, found2) == (b1, q1)
        };
    assert(!(valid_utf8(line) && found1 is Some));
    assert(after_line(b0, q0, line, found1) == (b0 + line, q0));
    assert(retry_text(b0 + line) is None);
}

/// Retrying pending bytes for which the parser gives back no chunk keeps
/// them unchanged and yields nothing; when it gives back a chunk, they are
/// dropped. This holds whatever their length.
pub proof fn lemma_retry_keeps_unparsed<F: Fn(String) -> Option<ChatCompletionChunk>>(
    parse: F,
    pending: Seq<u8>,
    out: Option<Seq<char>>,
    after: Seq<u8>,
)
    requires
        retry_outcome(parse, pending, out, after),
    ensures
        (forall|arg: String, c: Option<ChatCompletionChunk>|
            arg@ == remove_all(text_or_empty(pending), seq!['\n']) && call_ensures(parse, (arg,), c)
                ==> c is None) ==> after == pending && out is None,
        (forall|arg: String, c: Option<ChatCompletionChunk>|
            arg@ == remove_all(text_or_empty(pending), seq!['\n']) && call_ensures(parse, (arg,), c)
                ==> c is Some) ==> after == Seq::<u8>::empty(),
{
    let (arg, chunk) = choose|arg: String, chunk: Option<ChatCompletionChunk>|
        {
            &&& arg@ == remove_all(text_or_empty(pending), seq!['\n'])
            &&& #[trigger] call_ensures(parse, (arg,), chunk)
            &&& out == chunk_content(chunk)
            &&& after == if chunk is Some {
                Seq::<u8>::empty()
            } else {
                pending
            }
        };
}

/// In the request loop, a line that yields no text on its own is kept
/// after the pending bytes, and when their retry gives back no chunk the
/// line and the bytes before it all stay pending and nothing is handed on.
pub proof fn lemma_step_keeps_unparsed<F: Fn(String) -> Option<ChatCompletionChunk>>(
    parse: F,
    old_pending: Seq<u8>,
    line: Seq<u8>,
    r: Option<Seq<char>>,
    new_pending: Seq<u8>,
)
    requires
        exists|found: Option<Seq<char>>|
            #![trigger after_line(old_pending, Seq::empty(), line, found)]
            {
                &&& valid_utf8(line) ==> decodes_to(parse, decode_utf8(line), found)
                &&& if valid_utf8(line) && found is Some {
                    r == found && new_pending == Seq::<u8>::empty()
                } else {
                    retry_outcome(
                        parse,
                        after_line(old_pending, Seq::empty(), line, found).0,
                        r,
                        new_pending,
                    )
                }
            },
        valid_utf8(line) ==> forall|out: Option<Seq<char>>|
            decodes_to(parse, decode_utf8(line), out) ==> out is None,
        forall|arg: String, c: Option<ChatCompletionChunk>|
            arg@ == remove_all(text_or_empty(old_pending + line), seq!['\n']) && call_ensures(
                parse,
                (arg,),
                c,
            ) ==> c is None,
    ensures
        new_pending == old_pending + line,
        r is None,
{
    let found = choose|found: Option<Seq<char>>|
        {
            &&& valid_utf8(line) ==> decodes_to(parse, decode_utf8(line), found)
            &&& if valid_utf8(line) && found is Some {
                r == found && new_pending == Seq::<u8>::empty()
            } else {
                retry_outcome(
                    parse,
                    #[trigger] after_line(old_pending, Seq::empty(), line, found).0,
                    r,
                    new_pending,
                )
            }
        };
    assert(!(valid_utf8(line) && found is Some));
    assert(after_line(old_pending, Seq::empty(), line, found).0 == old_pending + line);
    lemma_retry_keeps_unparsed(parse, old_pending + line, r, new_pending);
}

/// A line that, on its own, yields the text `t` whatever `parse` answers,
/// hands `t` on after the texts recognised before it, and leaves no bytes
/// pending.
pub proof fn lemma_clean_line<F: Fn(String) -> Option<ChatCompletionChunk>>(
    parse: F,
    b0: Seq<u8>,
    q0: Seq<Seq<char>>,
    line: Seq<u8>,
    b1: Seq<u8>,
    q1: Seq<Seq<char>>,
    t: Seq<char>,
)
    requires
        line_outcome(parse, b0, q0, line, b1, q1),
        valid_utf8(line),
        forall|out: Option<Seq<char>>| decodes_to(parse, decode_utf8(line), out) ==> out == Some(t),
    ensures
        b1 == Seq::<u8>::empty(),
        q1 == q0.push(t),
{
    let (found1, found2) = choose|found1: Option<Seq<char>>, found2: Option<Seq<char>>|
        {
            &&& valid_utf8(line) ==> decodes_to(parse, decode_utf8(line), found1)
            &&& (retry_text(after_line(b0, q0, line, found1).0) matches Some(t) ==> decodes_to(
                parse,
                t,
                found2,
            ))
            &&& #[trigger] line_result(b0, q0, line, found1, found2) == (b1, q1)
        };
    assert(found1 == Some(t));
    assert(retry_text(Seq::<u8>::empty()) is None);
}

/// A character cut in two by the line break is recovered: when neither half
/// is UTF-8 on its own, the first half is kept, and with the second half
/// the kept bytes decode; when what follows their first marker is JSON and
/// they yield the text `t` whatever `parse` answers, `t` is handed on after
/// the texts recognised before, and no bytes stay pending.
pub proof fn lemma_split_character_recovered<F: Fn(String) -> Option<ChatCompletionChunk>>(
    parse: F,
    q0: Seq<Seq<char>>,
    first: Seq<u8>,
    b1: Seq<u8>,
    q1: Seq<Seq<char>>,
    second: Seq<u8>,
    b2: Seq<u8>,
    q2: Seq<Seq<char>>,
    t: Seq<char>,
)
    requires
        line_outcome(parse, Seq::empty(), q0, first, b1, q1),
        line_outcome(parse, b1, q1, second, b2, q2),
        !valid_utf8(first),
        !valid_utf8(second),
        valid_utf8(first + second),
        json_accepts(after_first(decode_utf8(first + second), data_marker())),
        forall|out: Option<Seq<char>>|
            decodes_to(parse, decode_utf8(first + second), out) ==> out == Some(t),
    ensures
        b1 == first,
        q1 == q0,
        b2 == Seq::<u8>::empty(),
        q2 == q0.push(t),
{
    let (f1, f2) = choose|found1: Option<Seq<char>>, found2: Option<Seq<char>>|
        {
            &&& valid_utf8(first) ==> decodes_to(parse, decode_utf8(first), found1)
            &&& (retry_text(after_line(Seq::empty(), q0, first, found1).0) matches Some(t)
                ==> decodes_to(parse, t, found2))
            &&& #[trigger] line_result(Seq::empty(), q0, first, found1, found2) == (b1, q1)
        };
    assert(Seq::<u8>::empty() + first =~= first);
    assert(b1 == first && q1 == q0);
    let (g1, g2) = choose|found1: Option<Seq<char>>, found2: Option<Seq<char>>|
        {
            &&& valid_utf8(second) ==> decodes_to(parse, decode_utf8(second), found1)
            &&& (retry_text(after_line(b1, q1, second, found1).0) matches Some(t) ==> decodes_to(
                parse,
                t,
                found2,
            ))
            &&& #[trigger] line_result(b1, q1, second, found1, found2) == (b2, q2)
        };
    assert(first.len() > 0);
    assert(retry_text(first + second) == Some(decode_utf8(first + second)));
    assert(g2 == Some(t));
}

/// Recognises the texts of a streamed reply from its lines.
pub struct stream_data_slover {
    in_buf: Vec<u8>,
    out_buf: Vec<String>,
}

impl stream_data_slover {
    /// The bytes received and not yet recognised.
    pub closed spec fn buffered(&self) -> Seq<u8> {
        self.in_buf@
    }

    /// The recognised texts not yet taken, the oldest first.
    pub closed spec fn ready(&self) -> Seq<Seq<char>> {
        reversed_views(self.out_buf@)
    }

    /// An empty recogniser.
    pub fn new() -> (r: Self)
        ensures
            r.buffered() == Seq::<u8>::empty(),
            r.ready() == Seq::<Seq<char>>::empty(),
    {
        let r = Self { in_buf: Vec::new(), out_buf: Vec::new() };
        assert(r.ready() =~= Seq::<Seq<char>>::empty());
        r
    }

    /// The text that one event yields: the event with every marker removed
    /// is handed to `parse`, and the first choice's content of the chunk it
    /// returns is the text.
    pub fn try_conver_json<F: Fn(String) -> Option<ChatCompletionChunk>>(
        &self,
        json_string: String,
        parse: &F,
    ) -> (r: Option<String>)
        requires
            forall|s: String| call_requires(*parse, (s,)),
        ensures
            decodes_to(*parse, json_string@, text_of(r)),
    {
        event_text(json_string, parse)
    }

    proof fn lemma_insert_front(s: Seq<String>, x: String)
        ensures
            reversed_views(s.insert(0, x)) == reversed_views(s).push(x@),
    {
        assert(reversed_views(s.insert(0, x)) =~= reversed_views(s).push(x@));
    }

    /// Takes one received line: the line is recognised on its own when it
    /// can be; otherwise it is kept, and the kept bytes are retried as a
    /// whole once they form a JSON document after their first marker.
    pub fn add_byte_line<F: Fn(String) -> Option<ChatCompletionChunk>>(
        &mut self,
        bytes_line: &Vec<u8>,
        parse: &F,
    )
        requires
            forall|s: String| call_requires(*parse, (s,)),
        ensures
            line_outcome(
                *parse,
                old(self).buffered(),
                old(self).ready(),
                bytes_line@,
                final(self).buffered(),
                final(self).ready(),
            ),
    {
        let ghost b0 = self.buffered();
        let ghost q0 = self.ready();
        let ghost mut found1: Option<Seq<char>> = None;
        match utf8_decode(bytes_line.clone()) {
            Some(line_string) => {
                let r = self.try_conver_json(line_string, parse);
                proof {
                    found1 = text_of(r);
                }
                match r {
                    Some(out_string) => {
                        proof {
                            Self::lemma_insert_front(self.out_buf@, out_string);
                        }
                        self.out_buf.insert(0, out_string);
                        if self.in_buf.len() > 0 {
                            self.in_buf.clear();
                        }
                        assert(self.in_buf@ =~= Seq::<u8>::empty());
                    },
                    None => {
                        let mut copy = bytes_line.clone();
                        self.in_buf.append(&mut copy);
                    },
                }
            },
            None => {
                let mut copy = bytes_line.clone();
                self.in_buf.append(&mut copy);
            },
        }
        let ghost mid = after_line(b0, q0, bytes_line@, found1);
        assert(self.buffered() == mid.0 && self.ready() == mid.1);
        let ghost mut found2: Option<Seq<char>> = None;
        if self.in_buf.len() > 0 {
            if let Some(json_string) = utf8_decode(self.in_buf.clone()) {
                let tail = after_first_occurrence(json_string.as_str(), data_marker_str());
                if is_json(tail.as_str()) {
                    let r = self.try_conver_json(json_string, parse);
                    proof {
                        found2 = text_of(r);
                    }
                    if let Some(out_string) = r {
                        proof {
                            Self::lemma_insert_front(self.out_buf@, out_string);
                        }
                        self.out_buf.insert(0, out_string);
                    }
                    self.in_buf.clear();
                }
            }
        }
        assert(line_result(b0, q0, bytes_line@, found1, found2) == (self.buffered(), self.ready()));
    }

    /// Takes the oldest recognised text, if there is one.
    pub fn pop_slover_line(&mut self) -> (r: Option<String>)
        ensures
            final(self).buffered() == old(self).buffered(),
            old(self).ready().len() == 0 ==> r is None && final(self).ready() == old(self).ready(),
            old(self).ready().len() > 0 ==> (r matches Some(s) && s@ == old(self).ready()[0]
                && final(self).ready() == old(self).ready().drop_first()),
    {
        let r = self.out_buf.pop();
        assert(self.ready() =~= old(self).ready().drop_first() || old(self).ready().len() == 0);
        r
    }
}

} // verus!
