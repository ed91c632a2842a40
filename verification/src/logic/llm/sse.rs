//! Server-Sent Events framing.
//!
//! Bytes arrive in arbitrary chunks. A frame ends at a newline whose nearest
//! preceding byte other than `\r` is also a newline (`\n\n`, `\r\n\r\n`, ...).
//! Each complete frame is decoded as UTF-8 and read line by line: `event:`
//! names the event (the last one wins), every `data:` line adds a data line,
//! lines starting with `:` are comments, other fields are ignored. A frame
//! that names an event or carries data becomes one [`SseEvent`], its data
//! lines joined by `\n`. Bytes after the last complete frame wait for more.

use vstd::prelude::*;
use vstd::utf8::*;

use crate::text::{split_newlines, chars_of, join_lines, join_strings, count_before, find_char_in, lemma_count_before, push_char, range_eq,
    string_of_range, strings_view, trim, trim_bounds};

verus! {

/// One parsed event.
#[derive(Debug, Clone, PartialEq, Eq)]
pub struct SseEvent {
    pub event: Option<String>,
    pub data: String,
}

/// What an [`SseEvent`] holds.
pub struct SseEventSpec {
    pub event: Option<Seq<char>>,
    pub data: Seq<char>,
}

impl View for SseEvent {
    type V = SseEventSpec;

    open spec fn view(&self) -> SseEventSpec {
        SseEventSpec {
            event: match self.event {
                Some(e) => Some(e@),
                None => None,
            },
            data: self.data@,
        }
    }
}

pub open spec fn events_view(s: Seq<SseEvent>) -> Seq<SseEventSpec> {
    s.map_values(|e: SseEvent| e@)
}

pub open spec fn LF() -> u8 {
    10u8
}

pub open spec fn CR() -> u8 {
    13u8
}

/// The nearest byte before `i` that is not `\r` exists and is `\n`.
pub open spec fn blank_before(s: Seq<u8>, i: int) -> bool {
    exists|p: int| 0 <= p < i && s[p] == LF() && forall|q: int| p < q < i ==> #[trigger] s[q] == CR()
}

/// Byte `i` is a newline that closes a frame.
pub open spec fn closes_frame(s: Seq<u8>, i: int) -> bool {
    0 <= i < s.len() && s[i] == LF() && blank_before(s, i)
}

/// The first newline at or after `i` that closes a frame, if any.
pub open spec fn first_close_from(s: Seq<u8>, i: int) -> Option<int>
    decreases s.len() - i,
{
    if i < 0 || i >= s.len() {
        None
    } else if closes_frame(s, i) {
        Some(i)
    } else {
        first_close_from(s, i + 1)
    }
}

/// The index of the first newline that closes a frame, if any.
pub open spec fn frame_close(s: Seq<u8>) -> Option<int> {
    first_close_from(s, 0)
}

pub proof fn lemma_first_close_from(s: Seq<u8>, i: int)
    requires
        0 <= i,
    ensures
        match first_close_from(s, i) {
            Some(k) => i <= k < s.len() && closes_frame(s, k) && forall|j: int|
                i <= j < k ==> !closes_frame(s, j),
            None => forall|j: int| i <= j < s.len() ==> !closes_frame(s, j),
        },
    decreases s.len() - i,
{
    if i < s.len() && !closes_frame(s, i) {
        lemma_first_close_from(s, i + 1);
    }
}

proof fn lemma_blank_before_step(s: Seq<u8>, i: int)
    requires
        0 <= i < s.len(),
    ensures
        s[i] == LF() ==> blank_before(s, i + 1),
        s[i] == CR() ==> (blank_before(s, i + 1) == blank_before(s, i)),
        s[i] != LF() && s[i] != CR() ==> !blank_before(s, i + 1),
{
    if s[i] == LF() {
        assert forall|q: int| i < q < i + 1 implies #[trigger] s[q] == CR() by {}
    } else if s[i] == CR() {
        if blank_before(s, i + 1) {
            let p = choose|p: int|
                0 <= p < i + 1 && s[p] == LF() && forall|q: int| p < q < i + 1 ==> #[trigger] s[q] == CR();
            assert(p != i);
            assert forall|q: int| p < q < i implies #[trigger] s[q] == CR() by {}
        }
        if blank_before(s, i) {
            let p = choose|p: int|
                0 <= p < i && s[p] == LF() && forall|q: int| p < q < i ==> #[trigger] s[q] == CR();
            assert forall|q: int| p < q < i + 1 implies #[trigger] s[q] == CR() by {}
        }
    } else {
        if blank_before(s, i + 1) {
            let p = choose|p: int|
                0 <= p < i + 1 && s[p] == LF() && forall|q: int| p < q < i + 1 ==> #[trigger] s[q] == CR();
            assert(p != i);
            assert(s[i] == CR());
        }
    }
}

proof fn lemma_frame_close_first(s: Seq<u8>, i: int)
    requires
        closes_frame(s, i),
        forall|j: int| 0 <= j < i ==> !closes_frame(s, j),
    ensures
        frame_close(s) == Some(i),
{
    lemma_first_close_from(s, 0);
}

/// Position just before the end of the first frame: one less than the index
/// of the newline that closes it.
pub fn find_double_newline(buf: &[u8]) -> (r: Option<usize>)
    ensures
        match r {
            Some(x) => frame_close(buf@) == Some(x + 1) && x + 2 <= buf@.len() && x + 2 <= buf.len(),
            None => frame_close(buf@) is None,
        },
{
    let n = buf.len();
    let mut prev_blank = false;
    let mut i: usize = 0;
    while i < n
        invariant
            n == buf@.len(),
            i <= n,
            prev_blank == blank_before(buf@, i as int),
            forall|j: int| 0 <= j < i ==> !closes_frame(buf@, j),
        decreases n - i,
    {
        let b = buf[i];
        proof {
            lemma_blank_before_step(buf@, i as int);
        }
        if b == 10 {
            if prev_blank {
                proof {
                    lemma_frame_close_first(buf@, i as int);
                    let p = choose|p: int|
                        0 <= p < i && buf@[p] == LF() && forall|q: int|
                            p < q < i ==> #[trigger] buf@[q] == CR();
                }
                return Some(i - 1);
            }
            prev_blank = true;
        } else if b == 13 {
        } else {
            prev_blank = false;
        }
        i += 1;
    }
    proof {
        lemma_first_close_from(buf@, 0);
    }
    None
}

/// Fields gathered from the lines of one frame so far.
pub struct FrameFields {
    pub event: Option<Seq<char>>,
    pub data: Seq<Seq<char>>,
}

/// `l` without one trailing `\r`.
pub open spec fn strip_cr(l: Seq<char>) -> Seq<char> {
    if l.len() > 0 && l.last() == '\r' {
        l.drop_last()
    } else {
        l
    }
}

/// `v` without one leading space.
pub open spec fn strip_space(v: Seq<char>) -> Seq<char> {
    if v.len() > 0 && v[0] == ' ' {
        v.drop_first()
    } else {
        v
    }
}

/// The field name of a non-empty, non-comment line: the trimmed text before
/// the first `:`, or the whole line when it has none.
pub open spec fn field_of(l: Seq<char>) -> Seq<char> {
    let c = count_before(l, ':') as int;
    if c < l.len() {
        trim(l.take(c))
    } else {
        l
    }
}

/// The value of a line: the text after the first `:`, less one leading space.
pub open spec fn value_of(l: Seq<char>) -> Seq<char> {
    let c = count_before(l, ':') as int;
    if c < l.len() {
        strip_space(l.skip(c + 1))
    } else {
        Seq::empty()
    }
}

/// The effect of one line of a frame.
pub open spec fn apply_line(st: FrameFields, raw: Seq<char>) -> FrameFields {
    let l = strip_cr(raw);
    if l.len() == 0 || l[0] == ':' {
        st
    } else if field_of(l) == "event"@ {
        FrameFields { event: Some(value_of(l)), data: st.data }
    } else if field_of(l) == "data"@ {
        FrameFields { event: st.event, data: st.data.push(value_of(l)) }
    } else {
        st
    }
}

/// The effect of all `\n`-separated lines of `s`.
pub open spec fn apply_lines(st: FrameFields, s: Seq<char>) -> FrameFields
    decreases s.len(),
{
    let k = count_before(s, '\n') as int;
    if k < s.len() {
        apply_lines(apply_line(st, s.take(k)), s.skip(k + 1))
    } else {
        apply_line(st, s)
    }
}

/// The event that the text of one frame describes, if it describes one.
pub open spec fn frame_event(text: Seq<char>) -> Option<SseEventSpec> {
    let f = apply_lines(FrameFields { event: None, data: Seq::empty() }, text);
    if f.data.len() > 0 || f.event is Some {
        Some(SseEventSpec { event: f.event, data: join_lines(f.data) })
    } else {
        None
    }
}

/// The outcome of reading all complete frames from a buffer.
pub struct Drained {
    pub events: Seq<SseEventSpec>,
    pub rest: Seq<u8>,
    pub invalid_utf8: bool,
}

/// Read every complete frame of `s`: the events, the bytes left over, and
/// whether reading stopped at a frame that is not valid UTF-8.
pub open spec fn drain(s: Seq<u8>) -> Drained
    decreases s.len(),
{
    match frame_close(s) {
        None => Drained { events: Seq::empty(), rest: s, invalid_utf8: false },
        Some(i) => {
            proof {
                lemma_first_close_from(s, 0);
            }
            let frame = s.take(i + 1);
            if !valid_utf8(frame) {
                Drained { events: Seq::empty(), rest: s.skip(i + 1), invalid_utf8: true }
            } else {
                let tail = drain(s.skip(i + 1));
                let first = match frame_event(decode_utf8(frame)) {
                    Some(e) => seq![e],
                    None => Seq::empty(),
                };
                Drained { events: first + tail.events, rest: tail.rest, invalid_utf8: tail.invalid_utf8 }
            }
        },
    }
}

/// `std::str::from_utf8`, owned: the text that `bytes` encode, or `None`
/// when they are not valid UTF-8.
#[verifier::external_body]
fn utf8_to_string(bytes: &[u8]) -> (r: Option<String>)
    ensures
        r is Some <==> valid_utf8(bytes@),
        r matches Some(s) ==> s@ == decode_utf8(bytes@),
{
    std::str::from_utf8(bytes).ok().map(|s| s.to_owned())
}


pub open spec fn opt_string_view(o: Option<String>) -> Option<Seq<char>> {
    match o {
        Some(s) => Some(s@),
        None => None,
    }
}

/// Apply the line `cs[a..b]` to the fields gathered so far.
fn apply_line_exec(
    cs: &Vec<char>,
    a: usize,
    b: usize,
    event: &mut Option<String>,
    data: &mut Vec<String>,
)
    requires
        a <= b <= cs@.len(),
    ensures
        (FrameFields { event: opt_string_view(*final(event)), data: strings_view(final(data)@) })
            == apply_line(
            FrameFields { event: opt_string_view(*old(event)), data: strings_view(old(data)@) },
            cs@.subrange(a as int, b as int),
        ),
{
    let ghost raw = cs@.subrange(a as int, b as int);
    let mut e = b;
    if e > a && cs[e - 1] == '\r' {
        e = e - 1;
        assert(raw.drop_last() =~= cs@.subrange(a as int, e as int));
    } else {
        assert(raw =~= cs@.subrange(a as int, e as int));
    }
    let ghost l = cs@.subrange(a as int, e as int);
    assert(strip_cr(raw) == l);
    if a == e || cs[a] == ':' {
        return;
    }
    let c = find_char_in(cs, a, e, ':');
    let (fa, fb, va) = if c < e {
        let (x, y) = trim_bounds(cs, a, c);
        assert(l.take(c - a) =~= cs@.subrange(a as int, c as int));
        let mut v = c + 1;
        if v < e && cs[v] == ' ' {
            v = v + 1;
            assert(l.skip(c - a + 1).drop_first() =~= cs@.subrange(v as int, e as int));
        } else {
            assert(l.skip(c - a + 1) =~= cs@.subrange(v as int, e as int));
        }
        (x, y, v)
    } else {
        (a, e, e)
    };
    assert(cs@.subrange(fa as int, fb as int) == field_of(l));
    assert(cs@.subrange(va as int, e as int) =~= value_of(l));
    if range_eq(cs, fa, fb, "event") {
        *event = Some(string_of_range(cs, va, e));
    } else if range_eq(cs, fa, fb, "data") {
        let v = string_of_range(cs, va, e);
        let ghost before = data@;
        data.push(v);
        assert(strings_view(data@) =~= strings_view(before).push(v@));
    }
}

proof fn lemma_apply_lines_step(st: FrameFields, s: Seq<char>, start: int, k: int)
    requires
        0 <= start <= k <= s.len(),
        count_before(s.skip(start), '\n') == k - start,
    ensures
        k < s.len() ==> apply_lines(st, s.skip(start)) == apply_lines(
            apply_line(st, s.subrange(start, k)),
            s.skip(k + 1),
        ),
        k == s.len() ==> apply_lines(st, s.skip(start)) == apply_line(st, s.subrange(start, k)),
{
    let t = s.skip(start);
    if k < s.len() {
        assert(t.take(k - start) =~= s.subrange(start, k));
        assert(t.skip(k - start + 1) =~= s.skip(k + 1));
    } else {
        assert(t =~= s.subrange(start, k));
    }
}

/// The event that the text `cs` of one frame describes, if it describes one.
pub fn frame_event_of(cs: &Vec<char>) -> (r: Option<SseEvent>)
    ensures
        match r {
            Some(e) => frame_event(cs@) == Some(e@),
            None => frame_event(cs@) is None,
        },
{
    let n = cs.len();
    let mut event: Option<String> = None;
    let mut data: Vec<String> = Vec::new();
    let mut start: usize = 0;
    let ghost init = FrameFields { event: None, data: Seq::empty() };
    assert(cs@.skip(0) =~= cs@);
    assert(strings_view(data@) =~= Seq::<Seq<char>>::empty());
    loop
        invariant_except_break
            start <= n,
            apply_lines(init, cs@) == apply_lines(
                FrameFields { event: opt_string_view(event), data: strings_view(data@) },
                cs@.skip(start as int),
            ),
        invariant
            n == cs@.len(),
        ensures
            apply_lines(init, cs@) == (FrameFields {
                event: opt_string_view(event),
                data: strings_view(data@),
            }),
        decreases n - start,
    {
        let k = find_char_in(cs, start, n, '\n');
        assert(cs@.subrange(start as int, n as int) =~= cs@.skip(start as int));
        let ghost st = FrameFields { event: opt_string_view(event), data: strings_view(data@) };
        proof {
            lemma_apply_lines_step(st, cs@, start as int, k as int);
        }
        apply_line_exec(cs, start, k, &mut event, &mut data);
        if k < n {
            start = k + 1;
        } else {
            break;
        }
    }
    if data.len() > 0 || event.is_some() {
        let joined = join_strings(&data);
        Some(SseEvent { event, data: joined })
    } else {
        None
    }
}

/// An SSE reader that keeps the bytes of an incomplete frame between chunks.
pub struct SseParser {
    buf: Vec<u8>,
}

/// The events read from one chunk, and whether a frame was not valid UTF-8
/// (after which the stream is broken).
pub struct SseBatch {
    pub events: Vec<SseEvent>,
    pub invalid_utf8: bool,
}

impl View for SseParser {
    type V = Seq<u8>;

    closed spec fn view(&self) -> Seq<u8> {
        self.buf@
    }
}

impl SseParser {
    pub fn new() -> (r: SseParser)
        ensures
            r@ == Seq::<u8>::empty(),
    {
        SseParser { buf: Vec::new() }
    }

    /// Feed one chunk; returns the events of the frames it completes.
    pub fn push(&mut self, chunk: &[u8]) -> (r: SseBatch)
        ensures
            events_view(r.events@) == drain(old(self)@ + chunk@).events,
            r.invalid_utf8 == drain(old(self)@ + chunk@).invalid_utf8,
            final(self)@ == drain(old(self)@ + chunk@).rest,
    {
        let ghost total = self.buf@ + chunk@;
        let mut k: usize = 0;
        let ghost start_buf = self.buf@;
        while k < chunk.len()
            invariant
                k <= chunk@.len(),
                self.buf@ == start_buf + chunk@.take(k as int),
            decreases chunk@.len() - k,
        {
            self.buf.push(chunk[k]);
            k += 1;
            assert(self.buf@ =~= start_buf + chunk@.take(k as int));
        }
        assert(chunk@.take(chunk@.len() as int) =~= chunk@);
        let mut events: Vec<SseEvent> = Vec::new();
        assert(events_view(events@) + drain(self.buf@).events =~= drain(self.buf@).events);
        loop
            invariant
                total == old(self)@ + chunk@,
                drain(total).events == events_view(events@) + drain(self.buf@).events,
                drain(total).rest == drain(self.buf@).rest,
                drain(total).invalid_utf8 == drain(self.buf@).invalid_utf8,
            ensures
                events_view(events@) == drain(total).events,
                self.buf@ == drain(total).rest,
                !drain(total).invalid_utf8,
            decreases self.buf@.len(),
        {
            let ghost s = self.buf@;
            proof {
                lemma_first_close_from(s, 0);
            }
            match find_double_newline(self.buf.as_slice()) {
                None => {
                    assert(events_view(events@) + drain(s).events =~= events_view(events@));
                    break;
                },
                Some(idx) => {
                    let mut frame = self.buf.split_off(idx + 2);
                    std::mem::swap(&mut frame, &mut self.buf);
                    assert(frame@ == s.take(idx + 2));
                    assert(self.buf@ == s.skip(idx + 2));
                    match utf8_to_string(frame.as_slice()) {
                        None => {
                            assert(!valid_utf8(s.take(idx + 2)));
                            assert(events_view(events@) + drain(s).events =~= events_view(events@));
                            return SseBatch { events, invalid_utf8: true };
                        },
                        Some(text) => {
                            let cs = chars_of(text.as_str());
                            match frame_event_of(&cs) {
                                Some(ev) => {
                                    let ghost before = events@;
                                    events.push(ev);
                                    assert(events_view(events@) =~= events_view(before).push(ev@));
                                    assert(events_view(events@) + drain(self.buf@).events =~= events_view(before) + (seq![ev@] + drain(self.buf@).events));
                                },
                                None => {
                                    assert(drain(s).events =~= drain(self.buf@).events);
                                },
                            }
                        },
                    }
                },
            }
        }
        SseBatch { events, invalid_utf8: false }
    }
}

proof fn lemma_closes_prefix(a: Seq<u8>, b: Seq<u8>, j: int)
    requires
        0 <= j < a.len(),
    ensures
        closes_frame(a + b, j) == closes_frame(a, j),
{
    let s = a + b;
    assert(s[j] == a[j]);
    if blank_before(a, j) {
        let p = choose|p: int| 0 <= p < j && a[p] == LF() && forall|q: int| p < q < j ==> #[trigger] a[q] == CR();
        assert(s[p] == a[p]);
        assert forall|q: int| p < q < j implies #[trigger] s[q] == CR() by {
            assert(s[q] == a[q]);
        }
    }
    if blank_before(s, j) {
        let p = choose|p: int| 0 <= p < j && s[p] == LF() && forall|q: int| p < q < j ==> #[trigger] s[q] == CR();
        assert(s[p] == a[p]);
        assert forall|q: int| p < q < j implies #[trigger] a[q] == CR() by {
            assert(s[q] == a[q]);
        }
    }
}

proof fn lemma_frame_close_prefix(a: Seq<u8>, b: Seq<u8>)
    ensures
        frame_close(a) matches Some(i) ==> frame_close(a + b) == Some(i),
{
    lemma_first_close_from(a, 0);
    if let Some(i) = frame_close(a) {
        lemma_closes_prefix(a, b, i);
        assert forall|j: int| 0 <= j < i implies !closes_frame(a + b, j) by {
            lemma_closes_prefix(a, b, j);
        }
        lemma_frame_close_first(a + b, i);
    }
}

/// Reading a stream in two chunks gives what reading it whole gives: the
/// events of the first chunk, then those of what was left over followed by
/// the second chunk. So how the bytes are split into chunks never changes
/// the events. Where the first chunk already ends at a frame that is not
/// valid UTF-8, reading the whole stops at that same frame, with the same
/// events.
pub proof fn law_chunks_compose(a: Seq<u8>, b: Seq<u8>)
    ensures
        !drain(a).invalid_utf8 ==> drain(a + b).events == drain(a).events + drain(drain(a).rest + b).events,
        !drain(a).invalid_utf8 ==> drain(a + b).rest == drain(drain(a).rest + b).rest,
        !drain(a).invalid_utf8 ==> drain(a + b).invalid_utf8 == drain(drain(a).rest + b).invalid_utf8,
        drain(a).invalid_utf8 ==> drain(a + b).events == drain(a).events && drain(a + b).invalid_utf8
            && drain(a + b).rest == drain(a).rest + b,
    decreases a.len(),
{
    lemma_first_close_from(a, 0);
    lemma_frame_close_prefix(a, b);
    match frame_close(a) {
        None => {
            assert(drain(a).events + drain(a + b).events =~= drain(a + b).events);
        },
        Some(i) => {
            let s = a + b;
            assert(s.take(i + 1) =~= a.take(i + 1));
            assert(s.skip(i + 1) =~= a.skip(i + 1) + b);
            if valid_utf8(a.take(i + 1)) {
                law_chunks_compose(a.skip(i + 1), b);
                let first = match frame_event(decode_utf8(a.take(i + 1))) {
                    Some(e) => seq![e],
                    None => Seq::empty(),
                };
                let x = drain(a.skip(i + 1));
                let y = drain(x.rest + b);
                assert(first + (x.events + y.events) =~= (first + x.events) + y.events);
            }
        },
    }
}

} // verus!

verus! {

/// A line that sets no field: empty (once a trailing `\r` is dropped) or a
/// comment, starting with `:`.
pub open spec fn fieldless_line(l: Seq<char>) -> bool {
    strip_cr(l).len() == 0 || strip_cr(l)[0] == ':'
}

proof fn lemma_fieldless_lines_keep(st: FrameFields, s: Seq<char>)
    requires
        forall|i: int| 0 <= i < split_newlines(s).len() ==> fieldless_line(#[trigger] split_newlines(s)[i]),
    ensures
        apply_lines(st, s) == st,
    decreases s.len(),
{
    let k = count_before(s, '\n') as int;
    if k < s.len() {
        assert(split_newlines(s)[0] == s.take(k));
        assert forall|i: int| 0 <= i < split_newlines(s.skip(k + 1)).len() implies fieldless_line(
            #[trigger] split_newlines(s.skip(k + 1))[i],
        ) by {
            assert(split_newlines(s)[i + 1] == split_newlines(s.skip(k + 1))[i]);
        }
        lemma_fieldless_lines_keep(st, s.skip(k + 1));
    } else {
        assert(split_newlines(s)[0] == s);
    }
}

/// A frame whose lines are all empty or comments, such as a keep-alive
/// `: PROCESSING` frame, describes no event.
pub proof fn law_comment_frame_no_event(text: Seq<char>)
    requires
        forall|i: int| 0 <= i < split_newlines(text).len() ==> fieldless_line(#[trigger] split_newlines(text)[i]),
    ensures
        frame_event(text) is None,
{
    lemma_fieldless_lines_keep(FrameFields { event: None, data: Seq::empty() }, text);
}

} // verus!
