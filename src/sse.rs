//! Incremental decoder of a Server-Sent Events stream into frames.
//!
//! The stream is modelled as a scan over its characters: a frame ends where a
//! blank line (`"\n\n"`) closes it, and what follows the last separator stays
//! buffered until more text arrives.
use vstd::prelude::*;
use vstd::string::*;
use crate::error::AgUiClientError;
use crate::text::{
    chars_of, has_prefix, push_char, starts_with_chars, string_from_chars, trim_of, trimmed_from,
};

verus! {

/// One parsed frame of the stream.
#[derive(Debug)]
pub struct SseEvent {
    /// The event name (from the last `event:` line).
    pub event: Option<String>,
    /// The event id (from the last `id:` line).
    pub id: Option<String>,
    /// The payload: the `data:` lines joined with newlines.
    pub data: String,
}

/// The mathematical content of a frame.
pub struct FrameView {
    pub event: Option<Seq<char>>,
    pub id: Option<Seq<char>>,
    pub data: Seq<char>,
}

pub open spec fn opt_str_view(o: Option<String>) -> Option<Seq<char>> {
    match o {
        Some(s) => Some(s@),
        None => None,
    }
}

impl View for SseEvent {
    type V = FrameView;

    open spec fn view(&self) -> FrameView {
        FrameView { event: opt_str_view(self.event), id: opt_str_view(self.id), data: self.data@ }
    }
}

// ---------------------------------------------------------------------------
// Lines of one frame

pub open spec fn event_tag() -> Seq<char> {
    seq!['e', 'v', 'e', 'n', 't', ':']
}

pub open spec fn id_tag() -> Seq<char> {
    seq!['i', 'd', ':']
}

pub open spec fn data_tag() -> Seq<char> {
    seq!['d', 'a', 't', 'a', ':']
}

/// A line closed by `\n` loses one trailing `\r`.
pub open spec fn strip_cr(l: Seq<char>) -> Seq<char> {
    if l.len() > 0 && l.last() == '\r' {
        l.drop_last()
    } else {
        l
    }
}

/// At most one leading space of a data value is dropped.
pub open spec fn strip_space(l: Seq<char>) -> Seq<char> {
    if l.len() > 0 && l[0] == ' ' {
        l.skip(1)
    } else {
        l
    }
}

/// The lines closed so far, and the open last line.
pub open spec fn line_scan(s: Seq<char>) -> (Seq<Seq<char>>, Seq<char>)
    decreases s.len(),
{
    if s.len() == 0 {
        (seq![], seq![])
    } else {
        let (done, cur) = line_scan(s.drop_last());
        if s.last() == '\n' {
            (done.push(strip_cr(cur)), seq![])
        } else {
            (done, cur.push(s.last()))
        }
    }
}

/// What the lines read so far set: event name, id and data lines.
pub struct FieldsView {
    pub event: Option<Seq<char>>,
    pub id: Option<Seq<char>>,
    pub data: Seq<Seq<char>>,
}

pub open spec fn apply_line(acc: FieldsView, l: Seq<char>) -> FieldsView {
    if l.len() == 0 {
        acc
    } else if has_prefix(l, event_tag()) {
        FieldsView { event: Some(trim_of(l.skip(6))), ..acc }
    } else if has_prefix(l, id_tag()) {
        FieldsView { id: Some(trim_of(l.skip(3))), ..acc }
    } else if has_prefix(l, data_tag()) {
        FieldsView { data: acc.data.push(strip_space(l.skip(5))), ..acc }
    } else {
        acc
    }
}

pub open spec fn no_fields() -> FieldsView {
    FieldsView { event: None, id: None, data: seq![] }
}

pub open spec fn apply_lines(ls: Seq<Seq<char>>) -> FieldsView
    decreases ls.len(),
{
    if ls.len() == 0 {
        no_fields()
    } else {
        apply_line(apply_lines(ls.drop_last()), ls.last())
    }
}

/// The lines joined with `\n`.
pub open spec fn join_lines(ls: Seq<Seq<char>>) -> Seq<char>
    decreases ls.len(),
{
    if ls.len() == 0 {
        seq![]
    } else if ls.len() == 1 {
        ls[0]
    } else {
        join_lines(ls.drop_last()) + seq!['\n'] + ls.last()
    }
}

/// The frame that the text of one segment describes.
pub open spec fn parse_frame(s: Seq<char>) -> FrameView {
    let (done, cur) = line_scan(s);
    let f = apply_lines(done.push(cur));
    FrameView { event: f.event, id: f.id, data: join_lines(f.data) }
}

// ---------------------------------------------------------------------------
// Segments of the stream

/// Frames emitted so far and the text of the segment still open.
pub struct ScanView {
    pub frames: Seq<FrameView>,
    pub rest: Seq<char>,
}

pub open spec fn scan_step(st: ScanView, c: char) -> ScanView {
    if c == '\n' && st.rest.len() > 0 && st.rest.last() == '\n' {
        let seg = st.rest.drop_last();
        ScanView {
            frames: if seg.len() > 0 {
                st.frames.push(parse_frame(seg))
            } else {
                st.frames
            },
            rest: seq![],
        }
    } else {
        ScanView { frames: st.frames, rest: st.rest.push(c) }
    }
}

pub open spec fn scan_from(st: ScanView, s: Seq<char>) -> ScanView
    decreases s.len(),
{
    if s.len() == 0 {
        st
    } else {
        scan_step(scan_from(st, s.drop_last()), s.last())
    }
}

pub open spec fn empty_scan() -> ScanView {
    ScanView { frames: seq![], rest: seq![] }
}

/// Decoding a whole buffer: its complete frames in order, and the open remainder.
pub open spec fn decode(s: Seq<char>) -> ScanView {
    scan_from(empty_scan(), s)
}

/// The text holds no blank-line separator.
pub open spec fn has_no_separator(s: Seq<char>) -> bool {
    forall|i: int| 0 <= i < s.len() - 1 ==> !(#[trigger] s[i] == '\n' && s[i + 1] == '\n')
}

// ---------------------------------------------------------------------------
// Executable decoding

struct FrameBuilder {
    event: Option<String>,
    id: Option<String>,
    data: String,
    has_data: bool,
    lines: Ghost<Seq<Seq<char>>>,
}

impl FrameBuilder {
    spec fn wf(&self) -> bool {
        &&& self.data@ == join_lines(self.lines@)
        &&& self.has_data == (self.lines@.len() > 0)
    }

    spec fn fields(&self) -> FieldsView {
        FieldsView { event: opt_str_view(self.event), id: opt_str_view(self.id), data: self.lines@ }
    }

    fn new() -> (r: FrameBuilder)
        ensures
            r.wf(),
            r.fields() == no_fields(),
    {
        FrameBuilder {
            event: None,
            id: None,
            data: String::new(),
            has_data: false,
            lines: Ghost(Seq::empty()),
        }
    }

    fn absorb(&mut self, line: &Vec<char>)
        requires
            old(self).wf(),
        ensures
            final(self).wf(),
            final(self).fields() == apply_line(old(self).fields(), line@),
    {
        if line.len() == 0 {
            return;
        }
        let event_p = vec!['e', 'v', 'e', 'n', 't', ':'];
        let id_p = vec!['i', 'd', ':'];
        let data_p = vec!['d', 'a', 't', 'a', ':'];
        assert(event_p@ =~= event_tag());
        assert(id_p@ =~= id_tag());
        assert(data_p@ =~= data_tag());
        if starts_with_chars(line, &event_p) {
            self.event = Some(trimmed_from(line, 6));
        } else if starts_with_chars(line, &id_p) {
            self.id = Some(trimmed_from(line, 3));
        } else if starts_with_chars(line, &data_p) {
            let from: usize = if line.len() > 5 && line[5] == ' ' {
                6
            } else {
                5
            };
            let value = string_from_chars(line, from);
            assert(value@ =~= strip_space(line@.skip(5)));
            let ghost old_lines = self.lines@;
            if self.has_data {
                push_char(&mut self.data, '\n');
            }
            self.data.append(value.as_str());
            self.has_data = true;
            self.lines = Ghost(old_lines.push(value@));
            proof {
                let ls = old_lines.push(value@);
                assert(ls.drop_last() =~= old_lines);
                assert(self.data@ =~= join_lines(ls));
            }
        }
    }

    fn finish(self) -> (r: SseEvent)
        requires
            self.wf(),
        ensures
            r@ == (FrameView {
                event: self.fields().event,
                id: self.fields().id,
                data: join_lines(self.fields().data),
            }),
    {
        SseEvent { event: self.event, id: self.id, data: self.data }
    }
}

/// Parses the characters of one segment into a frame.
fn parse_frame_chars(v: &Vec<char>) -> (r: SseEvent)
    ensures
        r@ == parse_frame(v@),
{
    let mut b = FrameBuilder::new();
    let mut cur: Vec<char> = Vec::new();
    let ghost mut done: Seq<Seq<char>> = seq![];
    let mut i: usize = 0;
    while i < v.len()
        invariant
            i <= v@.len(),
            (done, cur@) == line_scan(v@.subrange(0, i as int)),
            b.wf(),
            b.fields() == apply_lines(done),
        decreases v@.len() - i,
    {
        let c = v[i];
        proof {
            let s = v@.subrange(0, i as int + 1);
            assert(s.drop_last() =~= v@.subrange(0, i as int));
            assert(s.last() == c);
        }
        if c == '\n' {
            if cur.len() > 0 && cur[cur.len() - 1] == '\r' {
                cur.pop();
            }
            proof {
                assert(done.push(cur@).drop_last() =~= done);
            }
            b.absorb(&cur);
            proof {
                done = done.push(cur@);
            }
            cur = Vec::new();
        } else {
            cur.push(c);
        }
        i = i + 1;
    }
    assert(v@.subrange(0, v@.len() as int) =~= v@);
    proof {
        assert(done.push(cur@).drop_last() =~= done);
    }
    b.absorb(&cur);
    b.finish()
}

/// Parses the text of one segment into a frame.
///
/// `event:` and `id:` lines set the name and id (the last one wins, trimmed),
/// each `data:` line adds one payload line without one leading space, and the
/// payload lines are joined with newlines; other lines are ignored.
pub fn parse_sse_event(event_text: &str) -> (r: Result<SseEvent, AgUiClientError>)
    ensures
        r matches Ok(e) && e@ == parse_frame(event_text@),
{
    let v = chars_of(event_text);
    Ok(parse_frame_chars(&v))
}

/// The scan state after one more character, computed on a vector of frames and
/// the open segment.
fn scan_char(frames: &mut Vec<Result<SseEvent, AgUiClientError>>, rest: &mut Vec<char>, c: char)
    ensures
        final(frames)@.len() >= old(frames)@.len(),
        forall|k: int| 0 <= k < old(frames)@.len() ==> final(frames)@[k] == old(frames)@[k],
        ok_frames_view(final(frames)@) == scan_step(
            ScanView { frames: ok_frames_view(old(frames)@), rest: old(rest)@ },
            c,
        ).frames,
        final(rest)@ == scan_step(
            ScanView { frames: ok_frames_view(old(frames)@), rest: old(rest)@ },
            c,
        ).rest,
        all_ok(old(frames)@) ==> all_ok(final(frames)@),
{
    let ghost f0 = old(frames)@;
    if c == '\n' && rest.len() > 0 && rest[rest.len() - 1] == '\n' {
        rest.pop();
        if rest.len() > 0 {
            let e = parse_frame_chars(rest);
            frames.push(Ok(e));
            proof {
                lemma_ok_frames_push(f0, Ok(e));
            }
        }
        *rest = Vec::new();
    } else {
        rest.push(c);
    }
}

/// Every entry is a frame.
pub open spec fn all_ok(s: Seq<Result<SseEvent, AgUiClientError>>) -> bool {
    forall|k: int| 0 <= k < s.len() ==> (#[trigger] s[k]) is Ok
}

/// The views of the frames among the entries.
pub open spec fn ok_frames_view(s: Seq<Result<SseEvent, AgUiClientError>>) -> Seq<FrameView>
    decreases s.len(),
{
    if s.len() == 0 {
        seq![]
    } else {
        let p = ok_frames_view(s.drop_last());
        match s.last() {
            Ok(e) => p.push(e@),
            Err(_) => p,
        }
    }
}

proof fn lemma_ok_frames_push(
    s: Seq<Result<SseEvent, AgUiClientError>>,
    x: Result<SseEvent, AgUiClientError>,
)
    ensures
        ok_frames_view(s.push(x)) == match x {
            Ok(e) => ok_frames_view(s).push(e@),
            Err(_) => ok_frames_view(s),
        },
{
    assert(s.push(x).drop_last() =~= s);
}

/// Splits a buffer into its complete frames and the incomplete remainder.
///
/// Segments are separated by a blank line; a segment counts as complete once its
/// separator has arrived, and empty segments yield no frame. What follows the
/// last separator is handed back to be completed by later text.
///
/// Separators are found from left to right without overlap, so in `"a\n\n\n"`
/// the last `"\n"` is not a second separator: it stays buffered as the start of
/// the next segment instead of closing an empty frame. This is what makes the
/// frames independent of where the input is split into chunks.
pub fn process_raw_sse_events(buffer: &str) -> (r: (Vec<Result<SseEvent, AgUiClientError>>, String))
    ensures
        all_ok(r.0@),
        ok_frames_view(r.0@) == decode(buffer@).frames,
        r.1@ == decode(buffer@).rest,
{
    let v = chars_of(buffer);
    let (frames, rest) = scan_chars(Vec::new(), Vec::new(), &v);
    (frames, string_from_chars(&rest, 0))
}

/// Scans `v` starting from the given frames and open segment.
fn scan_chars(
    frames: Vec<Result<SseEvent, AgUiClientError>>,
    rest: Vec<char>,
    v: &Vec<char>,
) -> (r: (Vec<Result<SseEvent, AgUiClientError>>, Vec<char>))
    requires
        all_ok(frames@),
    ensures
        all_ok(r.0@),
        ok_frames_view(r.0@) == scan_from(
            ScanView { frames: ok_frames_view(frames@), rest: rest@ },
            v@,
        ).frames,
        r.1@ == scan_from(ScanView { frames: ok_frames_view(frames@), rest: rest@ }, v@).rest,
{
    let ghost st0 = ScanView { frames: ok_frames_view(frames@), rest: rest@ };
    let mut frames = frames;
    let mut rest = rest;
    let mut i: usize = 0;
    while i < v.len()
        invariant
            i <= v@.len(),
            all_ok(frames@),
            ok_frames_view(frames@) == scan_from(st0, v@.subrange(0, i as int)).frames,
            rest@ == scan_from(st0, v@.subrange(0, i as int)).rest,
        decreases v@.len() - i,
    {
        proof {
            let s = v@.subrange(0, i as int + 1);
            assert(s.drop_last() =~= v@.subrange(0, i as int));
        }
        scan_char(&mut frames, &mut rest, v[i]);
        i = i + 1;
    }
    assert(v@.subrange(0, v@.len() as int) =~= v@);
    (frames, rest)
}

// ---------------------------------------------------------------------------
// Laws of the scan

/// Scanning two pieces of text one after the other is scanning their concatenation.
pub proof fn lemma_scan_append(st: ScanView, x: Seq<char>, c: Seq<char>)
    ensures
        scan_from(st, x + c) == scan_from(scan_from(st, x), c),
    decreases c.len(),
{
    if c.len() == 0 {
        assert(x + c =~= x);
    } else {
        assert((x + c).drop_last() =~= x + c.drop_last());
        assert((x + c).last() == c.last());
        lemma_scan_append(st, x, c.drop_last());
    }
}

/// Frames already emitted are kept, and do not influence what follows.
pub proof fn lemma_scan_frames_kept(st: ScanView, s: Seq<char>)
    ensures
        scan_from(st, s).frames == st.frames + scan_from(
            ScanView { frames: seq![], rest: st.rest },
            s,
        ).frames,
        scan_from(st, s).rest == scan_from(ScanView { frames: seq![], rest: st.rest }, s).rest,
    decreases s.len(),
{
    if s.len() == 0 {
        assert(st.frames + seq![] =~= st.frames);
    } else {
        lemma_scan_frames_kept(st, s.drop_last());
        let a = scan_from(st, s.drop_last());
        let b = scan_from(ScanView { frames: seq![], rest: st.rest }, s.drop_last());
        let seg = a.rest.drop_last();
        if s.last() == '\n' && a.rest.len() > 0 && a.rest.last() == '\n' && seg.len() > 0 {
            assert(st.frames + b.frames.push(parse_frame(seg)) =~= (st.frames + b.frames).push(
                parse_frame(seg),
            ));
        }
    }
}

/// A buffer that holds no blank-line separator yields no frame and stays
/// buffered whole.
pub proof fn lemma_unterminated_buffer_retained(s: Seq<char>)
    requires
        has_no_separator(s),
    ensures
        decode(s).frames == Seq::<FrameView>::empty(),
        decode(s).rest == s,
    decreases s.len(),
{
    if s.len() > 0 {
        let p = s.drop_last();
        assert(has_no_separator(p)) by {
            assert forall|i: int| 0 <= i < p.len() - 1 implies !(#[trigger] p[i] == '\n' && p[i
                + 1] == '\n') by {
                assert(p[i] == s[i] && p[i + 1] == s[i + 1]);
            }
        }
        lemma_unterminated_buffer_retained(p);
        if s.len() >= 2 {
            assert(s[s.len() - 2] == p.last());
        }
        assert(decode(s).rest =~= s);
    }
}

/// The text of a sequence of chunks, concatenated.
pub open spec fn concat_chunks(chunks: Seq<Seq<char>>) -> Seq<char>
    decreases chunks.len(),
{
    if chunks.len() == 0 {
        seq![]
    } else {
        concat_chunks(chunks.drop_last()) + chunks.last()
    }
}

/// What a decoder fed the chunks one at a time has emitted in all, and holds
/// buffered: each chunk is scanned starting from the remainder left by the
/// previous ones.
pub open spec fn feed_chunks(chunks: Seq<Seq<char>>) -> ScanView
    decreases chunks.len(),
{
    if chunks.len() == 0 {
        empty_scan()
    } else {
        let st = feed_chunks(chunks.drop_last());
        let step = scan_from(ScanView { frames: seq![], rest: st.rest }, chunks.last());
        ScanView { frames: st.frames + step.frames, rest: step.rest }
    }
}

/// Chunk-boundary invariance: however a buffer is split into chunks, feeding
/// the chunks in order yields the same ordered frames, and leaves the same
/// remainder, as decoding the whole buffer at once.
pub proof fn lemma_chunk_boundary_invariance(chunks: Seq<Seq<char>>)
    ensures
        feed_chunks(chunks) == decode(concat_chunks(chunks)),
    decreases chunks.len(),
{
    if chunks.len() > 0 {
        let init = chunks.drop_last();
        lemma_chunk_boundary_invariance(init);
        lemma_scan_append(empty_scan(), concat_chunks(init), chunks.last());
        lemma_scan_frames_kept(decode(concat_chunks(init)), chunks.last());
    }
}

/// The remainder of a scan holds no separator when the one it starts from holds
/// none.
pub proof fn lemma_rest_has_no_separator(st: ScanView, s: Seq<char>)
    requires
        has_no_separator(st.rest),
    ensures
        has_no_separator(scan_from(st, s).rest),
    decreases s.len(),
{
    if s.len() > 0 {
        lemma_rest_has_no_separator(st, s.drop_last());
        let a = scan_from(st, s.drop_last()).rest;
        let c = s.last();
        let r = scan_from(st, s).rest;
        if !(c == '\n' && a.len() > 0 && a.last() == '\n') {
            assert(r == a.push(c));
            assert forall|i: int| 0 <= i < r.len() - 1 implies !(#[trigger] r[i] == '\n' && r[i
                + 1] == '\n') by {
                if i + 1 < a.len() {
                    assert(r[i] == a[i] && r[i + 1] == a[i + 1]);
                } else {
                    assert(r[i] == a.last() && r[i + 1] == c);
                }
            }
        }
    }
}

/// What decoding each chunk appended to the previous remainder gives in all: the
/// whole-buffer decoding re-run on remainder plus chunk, chunk after chunk.
pub open spec fn rerun_chunks(chunks: Seq<Seq<char>>) -> ScanView
    decreases chunks.len(),
{
    if chunks.len() == 0 {
        empty_scan()
    } else {
        let st = rerun_chunks(chunks.drop_last());
        let d = decode(st.rest + chunks.last());
        ScanView { frames: st.frames + d.frames, rest: d.rest }
    }
}

/// Chunk-boundary invariance for the whole-buffer decoding: decoding each chunk
/// appended to the remainder left by the previous ones yields, in all, the same
/// ordered frames and the same remainder as decoding the concatenation at once.
pub proof fn lemma_rerun_on_remainder(chunks: Seq<Seq<char>>)
    ensures
        rerun_chunks(chunks) == decode(concat_chunks(chunks)),
        has_no_separator(rerun_chunks(chunks).rest),
    decreases chunks.len(),
{
    if chunks.len() > 0 {
        let init = chunks.drop_last();
        let c = chunks.last();
        lemma_rerun_on_remainder(init);
        let st = rerun_chunks(init);
        lemma_unterminated_buffer_retained(st.rest);
        lemma_scan_append(empty_scan(), st.rest, c);
        assert(decode(st.rest) == (ScanView { frames: seq![], rest: st.rest }));
        lemma_scan_append(empty_scan(), concat_chunks(init), c);
        lemma_scan_frames_kept(st, c);
        lemma_rest_has_no_separator(ScanView { frames: seq![], rest: st.rest }, c);
    }
}

// ---------------------------------------------------------------------------
// The incremental decoder

/// What `String::from_utf8` returns for the bytes: their text, or `None` when
/// they are not valid UTF-8.
pub uninterp spec fn utf8_text(b: Seq<u8>) -> Option<Seq<char>>;

/// Relies on `String::from_utf8`: the decoded text, or an error exactly when the
/// bytes are not valid UTF-8 (which depends on the bytes alone).
#[verifier::external_body]
fn decode_utf8(bytes: &[u8]) -> (r: Option<String>)
    ensures
        match r {
            Some(s) => utf8_text(bytes@) == Some(s@),
            None => utf8_text(bytes@) is None,
        },
{
    String::from_utf8(bytes.to_vec()).ok()
}

/// The message of the error for bytes that are not valid UTF-8:
/// `Invalid UTF-8 in event stream`.
pub open spec fn invalid_utf8_message() -> Seq<char> {
    seq![
        'I', 'n', 'v', 'a', 'l', 'i', 'd', ' ', 'U', 'T', 'F', '-', '8', ' ', 'i', 'n', ' ', 'e',
        'v', 'e', 'n', 't', ' ', 's', 't', 'r', 'e', 'a', 'm',
    ]
}

/// Decodes a stream that arrives in chunks. It holds the text of the segment
/// that is still open.
pub struct SseDecoder {
    buffer: Vec<char>,
}

impl View for SseDecoder {
    type V = Seq<char>;

    closed spec fn view(&self) -> Seq<char> {
        self.buffer@
    }
}

impl SseDecoder {
    pub fn new() -> (r: SseDecoder)
        ensures
            r@ == Seq::<char>::empty(),
    {
        SseDecoder { buffer: Vec::new() }
    }

    /// The text held back, waiting for its separator.
    pub fn buffered(&self) -> (r: String)
        ensures
            r@ == self@,
    {
        string_from_chars(&self.buffer, 0)
    }

    /// Appends decoded text and returns the frames that it completes, in order.
    pub fn push_str(&mut self, chunk: &str) -> (r: Vec<Result<SseEvent, AgUiClientError>>)
        ensures
            all_ok(r@),
            ok_frames_view(r@) == scan_from(
                ScanView { frames: seq![], rest: old(self)@ },
                chunk@,
            ).frames,
            final(self)@ == scan_from(ScanView { frames: seq![], rest: old(self)@ }, chunk@).rest,
    {
        let v = chars_of(chunk);
        let buf = self.buffer.clone();
        assert(ok_frames_view(Seq::<Result<SseEvent, AgUiClientError>>::empty()) =~= seq![]);
        let (frames, rest) = scan_chars(Vec::new(), buf, &v);
        self.buffer = rest;
        frames
    }

    /// Decodes a chunk of bytes as UTF-8 and appends it. Bytes that are not valid
    /// UTF-8 give an `SseParse` error, with the message `Invalid UTF-8 in event
    /// stream`, and leave the buffer as it was.
    pub fn push_bytes(&mut self, chunk: &[u8]) -> (r: Result<
        Vec<Result<SseEvent, AgUiClientError>>,
        AgUiClientError,
    >)
        ensures
            match utf8_text(chunk@) {
                None => r matches Err(AgUiClientError::SseParse { message }) && message@
                    == invalid_utf8_message() && final(self)@ == old(self)@,
                Some(text) => r matches Ok(frames) && all_ok(frames@) && ok_frames_view(frames@)
                    == scan_from(ScanView { frames: seq![], rest: old(self)@ }, text).frames
                    && final(self)@ == scan_from(
                    ScanView { frames: seq![], rest: old(self)@ },
                    text,
                ).rest,
            },
    {
        match decode_utf8(chunk) {
            Some(text) => Ok(self.push_str(text.as_str())),
            None => {
                let message = String::from_str("Invalid UTF-8 in event stream");
                proof {
                    reveal_strlit("Invalid UTF-8 in event stream");
                }
                assert(message@ =~= invalid_utf8_message());
                Err(AgUiClientError::SseParse { message })
            },
        }
    }
}

} // verus!
