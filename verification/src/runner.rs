//! Turning the downloader's console output into log events: decoding the
//! bytes of a line, removing colour codes, and cutting the byte stream into
//! lines and progress lines.
use crate::app::LogEvent;
use crate::text::{chars_of, decimal, decimal_digits, string_of};
use vstd::prelude::*;
use vstd::string::StringExecFns;
use vstd::utf8::{decode_utf8, encode_utf8, valid_utf8};

verus! {

/// What GBK decoding with replacement (WHATWG's `gbk` decoder, as
/// `encoding_rs::GBK` implements it) makes of `bytes`.
pub uninterp spec fn gbk_decoded(bytes: Seq<u8>) -> Seq<char>;

/// Trusted: `encoding_rs::UTF_8.decode_without_bom_handling_and_without_replacement`.
/// Claimed, as its source shows (it checks how far the input is valid UTF-8
/// and fails unless that is all of it): `Some` exactly when the bytes are
/// well-formed UTF-8, holding the characters they encode.
#[verifier::external_body]
fn utf8_decode(bytes: &[u8]) -> (r: Option<String>)
    ensures
        match r {
            Some(s) => valid_utf8(bytes@) && s@ == decode_utf8(bytes@),
            None => !valid_utf8(bytes@),
        },
{
    encoding_rs::UTF_8.decode_without_bom_handling_and_without_replacement(bytes).map(
        |s| s.into_owned(),
    )
}

/// Trusted: `encoding_rs::GBK.decode_without_bom_handling`, keeping the text
/// and dropping the flag that tells whether malformed sequences were replaced.
/// Claimed: the result is `gbk_decoded` of the bytes, and nothing more is
/// said of it. It panics only where its buffer size computation overflows
/// `usize` (about three bytes of output per byte of input), which the
/// precondition leaves out.
#[verifier::external_body]
fn gbk_decode(bytes: &[u8]) -> (r: String)
    requires
        bytes@.len() <= usize::MAX / 8,
    ensures
        r@ == gbk_decoded(bytes@),
{
    encoding_rs::GBK.decode_without_bom_handling(bytes).0.into_owned()
}

/// The text of a raw line of output: its UTF-8 reading where the bytes are
/// well-formed UTF-8, else its GBK reading (the console code page of Chinese
/// Windows).
pub open spec fn decoded(bytes: Seq<u8>) -> Seq<char> {
    if valid_utf8(bytes) {
        decode_utf8(bytes)
    } else {
        gbk_decoded(bytes)
    }
}

/// Decodes a raw line of output: UTF-8 first, GBK where that fails.
pub fn decode_bytes(buf: &[u8]) -> (r: String)
    requires
        buf@.len() <= usize::MAX / 8,
    ensures
        r@ == decoded(buf@),
{
    match utf8_decode(buf) {
        Some(s) => s,
        None => gbk_decode(buf),
    }
}

/// The escape character that starts an ANSI control sequence.
pub open spec fn esc() -> char {
    '\u{1B}'
}

pub open spec fn is_ascii_letter(c: char) -> bool {
    ('a' <= c && c <= 'z') || ('A' <= c && c <= 'Z')
}

/// What follows a control sequence introducer `ESC [`: everything after the
/// first ASCII letter, which ends the sequence (nothing if no letter comes).
pub open spec fn after_csi(s: Seq<char>) -> Seq<char>
    decreases s.len(),
{
    if s.len() == 0 {
        s
    } else if is_ascii_letter(s[0]) {
        s.drop_first()
    } else {
        after_csi(s.drop_first())
    }
}

/// `s` without ANSI escapes: each `ESC [ ... letter` sequence is removed, and
/// an `ESC` not followed by `[` is dropped alone; every other character stays.
pub open spec fn ansi_stripped(s: Seq<char>) -> Seq<char>
    decreases s.len(),
{
    if s.len() == 0 {
        s
    } else if s[0] == esc() {
        if s.len() >= 2 && s[1] == '[' {
            let rest = after_csi(s.subrange(2, s.len() as int));
            proof {
                lemma_after_csi_shorter(s.subrange(2, s.len() as int));
            }
            ansi_stripped(rest)
        } else {
            ansi_stripped(s.drop_first())
        }
    } else {
        seq![s[0]] + ansi_stripped(s.drop_first())
    }
}

pub proof fn lemma_after_csi_shorter(s: Seq<char>)
    ensures
        after_csi(s).len() <= s.len(),
    decreases s.len(),
{
    if s.len() > 0 && !is_ascii_letter(s[0]) {
        lemma_after_csi_shorter(s.drop_first());
    }
}

proof fn lemma_after_csi_suffix(s: Seq<char>, j: int)
    requires
        0 <= j <= s.len(),
        forall|k: int| 0 <= k < j ==> !is_ascii_letter(#[trigger] s[k]),
    ensures
        after_csi(s) == after_csi(s.subrange(j, s.len() as int)),
    decreases j,
{
    if j > 0 {
        lemma_after_csi_suffix(s.drop_first(), j - 1);
        assert(s.drop_first().subrange(j - 1, s.len() - 1) =~= s.subrange(j, s.len() as int));
    } else {
        assert(s.subrange(0, s.len() as int) =~= s);
    }
}

/// Whether no character of `s` is the escape character.
pub open spec fn escape_free(s: Seq<char>) -> bool {
    forall|i: int| 0 <= i < s.len() ==> s[i] != esc()
}

/// Text with no escape character comes out of stripping unchanged.
pub proof fn law_stripping_keeps_escape_free_text(s: Seq<char>)
    requires
        escape_free(s),
    ensures
        ansi_stripped(s) == s,
    decreases s.len(),
{
    if s.len() > 0 {
        law_stripping_keeps_escape_free_text(s.drop_first());
        assert(seq![s[0]] + s.drop_first() =~= s);
    }
}

/// No escape character is left after stripping.
pub proof fn law_stripped_text_is_escape_free(s: Seq<char>)
    ensures
        escape_free(ansi_stripped(s)),
    decreases s.len(),
{
    if s.len() > 0 {
        if s[0] == esc() {
            if s.len() >= 2 && s[1] == '[' {
                lemma_after_csi_shorter(s.subrange(2, s.len() as int));
                law_stripped_text_is_escape_free(after_csi(s.subrange(2, s.len() as int)));
            } else {
                law_stripped_text_is_escape_free(s.drop_first());
            }
        } else {
            law_stripped_text_is_escape_free(s.drop_first());
            let t = ansi_stripped(s.drop_first());
            assert forall|i: int| 0 <= i < (seq![s[0]] + t).len() implies (seq![s[0]] + t)[i]
                != esc() by {
                if i > 0 {
                    assert((seq![s[0]] + t)[i] == t[i - 1]);
                }
            }
        }
    }
}

/// Whether `c` may stand among the parameters of a control sequence: a
/// digit or a semicolon.
pub open spec fn is_csi_param(c: char) -> bool {
    ('0' <= c && c <= '9') || c == ';'
}

proof fn lemma_params_then_letter(p: Seq<char>, l: char, t: Seq<char>)
    requires
        forall|i: int| 0 <= i < p.len() ==> is_csi_param(#[trigger] p[i]),
        ('a' <= l && l <= 'z') || ('A' <= l && l <= 'Z'),
    ensures
        after_csi(p + seq![l] + t) == t,
    decreases p.len(),
{
    if p.len() == 0 {
        assert((p + seq![l] + t).drop_first() =~= t);
    } else {
        lemma_params_then_letter(p.drop_first(), l, t);
        assert((p + seq![l] + t).drop_first() =~= p.drop_first() + seq![l] + t);
    }
}

/// A control sequence `ESC [`, parameters (digits and semicolons), then any
/// ASCII letter, is removed whole, whichever letter ends it; the text after
/// it, if it holds no escape, is kept as it is.
pub proof fn law_control_sequence_ends_at_any_letter(p: Seq<char>, l: char, t: Seq<char>)
    requires
        forall|i: int| 0 <= i < p.len() ==> is_csi_param(#[trigger] p[i]),
        ('a' <= l && l <= 'z') || ('A' <= l && l <= 'Z'),
        escape_free(t),
    ensures
        ansi_stripped(seq!['\u{1B}', '['] + p + seq![l] + t) == t,
{
    let s = seq!['\u{1B}', '['] + p + seq![l] + t;
    assert(s.subrange(2, s.len() as int) =~= p + seq![l] + t);
    lemma_params_then_letter(p, l, t);
    law_stripping_keeps_escape_free_text(t);
}

/// Stripping twice is stripping once.
pub proof fn law_stripping_is_idempotent(s: Seq<char>)
    ensures
        ansi_stripped(ansi_stripped(s)) == ansi_stripped(s),
{
    law_stripped_text_is_escape_free(s);
    law_stripping_keeps_escape_free_text(ansi_stripped(s));
}

/// The UTF-8 bytes of any text decode back to that text (the GBK reading is
/// only a fallback for bytes that are not UTF-8).
pub proof fn law_utf8_text_decodes_to_itself(s: Seq<char>)
    ensures
        decoded(encode_utf8(s)) == s,
{
    vstd::utf8::encode_utf8_valid_utf8(s);
    vstd::utf8::encode_utf8_decode_utf8(s);
}

fn is_ascii_alpha(c: char) -> (r: bool)
    ensures
        r == is_ascii_letter(c),
{
    ('a' <= c && c <= 'z') || ('A' <= c && c <= 'Z')
}

/// Removes ANSI escape sequences, character by character (so that
/// multi-byte text between them is kept whole).
pub fn strip_ansi(s: &str) -> (r: String)
    ensures
        r@ == ansi_stripped(s@),
{
    let cs = chars_of(s);
    let n = cs.len();
    let mut out: Vec<char> = Vec::new();
    let mut i: usize = 0;
    assert(cs@.subrange(0, n as int) =~= cs@);
    while i < n
        invariant
            i <= n,
            n == cs@.len(),
            ansi_stripped(cs@) == out@ + ansi_stripped(cs@.subrange(i as int, n as int)),
        decreases n - i,
    {
        let ghost rest = cs@.subrange(i as int, n as int);
        let c = cs[i];
        if c == '\u{1B}' {
            if i + 1 < n && cs[i + 1] == '[' {
                let mut j: usize = i + 2;
                assert(rest.subrange(2, rest.len() as int) =~= cs@.subrange(j as int, n as int));
                while j < n && !is_ascii_alpha(cs[j])
                    invariant
                        i + 2 <= j <= n,
                        n == cs@.len(),
                        after_csi(cs@.subrange(i + 2, n as int)) == after_csi(
                            cs@.subrange(j as int, n as int),
                        ),
                    decreases n - j,
                {
                    assert(cs@.subrange(j as int, n as int).drop_first() =~= cs@.subrange(
                        j + 1,
                        n as int,
                    ));
                    j = j + 1;
                }
                if j < n {
                    assert(cs@.subrange(j as int, n as int).drop_first() =~= cs@.subrange(
                        j + 1,
                        n as int,
                    ));
                    j = j + 1;
                }
                i = j;
            } else {
                assert(rest.drop_first() =~= cs@.subrange(i + 1, n as int));
                i = i + 1;
            }
        } else {
            assert(rest.drop_first() =~= cs@.subrange(i + 1, n as int));
            let ghost before = out@;
            out.push(c);
            assert(out@ =~= before + seq![c]);
            i = i + 1;
        }
    }
    assert(ansi_stripped(cs@.subrange(n as int, n as int)) =~= seq![]);
    assert(out@ =~= out@ + seq![]);
    string_of(&out)
}

/// `s` without its trailing carriage returns and line feeds.
pub open spec fn without_line_end(s: Seq<char>) -> Seq<char>
    decreases s.len(),
{
    if s.len() > 0 && (s.last() == '\r' || s.last() == '\n') {
        without_line_end(s.drop_last())
    } else {
        s
    }
}

fn trim_line_end(cs: &Vec<char>) -> (r: Vec<char>)
    ensures
        r@ == without_line_end(cs@),
{
    let mut j: usize = cs.len();
    assert(cs@.subrange(0, j as int) =~= cs@);
    while j > 0 && (cs[j - 1] == '\r' || cs[j - 1] == '\n')
        invariant
            j <= cs@.len(),
            without_line_end(cs@) == without_line_end(cs@.subrange(0, j as int)),
        decreases j,
    {
        assert(cs@.subrange(0, j as int).drop_last() =~= cs@.subrange(0, j - 1));
        j = j - 1;
    }
    assert(cs@.subrange(0, j as int) == without_line_end(cs@.subrange(0, j as int)));
    let mut r: Vec<char> = Vec::new();
    let mut k: usize = 0;
    while k < j
        invariant
            k <= j <= cs@.len(),
            r@ =~= cs@.subrange(0, k as int),
        decreases j - k,
    {
        r.push(cs[k]);
        k = k + 1;
    }
    r
}

/// The text of a buffered line as shown in the log: decoded, without ANSI
/// escapes, without trailing line ends.
pub open spec fn line_text(bytes: Seq<u8>) -> Seq<char> {
    without_line_end(ansi_stripped(decoded(bytes)))
}

/// The event that a buffered line makes, if any: none for an empty buffer
/// or a line with no text left, else a progress line or a finished line.
pub open spec fn chunk_event(bytes: Seq<u8>, progress: bool, e: Option<LogEvent>) -> bool {
    if bytes.len() == 0 || line_text(bytes).len() == 0 {
        e is None
    } else {
        match e {
            Some(LogEvent::Progress(s)) => progress && s@ == line_text(bytes),
            Some(LogEvent::Line(s)) => !progress && s@ == line_text(bytes),
            _ => false,
        }
    }
}

/// Takes the buffered bytes as one line of output and empties the buffer;
/// returns the event to send for it (a progress line where `progress`).
pub fn send_chunk(buf: &mut Vec<u8>, progress: bool) -> (r: Option<LogEvent>)
    requires
        old(buf)@.len() <= usize::MAX / 8,
    ensures
        chunk_event(old(buf)@, progress, r),
        final(buf)@.len() == 0,
{
    if buf.len() == 0 {
        return None;
    }
    let raw = decode_bytes(buf.as_slice());
    *buf = Vec::new();
    let stripped = strip_ansi(raw.as_str());
    let cs = chars_of(stripped.as_str());
    let line = trim_line_end(&cs);
    if line.len() == 0 {
        return None;
    }
    let text = string_of(&line);
    if progress {
        Some(LogEvent::Progress(text))
    } else {
        Some(LogEvent::Line(text))
    }
}

/// The reader's step on one byte of output (`Some`) or on the end of the
/// output (`None`): a line feed ends a line, a carriage return ends a
/// progress line, the end of output flushes what is left as a line, and any
/// other byte is buffered.
pub open spec fn read_stepped(buf: Seq<u8>, byte: Option<u8>, buf2: Seq<u8>, e: Option<LogEvent>) -> bool {
    match byte {
        None => chunk_event(buf, false, e) && buf2.len() == 0,
        Some(b) => if b == 10 {
            chunk_event(buf, false, e) && buf2.len() == 0
        } else if b == 13 {
            chunk_event(buf, true, e) && buf2.len() == 0
        } else {
            e is None && buf2 == buf.push(b)
        },
    }
}

/// One step of reading the downloader's output byte by byte.
pub fn read_step(buf: &mut Vec<u8>, byte: Option<u8>) -> (r: Option<LogEvent>)
    requires
        old(buf)@.len() < usize::MAX / 8,
    ensures
        read_stepped(old(buf)@, byte, final(buf)@, r),
{
    match byte {
        None => send_chunk(buf, false),
        Some(b) => {
            if b == 10 {
                send_chunk(buf, false)
            } else if b == 13 {
                send_chunk(buf, true)
            } else {
                buf.push(b);
                None
            }
        },
    }
}

/// A line's bytes read one by one, from an empty buffer, are buffered
/// without an event while none of them ends a line: after the `k`th byte the
/// buffer holds the first `k` bytes.
pub proof fn law_line_bytes_are_buffered(
    bytes: Seq<u8>,
    bufs: Seq<Seq<u8>>,
    events: Seq<Option<LogEvent>>,
)
    requires
        bufs.len() == bytes.len() + 1,
        events.len() == bytes.len(),
        bufs[0].len() == 0,
        forall|i: int| 0 <= i < bytes.len() ==> bytes[i] != 10 && bytes[i] != 13,
        forall|i: int|
            0 <= i < bytes.len() ==> read_stepped(bufs[i], Some(bytes[i]), bufs[i + 1], events[i]),
    ensures
        forall|k: int| 0 <= k <= bytes.len() ==> bufs[k] == bytes.subrange(0, k),
        forall|i: int| 0 <= i < bytes.len() ==> events[i] is None,
{
    assert forall|k: int| 0 <= k <= bytes.len() implies bufs[k] == bytes.subrange(0, k) by {
        lemma_buffered_prefix(bytes, bufs, events, k);
    }
}

proof fn lemma_buffered_prefix(
    bytes: Seq<u8>,
    bufs: Seq<Seq<u8>>,
    events: Seq<Option<LogEvent>>,
    k: int,
)
    requires
        0 <= k <= bytes.len(),
        bufs.len() == bytes.len() + 1,
        events.len() == bytes.len(),
        bufs[0].len() == 0,
        forall|i: int| 0 <= i < bytes.len() ==> bytes[i] != 10 && bytes[i] != 13,
        forall|i: int|
            0 <= i < bytes.len() ==> read_stepped(bufs[i], Some(bytes[i]), bufs[i + 1], events[i]),
    ensures
        bufs[k] == bytes.subrange(0, k),
    decreases k,
{
    if k == 0 {
        assert(bufs[0] =~= bytes.subrange(0, 0));
    } else {
        lemma_buffered_prefix(bytes, bufs, events, k - 1);
        assert(read_stepped(bufs[k - 1], Some(bytes[k - 1]), bufs[k], events[k - 1]));
        assert(bytes.subrange(0, k - 1).push(bytes[k - 1]) =~= bytes.subrange(0, k));
    }
}

/// A line feed after a line's bytes sends that line, as its text shows in
/// the log (nothing where no text is left), and empties the buffer.
pub proof fn law_line_feed_sends_the_line(bytes: Seq<u8>, buf2: Seq<u8>, e: Option<LogEvent>)
    requires
        read_stepped(bytes, Some(10u8), buf2, e),
    ensures
        buf2.len() == 0,
        line_text(bytes).len() > 0 ==> (e matches Some(LogEvent::Line(s)) && s@ == line_text(bytes)),
        line_text(bytes).len() == 0 ==> e is None,
{
}

/// The event that ends a run: the exit code (a process ended by a signal,
/// which has none, counts as 0; a negative code is taken as its unsigned
/// 32-bit pattern), or the error of waiting for the process.
pub fn done_event(status: Result<Option<i32>, String>) -> (r: LogEvent)
    ensures
        r == LogEvent::Done(
            match status {
                Ok(Some(code)) => Ok(code as u32),
                Ok(None) => Ok(0u32),
                Err(e) => Err(e),
            },
        ),
{
    match status {
        Ok(Some(code)) => LogEvent::Done(Ok(code as u32)),
        Ok(None) => LogEvent::Done(Ok(0)),
        Err(e) => LogEvent::Done(Err(e)),
    }
}

/// The events sent when the downloader could not be started: a log line
/// that says so, then the end of the run with the error.
pub fn launch_failure_events(err: String) -> (r: Vec<LogEvent>)
    ensures
        r@.len() == 2,
        r@[0] matches LogEvent::Line(l) && l@ == "启动失败："@ + err@,
        r@[1] == LogEvent::Done(Err(err)),
{
    let mut line = String::from_str("启动失败：");
    line.append(err.as_str());
    let mut r: Vec<LogEvent> = Vec::new();
    r.push(LogEvent::Line(line));
    r.push(LogEvent::Done(Err(err)));
    r
}

/// The log text for the end of a run.
pub open spec fn done_text(result: Result<u32, String>) -> Seq<char> {
    match result {
        Ok(code) => "进程结束，退出码 "@ + decimal_digits(code as nat) + "\n"@,
        Err(e) => "进程异常："@ + e@ + "\n"@,
    }
}

pub fn done_message(result: &Result<u32, String>) -> (r: String)
    ensures
        r@ == done_text(*result),
{
    match result {
        Ok(code) => {
            let mut s = String::from_str("进程结束，退出码 ");
            let d = decimal(*code);
            s.append(d.as_str());
            s.append("\n");
            s
        },
        Err(e) => {
            let mut s = String::from_str("进程异常：");
            s.append(e.as_str());
            s.append("\n");
            s
        },
    }
}

} // verus!
