//! Text shaping between streamed LLM output and speech synthesis: JSON command
//! removal, sentence segmentation and TTS-safe sanitisation.
use vstd::prelude::*;
use crate::config::SpeechOutputConfig;
use crate::unicode::{
    ascii_digit, char_is_alphanumeric, chars_of, char_is_whitespace, is_ascii_digit, is_unicode_alphanumeric,
    is_unicode_whitespace, nfc, nfc_normalized, copy_range, string_of, trim, trim_chars, trim_start,
};

verus! {

/// Characters that `sanitize_tts_text` treats as word separators.
pub open spec fn is_separator(c: char) -> bool {
    is_unicode_whitespace(c) || c == '_' || c == '-' || c == '\u{2013}' || c == '\u{2014}'
}

/// Punctuation that survives sanitisation.
pub open spec fn is_kept_punctuation(c: char) -> bool {
    c == '.' || c == ',' || c == '!' || c == '?' || c == ';' || c == ':'
}

/// Position `i` of `n` lies strictly between two ASCII digits.
pub open spec fn between_digits(n: Seq<char>, i: int) -> bool {
    &&& i > 0
    &&& is_ascii_digit(n[i - 1])
    &&& i + 1 < n.len()
    &&& is_ascii_digit(n[i + 1])
}

/// One character of sanitisation: the output so far and whether a space is pending. None of
/// the characters named here is alphanumeric, so they are told apart before the rest.
pub open spec fn sanitize_step(state: (Seq<char>, bool), n: Seq<char>, i: int) -> (Seq<char>, bool) {
    let (out, pending) = state;
    let c = n[i];
    if (c == '/' || c == '-') && between_digits(n, i) {
        (out.push(c), false)
    } else if is_separator(c) {
        (out, true)
    } else if is_kept_punctuation(c) {
        (out.push(c), false)
    } else if is_unicode_alphanumeric(c) {
        let spaced = if pending && out.len() > 0 { out.push(' ') } else { out };
        (spaced.push(c), false)
    } else {
        (out, pending)
    }
}

/// Sanitisation state after the first `k` characters of `n`.
pub open spec fn sanitize_prefix(n: Seq<char>, k: nat) -> (Seq<char>, bool)
    decreases k,
{
    if k == 0 {
        (Seq::empty(), false)
    } else {
        sanitize_step(sanitize_prefix(n, (k - 1) as nat), n, k - 1)
    }
}

/// The text handed to speech synthesis for `input`: NFC-normalised, markdown and emoji
/// dropped, separators collapsed to single spaces, and trimmed.
pub open spec fn sanitized(input: Seq<char>) -> Seq<char> {
    let n = nfc_normalized(input);
    trim(sanitize_prefix(n, n.len()).0)
}

/// Removes markup and symbols that speech synthesis would read aloud.
pub fn sanitize_tts_text(input: &str) -> (r: String)
    ensures
        r@ == sanitized(input@),
{
    let n = nfc(input);
    let mut out: Vec<char> = Vec::new();
    let mut pending = false;
    let mut i: usize = 0;
    while i < n.len()
        invariant
            i <= n@.len(),
            n@ == nfc_normalized(input@),
            (out@, pending) == sanitize_prefix(n@, i as nat),
        decreases n.len() - i,
    {
        let c = n[i];
        let between = i > 0 && ascii_digit(n[i - 1]) && i + 1 < n.len() && ascii_digit(n[i + 1]);
        if (c == '/' || c == '-') && between {
            pending = false;
            out.push(c);
        } else if char_is_whitespace(c) || c == '_' || c == '-' || c == '\u{2013}' || c == '\u{2014}' {
            pending = true;
        } else if c == '.' || c == ',' || c == '!' || c == '?' || c == ';' || c == ':' {
            pending = false;
            out.push(c);
        } else if char_is_alphanumeric(c) {
            if pending && out.len() > 0 {
                out.push(' ');
            }
            pending = false;
            out.push(c);
        }
        i = i + 1;
    }
    let trimmed = trim_chars(&out);
    string_of(&trimmed)
}


/// Whether `text` is one complete JSON document, as `serde_json::from_str::<Value>` decides.
pub uninterp spec fn is_json_document(text: Seq<char>) -> bool;

/// Calls `serde_json::from_str::<serde_json::Value>` and reports whether it succeeded.
#[verifier::external_body]
pub(crate) fn json_document_valid(text: &[char]) -> (b: bool)
    ensures
        b == is_json_document(text@),
{
    let text: String = text.iter().collect();
    serde_json::from_str::<serde_json::Value>(&text).is_ok()
}

/// The abstract state of a `JsonFilter`.
pub struct JsonScan {
    /// Characters of an unfinished `{...}` or `[...]` candidate.
    pub candidate: Seq<char>,
    /// Bracket nesting depth of the candidate; zero outside a candidate.
    pub depth: nat,
    pub in_string: bool,
    pub escaped: bool,
    /// The last character handed downstream.
    pub last_emitted: Option<char>,
    /// Drop one space that would follow a removed JSON command.
    pub skip_next_space: bool,
}

/// The state a new filter starts from.
pub open spec fn json_scan_initial() -> JsonScan {
    JsonScan {
        candidate: Seq::empty(),
        depth: 0,
        in_string: false,
        escaped: false,
        last_emitted: None,
        skip_next_space: false,
    }
}

/// Closing a bracketed candidate: a complete JSON document is removed (leaving at most one
/// space between words), anything else is passed through verbatim.
pub open spec fn json_close(st: JsonScan, cand: Seq<char>, ch: char) -> (JsonScan, Seq<char>) {
    if is_json_document(cand) {
        let spaced = match st.last_emitted {
            Some(c) => is_unicode_alphanumeric(c),
            None => false,
        };
        let last = if spaced { Some(' ') } else { st.last_emitted };
        (
            JsonScan {
                candidate: Seq::empty(),
                depth: 0,
                last_emitted: last,
                skip_next_space: last == Some(' '),
                ..st
            },
            if spaced { seq![' '] } else { Seq::empty() },
        )
    } else {
        (
            JsonScan {
                candidate: Seq::empty(),
                depth: 0,
                last_emitted: Some(ch),
                skip_next_space: false,
                ..st
            },
            cand,
        )
    }
}

/// One character through the filter: the next state and the characters it emits.
pub open spec fn json_step(st: JsonScan, ch: char) -> (JsonScan, Seq<char>) {
    if st.depth == 0 {
        if ch == '{' || ch == '[' {
            (JsonScan { depth: 1, candidate: st.candidate.push(ch), ..st }, Seq::empty())
        } else if st.skip_next_space && ch == ' ' {
            (JsonScan { skip_next_space: false, ..st }, Seq::empty())
        } else {
            (JsonScan { skip_next_space: false, last_emitted: Some(ch), ..st }, seq![ch])
        }
    } else {
        let cand = st.candidate.push(ch);
        let (escaped, in_string, depth) = if st.escaped {
            (false, st.in_string, st.depth)
        } else if ch == '\\' && st.in_string {
            (true, st.in_string, st.depth)
        } else if ch == '"' {
            (false, !st.in_string, st.depth)
        } else if !st.in_string {
            if ch == '{' || ch == '[' {
                (false, false, st.depth + 1)
            } else if ch == '}' || ch == ']' {
                (false, false, (st.depth - 1) as nat)
            } else {
                (false, false, st.depth)
            }
        } else {
            (false, st.in_string, st.depth)
        };
        if depth == 0 {
            json_close(JsonScan { escaped, in_string, ..st }, cand, ch)
        } else {
            (JsonScan { candidate: cand, escaped, in_string, depth, ..st }, Seq::empty())
        }
    }
}

/// The filter run over a whole text: the final state and everything emitted, in order.
pub open spec fn json_run(st: JsonScan, s: Seq<char>) -> (JsonScan, Seq<char>)
    decreases s.len(),
{
    if s.len() == 0 {
        (st, Seq::empty())
    } else {
        let (mid, first) = json_run(st, s.drop_last());
        let (end, last) = json_step(mid, s.last());
        (end, first + last)
    }
}

/// The JSON filter does not depend on how the stream is cut into deltas: filtering `a`
/// and then `b` leaves the same state and emits the same text as filtering `a + b` at once.
pub proof fn law_json_filter_is_chunking_invariant(st: JsonScan, a: Seq<char>, b: Seq<char>)
    ensures
        ({
            let (mid, first) = json_run(st, a);
            let (end, second) = json_run(mid, b);
            json_run(st, a + b) == (end, first + second)
        }),
    decreases b.len(),
{
    if b.len() == 0 {
        assert(a + b =~= a);
        assert(json_run(st, a).1 + Seq::<char>::empty() =~= json_run(st, a).1);
    } else {
        law_json_filter_is_chunking_invariant(st, a, b.drop_last());
        assert((a + b).drop_last() =~= a + b.drop_last());
        assert((a + b).last() == b.last());
        let (mid, first) = json_run(st, a);
        let (m2, o2) = json_run(mid, b.drop_last());
        let (e, o3) = json_step(m2, b.last());
        assert(first + (o2 + o3) =~= (first + o2) + o3);
    }
}

/// Removes inline JSON commands (such as `{"cmd": ...}`) from streamed LLM text, also when a
/// command spans several deltas; bracketed text that is not JSON is passed through.
pub struct JsonFilter {
    candidate: Vec<char>,
    depth: usize,
    in_string: bool,
    escaped: bool,
    last_emitted: Option<char>,
    skip_next_space: bool,
}

impl View for JsonFilter {
    type V = JsonScan;

    closed spec fn view(&self) -> JsonScan {
        JsonScan {
            candidate: self.candidate@,
            depth: self.depth as nat,
            in_string: self.in_string,
            escaped: self.escaped,
            last_emitted: self.last_emitted,
            skip_next_space: self.skip_next_space,
        }
    }
}

impl Default for JsonFilter {
    fn default() -> (f: Self)
        ensures
            f@ == json_scan_initial(),
    {
        JsonFilter {
            candidate: Vec::new(),
            depth: 0,
            in_string: false,
            escaped: false,
            last_emitted: None,
            skip_next_space: false,
        }
    }
}

impl JsonFilter {
    /// The filter's nesting depth never exceeds its buffered candidate.
    pub closed spec fn wf(&self) -> bool {
        self.depth <= self.candidate@.len()
    }

    pub fn new() -> (f: Self)
        ensures
            f@ == json_scan_initial(),
            f.wf(),
    {
        JsonFilter::default()
    }

    /// Characters held back while a bracketed candidate is still open.
    pub fn pending_chars(&self) -> (n: usize)
        ensures
            n == self@.candidate.len(),
    {
        self.candidate.len()
    }

    pub fn reset(&mut self)
        ensures
            final(self)@ == json_scan_initial(),
            final(self).wf(),
    {
        *self = JsonFilter::default();
    }

    fn step(&mut self, ch: char, output: &mut Vec<char>)
        requires
            old(self).wf(),
        ensures
            final(self).wf(),
            (final(self)@, final(output)@) == ({
                let (st, emitted) = json_step(old(self)@, ch);
                (st, old(output)@ + emitted)
            }),
    {
        if self.depth == 0 {
            if ch == '{' || ch == '[' {
                self.candidate.push(ch);
                self.depth = 1;
            } else if self.skip_next_space && ch == ' ' {
                self.skip_next_space = false;
                assert(output@ =~= old(output)@ + Seq::<char>::empty());
            } else {
                self.skip_next_space = false;
                output.push(ch);
                self.last_emitted = Some(ch);
                assert(output@ =~= old(output)@ + seq![ch]);
            }
            if ch == '{' || ch == '[' {
                assert(output@ =~= old(output)@ + Seq::<char>::empty());
            }
            return;
        }
        self.candidate.push(ch);
        let held = self.candidate.len();
        assert(self.depth < held);
        if self.escaped {
            self.escaped = false;
        } else if ch == '\\' && self.in_string {
            self.escaped = true;
        } else if ch == '"' {
            self.in_string = !self.in_string;
        } else if !self.in_string {
            if ch == '{' || ch == '[' {
                self.depth = self.depth + 1;
            } else if ch == '}' || ch == ']' {
                self.depth = self.depth - 1;
            }
        }
        if self.depth == 0 {
            if json_document_valid(&self.candidate) {
                let spaced = match self.last_emitted {
                    Some(c) => char_is_alphanumeric(c),
                    None => false,
                };
                if spaced {
                    output.push(' ');
                    self.last_emitted = Some(' ');
                    assert(output@ =~= old(output)@ + seq![' ']);
                } else {
                    assert(output@ =~= old(output)@ + Seq::<char>::empty());
                }
                self.skip_next_space = self.last_emitted == Some(' ');
            } else {
                let mut k: usize = 0;
                let ghost before = output@;
                while k < self.candidate.len()
                    invariant
                        k <= self.candidate@.len(),
                        output@ == before + self.candidate@.take(k as int),
                    decreases self.candidate@.len() - k,
                {
                    output.push(self.candidate[k]);
                    k = k + 1;
                    assert(output@ =~= before + self.candidate@.take(k as int));
                }
                assert(self.candidate@.take(k as int) =~= self.candidate@);
                self.last_emitted = Some(ch);
                self.skip_next_space = false;
            }
            self.candidate = Vec::new();
        } else {
            assert(output@ =~= old(output)@ + Seq::<char>::empty());
        }
    }

    /// Filters one streamed delta and returns the text that may be spoken now.
    pub fn push(&mut self, delta: &str) -> (r: String)
        requires
            old(self).wf(),
        ensures
            final(self).wf(),
            (final(self)@, r@) == json_run(old(self)@, delta@),
    {
        let d = chars_of(delta);
        let mut output: Vec<char> = Vec::new();
        let mut i: usize = 0;
        while i < d.len()
            invariant
                i <= d@.len(),
                d@ == delta@,
                self.wf(),
                (self@, output@) == json_run(old(self)@, d@.take(i as int)),
            decreases d.len() - i,
        {
            proof {
                assert(d@.take(i + 1).drop_last() =~= d@.take(i as int));
                assert(d@.take(i + 1).last() == d@[i as int]);
            }
            self.step(d[i], &mut output);
            i = i + 1;
        }
        assert(d@.take(i as int) =~= delta@);
        string_of(&output)
    }

    /// Ends the stream: an unfinished candidate is released as plain text.
    pub fn finish(&mut self) -> (r: String)
        ensures
            final(self).wf(),
            r@ == old(self)@.candidate,
            final(self)@ == (JsonScan {
                candidate: Seq::empty(),
                depth: 0,
                in_string: false,
                escaped: false,
                ..old(self)@
            }),
    {
        self.depth = 0;
        self.in_string = false;
        self.escaped = false;
        let r = string_of(&self.candidate);
        self.candidate = Vec::new();
        r
    }
}


/// Characters that may close a sentence right after its full stop.
pub open spec fn is_closing_mark(c: char) -> bool {
    c == '"' || c == '\'' || c == ')' || c == ']' || c == '\u{201d}' || c == '\u{2019}'
}

/// Punctuation that always ends a sentence.
pub open spec fn is_hard_stop(c: char) -> bool {
    c == '!' || c == '?' || c == '\u{3002}' || c == '\u{ff01}' || c == '\u{ff1f}'
}

/// Position `k` of `b` ends a sentence. A full stop ends one only when whitespace or a
/// closing mark follows it, or when it is the last character and follows a non-digit, so a
/// version number split across deltas is held back.
pub open spec fn is_sentence_end(b: Seq<char>, k: int) -> bool {
    let ch = b[k];
    ||| is_hard_stop(ch)
    ||| ch == '.' && if k + 1 < b.len() {
        is_unicode_whitespace(b[k + 1]) || is_closing_mark(b[k + 1])
    } else {
        k > 0 && !is_ascii_digit(b[k - 1])
    }
}

/// The first sentence end of `b` at or after position `i`.
pub open spec fn first_sentence_end(b: Seq<char>, i: int) -> Option<int>
    decreases b.len() - i,
{
    if i < 0 || i >= b.len() {
        None
    } else if is_sentence_end(b, i) {
        Some(i)
    } else {
        first_sentence_end(b, i + 1)
    }
}

/// Splits `b` into its complete sentences, trimmed and with empty ones dropped, and the
/// unfinished remainder.
pub open spec fn split_sentences(b: Seq<char>) -> (Seq<Seq<char>>, Seq<char>)
    decreases b.len(),
{
    match first_sentence_end(b, 0) {
        Some(k) => if 0 <= k < b.len() {
            let segment = trim(b.take(k + 1));
            let (more, rest) = split_sentences(b.skip(k + 1));
            (if segment.len() > 0 { seq![segment] + more } else { more }, rest)
        } else {
            (Seq::empty(), b)
        },
        None => (Seq::empty(), b),
    }
}

/// The character sequences of a list of strings.
pub open spec fn strings_view(v: Seq<String>) -> Seq<Seq<char>> {
    v.map_values(|s: String| s@)
}

proof fn lemma_first_sentence_end_bounds(b: Seq<char>, i: int)
    ensures
        first_sentence_end(b, i) matches Some(k) ==> 0 <= i <= k < b.len() && is_sentence_end(b, k),
    decreases b.len() - i,
{
    if 0 <= i < b.len() && !is_sentence_end(b, i) {
        lemma_first_sentence_end_bounds(b, i + 1);
    }
}

/// Finds the first sentence end of `b[start..]`, as an index into `b`.
fn find_sentence_end(b: &Vec<char>, start: usize) -> (r: Option<usize>)
    requires
        start <= b@.len(),
    ensures
        match r {
            Some(p) => start <= p < b@.len() && first_sentence_end(b@.skip(start as int), 0)
                == Some(p - start),
            None => first_sentence_end(b@.skip(start as int), 0) is None,
        },
{
    let ghost rem = b@.skip(start as int);
    let mut p: usize = start;
    while p < b.len()
        invariant
            start <= p <= b@.len(),
            rem == b@.skip(start as int),
            first_sentence_end(rem, 0) == first_sentence_end(rem, p - start),
        decreases b.len() - p,
    {
        let ch = b[p];
        let hard = ch == '!' || ch == '?' || ch == '\u{3002}' || ch == '\u{ff01}' || ch == '\u{ff1f}';
        let dot = if ch != '.' {
            false
        } else if p + 1 < b.len() {
            let next = b[p + 1];
            char_is_whitespace(next) || next == '"' || next == '\'' || next == ')' || next == ']'
                || next == '\u{201d}' || next == '\u{2019}'
        } else {
            p > start && !ascii_digit(b[p - 1])
        };
        assert(rem[p - start] == b@[p as int]);
        assert(p + 1 < b@.len() ==> rem[p - start + 1] == b@[p + 1]);
        assert(p > start ==> rem[p - start - 1] == b@[p - 1]);
        if hard || dot {
            assert(is_sentence_end(rem, p - start));
            return Some(p);
        }
        assert(!is_sentence_end(rem, p - start));
        p = p + 1;
    }
    None
}

/// Splits streamed text at complete sentence boundaries; an unfinished sentence is held
/// until its end arrives or the stream finishes, however long it grows.
pub struct SentenceSegmenter {
    config: SpeechOutputConfig,
    buffer: Vec<char>,
}

impl SentenceSegmenter {
    /// The text held back as an unfinished sentence.
    pub closed spec fn buffered(&self) -> Seq<char> {
        self.buffer@
    }

    /// The configuration the segmenter was made with.
    pub closed spec fn spec_config(&self) -> SpeechOutputConfig {
        self.config
    }

    pub fn new(config: SpeechOutputConfig) -> (s: Self)
        ensures
            s.buffered() == Seq::<char>::empty(),
            s.spec_config() == config,
    {
        SentenceSegmenter { config, buffer: Vec::new() }
    }

    pub fn config(&self) -> (c: &SpeechOutputConfig)
        ensures
            *c == self.spec_config(),
    {
        &self.config
    }

    /// Characters held back as an unfinished sentence.
    pub fn buffered_chars(&self) -> (n: usize)
        ensures
            n == self.buffered().len(),
    {
        self.buffer.len()
    }

    pub fn reset(&mut self)
        ensures
            final(self).buffered() == Seq::<char>::empty(),
            final(self).spec_config() == old(self).spec_config(),
    {
        self.buffer = Vec::new();
    }

    /// Appends a delta and returns every sentence it completes, in order.
    pub fn push(&mut self, delta: &str) -> (r: Vec<String>)
        ensures
            strings_view(r@) == split_sentences(old(self).buffered() + delta@).0,
            final(self).buffered() == split_sentences(old(self).buffered() + delta@).1,
            final(self).spec_config() == old(self).spec_config(),
    {
        let d = chars_of(delta);
        let mut i: usize = 0;
        let ghost before = self.buffer@;
        while i < d.len()
            invariant
                i <= d@.len(),
                self.buffer@ == before + d@.take(i as int),
                self.config == old(self).config,
                before == old(self).buffer@,
            decreases d.len() - i,
        {
            self.buffer.push(d[i]);
            i = i + 1;
            assert(self.buffer@ =~= before + d@.take(i as int));
        }
        assert(d@.take(i as int) =~= delta@);
        let ghost all = self.buffer@;
        let mut segments: Vec<String> = Vec::new();
        let mut start: usize = 0;
        assert(all.skip(0) =~= all);
        loop
            invariant
                start <= self.buffer@.len(),
                self.buffer@ == all,
                all == old(self).buffer@ + delta@,
                self.config == old(self).config,
                split_sentences(all).0 == strings_view(segments@) + split_sentences(
                    all.skip(start as int),
                ).0,
                split_sentences(all).1 == split_sentences(all.skip(start as int)).1,
            decreases self.buffer@.len() - start,
        {
            let ghost rem = all.skip(start as int);
            proof {
                lemma_first_sentence_end_bounds(rem, 0);
            }
            let held = self.buffer.len();
            match find_sentence_end(&self.buffer, start) {
                Some(p) => {
                    let piece = copy_range(&self.buffer, start, p + 1);
                    let trimmed = trim_chars(&piece);
                    proof {
                        let k = p - start;
                        assert(rem.take(k + 1) =~= piece@);
                        assert(rem.skip(k + 1) =~= all.skip(p + 1));
                    }
                    if trimmed.len() > 0 {
                        let s = string_of(&trimmed);
                        let ghost old_segments = segments@;
                        segments.push(s);
                        proof {
                            assert(strings_view(segments@) =~= strings_view(old_segments) + seq![
                                s@,
                            ]);
                            assert(seq![s@] + split_sentences(all.skip(p + 1)).0 == split_sentences(
                                rem,
                            ).0);
                            assert(strings_view(old_segments) + (seq![s@] + split_sentences(
                                all.skip(p + 1),
                            ).0) =~= strings_view(segments@) + split_sentences(
                                all.skip(p + 1),
                            ).0);
                        }
                    }
                    start = p + 1;
                },
                None => {
                    let rest = copy_range(&self.buffer, start, self.buffer.len());
                    assert(rest@ =~= rem);
                    assert(split_sentences(rem) == (Seq::<Seq<char>>::empty(), rem));
                    assert(all == old(self).buffer@ + delta@);
                    assert(strings_view(segments@) + Seq::<Seq<char>>::empty() =~= strings_view(
                        segments@,
                    ));
                    self.buffer = rest;
                    return segments;
                },
            }
        }
    }

    /// Ends the stream: the held text, trimmed, if any remains.
    pub fn finish(&mut self) -> (r: Option<String>)
        ensures
            final(self).buffered() == Seq::<char>::empty(),
            final(self).spec_config() == old(self).spec_config(),
            match r {
                Some(s) => s@ == trim(old(self).buffered()) && s@.len() > 0,
                None => trim(old(self).buffered()).len() == 0,
            },
    {
        let text = trim_chars(&self.buffer);
        self.buffer = Vec::new();
        if text.len() > 0 {
            Some(string_of(&text))
        } else {
            None
        }
    }
}

/// Sanitisation keeps a date or time separator: a `-` or `/` whose neighbours are both ASCII
/// digits is copied to the output right after what precedes it, with no word break pending,
/// so the digits on either side stay joined to it (`2026-09-23`, `23/09/2026`).
pub proof fn law_separator_between_digits_is_kept(n: Seq<char>, i: int)
    requires
        0 < i,
        i + 1 < n.len(),
        n[i] == '-' || n[i] == '/',
        '0' <= n[i - 1] <= '9',
        '0' <= n[i + 1] <= '9',
    ensures
        sanitize_prefix(n, (i + 1) as nat) == (sanitize_prefix(n, i as nat).0.push(n[i]), false),
{
}

/// Elsewhere a hyphen is a word break: it adds nothing to the output and leaves a single
/// space pending before the next word.
pub proof fn law_hyphen_elsewhere_breaks_words(n: Seq<char>, i: int)
    requires
        0 <= i < n.len(),
        n[i] == '-',
        !(0 < i && i + 1 < n.len() && '0' <= n[i - 1] <= '9' && '0' <= n[i + 1] <= '9'),
    ensures
        sanitize_prefix(n, (i + 1) as nat) == (sanitize_prefix(n, i as nat).0, true),
{
}

/// When a bracketed candidate closes as one complete JSON document, it is removed, and in
/// its place the filter emits exactly one space when the character emitted before it was
/// alphanumeric, and nothing otherwise; a space that follows the removed document is then
/// dropped, so the words around it stay one space apart.
pub proof fn law_removed_json_leaves_one_space_between_words(st: JsonScan, ch: char)
    requires
        st.depth == 1,
        !st.escaped,
        !st.in_string,
        ch == '}' || ch == ']',
        is_json_document(st.candidate.push(ch)),
    ensures
        ({
            let (next, emitted) = json_step(st, ch);
            &&& next.depth == 0
            &&& next.candidate.len() == 0
            &&& (st.last_emitted matches Some(c) && is_unicode_alphanumeric(c)) ==> emitted
                == seq![' '] && next.skip_next_space && next.last_emitted == Some(' ')
            &&& !(st.last_emitted matches Some(c) && is_unicode_alphanumeric(c)) ==> emitted.len()
                == 0
            &&& st.last_emitted == Some(' ') ==> next.skip_next_space
            &&& next.skip_next_space ==> json_step(next, ' ').1.len() == 0
        }),
{
}

/// Any of the characters that can end a sentence: the full stop, `!`, `?`, `。`, `！`, `？`.
pub open spec fn is_sentence_mark(c: char) -> bool {
    c == '.' || c == '!' || c == '?' || c == '\u{3002}' || c == '\u{ff01}' || c == '\u{ff1f}'
}

proof fn lemma_no_end_before(b: Seq<char>, i: int, k: int)
    requires
        0 <= i <= k < b.len(),
        forall|j: int| 0 <= j < k ==> !is_sentence_mark(#[trigger] b[j]),
        is_sentence_end(b, k),
    ensures
        first_sentence_end(b, i) == Some(k),
    decreases k - i,
{
    if i < k {
        assert(!is_sentence_mark(b[i]));
        lemma_no_end_before(b, i + 1, k);
    }
}

proof fn lemma_no_end_at_all(b: Seq<char>, i: int)
    requires
        0 <= i <= b.len(),
        forall|j: int| 0 <= j < b.len() && is_sentence_mark(#[trigger] b[j]) ==> b[j] == '.' && (
        if j + 1 < b.len() {
            let d = b[j + 1];
            !(is_unicode_whitespace(d) || d == '"' || d == '\'' || d == ')' || d == ']' || d
                == '\u{201d}' || d == '\u{2019}')
        } else {
            j == 0 || '0' <= b[j - 1] <= '9'
        }),
    ensures
        first_sentence_end(b, i) is None,
    decreases b.len() - i,
{
    if i < b.len() {
        assert(is_sentence_mark(b[i]) || !is_sentence_mark(b[i]));
        lemma_no_end_at_all(b, i + 1);
    }
}

proof fn lemma_trim_keeps_a_visible_end(s: Seq<char>)
    requires
        s.len() > 0,
        !is_unicode_whitespace(s.last()),
    ensures
        trim(s).len() > 0,
        trim_start(s).len() > 0,
        trim_start(s).last() == s.last(),
    decreases s.len(),
{
    if is_unicode_whitespace(s[0]) {
        assert(s.len() > 1);
        assert(s.drop_first().last() == s.last());
        lemma_trim_keeps_a_visible_end(s.drop_first());
    }
}

/// A sentence is released as soon as its end arrives. When `b` holds no sentence mark before
/// position `k`, and position `k` is `!`, `?`, `。`, `！` or `？`, a full stop directly
/// followed by white space or by one of the closing marks `"` `'` `)` `]` `”` `’`, or a full
/// stop that ends `b` right after something other than an ASCII digit, then the
/// first sentence split off `b` is `b[..=k]` trimmed (never empty), and what follows is split
/// on its own.
pub proof fn law_sentence_completes_at_its_end(b: Seq<char>, k: int)
    requires
        0 <= k < b.len(),
        forall|j: int| 0 <= j < k ==> !is_sentence_mark(#[trigger] b[j]),
        ({
            let c = b[k];
            ||| c == '!' || c == '?' || c == '\u{3002}' || c == '\u{ff01}' || c == '\u{ff1f}'
            ||| c == '.' && k + 1 < b.len() && ({
                let d = b[k + 1];
                is_unicode_whitespace(d) || d == '"' || d == '\'' || d == ')' || d == ']' || d
                    == '\u{201d}' || d == '\u{2019}'
            })
            ||| c == '.' && k + 1 == b.len() && k > 0 && !('0' <= b[k - 1] <= '9')
        }),
    ensures
        trim(b.take(k + 1)).len() > 0,
        split_sentences(b) == (
            seq![trim(b.take(k + 1))] + split_sentences(b.skip(k + 1)).0,
            split_sentences(b.skip(k + 1)).1,
        ),
{
    lemma_no_end_before(b, 0, k);
    assert(b.take(k + 1).last() == b[k]);
    lemma_trim_keeps_a_visible_end(b.take(k + 1));
}

/// Text completes no sentence, and is held whole, when each sentence mark in it is a full
/// stop inside a word or number (followed by something that is neither white space nor a
/// closing mark, as in `3.14` or `v1.2`), or a full stop that ends the text right after an
/// ASCII digit or at its very start, where more text may still make it a decimal point.
pub proof fn law_text_without_sentence_end_is_held(b: Seq<char>)
    requires
        forall|j: int| 0 <= j < b.len() && is_sentence_mark(#[trigger] b[j]) ==> b[j] == '.' && (
        if j + 1 < b.len() {
            let d = b[j + 1];
            !(is_unicode_whitespace(d) || d == '"' || d == '\'' || d == ')' || d == ']' || d
                == '\u{201d}' || d == '\u{2019}')
        } else {
            j == 0 || '0' <= b[j - 1] <= '9'
        }),
    ensures
        split_sentences(b) == (Seq::<Seq<char>>::empty(), b),
{
    lemma_no_end_at_all(b, 0);
}

/// Each character class of sanitisation, from the state before the character: word
/// separators (white space, `_`, `–`, `—`, and a hyphen not between digits) add nothing and
/// leave one space pending; the punctuation `. , ! ? ; :` is kept and cancels a pending space;
/// an alphanumeric character is appended, after one space when a space was pending and
/// something precedes it; anything else (markdown, emoji, symbols) is dropped.
pub proof fn law_sanitize_character_classes(n: Seq<char>, i: int)
    requires
        0 <= i < n.len(),
    ensures
        ({
            let (out, pending) = sanitize_prefix(n, i as nat);
            let c = n[i];
            let next = sanitize_prefix(n, (i + 1) as nat);
            let digits_around = 0 < i && i + 1 < n.len() && '0' <= n[i - 1] <= '9' && '0' <= n[i
                + 1] <= '9';
            let named = is_unicode_whitespace(c) || c == '_' || c == '-' || c == '/' || c
                == '\u{2013}' || c == '\u{2014}' || c == '.' || c == ',' || c == '!' || c == '?'
                || c == ';' || c == ':';
            &&& (is_unicode_whitespace(c) || c == '_' || c == '\u{2013}' || c == '\u{2014}' || (c
                == '-' && !digits_around)) ==> next == (out, true)
            &&& (c == '.' || c == ',' || c == '!' || c == '?' || c == ';' || c == ':') ==> next == (
                out.push(c),
                false,
            )
            &&& (is_unicode_alphanumeric(c) && !named) ==> next == (
                if pending && out.len() > 0 {
                    out.push(' ')
                } else {
                    out
                }.push(c),
                false,
            )
            &&& (!is_unicode_alphanumeric(c) && !named) ==> next == (out, pending)
        }),
{
}

/// A text in which every space stands alone between two other characters, and which holds
/// no other white space.
pub open spec fn single_spaced(s: Seq<char>) -> bool {
    forall|k: int|
        0 <= k < s.len() && is_unicode_whitespace(#[trigger] s[k]) ==> s[k] == ' ' && 0 < k && k + 1
            < s.len() && s[k - 1] != ' ' && s[k + 1] != ' '
}

proof fn lemma_sanitize_prefix_shape(n: Seq<char>, k: nat)
    requires
        k <= n.len(),
    ensures
        ({
            let (out, pending) = sanitize_prefix(n, k);
            &&& forall|j: int|
                0 <= j < out.len() && is_unicode_whitespace(#[trigger] out[j]) ==> out[j] == ' ' && 0
                    < j && j + 1 < out.len() && out[j - 1] != ' ' && out[j + 1] != ' '
            &&& out.len() > 0 ==> !is_unicode_whitespace(out.last())
        }),
    decreases k,
{
    if k > 0 {
        lemma_sanitize_prefix_shape(n, (k - 1) as nat);
        let (out, pending) = sanitize_prefix(n, (k - 1) as nat);
        let c = n[k - 1];
        let (o2, p2) = sanitize_prefix(n, k);
        if o2 != out {
            if o2.len() == out.len() + 2 {
                assert(o2 == out.push(' ').push(c));
                assert(o2[out.len() as int] == ' ');
                assert forall|j: int|
                    0 <= j < o2.len() && is_unicode_whitespace(#[trigger] o2[j]) implies o2[j] == ' '
                    && 0 < j && j + 1 < o2.len() && o2[j - 1] != ' ' && o2[j + 1] != ' ' by {
                    if j < out.len() {
                        assert(o2[j] == out[j]);
                        if j + 1 < out.len() {
                            assert(o2[j + 1] == out[j + 1]);
                        }
                        if j > 0 {
                            assert(o2[j - 1] == out[j - 1]);
                        }
                    }
                }
            } else {
                assert(o2 == out.push(c));
                assert forall|j: int|
                    0 <= j < o2.len() && is_unicode_whitespace(#[trigger] o2[j]) implies o2[j] == ' '
                    && 0 < j && j + 1 < o2.len() && o2[j - 1] != ' ' && o2[j + 1] != ' ' by {
                    assert(o2[j] == out[j]);
                    if j + 1 < out.len() {
                        assert(o2[j + 1] == out[j + 1]);
                    }
                    if j > 0 {
                        assert(o2[j - 1] == out[j - 1]);
                    }
                }
            }
        }
    }
}

/// Separators collapse: the sanitised text of any prefix holds no white space but single
/// spaces, each between two other characters, so there are never two spaces in a row and
/// none at either end.
pub proof fn law_sanitized_text_is_single_spaced(n: Seq<char>, k: nat)
    requires
        k <= n.len(),
    ensures
        single_spaced(sanitize_prefix(n, k).0),
{
    lemma_sanitize_prefix_shape(n, k);
}

/// Text outside brackets is passed through untouched: from a state outside any candidate
/// and not about to drop a space, a text with no `{` or `[` is emitted as it is.
pub proof fn law_plain_text_passes_the_json_filter(st: JsonScan, s: Seq<char>)
    requires
        st.depth == 0,
        !st.skip_next_space,
        forall|j: int| 0 <= j < s.len() ==> #[trigger] s[j] != '{' && s[j] != '[',
    ensures
        json_run(st, s).1 == s,
        json_run(st, s).0.depth == 0,
        !json_run(st, s).0.skip_next_space,
    decreases s.len(),
{
    if s.len() > 0 {
        assert forall|j: int| 0 <= j < s.drop_last().len() implies #[trigger] s.drop_last()[j]
            != '{' && s.drop_last()[j] != '[' by {
            assert(s.drop_last()[j] == s[j]);
        }
        law_plain_text_passes_the_json_filter(st, s.drop_last());
        assert(s[s.len() - 1] == s.last());
        assert(s.drop_last() + seq![s.last()] =~= s);
    }
}

/// Bracketed text that is not JSON is not lost: when a candidate closes and is not one
/// complete JSON document, every character of it is emitted, in order.
pub proof fn law_non_json_brackets_pass_verbatim(st: JsonScan, ch: char)
    requires
        st.depth == 1,
        !st.escaped,
        !st.in_string,
        ch == '}' || ch == ']',
        !is_json_document(st.candidate.push(ch)),
    ensures
        json_step(st, ch).1 == st.candidate.push(ch),
        json_step(st, ch).0.depth == 0,
{
}

} // verus!
