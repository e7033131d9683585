//! Text as sequences of characters: whitespace, lines, words and trimming.
//!
//! Every function here works on the characters of a text, so that an index
//! always names a character and never a byte inside one.

use vstd::prelude::*;
use vstd::slice::{slice_subrange, slice_to_vec};

verus! {

/// Whether `c` has the Unicode property `White_Space`.
pub open spec fn is_whitespace(c: char) -> bool {
    let u = c as u32;
    ||| 0x09 <= u <= 0x0D
    ||| u == 0x20
    ||| u == 0x85
    ||| u == 0xA0
    ||| u == 0x1680
    ||| 0x2000 <= u <= 0x200A
    ||| u == 0x2028
    ||| u == 0x2029
    ||| u == 0x202F
    ||| u == 0x205F
    ||| u == 0x3000
}

/// A line without the carriage return that may stand before its line feed.
pub open spec fn strip_cr(line: Seq<char>) -> Seq<char> {
    if line.len() > 0 && line.last() == '\r' {
        line.drop_last()
    } else {
        line
    }
}

/// The lines of `text` from `pos` on, where the line in progress began at
/// `start` and holds no line feed up to `pos`.
pub open spec fn lines_from(text: Seq<char>, start: int, pos: int) -> Seq<Seq<char>>
    decreases text.len() - pos,
{
    if pos >= text.len() {
        if start < text.len() {
            seq![text.subrange(start, text.len() as int)]
        } else {
            seq![]
        }
    } else if text[pos] == '\n' {
        seq![strip_cr(text.subrange(start, pos))] + lines_from(text, pos + 1, pos + 1)
    } else {
        lines_from(text, start, pos + 1)
    }
}

/// The lines of `text`. A line ends at a line feed, or at a carriage return
/// followed by one; neither belongs to the line. What follows the last line
/// feed is a line only if it is not empty, and keeps a carriage return at its
/// end.
pub open spec fn lines(text: Seq<char>) -> Seq<Seq<char>> {
    lines_from(text, 0, 0)
}

/// The word that ends just before `pos`, if one began at `start`.
pub open spec fn word_before(text: Seq<char>, start: int, pos: int) -> Seq<Seq<char>> {
    if start < pos {
        seq![text.subrange(start, pos)]
    } else {
        seq![]
    }
}

/// The words of `text` from `pos` on, where the characters from `start` up to
/// `pos` are no whitespace.
pub open spec fn words_from(text: Seq<char>, start: int, pos: int) -> Seq<Seq<char>>
    decreases text.len() - pos,
{
    if pos >= text.len() {
        word_before(text, start, text.len() as int)
    } else if is_whitespace(text[pos]) {
        word_before(text, start, pos) + words_from(text, pos + 1, pos + 1)
    } else {
        words_from(text, start, pos + 1)
    }
}

/// The words of `text`: its longest runs of characters that are no
/// whitespace, in order.
pub open spec fn words(text: Seq<char>) -> Seq<Seq<char>> {
    words_from(text, 0, 0)
}

/// `text` without the whitespace at its start.
pub open spec fn trim_start(text: Seq<char>) -> Seq<char>
    decreases text.len(),
{
    if text.len() > 0 && is_whitespace(text[0]) {
        trim_start(text.drop_first())
    } else {
        text
    }
}

/// `text` without the whitespace at its end.
pub open spec fn trim_end(text: Seq<char>) -> Seq<char>
    decreases text.len(),
{
    if text.len() > 0 && is_whitespace(text.last()) {
        trim_end(text.drop_last())
    } else {
        text
    }
}

/// `text` without the whitespace at its start and at its end.
pub open spec fn trim(text: Seq<char>) -> Seq<char> {
    trim_end(trim_start(text))
}

/// A stretch of a text: its characters from `start` up to `end`.
#[derive(Debug, Clone, Copy, PartialEq, Eq)]
pub struct Span {
    pub start: usize,
    pub end: usize,
}

impl Span {
    /// Whether the stretch lies in a text of `len` characters.
    pub open spec fn within(self, len: nat) -> bool {
        self.start <= self.end <= len
    }

    /// The characters of `text` that the stretch covers.
    pub open spec fn of(self, text: Seq<char>) -> Seq<char> {
        text.subrange(self.start as int, self.end as int)
    }
}

/// What each of `spans` covers of `text`, in order.
pub open spec fn cuts(text: Seq<char>, spans: Seq<Span>) -> Seq<Seq<char>> {
    spans.map_values(|span: Span| span.of(text))
}

/// Whether each of `spans` lies in a text of `len` characters.
pub open spec fn all_within(spans: Seq<Span>, len: nat) -> bool {
    forall|i: int| 0 <= i < spans.len() ==> (#[trigger] spans[i]).within(len)
}

/// The characters of `s`, in order.
pub fn to_chars(s: &str) -> (chars: Vec<char>)
    ensures
        chars@ == s@,
{
    let mut chars: Vec<char> = Vec::new();
    for c in it: s.chars()
        invariant
            chars@ == it.seq().take(it.index() as int),
    {
        chars.push(c);
    }
    chars
}

/// Tells whether `c` is whitespace.
pub fn char_is_whitespace(c: char) -> (b: bool)
    ensures
        b == is_whitespace(c),
{
    let u: u32 = c as u32;
    (0x09 <= u && u <= 0x0D) || u == 0x20 || u == 0x85 || u == 0xA0 || u == 0x1680 || (0x2000 <= u
        && u <= 0x200A) || u == 0x2028 || u == 0x2029 || u == 0x202F || u == 0x205F || u == 0x3000
}

/// A copy of the characters of `text` that `span` covers.
pub fn copy_span(text: &Vec<char>, span: Span) -> (part: Vec<char>)
    requires
        span.within(text@.len()),
    ensures
        part@ == span.of(text@),
{
    slice_to_vec(slice_subrange(text.as_slice(), span.start, span.end))
}

/// The part of `text` that `span` covers. The time it takes grows with the
/// place of the stretch's end in the text.
pub fn cut<'a>(text: &'a str, span: Span) -> (part: &'a str)
    requires
        span.within(text@.len()),
    ensures
        part@ == span.of(text@),
{
    text.substring_char(span.start, span.end)
}

/// Finds the lines of `text`.
pub fn line_spans(text: &Vec<char>) -> (out: Vec<Span>)
    ensures
        all_within(out@, text@.len()),
        cuts(text@, out@) == lines(text@),
{
    let mut out: Vec<Span> = Vec::new();
    let mut start: usize = 0;
    let mut pos: usize = 0;
    while pos < text.len()
        invariant
            start <= pos <= text.len(),
            all_within(out@, text@.len()),
            cuts(text@, out@) + lines_from(text@, start as int, pos as int) == lines(text@),
        decreases text.len() - pos,
    {
        if text[pos] == '\n' {
            let mut end: usize = pos;
            if start < end && text[end - 1] == '\r' {
                end = end - 1;
            }
            let line = Span { start, end };
            proof {
                let whole = text@.subrange(start as int, pos as int);
                assert(line.of(text@) == strip_cr(whole));
                assert(cuts(text@, out@.push(line)) == cuts(text@, out@) + seq![line.of(text@)]);
            }
            out.push(line);
            start = pos + 1;
        }
        pos = pos + 1;
    }
    if start < text.len() {
        let line = Span { start, end: text.len() };
        proof {
            assert(cuts(text@, out@.push(line)) == cuts(text@, out@) + seq![line.of(text@)]);
        }
        out.push(line);
    }
    out
}

/// Finds the words of `text`.
pub fn word_spans(text: &Vec<char>) -> (out: Vec<Span>)
    ensures
        all_within(out@, text@.len()),
        cuts(text@, out@) == words(text@),
{
    let mut out: Vec<Span> = Vec::new();
    let mut start: usize = 0;
    let mut pos: usize = 0;
    while pos < text.len()
        invariant
            start <= pos <= text.len(),
            all_within(out@, text@.len()),
            cuts(text@, out@) + words_from(text@, start as int, pos as int) == words(text@),
        decreases text.len() - pos,
    {
        if char_is_whitespace(text[pos]) {
            if start < pos {
                let word = Span { start, end: pos };
                proof {
                    assert(cuts(text@, out@.push(word)) == cuts(text@, out@) + seq![
                        word.of(text@),
                    ]);
                }
                out.push(word);
            }
            start = pos + 1;
        }
        pos = pos + 1;
    }
    if start < text.len() {
        let word = Span { start, end: text.len() };
        proof {
            assert(cuts(text@, out@.push(word)) == cuts(text@, out@) + seq![word.of(text@)]);
        }
        out.push(word);
    }
    out
}

/// Finds what is left of `text` without the whitespace at both ends.
pub fn trim_span(text: &Vec<char>) -> (span: Span)
    ensures
        span.within(text@.len()),
        span.of(text@) == trim(text@),
{
    let mut from: usize = 0;
    assert(text@.skip(0) == text@);
    while from < text.len() && char_is_whitespace(text[from])
        invariant
            from <= text.len(),
            trim_start(text@) == trim_start(text@.skip(from as int)),
        decreases text.len() - from,
    {
        proof {
            assert(text@.skip(from as int).drop_first() == text@.skip(from as int + 1));
        }
        from = from + 1;
    }
    assert(text@.skip(from as int) == text@.subrange(from as int, text.len() as int));
    let mut to: usize = text.len();
    while from < to && char_is_whitespace(text[to - 1])
        invariant
            from <= to <= text.len(),
            trim(text@) == trim_end(text@.subrange(from as int, to as int)),
        decreases to,
    {
        proof {
            assert(text@.subrange(from as int, to as int).drop_last() == text@.subrange(
                from as int,
                to as int - 1,
            ));
        }
        to = to - 1;
    }
    Span { start: from, end: to }
}

/// Whether `word` is a run of characters that are no whitespace, and not
/// empty.
pub open spec fn is_word(word: Seq<char>) -> bool {
    word.len() > 0 && forall|i: int| 0 <= i < word.len() ==> !is_whitespace(#[trigger] word[i])
}

/// Whether `line` holds no line feed.
pub open spec fn is_line(line: Seq<char>) -> bool {
    forall|i: int| 0 <= i < line.len() ==> #[trigger] line[i] != '\n'
}

/// From a word in progress on, every word is one.
proof fn lemma_words_from(text: Seq<char>, start: int, pos: int)
    requires
        0 <= start <= pos <= text.len(),
        forall|i: int| start <= i < pos ==> !is_whitespace(#[trigger] text[i]),
    ensures
        forall|k: int|
            0 <= k < words_from(text, start, pos).len() ==> is_word(
                #[trigger] words_from(text, start, pos)[k],
            ),
    decreases text.len() - pos,
{
    let all = words_from(text, start, pos);
    if pos >= text.len() {
        assert forall|k: int| 0 <= k < all.len() implies is_word(#[trigger] all[k]) by {
            assert(all[k] == text.subrange(start, pos));
        }
    } else if is_whitespace(text[pos]) {
        lemma_words_from(text, pos + 1, pos + 1);
        let head = word_before(text, start, pos);
        let tail = words_from(text, pos + 1, pos + 1);
        assert forall|k: int| 0 <= k < all.len() implies is_word(#[trigger] all[k]) by {
            if k < head.len() {
                assert(all[k] == text.subrange(start, pos));
            } else {
                assert(all[k] == tail[k - head.len()]);
            }
        }
    } else {
        lemma_words_from(text, start, pos + 1);
        assert(all == words_from(text, start, pos + 1));
    }
}

/// From a line in progress on, no line holds a line feed.
proof fn lemma_lines_from(text: Seq<char>, start: int, pos: int)
    requires
        0 <= start <= pos <= text.len(),
        forall|i: int| start <= i < pos ==> #[trigger] text[i] != '\n',
    ensures
        forall|k: int|
            0 <= k < lines_from(text, start, pos).len() ==> is_line(
                #[trigger] lines_from(text, start, pos)[k],
            ),
    decreases text.len() - pos,
{
    let all = lines_from(text, start, pos);
    if pos >= text.len() {
        assert forall|k: int| 0 <= k < all.len() implies is_line(#[trigger] all[k]) by {
            assert(all[k] == text.subrange(start, pos));
        }
    } else if text[pos] == '\n' {
        lemma_lines_from(text, pos + 1, pos + 1);
        let whole = text.subrange(start, pos);
        let tail = lines_from(text, pos + 1, pos + 1);
        assert(is_line(whole));
        assert(is_line(strip_cr(whole)));
        assert forall|k: int| 0 <= k < all.len() implies is_line(#[trigger] all[k]) by {
            if k == 0 {
                assert(all[k] == strip_cr(whole));
            } else {
                assert(all[k] == tail[k - 1]);
            }
        }
    } else {
        lemma_lines_from(text, start, pos + 1);
        assert(all == lines_from(text, start, pos + 1));
    }
}

/// Every word of a text is a run of characters that are no whitespace, and
/// not empty.
pub proof fn lemma_words_hold_no_whitespace(text: Seq<char>)
    ensures
        forall|k: int| 0 <= k < words(text).len() ==> is_word(#[trigger] words(text)[k]),
{
    lemma_words_from(text, 0, 0);
}

/// No line of a text holds a line feed.
pub proof fn lemma_lines_hold_no_line_feed(text: Seq<char>)
    ensures
        forall|k: int| 0 <= k < lines(text).len() ==> is_line(#[trigger] lines(text)[k]),
{
    lemma_lines_from(text, 0, 0);
}

} // verus!
