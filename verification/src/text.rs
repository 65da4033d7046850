//! Characters, words and lines: the text layer under the protocol.
//!
//! Everything here is stated over sequences of characters. Strings are turned
//! into character vectors on the way in and built character by character on
//! the way out.

use vstd::prelude::*;
use vstd::string::StringExecFns;
use vstd::utf8::{decode_utf8, valid_utf8};

verus! {

/// `String::push` appends one character to the end of the string.
pub assume_specification[ String::push ](s: &mut String, ch: char)
    ensures
        final(s)@ == old(s)@.push(ch),
;

/// `str::from_utf8` reads bytes as text: there is a text if and only if the
/// bytes are valid UTF-8, and it is made of the characters that they encode.
#[verifier::external_body]
pub(crate) fn utf8_text(bytes: &[u8]) -> (text: Option<&str>)
    ensures
        text is Some <==> valid_utf8(bytes@),
        text matches Some(s) ==> s@ == decode_utf8(bytes@),
{
    core::str::from_utf8(bytes).ok()
}

/// The views of the items of `items`, in order.
pub open spec fn views<T: View>(items: Seq<T>) -> Seq<T::V> {
    Seq::new(items.len(), |i: int| items[i]@)
}

/// The characters of `s`, in order.
pub fn chars_of(s: &str) -> (out: Vec<char>)
    ensures
        out@ == s@,
{
    let mut out: Vec<char> = Vec::new();
    for c in it: s.chars()
        invariant
            out@ == it.seq().take(it.index() as int),
    {
        out.push(c);
    }
    out
}

/// The string made of the characters `chars[from..to]`.
pub fn string_of(chars: &Vec<char>, from: usize, to: usize) -> (out: String)
    requires
        from <= to <= chars.len(),
    ensures
        out@ == chars@.subrange(from as int, to as int),
{
    let mut out = String::new();
    let mut i: usize = from;
    while i < to
        invariant
            from <= i <= to <= chars.len(),
            out@ == chars@.subrange(from as int, i as int),
        decreases to - i,
    {
        out.push(chars[i]);
        i += 1;
    }
    out
}

/// Whether `c` is white space: the characters that carry the Unicode property
/// `White_Space`.
pub open spec fn is_space(c: char) -> bool {
    let n = c as u32;
    ||| 0x09 <= n <= 0x0d
    ||| n == 0x20
    ||| n == 0x85
    ||| n == 0xa0
    ||| n == 0x1680
    ||| 0x2000 <= n <= 0x200a
    ||| n == 0x2028
    ||| n == 0x2029
    ||| n == 0x202f
    ||| n == 0x205f
    ||| n == 0x3000
}

/// Decides `is_space`.
pub fn space(c: char) -> (b: bool)
    ensures
        b == is_space(c),
{
    let n: u32 = c as u32;
    (0x09 <= n && n <= 0x0d) || n == 0x20 || n == 0x85 || n == 0xa0 || n == 0x1680 || (0x2000 <= n
        && n <= 0x200a) || n == 0x2028 || n == 0x2029 || n == 0x202f || n == 0x205f || n == 0x3000
}

/// The words that follow when `cur` holds the characters of a word already
/// begun and `s` is still to be read.
pub open spec fn words_after(cur: Seq<char>, s: Seq<char>) -> Seq<Seq<char>>
    decreases s.len(),
{
    if s.len() == 0 {
        if cur.len() == 0 {
            seq![]
        } else {
            seq![cur]
        }
    } else if is_space(s[0]) {
        if cur.len() == 0 {
            words_after(cur, s.drop_first())
        } else {
            seq![cur] + words_after(seq![], s.drop_first())
        }
    } else {
        words_after(cur.push(s[0]), s.drop_first())
    }
}

/// The words of a line: its maximal runs of characters that are not white
/// space, from left to right.
pub open spec fn words(line: Seq<char>) -> Seq<Seq<char>> {
    words_after(seq![], line)
}

/// Whether `w` is a word: at least one character, and none that is white
/// space.
pub open spec fn is_word(w: Seq<char>) -> bool {
    w.len() > 0 && forall|i: int| 0 <= i < w.len() ==> !is_space(#[trigger] w[i])
}

/// What `words_after` yields are words, if the word already begun holds no
/// white space.
pub proof fn lemma_words_after_are_words(cur: Seq<char>, s: Seq<char>)
    requires
        forall|i: int| 0 <= i < cur.len() ==> !is_space(#[trigger] cur[i]),
    ensures
        forall|k: int|
            0 <= k < words_after(cur, s).len() ==> is_word(#[trigger] words_after(cur, s)[k]),
    decreases s.len(),
{
    let found = words_after(cur, s);
    if s.len() == 0 {
        assert forall|k: int| 0 <= k < found.len() implies is_word(#[trigger] found[k]) by {}
    } else if is_space(s[0]) {
        if cur.len() > 0 {
            let rest = words_after(seq![], s.drop_first());
            lemma_words_after_are_words(seq![], s.drop_first());
            assert forall|k: int| 0 <= k < found.len() implies is_word(#[trigger] found[k]) by {
                if k > 0 {
                    assert(found[k] == rest[k - 1]);
                } else {
                    assert(found[k] == cur);
                }
            }
        } else {
            lemma_words_after_are_words(cur, s.drop_first());
            assert(found == words_after(cur, s.drop_first()));
        }
    } else {
        let next = cur.push(s[0]);
        assert forall|i: int| 0 <= i < next.len() implies !is_space(#[trigger] next[i]) by {}
        lemma_words_after_are_words(next, s.drop_first());
        assert(found == words_after(next, s.drop_first()));
    }
}

/// Every word of a line has at least one character and holds no white
/// space.
pub proof fn lemma_words_are_words(line: Seq<char>)
    ensures
        forall|k: int| 0 <= k < words(line).len() ==> is_word(#[trigger] words(line)[k]),
{
    lemma_words_after_are_words(seq![], line);
}

/// Characters that are not white space, read after a word already begun,
/// make the word longer and nothing else.
pub proof fn lemma_word_goes_on(cur: Seq<char>, w: Seq<char>)
    requires
        forall|i: int| 0 <= i < w.len() ==> !is_space(#[trigger] w[i]),
        cur.len() + w.len() > 0,
    ensures
        words_after(cur, w) == seq![cur + w],
    decreases w.len(),
{
    if w.len() > 0 {
        let rest = w.drop_first();
        assert forall|i: int| 0 <= i < rest.len() implies !is_space(#[trigger] rest[i]) by {}
        lemma_word_goes_on(cur.push(w[0]), rest);
        assert(cur.push(w[0]) + rest == cur + w);
    }
}

/// A word is the one word of the line that it makes up.
pub proof fn lemma_word_alone(w: Seq<char>)
    requires
        is_word(w),
    ensures
        words(w) == seq![w],
{
    lemma_word_goes_on(seq![], w);
}

/// A word already begun ends at the first white space.
pub proof fn lemma_word_ends(cur: Seq<char>, w: Seq<char>, gap: char, rest: Seq<char>)
    requires
        forall|i: int| 0 <= i < w.len() ==> !is_space(#[trigger] w[i]),
        cur.len() + w.len() > 0,
        is_space(gap),
    ensures
        words_after(cur, w + seq![gap] + rest) == seq![cur + w] + words_after(seq![], rest),
    decreases w.len(),
{
    let text = w + seq![gap] + rest;
    if w.len() == 0 {
        assert(text.drop_first() == rest);
    } else {
        let tail = w.drop_first();
        assert forall|i: int| 0 <= i < tail.len() implies !is_space(#[trigger] tail[i]) by {}
        assert(text.drop_first() == tail + seq![gap] + rest);
        lemma_word_ends(cur.push(w[0]), tail, gap, rest);
        assert(cur.push(w[0]) + tail == cur + w);
    }
}

/// The words one after another, with a space between each two.
pub open spec fn spaced(ws: Seq<Seq<char>>) -> Seq<char>
    decreases ws.len(),
{
    if ws.len() == 0 {
        seq![]
    } else if ws.len() == 1 {
        ws[0]
    } else {
        ws[0] + seq![' '] + spaced(ws.drop_first())
    }
}

/// Words that are written out with a space between each two are read back
/// as they were.
pub proof fn lemma_words_of_spaced(ws: Seq<Seq<char>>)
    requires
        forall|k: int| 0 <= k < ws.len() ==> is_word(#[trigger] ws[k]),
    ensures
        words(spaced(ws)) == ws,
    decreases ws.len(),
{
    if ws.len() == 1 {
        lemma_word_alone(ws[0]);
    } else if ws.len() > 1 {
        let rest = ws.drop_first();
        assert forall|k: int| 0 <= k < rest.len() implies is_word(#[trigger] rest[k]) by {}
        lemma_word_ends(seq![], ws[0], ' ', spaced(rest));
        lemma_words_of_spaced(rest);
    }
}

/// Splits a line into its words.
pub fn split_words(line: &str) -> (out: Vec<Vec<char>>)
    ensures
        views(out@) == words(line@),
{
    let chars = chars_of(line);
    let mut out: Vec<Vec<char>> = Vec::new();
    let mut cur: Vec<char> = Vec::new();
    let mut i: usize = 0;
    proof {
        assert(chars@.skip(0) == chars@);
    }
    while i < chars.len()
        invariant
            i <= chars.len(),
            chars@ == line@,
            views(out@) + words_after(cur@, chars@.skip(i as int)) == words(line@),
        decreases chars.len() - i,
    {
        let c = chars[i];
        proof {
            assert(chars@.skip(i as int).drop_first() == chars@.skip(i + 1));
        }
        if space(c) {
            if cur.len() > 0 {
                out.push(cur);
                cur = Vec::new();
            }
        } else {
            cur.push(c);
        }
        i += 1;
    }
    if cur.len() > 0 {
        out.push(cur);
    }
    out
}

/// A line without the carriage return that may end it.
pub open spec fn without_cr(line: Seq<char>) -> Seq<char> {
    if line.len() > 0 && line.last() == '\r' {
        line.drop_last()
    } else {
        line
    }
}

/// The lines that follow when `cur` holds the characters of a line already
/// begun and `s` is still to be read.
pub open spec fn lines_after(cur: Seq<char>, s: Seq<char>) -> Seq<Seq<char>>
    decreases s.len(),
{
    if s.len() == 0 {
        seq![]
    } else if s[0] == '\n' {
        seq![without_cr(cur)] + lines_after(seq![], s.drop_first())
    } else {
        lines_after(cur.push(s[0]), s.drop_first())
    }
}

/// The complete lines of a text. A line ends at a line feed; the line feed,
/// and a carriage return just before it, are not part of the line. What
/// follows the last line feed is an unfinished line and is left out.
pub open spec fn lines(text: Seq<char>) -> Seq<Seq<char>> {
    lines_after(seq![], text)
}

/// Splits a text into its complete lines.
pub fn split_lines(text: &str) -> (out: Vec<String>)
    ensures
        views(out@) == lines(text@),
{
    let chars = chars_of(text);
    let mut out: Vec<String> = Vec::new();
    let mut start: usize = 0;
    let mut i: usize = 0;
    proof {
        assert(chars@.skip(0) == chars@);
        assert(chars@.subrange(0, 0) == Seq::<char>::empty());
    }
    while i < chars.len()
        invariant
            start <= i <= chars.len(),
            chars@ == text@,
            views(out@) + lines_after(
                chars@.subrange(start as int, i as int),
                chars@.skip(i as int),
            ) == lines(text@),
        decreases chars.len() - i,
    {
        proof {
            assert(chars@.skip(i as int).drop_first() == chars@.skip(i + 1));
            assert(chars@.subrange(start as int, i as int).push(chars@[i as int])
                == chars@.subrange(start as int, i + 1));
        }
        if chars[i] == '\n' {
            let end: usize = if start < i && chars[i - 1] == '\r' {
                i - 1
            } else {
                i
            };
            let line = string_of(&chars, start, end);
            proof {
                let cur = chars@.subrange(start as int, i as int);
                assert(line@ == without_cr(cur));
                assert(chars@.subrange(i + 1, i + 1) == Seq::<char>::empty());
            }
            out.push(line);
            start = i + 1;
        }
        i += 1;
    }
    out
}

/// The lines one after another, each followed by a line feed.
pub open spec fn terminated(lines: Seq<Seq<char>>) -> Seq<char>
    decreases lines.len(),
{
    if lines.len() == 0 {
        seq![]
    } else {
        terminated(lines.drop_last()) + lines.last() + seq!['\n']
    }
}

/// The lines one after another, with a line feed between each two.
pub open spec fn joined(lines: Seq<Seq<char>>) -> Seq<char>
    decreases lines.len(),
{
    if lines.len() == 0 {
        seq![]
    } else if lines.len() == 1 {
        lines[0]
    } else {
        joined(lines.drop_last()) + seq!['\n'] + lines.last()
    }
}

/// Whether `line` can be written out as one line and read back as it is: it
/// holds no line feed and does not end in a carriage return.
pub open spec fn is_line(line: Seq<char>) -> bool {
    &&& forall|i: int| 0 <= i < line.len() ==> #[trigger] line[i] != '\n'
    &&& line.len() > 0 ==> line.last() != '\r'
}

/// Characters before the first line feed all belong to the first line.
pub proof fn lemma_line_goes_on(cur: Seq<char>, line: Seq<char>, rest: Seq<char>)
    requires
        forall|i: int| 0 <= i < line.len() ==> #[trigger] line[i] != '\n',
    ensures
        lines_after(cur, line + seq!['\n'] + rest) == seq![without_cr(cur + line)] + lines_after(
            seq![],
            rest,
        ),
    decreases line.len(),
{
    let text = line + seq!['\n'] + rest;
    if line.len() == 0 {
        assert(text.drop_first() == rest);
    } else {
        let tail = line.drop_first();
        assert forall|i: int| 0 <= i < tail.len() implies #[trigger] tail[i] != '\n' by {}
        assert(text.drop_first() == tail + seq!['\n'] + rest);
        lemma_line_goes_on(cur.push(line[0]), tail, rest);
        assert(cur.push(line[0]) + tail == cur + line);
    }
}

/// Terminated lines begin with the first line and its line feed.
pub proof fn lemma_terminated_first(lines: Seq<Seq<char>>)
    requires
        lines.len() > 0,
    ensures
        terminated(lines) == lines[0] + seq!['\n'] + terminated(lines.drop_first()),
    decreases lines.len(),
{
    if lines.len() == 1 {
        assert(terminated(lines.drop_last()) == Seq::<char>::empty());
    } else {
        let front = lines.drop_last();
        lemma_terminated_first(front);
        assert(front.drop_first() == lines.drop_first().drop_last());
    }
}

/// Lines that are written out, each followed by a line feed, are read back
/// as they were.
pub proof fn lemma_lines_of_terminated(ls: Seq<Seq<char>>)
    requires
        forall|i: int| 0 <= i < ls.len() ==> is_line(#[trigger] ls[i]),
    ensures
        lines(terminated(ls)) == ls,
    decreases ls.len(),
{
    if ls.len() > 0 {
        let rest = ls.drop_first();
        assert forall|i: int| 0 <= i < rest.len() implies is_line(#[trigger] rest[i]) by {}
        lemma_terminated_first(ls);
        lemma_line_goes_on(seq![], ls[0], terminated(rest));
        lemma_lines_of_terminated(rest);
    }
}

/// Writes the lines out, each followed by a line feed.
pub fn terminate_lines(lines: &Vec<String>) -> (text: String)
    ensures
        text@ == terminated(views(lines@)),
{
    let ghost all = views(lines@);
    let mut text = String::new();
    let mut i: usize = 0;
    while i < lines.len()
        invariant
            i <= lines.len(),
            all == views(lines@),
            text@ == terminated(all.take(i as int)),
        decreases lines.len() - i,
    {
        proof {
            assert(all.take(i + 1).drop_last() == all.take(i as int));
        }
        text.append(lines[i].as_str());
        text.push('\n');
        i += 1;
    }
    proof {
        assert(all.take(i as int) == all);
    }
    text
}

/// Writes the lines out with a line feed between each two.
pub fn join_lines(lines: &Vec<String>) -> (text: String)
    ensures
        text@ == joined(views(lines@)),
{
    let ghost all = views(lines@);
    let mut text = String::new();
    let mut i: usize = 0;
    while i < lines.len()
        invariant
            i <= lines.len(),
            all == views(lines@),
            text@ == joined(all.take(i as int)),
        decreases lines.len() - i,
    {
        proof {
            assert(all.take(i + 1).drop_last() == all.take(i as int));
        }
        if i > 0 {
            text.push('\n');
        }
        text.append(lines[i].as_str());
        i += 1;
    }
    proof {
        assert(all.take(i as int) == all);
    }
    text
}

} // verus!
