//! How texts are read and taken apart.
use crate::text;
use vstd::prelude::*;

verus! {

/// Of the ASCII range the white space is the blank and the five controls from the tab
/// to the carriage return; of all others those that Unicode names.
pub proof fn white_space(c: char)
    ensures
        (c as u32) < 128 ==> (text::white(c) <==> c == ' ' || c == '\t' || c == '\n' || c == '\r'
            || c as u32 == 0xB || c as u32 == 0xC),
        (c as u32) >= 128 ==> (text::white(c) <==> c as u32 == 0x85 || c as u32 == 0xA0 || c as u32
            == 0x1680 || 0x2000 <= c as u32 <= 0x200A || c as u32 == 0x2028 || c as u32 == 0x2029
            || c as u32 == 0x202F || c as u32 == 0x205F || c as u32 == 0x3000),
{
}

proof fn trimmed_end_stops(s: Seq<char>)
    ensures
        ({
            let t = text::trimmed_end(s);
            &&& t.len() <= s.len()
            &&& t == s.take(t.len() as int)
            &&& forall|k: int| t.len() <= k < s.len() ==> text::white(#[trigger] s[k])
            &&& t.len() > 0 ==> !text::white(t[t.len() - 1])
        }),
    decreases s.len(),
{
    if s.len() > 0 && text::white(s.last()) {
        trimmed_end_stops(s.drop_last());
        let t = text::trimmed_end(s);
        assert(s.drop_last().take(t.len() as int) =~= s.take(t.len() as int));
        assert forall|k: int| t.len() <= k < s.len() implies text::white(#[trigger] s[k]) by {
            if k < s.len() - 1 {
                assert(s.drop_last()[k] == s[k]);
            }
        }
    } else {
        assert(s.take(s.len() as int) =~= s);
    }
}

proof fn run_is_of_one_sort(s: Seq<char>, from: int, is_white: bool)
    requires
        0 <= from <= s.len(),
    ensures
        forall|k: int|
            from <= k < text::run_end(s, from, is_white) ==> text::white(#[trigger] s[k])
                == is_white,
    decreases s.len() - from,
{
    if from < s.len() && text::white(s[from]) == is_white {
        run_is_of_one_sort(s, from + 1, is_white);
    }
}

/// A text that was trimmed is a part of the text, with nothing but white space before
/// and after it, and neither begins nor ends with white space.
pub proof fn trimming_takes_the_ends(s: Seq<char>) -> (start: int)
    ensures
        ({
            let t = text::trimmed(s);
            let end = start + t.len();
            &&& 0 <= start <= end <= s.len()
            &&& t == s.subrange(start, end)
            &&& forall|k: int| 0 <= k < start ==> text::white(#[trigger] s[k])
            &&& forall|k: int| end <= k < s.len() ==> text::white(#[trigger] s[k])
            &&& t.len() > 0 ==> !text::white(t[0]) && !text::white(t[t.len() - 1])
        }),
{
    let start = text::run_end(s, 0, true);
    text::run_stops(s, 0, true);
    run_is_of_one_sort(s, 0, true);
    let tail = s.skip(start);
    trimmed_end_stops(tail);
    let t = text::trimmed(s);
    let end = start + t.len();
    assert(t =~= s.subrange(start, end));
    assert forall|k: int| end <= k < s.len() implies text::white(#[trigger] s[k]) by {
        assert(tail[k - start] == s[k]);
    }
    if t.len() > 0 {
        assert(t[0] == s[start]);
    }
    start
}

/// A text that neither begins nor ends with white space is left as it is.
pub proof fn trimming_leaves_the_rest(s: Seq<char>)
    requires
        s.len() > 0 ==> !text::white(s[0]) && !text::white(s[s.len() - 1]),
    ensures
        text::trimmed(s) == s,
{
    assert(s.skip(0) =~= s);
}

proof fn run_end_shifts(a: Seq<char>, b: Seq<char>, from: int, is_white: bool)
    requires
        0 <= from <= b.len(),
    ensures
        text::run_end(a + b, a.len() + from, is_white) == a.len() + text::run_end(b, from, is_white),
    decreases b.len() - from,
{
    if from < b.len() {
        assert((a + b)[a.len() + from] == b[from]);
        if text::white(b[from]) == is_white {
            run_end_shifts(a, b, from + 1, is_white);
        }
    }
}

proof fn words_shift(a: Seq<char>, b: Seq<char>, from: int)
    requires
        0 <= from <= b.len(),
    ensures
        text::words_from(a + b, a.len() + from) == text::words_from(b, from),
    decreases b.len() - from,
{
    let start = text::run_end(b, from, true);
    let end = text::run_end(b, start, false);
    text::run_stops(b, from, true);
    text::run_stops(b, start, false);
    run_end_shifts(a, b, from, true);
    run_end_shifts(a, b, start, false);
    if start < end {
        assert((a + b).subrange(a.len() + start, a.len() + end) =~= b.subrange(start, end));
        words_shift(a, b, end);
    }
}

proof fn run_of_one_sort_ends(s: Seq<char>, from: int, to: int, is_white: bool)
    requires
        0 <= from <= to <= s.len(),
        forall|k: int| from <= k < to ==> text::white(#[trigger] s[k]) == is_white,
        to < s.len() ==> text::white(s[to]) != is_white,
    ensures
        text::run_end(s, from, is_white) == to,
    decreases to - from,
{
    if from < to {
        run_of_one_sort_ends(s, from + 1, to, is_white);
    }
}

/// The words of a text are the runs of characters that white space parts: a word before
/// white space is the first word, white space at the start is passed over, and a text
/// without white space is one word.
pub proof fn words_are_parted_by_white_space(word: Seq<char>, c: char, rest: Seq<char>)
    requires
        word.len() > 0,
        forall|k: int| 0 <= k < word.len() ==> !text::white(#[trigger] word[k]),
        text::white(c),
    ensures
        text::words(Seq::<char>::empty()).len() == 0,
        text::words(word) == seq![word],
        text::words(seq![c] + rest) == text::words(rest),
        text::words(word + seq![c] + rest) == seq![word] + text::words(rest),
{
    let n = word.len() as int;
    assert(!text::white(word[0]));
    // One word alone.
    run_of_one_sort_ends(word, 0, n, false);
    assert(word.subrange(0, n) =~= word);
    assert(text::words_from(word, n) =~= Seq::<Seq<char>>::empty());
    assert(text::words(word) =~= seq![word]);
    // White space at the start.
    blank_start(c, rest);
    // A word before white space.
    let s = word + seq![c] + rest;
    assert forall|k: int| 0 <= k < n implies text::white(#[trigger] s[k]) == false by {
        assert(s[k] == word[k]);
    }
    assert(s[n] == c);
    run_of_one_sort_ends(s, 0, 0, true);
    run_of_one_sort_ends(s, 0, n, false);
    assert(s.subrange(0, n) =~= word);
    let tail = seq![c] + rest;
    assert(s =~= word + tail);
    words_shift(word, tail, 0);
}

proof fn blank_start(c: char, rest: Seq<char>)
    requires
        text::white(c),
    ensures
        text::words(seq![c] + rest) == text::words(rest),
{
    let a = seq![c];
    let s = a + rest;
    assert(s[0] == c);
    let start = text::run_end(rest, 0, true);
    let end = text::run_end(rest, start, false);
    text::run_stops(rest, 0, true);
    text::run_stops(rest, start, false);
    run_end_shifts(a, rest, 0, true);
    run_end_shifts(a, rest, start, false);
    assert(text::run_end(s, 0, true) == 1 + start);
    if start < end {
        words_shift(a, rest, end);
        assert(s.subrange(1 + start, 1 + end) =~= rest.subrange(start, end));
    }
}

/// A part is found in a text just where the text is that part with something before and
/// after it, at its start just where nothing is before it, and at its end just where
/// nothing is after it.
pub proof fn parts_are_found(before: Seq<char>, part: Seq<char>, after: Seq<char>)
    ensures
        text::found(before + part + after, part),
        text::begins(part + after, part),
        text::ends(before + part, part),
{
    let s = before + part + after;
    let n = before.len() as int;
    assert(s.subrange(n, n + part.len()) =~= part);
    assert(text::found_at(s, n, part));
    assert((part + after).subrange(0, part.len() as int) =~= part);
    let e = before + part;
    assert(e.subrange(e.len() - part.len(), e.len() as int) =~= part);
}

/// Where a part is found, the text has that part with something before and after it.
pub proof fn found_parts_are_there(s: Seq<char>, part: Seq<char>)
    ensures
        text::found(s, part) ==> exists|n: int|
            0 <= n && n + part.len() <= s.len() && s == s.take(n) + part + #[trigger] s.skip(
                n + part.len(),
            ),
        text::begins(s, part) ==> s == part + s.skip(part.len() as int),
        text::ends(s, part) ==> s == s.take(s.len() - part.len()) + part,
{
    if text::found(s, part) {
        let n = choose|n: int| #[trigger] text::found_at(s, n, part);
        found_at_is_there(s, n, part);
    }
    if text::begins(s, part) {
        found_at_is_there(s, 0, part);
        assert(s.take(0) + part =~= part);
    }
    if text::ends(s, part) {
        found_at_is_there(s, s.len() - part.len(), part);
        assert(s.skip(s.len() as int).len() == 0);
        assert(s =~= s.take(s.len() - part.len()) + part);
    }
}

proof fn found_at_is_there(s: Seq<char>, n: int, part: Seq<char>)
    requires
        text::found_at(s, n, part),
    ensures
        0 <= n && n + part.len() <= s.len(),
        s == s.take(n) + part + s.skip(n + part.len()),
{
    assert forall|k: int| 0 <= k < s.len() implies s[k] == (s.take(n) + part + s.skip(
        n + part.len(),
    ))[k] by {
        if n <= k < n + part.len() {
            assert(s.subrange(n, n + part.len())[k - n] == part[k - n]);
        }
    }
    assert(s =~= s.take(n) + part + s.skip(n + part.len()));
}

/// The copies of a character at the ends of a text are stripped, and nothing else.
pub proof fn copies_are_stripped(s: Seq<char>, c: char)
    ensures
        ({
            let t = text::stripped_start(s, c);
            let k = s.len() - t.len();
            &&& 0 <= k
            &&& t == s.skip(k)
            &&& forall|i: int| 0 <= i < k ==> #[trigger] s[i] == c
            &&& t.len() > 0 ==> t[0] != c
        }),
        ({
            let t = text::stripped_end(s, c);
            &&& t.len() <= s.len()
            &&& t == s.take(t.len() as int)
            &&& forall|i: int| t.len() <= i < s.len() ==> #[trigger] s[i] == c
            &&& t.len() > 0 ==> t[t.len() - 1] != c
        }),
{
    start_is_stripped(s, c);
    end_is_stripped(s, c);
}

proof fn start_is_stripped(s: Seq<char>, c: char)
    ensures
        ({
            let t = text::stripped_start(s, c);
            let k = s.len() - t.len();
            &&& 0 <= k
            &&& t == s.skip(k)
            &&& forall|i: int| 0 <= i < k ==> #[trigger] s[i] == c
            &&& t.len() > 0 ==> t[0] != c
        }),
    decreases s.len(),
{
    if s.len() > 0 && s[0] == c {
        let rest = s.skip(1);
        start_is_stripped(rest, c);
        let t = text::stripped_start(s, c);
        let k = s.len() - t.len();
        assert(t =~= s.skip(k));
        assert forall|i: int| 0 <= i < k implies #[trigger] s[i] == c by {
            if i > 0 {
                assert(rest[i - 1] == s[i]);
            }
        }
    } else {
        assert(s.skip(0) =~= s);
    }
}

proof fn end_is_stripped(s: Seq<char>, c: char)
    ensures
        ({
            let t = text::stripped_end(s, c);
            &&& t.len() <= s.len()
            &&& t == s.take(t.len() as int)
            &&& forall|i: int| t.len() <= i < s.len() ==> #[trigger] s[i] == c
            &&& t.len() > 0 ==> t[t.len() - 1] != c
        }),
    decreases s.len(),
{
    if s.len() > 0 && s.last() == c {
        let rest = s.drop_last();
        end_is_stripped(rest, c);
        let t = text::stripped_end(s, c);
        assert(t =~= s.take(t.len() as int));
        assert forall|i: int| t.len() <= i < s.len() implies #[trigger] s[i] == c by {
            if i < s.len() - 1 {
                assert(rest[i] == s[i]);
            }
        }
    } else {
        assert(s.take(s.len() as int) =~= s);
    }
}

proof fn line_ends(s: Seq<char>, from: int, to: int)
    requires
        0 <= from <= to <= s.len(),
        forall|k: int| from <= k < to ==> #[trigger] s[k] != '\n',
        to < s.len() ==> s[to] == '\n',
    ensures
        text::line_end(s, from) == to,
    decreases to - from,
{
    if from < to {
        line_ends(s, from + 1, to);
    }
}

proof fn line_stops(s: Seq<char>, from: int)
    requires
        0 <= from <= s.len(),
    ensures
        from <= text::line_end(s, from) <= s.len(),
    decreases s.len() - from,
{
    if from < s.len() && s[from] != '\n' {
        line_stops(s, from + 1);
    }
}

proof fn line_end_shifts(a: Seq<char>, b: Seq<char>, from: int)
    requires
        0 <= from <= b.len(),
    ensures
        text::line_end(a + b, a.len() + from) == a.len() + text::line_end(b, from),
    decreases b.len() - from,
{
    if from < b.len() {
        assert((a + b)[a.len() + from] == b[from]);
        if b[from] != '\n' {
            line_end_shifts(a, b, from + 1);
        }
    }
}

proof fn lines_shift(a: Seq<char>, b: Seq<char>, from: int)
    requires
        0 <= from,
    ensures
        text::lines_from(a + b, a.len() + from) == text::lines_from(b, from),
    decreases b.len() + 1 - from,
{
    if from < b.len() {
        let end = text::line_end(b, from);
        line_stops(b, from);
        line_end_shifts(a, b, from);
        assert((a + b).subrange(a.len() + from, a.len() + end) =~= b.subrange(from, end));
        lines_shift(a, b, end + 1);
    }
}

/// The lines of a text are what line feeds part, each without the white space at its
/// ends; nothing follows the last line feed.
pub proof fn lines_are_parted_by_line_feeds(line: Seq<char>, rest: Seq<char>)
    requires
        forall|k: int| 0 <= k < line.len() ==> #[trigger] line[k] != '\n',
    ensures
        text::lines_from(Seq::<char>::empty(), 0).len() == 0,
        line.len() > 0 ==> text::lines_from(line, 0) == seq![text::trimmed(line)],
        text::lines_from(line + seq!['\n'] + rest, 0) == seq![text::trimmed(line)]
            + text::lines_from(rest, 0),
{
    let n = line.len() as int;
    line_ends(line, 0, n);
    assert(line.subrange(0, n) =~= line);
    assert(text::lines_from(line, n + 1) =~= Seq::<Seq<char>>::empty());
    assert(line.len() > 0 ==> text::lines_from(line, 0) =~= seq![text::trimmed(line)]);
    let head = line + seq!['\n'];
    let s = head + rest;
    assert forall|k: int| 0 <= k < n implies #[trigger] s[k] != '\n' by {
        assert(s[k] == line[k]);
    }
    assert(s[n] == '\n');
    line_ends(s, 0, n);
    assert(s.subrange(0, n) =~= line);
    lines_shift(head, rest, 0);
}

/// How a number is read: a figure more makes it so many times the radix greater and adds
/// the figure, a plus sign in front is passed over, and a text with anything else in it,
/// or with nothing, is no number.
pub proof fn numbers_are_read_figure_by_figure(s: Seq<char>, d: int, max: int)
    requires
        0 <= d < 10,
    ensures
        ({
            let c = (0x30 + d) as char;
            let n = text::number(s, 10, max);
            &&& d <= max ==> text::number(seq![c], 10, max) == Some(d)
            &&& n is Some && 10 * n->0 + d <= max ==> text::number(s.push(c), 10, max) == Some(
                10 * n->0 + d,
            )
            &&& n is Some && 10 * n->0 + d > max ==> text::number(s.push(c), 10, max) is None
        }),
        text::number(Seq::<char>::empty(), 10, max) is None,
        text::number(seq!['+'], 10, max) is None,
        s.len() > 0 && s[0] != '+' ==> text::number(seq!['+'] + s, 10, max) == text::number(
            s,
            10,
            max,
        ),
{
    let c = (0x30 + d) as char;
    let one = seq![c];
    assert(one.drop_last() =~= Seq::<char>::empty());
    assert(text::digits_value(one.drop_last(), 10) == 0);
    assert(text::digits_value(one, 10) == d);
    assert(text::all_digits(one, 10));
    if text::number(s, 10, max) is Some {
        let digits = if s[0] == '+' {
            s.skip(1)
        } else {
            s
        };
        let more = if s[0] == '+' {
            s.push(c).skip(1)
        } else {
            s.push(c)
        };
        assert(s.push(c)[0] == s[0]);
        assert(more =~= digits.push(c));
        assert(more.drop_last() =~= digits);
        assert(text::digits_value(more, 10) == text::digits_value(digits, 10) * 10 + d);
        assert forall|i: int| 0 <= i < more.len() implies #[trigger] text::digit_value(more[i])
            < 10 by {
            if i < digits.len() {
                assert(text::digit_value(digits[i]) < 10);
            }
        }
    }
    assert(seq!['+'].skip(1) =~= Seq::<char>::empty());
    if s.len() > 0 {
        assert((seq!['+'] + s).skip(1) =~= s);
    }
}

/// A character that is no figure, and no plus sign in front, spoils a number.
pub proof fn other_characters_are_no_numbers(s: Seq<char>, i: int, max: int)
    requires
        0 <= i < s.len(),
        !('0' <= s[i] <= '9'),
        i > 0 || s[i] != '+',
    ensures
        text::number(s, 10, max) is None,
{
    let digits = if s[0] == '+' {
        s.skip(1)
    } else {
        s
    };
    let k = if s[0] == '+' {
        i - 1
    } else {
        i
    };
    assert(digits[k] == s[i]);
    assert(text::digit_value(digits[k]) >= 10);
}

/// Lower case changes the letters A to Z alone, each into the letter of its own.
pub proof fn letters_become_lower_case(s: Seq<char>, i: int)
    requires
        vstd::utf8::is_ascii_chars(s),
        0 <= i < s.len(),
    ensures
        text::lowered(s).len() == s.len(),
        'A' <= s[i] <= 'Z' ==> text::lowered(s)[i] as int == s[i] as int + 32,
        !('A' <= s[i] <= 'Z') ==> text::lowered(s)[i] == s[i],
        text::char_lowered(s[i]) == seq![text::lowered(s)[i]],
{
    assert((s[i] as u32) < 128);
}

/// Bytes that are UTF-8 stand for the text that they encode.
pub proof fn valid_bytes_are_read(bytes: Seq<u8>)
    requires
        vstd::utf8::valid_utf8(bytes),
    ensures
        text::lossy(bytes) == vstd::utf8::decode_utf8(bytes),
{
}

/// A number in decimal is as long as it has figures, and does not begin with a zero but
/// for zero itself.
pub proof fn decimals_have_no_leading_zero(n: nat)
    ensures
        n < 10 ==> text::decimal(n) == seq![(0x30 + n) as char],
        n >= 10 ==> text::decimal(n) == text::decimal(n / 10).push((0x30 + n % 10) as char),
        n > 0 ==> text::decimal(n)[0] != '0',
    decreases n,
{
    if n >= 10 {
        decimals_have_no_leading_zero(n / 10);
        decimal_is_not_empty(n / 10);
    }
}

proof fn decimal_is_not_empty(n: nat)
    ensures
        text::decimal(n).len() > 0,
    decreases n,
{
    if n >= 10 {
        decimal_is_not_empty(n / 10);
    }
}

} // verus!
