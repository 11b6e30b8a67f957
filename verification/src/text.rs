//! Reading and writing text.
use vstd::prelude::*;
use vstd::string::StringExecFns;
use vstd::string::StrSliceExecFns;

verus! {

/// What the texts of a list hold.
pub open spec fn texts(list: Seq<String>) -> Seq<Seq<char>> {
    list.map_values(|s: String| s@)
}

/// Whether two texts hold the same characters.
pub fn same_text(a: &str, b: &str) -> (r: bool)
    ensures
        r == (a@ == b@),
{
    a.to_owned() == b.to_owned()
}

/// A copy of a list of texts.
pub fn copy_texts(list: &Vec<String>) -> (r: Vec<String>)
    ensures
        r@ == list@,
{
    let mut out: Vec<String> = Vec::new();
    let mut i: usize = 0;
    while i < list.len()
        invariant
            i <= list.len(),
            out@ == list@.take(i as int),
        decreases list.len() - i,
    {
        out.push(list[i].clone());
        assert(list@.take(i + 1) == list@.take(i as int).push(list@[i as int]));
        i = i + 1;
    }
    assert(list@.take(list@.len() as int) == list@);
    out
}

/// One text after another.
pub fn joined(a: &str, b: &str) -> (r: String)
    ensures
        r@ == a@ + b@,
{
    a.to_owned().concat(b)
}

/// The characters of a text.
pub fn chars_of(s: &str) -> (r: Vec<char>)
    ensures
        r@ == s@,
{
    let mut out: Vec<char> = Vec::new();
    for c in it: s.chars()
        invariant
            it.seq() == s@,
            out@ == s@.take(it.index()),
    {
        out.push(c);
        assert(s@.take(it.index() + 1) == s@.take(it.index()).push(c));
    }
    assert(s@.take(s@.len() as int) == s@);
    out
}

/// The Unicode property White_Space.
pub open spec fn white(c: char) -> bool {
    ||| 0x9 <= c as u32 <= 0xD
    ||| c as u32 == 0x20
    ||| c as u32 == 0x85
    ||| c as u32 == 0xA0
    ||| c as u32 == 0x1680
    ||| 0x2000 <= c as u32 <= 0x200A
    ||| c as u32 == 0x2028
    ||| c as u32 == 0x2029
    ||| c as u32 == 0x202F
    ||| c as u32 == 0x205F
    ||| c as u32 == 0x3000
}

pub fn is_white(c: char) -> (r: bool)
    ensures
        r == white(c),
{
    let u: u32 = c as u32;
    (0x9 <= u && u <= 0xD) || u == 0x20 || u == 0x85 || u == 0xA0 || u == 0x1680 || (0x2000 <= u
        && u <= 0x200A) || u == 0x2028 || u == 0x2029 || u == 0x202F || u == 0x205F || u == 0x3000
}

/// Where the run of characters from `from` on ends that are white space, or
/// that are not.
pub open spec fn run_end(s: Seq<char>, from: int, is_white: bool) -> int
    decreases s.len() - from,
{
    if 0 <= from < s.len() && white(s[from]) == is_white {
        run_end(s, from + 1, is_white)
    } else {
        from
    }
}

fn end_of_run(s: &Vec<char>, from: usize, kind: bool) -> (r: usize)
    requires
        from <= s.len(),
    ensures
        r == run_end(s@, from as int, kind),
        from <= r <= s.len(),
{
    let mut i: usize = from;
    while i < s.len() && is_white(s[i]) == kind
        invariant
            from <= i <= s.len(),
            run_end(s@, from as int, kind) == run_end(s@, i as int, kind),
        decreases s.len() - i,
    {
        i = i + 1;
    }
    i
}

/// A text without the white space at its end.
pub open spec fn trimmed_end(s: Seq<char>) -> Seq<char>
    decreases s.len(),
{
    if s.len() > 0 && white(s.last()) {
        trimmed_end(s.drop_last())
    } else {
        s
    }
}

/// A text without the white space at its ends.
pub open spec fn trimmed(s: Seq<char>) -> Seq<char> {
    trimmed_end(s.skip(run_end(s, 0, true)))
}

pub fn trim(s: &str) -> (r: &str)
    ensures
        r@ == trimmed(s@),
{
    let chars = chars_of(s);
    let start: usize = end_of_run(&chars, 0, true);
    let mut end: usize = chars.len();
    let ghost tail = s@.skip(start as int);
    assert(s@.subrange(start as int, end as int) == tail);
    while end > start && is_white(chars[end - 1])
        invariant
            start <= end <= chars.len(),
            chars@ == s@,
            tail == s@.skip(start as int),
            trimmed_end(tail) == trimmed_end(s@.subrange(start as int, end as int)),
        decreases end,
    {
        let ghost part = s@.subrange(start as int, end as int);
        assert(part.drop_last() == s@.subrange(start as int, end - 1));
        end = end - 1;
    }
    s.substring_char(start, end)
}

/// The words of a text from a place on: the runs of characters that are not
/// white space.
pub open spec fn words_from(s: Seq<char>, from: int) -> Seq<Seq<char>>
    decreases s.len() - from,
{
    let start = run_end(s, from, true);
    let end = run_end(s, start, false);
    if 0 <= from <= start < end <= s.len() {
        seq![s.subrange(start, end)] + words_from(s, end)
    } else {
        seq![]
    }
}

/// The words of a text.
pub open spec fn words(s: Seq<char>) -> Seq<Seq<char>> {
    words_from(s, 0)
}

pub fn split_whitespace(s: &str) -> (r: Vec<String>)
    ensures
        texts(r@) == words(s@),
{
    let chars = chars_of(s);
    let mut out: Vec<String> = Vec::new();
    let mut from: usize = 0;
    loop
        invariant
            chars@ == s@,
            from <= chars.len(),
            texts(out@) + words_from(s@, from as int) == words(s@),
        ensures
            texts(out@) == words(s@),
        decreases chars.len() - from,
    {
        let start: usize = end_of_run(&chars, from, true);
        if start == chars.len() {
            assert(words_from(s@, from as int) == Seq::<Seq<char>>::empty());
            assert(texts(out@) == texts(out@) + words_from(s@, from as int));
            break;
        }
        proof {
            run_stops(s@, from as int, true);
        }
        let end: usize = end_of_run(&chars, start, false);
        proof {
            assert(run_end(s@, start as int, false) >= start + 1) by {
                assert(!white(s@[start as int]));
                run_grows(s@, start + 1, false);
            }
        }
        let ghost before = out@;
        out.push(s.substring_char(start, end).to_owned());
        assert(texts(out@) == texts(before).push(s@.subrange(start as int, end as int)));
        assert(texts(out@) + words_from(s@, end as int) == texts(before) + words_from(
            s@,
            from as int,
        ));
        from = end;
    }
    out
}

/// Whether a part is found at a place of a text.
pub open spec fn found_at(s: Seq<char>, place: int, part: Seq<char>) -> bool {
    &&& 0 <= place
    &&& place + part.len() <= s.len()
    &&& s.subrange(place, place + part.len()) == part
}

/// Whether a part is found anywhere in a text.
pub open spec fn found(s: Seq<char>, part: Seq<char>) -> bool {
    exists|place: int| #[trigger] found_at(s, place, part)
}

/// Whether a text begins with a part.
pub open spec fn begins(s: Seq<char>, part: Seq<char>) -> bool {
    found_at(s, 0, part)
}

/// Whether a text ends with a part.
pub open spec fn ends(s: Seq<char>, part: Seq<char>) -> bool {
    found_at(s, s.len() - part.len(), part)
}

fn is_found_at(s: &Vec<char>, place: usize, part: &Vec<char>) -> (r: bool)
    requires
        place <= s.len(),
    ensures
        r == found_at(s@, place as int, part@),
{
    if part.len() > s.len() - place {
        return false;
    }
    let mut i: usize = 0;
    while i < part.len()
        invariant
            i <= part.len(),
            place + part.len() <= s.len(),
            forall|j: int| 0 <= j < i ==> s@[place + j] == part@[j],
        decreases part.len() - i,
    {
        if s[place + i] != part[i] {
            assert(s@.subrange(place as int, place + part@.len())[i as int] != part@[i as int]);
            return false;
        }
        i = i + 1;
    }
    assert(s@.subrange(place as int, place + part@.len()) == part@);
    true
}

pub fn contains(s: &str, part: &str) -> (r: bool)
    ensures
        r == found(s@, part@),
{
    let chars = chars_of(s);
    let wanted = chars_of(part);
    let mut i: usize = 0;
    loop
        invariant
            i <= chars.len(),
            chars@ == s@,
            wanted@ == part@,
            forall|k: int| 0 <= k < i ==> !#[trigger] found_at(s@, k, part@),
        decreases chars.len() - i,
    {
        if is_found_at(&chars, i, &wanted) {
            return true;
        }
        if i == chars.len() {
            return false;
        }
        i = i + 1;
    }
}

pub fn starts_with(s: &str, part: &str) -> (r: bool)
    ensures
        r == begins(s@, part@),
{
    is_found_at(&chars_of(s), 0, &chars_of(part))
}

pub fn ends_with(s: &str, part: &str) -> (r: bool)
    ensures
        r == ends(s@, part@),
{
    let chars = chars_of(s);
    let wanted = chars_of(part);
    wanted.len() <= chars.len() && is_found_at(&chars, chars.len() - wanted.len(), &wanted)
}

/// What follows a part that a text begins with.
pub fn strip_prefix<'a>(s: &'a str, part: &str) -> (r: Option<&'a str>)
    ensures
        match r {
            Some(rest) => begins(s@, part@) && rest@ == s@.skip(part@.len() as int),
            None => !begins(s@, part@),
        },
{
    let chars = chars_of(s);
    let wanted = chars_of(part);
    if is_found_at(&chars, 0, &wanted) {
        assert(s@.subrange(part@.len() as int, s@.len() as int) == s@.skip(part@.len() as int));
        Some(s.substring_char(wanted.len(), chars.len()))
    } else {
        None
    }
}

/// A text without the copies of a character at its end.
pub open spec fn stripped_end(s: Seq<char>, c: char) -> Seq<char>
    decreases s.len(),
{
    if s.len() > 0 && s.last() == c {
        stripped_end(s.drop_last(), c)
    } else {
        s
    }
}

/// A text without the copies of a character at its start.
pub open spec fn stripped_start(s: Seq<char>, c: char) -> Seq<char>
    decreases s.len(),
{
    if s.len() > 0 && s[0] == c {
        stripped_start(s.skip(1), c)
    } else {
        s
    }
}

pub fn trim_end_matches(s: &str, c: char) -> (r: &str)
    ensures
        r@ == stripped_end(s@, c),
{
    let chars = chars_of(s);
    let mut end: usize = chars.len();
    assert(s@.take(end as int) == s@);
    while end > 0 && chars[end - 1] == c
        invariant
            end <= chars.len(),
            chars@ == s@,
            stripped_end(s@, c) == stripped_end(s@.take(end as int), c),
        decreases end,
    {
        assert(s@.take(end as int).drop_last() == s@.take(end - 1));
        end = end - 1;
    }
    assert(s@.subrange(0, end as int) == s@.take(end as int));
    s.substring_char(0, end)
}

pub fn trim_start_matches(s: &str, c: char) -> (r: &str)
    ensures
        r@ == stripped_start(s@, c),
{
    let chars = chars_of(s);
    let mut start: usize = 0;
    assert(s@.skip(0) == s@);
    while start < chars.len() && chars[start] == c
        invariant
            start <= chars.len(),
            chars@ == s@,
            stripped_start(s@, c) == stripped_start(s@.skip(start as int), c),
        decreases chars.len() - start,
    {
        assert(s@.skip(start as int).skip(1) == s@.skip(start + 1));
        start = start + 1;
    }
    assert(s@.subrange(start as int, s@.len() as int) == s@.skip(start as int));
    s.substring_char(start, chars.len())
}

pub fn trim_matches(s: &str, c: char) -> (r: &str)
    ensures
        r@ == stripped_end(stripped_start(s@, c), c),
{
    trim_end_matches(trim_start_matches(s, c), c)
}

/// The place of the next line feed, or the end of the text.
pub open spec fn line_end(s: Seq<char>, from: int) -> int
    decreases s.len() - from,
{
    if 0 <= from < s.len() && s[from] != '\n' {
        line_end(s, from + 1)
    } else {
        from
    }
}

/// The lines of a text from a place on, without white space at their ends.
/// Nothing follows the last line feed.
pub open spec fn lines_from(s: Seq<char>, from: int) -> Seq<Seq<char>>
    decreases s.len() + 1 - from,
{
    let end = line_end(s, from);
    if 0 <= from < s.len() && from <= end <= s.len() {
        seq![trimmed(s.subrange(from, end))] + lines_from(s, end + 1)
    } else {
        seq![]
    }
}

pub fn trimmed_lines(s: &str) -> (r: Vec<String>)
    ensures
        texts(r@) == lines_from(s@, 0),
{
    let chars = chars_of(s);
    let mut out: Vec<String> = Vec::new();
    let mut from: usize = 0;
    while from < chars.len()
        invariant
            chars@ == s@,
            from <= chars.len(),
            texts(out@) + lines_from(s@, from as int) == lines_from(s@, 0),
        decreases chars.len() - from,
    {
        let mut end: usize = from;
        while end < chars.len() && chars[end] != '\n'
            invariant
                from <= end <= chars.len(),
                chars@ == s@,
                line_end(s@, from as int) == line_end(s@, end as int),
            decreases chars.len() - end,
        {
            end = end + 1;
        }
        let ghost before = out@;
        out.push(trim(s.substring_char(from, end)).to_owned());
        assert(texts(out@) == texts(before).push(
            trimmed(s@.subrange(from as int, end as int)),
        ));
        assert(texts(out@) + lines_from(s@, end + 1) == texts(before) + lines_from(
            s@,
            from as int,
        ));
        if end == chars.len() {
            assert(lines_from(s@, end + 1) == lines_from(s@, end as int));
            from = end;
        } else {
            from = end + 1;
        }
    }
    assert(texts(out@) + lines_from(s@, from as int) == texts(out@));
    out
}

/// The value of a digit: of the ten figures, then of the letters in either
/// case.
pub open spec fn digit_value(c: char) -> int {
    if '0' <= c <= '9' {
        c as int - '0' as int
    } else if 'a' <= c <= 'z' {
        c as int - 'a' as int + 10
    } else if 'A' <= c <= 'Z' {
        c as int - 'A' as int + 10
    } else {
        36
    }
}

/// Whether all characters are digits of a radix.
pub open spec fn all_digits(s: Seq<char>, radix: int) -> bool {
    forall|i: int| 0 <= i < s.len() ==> #[trigger] digit_value(s[i]) < radix
}

/// The number that digits of a radix stand for.
pub open spec fn digits_value(s: Seq<char>, radix: int) -> int
    decreases s.len(),
{
    if s.len() == 0 {
        0
    } else {
        digits_value(s.drop_last(), radix) * radix + digit_value(s.last())
    }
}

/// The number that a text stands for: digits of a radix, perhaps behind a plus
/// sign, with a value of `max` at most.
pub open spec fn number(s: Seq<char>, radix: int, max: int) -> Option<int> {
    let digits = if s.len() > 0 && s[0] == '+' {
        s.skip(1)
    } else {
        s
    };
    if digits.len() > 0 && all_digits(digits, radix) && digits_value(digits, radix) <= max {
        Some(digits_value(digits, radix))
    } else {
        None
    }
}

fn value_of_digit(c: char) -> (r: u64)
    ensures
        r == digit_value(c),
{
    let u: u64 = c as u64;
    if 48 <= u && u <= 57 {
        u - 48
    } else if 97 <= u && u <= 122 {
        u - 97 + 10
    } else if 65 <= u && u <= 90 {
        u - 65 + 10
    } else {
        36
    }
}

proof fn value_grows(s: Seq<char>, n: int, radix: int)
    requires
        0 <= n <= s.len(),
        all_digits(s, radix),
        1 <= radix <= 36,
    ensures
        0 <= digits_value(s.take(n), radix) <= digits_value(s, radix),
    decreases s.len(),
{
    if s.len() == 0 {
    } else if n == s.len() {
        assert(s.take(n) == s);
        value_grows(s.drop_last(), s.len() - 1, radix);
        assert(s.drop_last().take(s.len() - 1) == s.drop_last());
        assert(digit_value(s.last()) >= 0);
        assert(digits_value(s.drop_last(), radix) * radix >= 0) by (nonlinear_arith)
            requires
                digits_value(s.drop_last(), radix) >= 0,
                radix >= 1,
        ;
    } else {
        value_grows(s.drop_last(), n, radix);
        assert(s.drop_last().take(n) == s.take(n));
        let v = digits_value(s.drop_last(), radix);
        assert(v * radix >= v) by (nonlinear_arith)
            requires
                v >= 0,
                radix >= 1,
        ;
        assert(digit_value(s.last()) >= 0);
    }
}

/// Reads a number.
pub fn parse_number(s: &str, radix: u64, max: u64) -> (r: Option<u64>)
    requires
        1 <= radix <= 36,
    ensures
        match r {
            Some(v) => number(s@, radix as int, max as int) == Some(v as int),
            None => number(s@, radix as int, max as int) is None,
        },
{
    let chars = chars_of(s);
    let from: usize = if chars.len() > 0 && chars[0] == '+' {
        1
    } else {
        0
    };
    let ghost digits = s@.skip(from as int);
    assert(from == 0 ==> digits == s@);
    if from == chars.len() {
        return None;
    }
    let mut i: usize = from;
    let mut value: u64 = 0;
    while i < chars.len()
        invariant
            from <= i <= chars.len(),
            chars@ == s@,
            digits == s@.skip(from as int),
            digits.len() > 0,
            1 <= radix <= 36,
            number(s@, radix as int, max as int) == (if all_digits(digits, radix as int)
                && digits_value(digits, radix as int) <= max {
                Some(digits_value(digits, radix as int))
            } else {
                None
            }),
            forall|k: int| 0 <= k < i - from ==> #[trigger] digit_value(digits[k]) < radix,
            value == digits_value(digits.take(i - from), radix as int),
            value <= max,
        decreases chars.len() - i,
    {
        let d: u64 = value_of_digit(chars[i]);
        assert(digits[i - from] == chars@[i as int]);
        if d >= radix {
            return None;
        }
        assert(digits.take(i - from + 1).drop_last() == digits.take(i - from));
        assert(value * radix <= 0xFFFF_FFFF_FFFF_FFFF * 36) by (nonlinear_arith)
            requires
                value <= 0xFFFF_FFFF_FFFF_FFFF,
                radix <= 36,
        ;
        let next: u128 = value as u128 * radix as u128 + d as u128;
        assert(next == digits_value(digits.take(i - from + 1), radix as int));
        if next > max as u128 {
            proof {
                if all_digits(digits, radix as int) {
                    value_grows(digits, i - from + 1, radix as int);
                }
            }
            return None;
        }
        value = next as u64;
        i = i + 1;
    }
    assert(digits.take(digits.len() as int) == digits);
    Some(value)
}

/// The ten figures.
pub open spec fn figure(d: int) -> char {
    (('0' as int) + d) as char
}

/// A number in decimal.
pub open spec fn decimal(n: nat) -> Seq<char>
    decreases n,
{
    if n < 10 {
        seq![figure(n as int)]
    } else {
        decimal(n / 10).push(figure((n % 10) as int))
    }
}

fn figure_text(d: u64) -> (r: &'static str)
    requires
        d < 10,
    ensures
        r@ == seq![figure(d as int)],
{
    proof {
        reveal_strlit("0");
        reveal_strlit("1");
        reveal_strlit("2");
        reveal_strlit("3");
        reveal_strlit("4");
        reveal_strlit("5");
        reveal_strlit("6");
        reveal_strlit("7");
        reveal_strlit("8");
        reveal_strlit("9");
    }
    if d == 0 {
        "0"
    } else if d == 1 {
        "1"
    } else if d == 2 {
        "2"
    } else if d == 3 {
        "3"
    } else if d == 4 {
        "4"
    } else if d == 5 {
        "5"
    } else if d == 6 {
        "6"
    } else if d == 7 {
        "7"
    } else if d == 8 {
        "8"
    } else {
        "9"
    }
}

/// Writes a number in decimal.
pub fn decimal_text(n: u64) -> (r: String)
    ensures
        r@ == decimal(n as nat),
    decreases n,
{
    if n < 10 {
        figure_text(n).to_owned()
    } else {
        let head = decimal_text(n / 10);
        joined(head.as_str(), figure_text(n % 10))
    }
}

/// A number, written in decimal, is read back.
pub proof fn decimal_is_read_back(n: nat, max: int)
    requires
        n <= max,
    ensures
        number(decimal(n), 10, max) == Some(n as int),
{
    decimal_digits(n);
}

proof fn decimal_digits(n: nat)
    ensures
        decimal(n).len() > 0,
        decimal(n)[0] != '+',
        all_digits(decimal(n), 10),
        digits_value(decimal(n), 10) == n,
    decreases n,
{
    if n < 10 {
        let s = seq![figure(n as int)];
        assert(s.drop_last() == Seq::<char>::empty());
        assert(digits_value(s.drop_last(), 10) == 0);
    } else {
        decimal_digits(n / 10);
        let head = decimal(n / 10);
        let s = head.push(figure((n % 10) as int));
        assert(s.drop_last() == head);
        assert forall|i: int| 0 <= i < s.len() implies #[trigger] digit_value(s[i]) < 10 by {
            if i < head.len() {
                assert(digit_value(head[i]) < 10);
            }
        }
    }
}

/// A character of the ASCII range in lower case.
pub open spec fn ascii_lower(c: char) -> char {
    if 'A' <= c <= 'Z' {
        (c as int + 32) as char
    } else {
        c
    }
}

/// A text of the ASCII range in lower case.
pub open spec fn ascii_lowered(s: Seq<char>) -> Seq<char> {
    s.map_values(|c: char| ascii_lower(c))
}

/// What `str::to_lowercase` makes of a text.
pub uninterp spec fn lowercase_of(s: Seq<char>) -> Seq<char>;

/// What `char::to_lowercase` makes of a character.
pub uninterp spec fn char_lowercase_of(c: char) -> Seq<char>;

/// A text in lower case.
pub open spec fn lowered(s: Seq<char>) -> Seq<char> {
    if vstd::utf8::is_ascii_chars(s) {
        ascii_lowered(s)
    } else {
        lowercase_of(s)
    }
}

/// A character in lower case, which may be several characters.
pub open spec fn char_lowered(c: char) -> Seq<char> {
    if (c as u32) < 128 {
        seq![ascii_lower(c)]
    } else {
        char_lowercase_of(c)
    }
}

/// Calls `str::to_lowercase`. Of a text of the ASCII range it changes the
/// letters A to Z alone, each into its own lower case; what it makes of any
/// other text has a name and is a function of the text.
#[verifier::external_body]
pub(crate) fn to_lowercase(s: &str) -> (r: String)
    ensures
        r@ == (if vstd::utf8::is_ascii_chars(s@) {
            ascii_lowered(s@)
        } else {
            lowercase_of(s@)
        }),
{
    s.to_lowercase()
}

/// Calls `char::to_lowercase`, and puts the characters that it gives into a
/// text. Of the ASCII range it changes the letters A to Z alone; what it makes
/// of any other character has a name and is a function of the character.
#[verifier::external_body]
pub(crate) fn char_to_lowercase(c: char) -> (r: String)
    ensures
        r@ == (if (c as u32) < 128 {
            seq![ascii_lower(c)]
        } else {
            char_lowercase_of(c)
        }),
{
    c.to_lowercase().to_string()
}

/// What `String::from_utf8_lossy` makes of bytes that are not UTF-8.
pub uninterp spec fn lossy_of(bytes: Seq<u8>) -> Seq<char>;

/// The text that bytes stand for, UTF-8 or not.
pub open spec fn lossy(bytes: Seq<u8>) -> Seq<char> {
    if vstd::utf8::valid_utf8(bytes) {
        vstd::utf8::decode_utf8(bytes)
    } else {
        lossy_of(bytes)
    }
}

/// Calls `String::from_utf8_lossy`. Bytes that are UTF-8 give the text that
/// they encode; what comes of any others has a name and is a function of the
/// bytes.
#[verifier::external_body]
pub(crate) fn from_utf8_lossy(bytes: &Vec<u8>) -> (r: String)
    ensures
        r@ == (if vstd::utf8::valid_utf8(bytes@) {
            vstd::utf8::decode_utf8(bytes@)
        } else {
            lossy_of(bytes@)
        }),
{
    String::from_utf8_lossy(bytes).into_owned()
}

/// Calls `std::str::from_utf8`. Bytes that are UTF-8 give the text that they
/// encode, any others give none.
#[verifier::external_body]
pub(crate) fn from_utf8(bytes: &Vec<u8>) -> (r: Option<String>)
    ensures
        match r {
            Some(text) => vstd::utf8::valid_utf8(bytes@) && text@ == vstd::utf8::decode_utf8(
                bytes@,
            ),
            None => !vstd::utf8::valid_utf8(bytes@),
        },
{
    match std::str::from_utf8(bytes) {
        Ok(text) => Some(text.to_owned()),
        Err(_) => None,
    }
}

/// A run ends at the end of the text or at a character of the other sort.
pub proof fn run_stops(s: Seq<char>, from: int, is_white: bool)
    requires
        0 <= from <= s.len(),
    ensures
        run_end(s, from, is_white) < s.len() ==> white(s[run_end(s, from, is_white)]) != is_white,
        from <= run_end(s, from, is_white) <= s.len(),
    decreases s.len() - from,
{
    if from < s.len() && white(s[from]) == is_white {
        run_stops(s, from + 1, is_white);
    }
}

/// A run that ends before the end of a text ends there whatever follows the
/// text, and one that reaches the end does if a character of the other sort
/// follows.
pub proof fn run_end_stays(s: Seq<char>, more: Seq<char>, from: int, is_white: bool)
    requires
        0 <= from <= s.len(),
        run_end(s, from, is_white) < s.len() || (more.len() > 0 && white(more[0]) != is_white),
    ensures
        run_end(s + more, from, is_white) == run_end(s, from, is_white),
    decreases s.len() - from,
{
    run_stops(s, from, is_white);
    if from < s.len() {
        assert((s + more)[from] == s[from]);
        if white(s[from]) == is_white {
            run_end_stays(s, more, from + 1, is_white);
        }
    } else {
        assert((s + more)[from] == more[0]);
    }
}

/// What follows a text after white space does not change its first word.
pub proof fn first_word_stays(s: Seq<char>, more: Seq<char>)
    requires
        words(s).len() > 0,
        more.len() > 0,
        white(more[0]),
    ensures
        words(s + more).len() > 0,
        words(s + more)[0] == words(s)[0],
{
    let start = run_end(s, 0, true);
    let end = run_end(s, start, false);
    run_stops(s, 0, true);
    run_stops(s, start, false);
    run_end_stays(s, more, 0, true);
    run_end_stays(s, more, start, false);
    assert((s + more).subrange(start, end) == s.subrange(start, end));
}

proof fn run_grows(s: Seq<char>, from: int, is_white: bool)
    requires
        0 <= from <= s.len(),
    ensures
        from <= run_end(s, from, is_white),
    decreases s.len() - from,
{
    run_stops(s, from, is_white);
}

} // verus!
