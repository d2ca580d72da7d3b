//! Character and string rules shared by the rest of the library.
//!
//! Strings are modelled by their sequence of characters (`Seq<char>`); every
//! executable function here states its result over that model.

use vstd::prelude::*;
use vstd::string::*;

verus! {

/// The view of an optional string.
pub open spec fn text_of(value: Option<String>) -> Option<Seq<char>> {
    match value {
        Some(text) => Some(text@),
        None => None,
    }
}

/// The view of an optional string slice.
pub open spec fn str_of(value: Option<&str>) -> Option<Seq<char>> {
    match value {
        Some(text) => Some(text@),
        None => None,
    }
}

/// Whether `c` is one of the Unicode `White_Space` code points.
pub open spec fn is_whitespace(c: char) -> bool {
    let n = c as u32;
    ||| 0x09 <= n <= 0x0D
    ||| n == 0x20
    ||| n == 0x85
    ||| n == 0xA0
    ||| n == 0x1680
    ||| 0x2000 <= n <= 0x200A
    ||| n == 0x2028
    ||| n == 0x2029
    ||| n == 0x202F
    ||| n == 0x205F
    ||| n == 0x3000
}

/// Number of whitespace characters at the front of `s`.
pub open spec fn leading_blanks(s: Seq<char>) -> nat
    decreases s.len(),
{
    if s.len() > 0 && is_whitespace(s[0]) {
        1 + leading_blanks(s.skip(1))
    } else {
        0
    }
}

/// Number of non-whitespace characters at the front of `s`.
pub open spec fn leading_word(s: Seq<char>) -> nat
    decreases s.len(),
{
    if s.len() > 0 && !is_whitespace(s[0]) {
        1 + leading_word(s.skip(1))
    } else {
        0
    }
}

/// Number of whitespace characters at the back of `s`.
pub open spec fn trailing_blanks(s: Seq<char>) -> nat
    decreases s.len(),
{
    if s.len() > 0 && is_whitespace(s.last()) {
        1 + trailing_blanks(s.drop_last())
    } else {
        0
    }
}

/// `s` without the whitespace at its front and at its back.
pub open spec fn trimmed(s: Seq<char>) -> Seq<char> {
    let rest = s.skip(leading_blanks(s) as int);
    rest.take(rest.len() - trailing_blanks(rest))
}

/// The maximal runs of non-whitespace characters of `s`, from left to right.
pub open spec fn fields(s: Seq<char>) -> Seq<Seq<char>>
    decreases s.len(),
{
    if s.len() == 0 {
        Seq::empty()
    } else if is_whitespace(s[0]) {
        fields(s.skip(1))
    } else {
        let n = leading_word(s) as int;
        proof {
            lemma_leading_bounds(s);
        }
        seq![s.take(n)] + fields(s.skip(n))
    }
}

/// A run of leading blanks or of leading word characters never exceeds the text.
pub proof fn lemma_leading_bounds(s: Seq<char>)
    ensures
        leading_blanks(s) <= s.len(),
        leading_word(s) <= s.len(),
        s.len() > 0 && !is_whitespace(s[0]) ==> leading_word(s) >= 1,
    decreases s.len(),
{
    if s.len() > 0 {
        lemma_leading_bounds(s.skip(1));
    }
}

/// The leading word of a text holds no whitespace.
pub proof fn lemma_leading_word_is_solid(s: Seq<char>)
    ensures
        forall|i: int| 0 <= i < leading_word(s) ==> !is_whitespace(#[trigger] s[i]),
    decreases s.len(),
{
    lemma_leading_bounds(s);
    if s.len() > 0 && !is_whitespace(s[0]) {
        let rest = s.skip(1);
        lemma_leading_word_is_solid(rest);
        lemma_leading_bounds(rest);
        assert forall|i: int| 0 <= i < leading_word(s) implies !is_whitespace(#[trigger] s[i]) by {
            if i > 0 {
                assert(rest[i - 1] == s[i]);
            }
        }
    }
}

/// Whether `w` is not empty and holds no whitespace.
pub open spec fn is_word(w: Seq<char>) -> bool {
    w.len() > 0 && forall|i: int| 0 <= i < w.len() ==> !is_whitespace(#[trigger] w[i])
}

/// Every field is a word.
pub proof fn lemma_fields_are_words(s: Seq<char>)
    ensures
        forall|k: int| 0 <= k < fields(s).len() ==> is_word(#[trigger] fields(s)[k]),
    decreases s.len(),
{
    if s.len() == 0 {
        assert(fields(s).len() == 0);
    } else if is_whitespace(s[0]) {
        lemma_fields_are_words(s.skip(1));
        assert(fields(s) == fields(s.skip(1)));
    } else {
        let n = leading_word(s) as int;
        lemma_leading_bounds(s);
        lemma_leading_word_is_solid(s);
        assert(fields(s) == seq![s.take(n)] + fields(s.skip(n)));
        let word = s.take(n);
        let rest = fields(s.skip(n));
        lemma_fields_are_words(s.skip(n));
        assert(is_word(word)) by {
            assert forall|i: int| 0 <= i < word.len() implies !is_whitespace(#[trigger] word[i]) by {
                assert(word[i] == s[i]);
            }
        }
        assert forall|k: int| 0 <= k < fields(s).len() implies is_word(#[trigger] fields(s)[k]) by {
            if k == 0 {
                assert(fields(s)[0] == word);
            } else {
                assert(fields(s)[k] == rest[k - 1]);
            }
        }
    }
}

/// Whether `c` is whitespace.
pub fn char_is_whitespace(c: char) -> (b: bool)
    ensures
        b == is_whitespace(c),
{
    let n: u32 = c as u32;
    (0x09 <= n && n <= 0x0D) || n == 0x20 || n == 0x85 || n == 0xA0 || n == 0x1680 || (0x2000 <= n
        && n <= 0x200A) || n == 0x2028 || n == 0x2029 || n == 0x202F || n == 0x205F || n == 0x3000
}

/// The characters of `s`, in order.
pub fn chars_of(s: &str) -> (v: Vec<char>)
    ensures
        v@ == s@,
{
    let mut v: Vec<char> = Vec::new();
    for c in it: s.chars()
        invariant
            v@ == it.seq().take(it.index() as int),
            it.seq() == s@,
    {
        v.push(c);
    }
    v
}

/// Splits `text` into its whitespace-separated fields.
pub fn split_fields(text: &str) -> (parts: Vec<String>)
    ensures
        parts@.len() == fields(text@).len(),
        forall|k: int| 0 <= k < parts@.len() ==> (#[trigger] parts@[k])@ == fields(text@)[k],
{
    let chars = chars_of(text);
    let n = chars.len();
    let mut parts: Vec<String> = Vec::new();
    let ghost mut done: Seq<Seq<char>> = Seq::empty();
    let mut i: usize = 0;
    assert(text@.skip(0) == text@);
    while i < n
        invariant
            chars@ == text@,
            n == chars@.len(),
            i <= n,
            done.len() == parts@.len(),
            forall|k: int| 0 <= k < parts@.len() ==> (#[trigger] parts@[k])@ == done[k],
            fields(text@) == done + fields(text@.skip(i as int)),
        decreases n - i,
    {
        let ghost rest = text@.skip(i as int);
        if char_is_whitespace(chars[i]) {
            assert(rest.skip(1) == text@.skip(i + 1));
            i = i + 1;
        } else {
            let start = i;
            while i < n && !char_is_whitespace(chars[i])
                invariant
                    chars@ == text@,
                    n == chars@.len(),
                    start <= i <= n,
                    leading_word(text@.skip(start as int)) == (i - start) + leading_word(
                        text@.skip(i as int),
                    ),
                decreases n - i,
            {
                assert(text@.skip(i as int).skip(1) == text@.skip(i + 1));
                i = i + 1;
            }
            proof {
                lemma_leading_bounds(rest);
                assert(leading_word(text@.skip(i as int)) == 0);
                assert(rest.take(i - start) == text@.subrange(start as int, i as int));
                assert(rest.skip(i - start) == text@.skip(i as int));
                let word = text@.subrange(start as int, i as int);
                assert(fields(rest) == seq![word] + fields(text@.skip(i as int)));
                assert(done + (seq![word] + fields(text@.skip(i as int))) == done.push(word)
                    + fields(text@.skip(i as int)));
                done = done.push(word);
            }
            let word = text.substring_char(start, i).to_owned();
            parts.push(word);
        }
    }
    assert(fields(text@.skip(n as int)) == Seq::<Seq<char>>::empty());
    assert(done + Seq::<Seq<char>>::empty() == done);
    parts
}

/// Where the text left by trimming `chars` starts and ends.
pub fn trimmed_bounds(chars: &Vec<char>) -> (bounds: (usize, usize))
    ensures
        bounds.0 <= bounds.1 <= chars@.len(),
        chars@.subrange(bounds.0 as int, bounds.1 as int) == trimmed(chars@),
{
    let n = chars.len();
    let mut start: usize = 0;
    assert(chars@.skip(0) == chars@);
    while start < n && char_is_whitespace(chars[start])
        invariant
            n == chars@.len(),
            start <= n,
            leading_blanks(chars@) == start + leading_blanks(chars@.skip(start as int)),
        decreases n - start,
    {
        assert(chars@.skip(start as int).skip(1) == chars@.skip(start + 1));
        start = start + 1;
    }
    let ghost rest = chars@.skip(start as int);
    let mut end: usize = n;
    assert(chars@.subrange(start as int, n as int) == rest);
    while end > start && char_is_whitespace(chars[end - 1])
        invariant
            n == chars@.len(),
            start <= end <= n,
            rest == chars@.skip(start as int),
            trailing_blanks(rest) == (n - end) + trailing_blanks(
                chars@.subrange(start as int, end as int),
            ),
        decreases end,
    {
        assert(chars@.subrange(start as int, end as int).drop_last() == chars@.subrange(
            start as int,
            end - 1,
        ));
        end = end - 1;
    }
    assert(rest.take(rest.len() - trailing_blanks(rest)) == chars@.subrange(
        start as int,
        end as int,
    ));
    (start, end)
}

/// Whether an answer means yes: `y` or `yes`, in either case, with
/// whitespace around it ignored.
pub open spec fn affirmative(answer: Seq<char>) -> bool {
    let t = trimmed(answer);
    ||| t.len() == 1 && (t[0] == 'y' || t[0] == 'Y')
    ||| t.len() == 3 && (t[0] == 'y' || t[0] == 'Y') && (t[1] == 'e' || t[1] == 'E') && (t[2]
        == 's' || t[2] == 'S')
}

/// Whether `answer` means yes.
pub fn is_affirmative(answer: &str) -> (yes: bool)
    ensures
        yes == affirmative(answer@),
{
    let chars = chars_of(answer);
    let (start, end) = trimmed_bounds(&chars);
    let ghost t = trimmed(answer@);
    assert(forall|k: int| 0 <= k < t.len() ==> t[k] == chars@[start + k]);
    if end - start == 1 {
        chars[start] == 'y' || chars[start] == 'Y'
    } else if end - start == 3 {
        (chars[start] == 'y' || chars[start] == 'Y') && (chars[start + 1] == 'e' || chars[start
            + 1] == 'E') && (chars[start + 2] == 's' || chars[start + 2] == 'S')
    } else {
        false
    }
}

/// Index of the last `c` in `s`, or `-1` where `s` holds none.
pub open spec fn last_position(s: Seq<char>, c: char) -> int
    decreases s.len(),
{
    if s.len() == 0 {
        -1
    } else if s.last() == c {
        s.len() - 1
    } else {
        last_position(s.drop_last(), c)
    }
}

/// `last_position` points at an occurrence after which none follows, and is
/// `-1` exactly where there is no occurrence.
pub proof fn lemma_last_position(s: Seq<char>, c: char)
    ensures
        -1 <= last_position(s, c) < s.len(),
        last_position(s, c) >= 0 ==> s[last_position(s, c)] == c,
        forall|j: int| last_position(s, c) < j < s.len() ==> s[j] != c,
    decreases s.len(),
{
    if s.len() > 0 && s.last() != c {
        let front = s.drop_last();
        lemma_last_position(front, c);
        assert forall|j: int| last_position(s, c) < j < s.len() implies s[j] != c by {
            if j < front.len() {
                assert(front[j] == s[j]);
            }
        }
    }
}

/// Index of the last `c` in `chars`, if there is one.
pub fn find_last(chars: &Vec<char>, c: char) -> (found: Option<usize>)
    ensures
        match found {
            Some(i) => i < chars.len() && i == last_position(chars@, c),
            None => last_position(chars@, c) == -1,
        },
{
    let mut j: usize = chars.len();
    assert(chars@.take(j as int) == chars@);
    while j > 0
        invariant
            j <= chars@.len(),
            last_position(chars@, c) == last_position(chars@.take(j as int), c),
        decreases j,
    {
        if chars[j - 1] == c {
            return Some(j - 1);
        }
        assert(chars@.take(j as int).drop_last() == chars@.take(j - 1));
        j = j - 1;
    }
    None
}

/// Whether `pattern` stands in `text` at index `i`.
pub open spec fn occurs_at(text: Seq<char>, pattern: Seq<char>, i: int) -> bool {
    0 <= i && i + pattern.len() <= text.len() && text.subrange(i, i + pattern.len()) == pattern
}

/// Whether `pattern` stands somewhere in `text`.
pub open spec fn contains_text(text: Seq<char>, pattern: Seq<char>) -> bool {
    exists|i: int| occurs_at(text, pattern, i)
}

fn matches_at(text: &Vec<char>, pattern: &Vec<char>, i: usize) -> (b: bool)
    requires
        i + pattern@.len() <= text@.len(),
    ensures
        b == occurs_at(text@, pattern@, i as int),
{
    let m = pattern.len();
    let mut j: usize = 0;
    while j < m
        invariant
            m == pattern.len(),
            i + m <= text.len(),
            j <= m,
            forall|k: int| 0 <= k < j ==> text@[i + k] == pattern@[k],
        decreases m - j,
    {
        if text[i + j] != pattern[j] {
            assert(text@.subrange(i as int, i + m)[j as int] != pattern@[j as int]);
            return false;
        }
        j = j + 1;
    }
    assert(text@.subrange(i as int, i + m) == pattern@);
    true
}

/// Whether `pattern` stands somewhere in `text`.
pub fn contains(text: &str, pattern: &str) -> (found: bool)
    ensures
        found == contains_text(text@, pattern@),
{
    let t = chars_of(text);
    let p = chars_of(pattern);
    let n = t.len();
    let m = p.len();
    if m > n {
        return false;
    }
    let last = n - m;
    let mut i: usize = 0;
    loop
        invariant
            t@ == text@,
            p@ == pattern@,
            n == t.len(),
            m == p.len(),
            last == n - m,
            i <= last,
            forall|k: int| 0 <= k < i ==> !occurs_at(t@, p@, k),
        decreases last - i,
    {
        if matches_at(&t, &p, i) {
            return true;
        }
        if i == last {
            return false;
        }
        i = i + 1;
    }
}

/// Whether `text` ends with `suffix`.
pub fn ends_with(text: &Vec<char>, suffix: &Vec<char>) -> (b: bool)
    ensures
        b == suffix@.is_suffix_of(text@),
{
    if suffix.len() > text.len() {
        return false;
    }
    matches_at(text, suffix, text.len() - suffix.len())
}

/// The character that writes the digit `d`.
pub open spec fn digit_char(d: int) -> char {
    if d == 0 {
        '0'
    } else if d == 1 {
        '1'
    } else if d == 2 {
        '2'
    } else if d == 3 {
        '3'
    } else if d == 4 {
        '4'
    } else if d == 5 {
        '5'
    } else if d == 6 {
        '6'
    } else if d == 7 {
        '7'
    } else if d == 8 {
        '8'
    } else {
        '9'
    }
}

/// `n` written in decimal, without sign or leading zeros.
pub open spec fn decimal(n: nat) -> Seq<char>
    decreases n,
{
    if n < 10 {
        seq![digit_char(n as int)]
    } else {
        decimal(n / 10).push(digit_char((n % 10) as int))
    }
}

fn digit_text(d: u32) -> (t: &'static str)
    requires
        d < 10,
    ensures
        t@ == seq![digit_char(d as int)],
{
    proof {
        reveal_strlit("0");
        reveal_strlit("1");
        reveal_strlit("2");
        reveal_strlit("3");
        reveal_strlit("4");
        reveal_strlit("5");
        reveal_strlit("6");
        reveal_strlit("7");
        reveal_strlit("8");
        reveal_strlit("9");
    }
    let t = if d == 0 {
        "0"
    } else if d == 1 {
        "1"
    } else if d == 2 {
        "2"
    } else if d == 3 {
        "3"
    } else if d == 4 {
        "4"
    } else if d == 5 {
        "5"
    } else if d == 6 {
        "6"
    } else if d == 7 {
        "7"
    } else if d == 8 {
        "8"
    } else {
        "9"
    };
    assert(t@ =~= seq![digit_char(d as int)]);
    t
}

/// Writes `n` in decimal.
pub fn format_number(n: u32) -> (s: String)
    ensures
        s@ == decimal(n as nat),
    decreases n,
{
    if n < 10 {
        digit_text(n).to_owned()
    } else {
        let mut s = format_number(n / 10);
        s.append(digit_text(n % 10));
        s
    }
}

/// Whether `c` is one of `0` to `9`.
pub open spec fn is_digit(c: char) -> bool {
    0x30 <= c as u32 <= 0x39
}

/// The number that the digit `c` stands for.
pub open spec fn digit_value(c: char) -> nat {
    (c as u32 - 0x30) as nat
}

/// The number that a string of digits writes.
pub open spec fn decimal_value(s: Seq<char>) -> nat
    decreases s.len(),
{
    if s.len() == 0 {
        0
    } else {
        decimal_value(s.drop_last()) * 10 + digit_value(s.last())
    }
}

/// Whether every character of `s` is a digit.
pub open spec fn all_digits(s: Seq<char>) -> bool {
    forall|i: int| 0 <= i < s.len() ==> is_digit(#[trigger] s[i])
}

/// What `text` denotes as a 16-bit unsigned number: an optional `+`, then
/// one or more digits whose value fits; `None` for anything else.
pub open spec fn parsed_u16(text: Seq<char>) -> Option<u16> {
    let digits = if text.len() > 0 && text[0] == '+' {
        text.skip(1)
    } else {
        text
    };
    if digits.len() > 0 && all_digits(digits) && decimal_value(digits) <= u16::MAX {
        Some(decimal_value(digits) as u16)
    } else {
        None
    }
}

/// The value of a string of digits is at least the value of each of its prefixes.
pub proof fn lemma_decimal_value_prefix(s: Seq<char>, k: int)
    requires
        all_digits(s),
        0 <= k <= s.len(),
    ensures
        decimal_value(s.take(k)) <= decimal_value(s),
    decreases s.len(),
{
    if k == s.len() {
        assert(s.take(k) == s);
    } else {
        assert(s.drop_last().take(k) == s.take(k));
        lemma_decimal_value_prefix(s.drop_last(), k);
    }
}

/// The decimal writing of a number is made of digits that write that number.
pub proof fn lemma_decimal_is_digits(n: nat)
    ensures
        decimal(n).len() > 0,
        all_digits(decimal(n)),
        decimal_value(decimal(n)) == n,
    decreases n,
{
    if n < 10 {
        let s = decimal(n);
        assert(s.drop_last().len() == 0);
        assert(decimal_value(s.drop_last()) == 0);
        assert(s.last() == digit_char(n as int));
    } else {
        lemma_decimal_is_digits(n / 10);
        let s = decimal(n);
        let front = decimal(n / 10);
        assert(s.drop_last() == front);
        assert(s.last() == digit_char((n % 10) as int));
        assert forall|i: int| 0 <= i < s.len() implies is_digit(#[trigger] s[i]) by {
            if i < front.len() {
                assert(s[i] == front[i]);
            }
        }
    }
}

/// A number that fits in 16 bits is read back from its decimal writing.
pub proof fn lemma_written_number_is_read_back(n: u16)
    ensures
        parsed_u16(decimal(n as nat)) == Some(n),
{
    lemma_decimal_is_digits(n as nat);
    let s = decimal(n as nat);
    assert(is_digit(s[0]));
}

/// Reads `text` as a 16-bit unsigned number.
pub fn parse_u16(text: &str) -> (r: Option<u16>)
    ensures
        r == parsed_u16(text@),
{
    let chars = chars_of(text);
    let n = chars.len();
    let start: usize = if n > 0 && chars[0] == '+' {
        1
    } else {
        0
    };
    let ghost digits = text@.skip(start as int);
    assert(text@.skip(0) == text@);
    if start == n {
        return None;
    }
    let mut value: u32 = 0;
    let mut i: usize = start;
    assert(digits.take(0) == Seq::<char>::empty());
    while i < n
        invariant
            chars@ == text@,
            n == chars@.len(),
            start <= i <= n,
            digits == text@.skip(start as int),
            digits == if text@.len() > 0 && text@[0] == '+' {
                text@.skip(1)
            } else {
                text@
            },
            all_digits(digits.take(i - start)),
            value == decimal_value(digits.take(i - start)),
            value <= u16::MAX,
        decreases n - i,
    {
        let c = chars[i];
        let code: u32 = c as u32;
        assert(digits[i - start] == c);
        if code < 0x30 || code > 0x39 {
            assert(!is_digit(digits[i - start]));
            return None;
        }
        let ghost longer = digits.take(i - start + 1);
        assert(longer.drop_last() == digits.take(i - start));
        assert(longer.last() == c);
        let next: u32 = value * 10 + (code - 0x30);
        if next > 0xFFFF {
            proof {
                if all_digits(digits) {
                    lemma_decimal_value_prefix(digits, i - start + 1);
                }
            }
            return None;
        }
        value = next;
        i = i + 1;
    }
    assert(digits.take(n - start) == digits);
    Some(value as u16)
}

/// `a` followed by `b`.
pub fn chain(a: &str, b: &str) -> (s: String)
    ensures
        s@ == a@ + b@,
{
    let mut s = a.to_owned();
    s.append(b);
    s
}

/// `a`, then `b`, then `c`.
pub fn chain3(a: &str, b: &str, c: &str) -> (s: String)
    ensures
        s@ == a@ + b@ + c@,
{
    let mut s = a.to_owned();
    s.append(b);
    s.append(c);
    s
}

} // verus!
