//! Operations on text that the pipelines need: comparison, search,
//! concatenation, and decimal numbers in both directions.

use vstd::prelude::*;

verus! {

/// Whether two texts hold the same characters.
pub fn text_eq(a: &str, b: &str) -> (same: bool)
    ensures
        same == (a@ == b@),
{
    let n = a.unicode_len();
    if n != b.unicode_len() {
        return false;
    }
    let mut i: usize = 0;
    while i < n
        invariant
            i <= n,
            n == a@.len(),
            n == b@.len(),
            forall|j: int| 0 <= j < i ==> a@[j] == b@[j],
        decreases n - i,
    {
        if a.get_char(i) != b.get_char(i) {
            return false;
        }
        i += 1;
    }
    assert(a@ =~= b@);
    true
}

/// The characters of a text, in order.
pub fn chars_of(s: &str) -> (v: Vec<char>)
    ensures
        v@ == s@,
{
    let n = s.unicode_len();
    let mut v: Vec<char> = Vec::new();
    let mut i: usize = 0;
    while i < n
        invariant
            i <= n,
            n == s@.len(),
            v@ == s@.take(i as int),
        decreases n - i,
    {
        v.push(s.get_char(i));
        i += 1;
    }
    v
}

/// `needle` occurs in `haystack` at position `at`.
pub open spec fn occurs_at(haystack: Seq<char>, needle: Seq<char>, at: int) -> bool {
    &&& 0 <= at
    &&& at + needle.len() <= haystack.len()
    &&& haystack.subrange(at, at + needle.len()) == needle
}

/// `needle` occurs somewhere in `haystack`. The empty text occurs in every text.
pub open spec fn occurs_in(haystack: Seq<char>, needle: Seq<char>) -> bool {
    exists|at: int| occurs_at(haystack, needle, at)
}

/// Whether `needle` occurs in `haystack` at position `at`.
fn matches_at(haystack: &Vec<char>, needle: &Vec<char>, at: usize) -> (found: bool)
    requires
        at + needle@.len() <= haystack@.len(),
    ensures
        found == occurs_at(haystack@, needle@, at as int),
{
    let m = needle.len();
    let total = haystack.len();
    let mut j: usize = 0;
    while j < m
        invariant
            j <= m,
            m == needle@.len(),
            at + m <= haystack@.len() == total,
            forall|k: int| 0 <= k < j ==> haystack@[at + k] == needle@[k],
        decreases m - j,
    {
        if haystack[at + j] != needle[j] {
            return false;
        }
        j += 1;
    }
    assert(haystack@.subrange(at as int, at + m) =~= needle@);
    true
}

/// Whether the characters from `from` up to `to` are exactly those of `text`.
pub(crate) fn range_is(chars: &Vec<char>, from: usize, to: usize, text: &str) -> (same: bool)
    requires
        from <= to <= chars@.len(),
    ensures
        same == (chars@.subrange(from as int, to as int) == text@),
{
    let expected = chars_of(text);
    if to - from != expected.len() {
        return false;
    }
    matches_at(chars, &expected, from)
}

/// The position of the first `.` at or after `from`, or the length of the text
/// where there is none.
pub open spec fn first_dot(text: Seq<char>, from: int) -> int
    decreases text.len() - from,
{
    if from >= text.len() {
        text.len() as int
    } else if text[from] == '.' {
        from
    } else {
        first_dot(text, from + 1)
    }
}

/// The position of the first `.` at or after `from`, or the length of the text
/// where there is none.
pub(crate) fn find_dot(chars: &Vec<char>, from: usize) -> (at: usize)
    requires
        from <= chars@.len(),
    ensures
        at == first_dot(chars@, from as int),
        from <= at <= chars@.len(),
{
    let mut at: usize = from;
    while at < chars.len() && chars[at] != '.'
        invariant
            from <= at <= chars@.len(),
            first_dot(chars@, from as int) == first_dot(chars@, at as int),
        decreases chars@.len() - at,
    {
        at += 1;
    }
    at
}

/// The first `.` at or after `from` is at `to`, where nothing before `to` is a
/// `.` and `to` is one, or the end of the text.
pub proof fn first_dot_is_at(text: Seq<char>, from: int, to: int)
    requires
        0 <= from <= to <= text.len(),
        forall|i: int| from <= i < to ==> text[i] != '.',
        to < text.len() ==> text[to] == '.',
    ensures
        first_dot(text, from) == to,
    decreases to - from,
{
    if from < to {
        first_dot_is_at(text, from + 1, to);
    }
}

/// Whether `needle` occurs somewhere in `haystack`.
pub fn contains(haystack: &str, needle: &str) -> (found: bool)
    ensures
        found == occurs_in(haystack@, needle@),
{
    let h = chars_of(haystack);
    let n = chars_of(needle);
    if n.len() > h.len() {
        return false;
    }
    let last = h.len() - n.len();
    let mut at: usize = 0;
    loop
        invariant
            at <= last,
            last == h@.len() - n@.len(),
            h@ == haystack@,
            n@ == needle@,
            forall|k: int| 0 <= k < at ==> !occurs_at(h@, n@, k),
        decreases last - at,
    {
        if matches_at(&h, &n, at) {
            return true;
        }
        if at == last {
            return false;
        }
        at += 1;
    }
}

/// The outcome of outside work that yields a text, as contracts see it: the
/// text, or the message of the failure.
pub open spec fn text_outcome(r: Result<String, String>) -> Result<Seq<char>, Seq<char>> {
    match r {
        Ok(text) => Ok(text@),
        Err(message) => Err(message@),
    }
}

/// The outcome of outside work that yields nothing, as contracts see it:
/// success, or the message of the failure.
pub open spec fn unit_outcome(r: Result<(), String>) -> Result<(), Seq<char>> {
    match r {
        Ok(_) => Ok(()),
        Err(message) => Err(message@),
    }
}

/// The two texts one after the other, as a new `String`.
pub fn concat2(a: &str, b: &str) -> (s: String)
    ensures
        s@ == a@ + b@,
{
    let mut s = String::from_str(a);
    s.append(b);
    s
}

/// The three texts one after the other, as a new `String`.
pub fn concat3(a: &str, b: &str, c: &str) -> (s: String)
    ensures
        s@ == a@ + b@ + c@,
{
    let mut s = String::from_str(a);
    s.append(b);
    s.append(c);
    s
}

/// The character that stands for a digit below ten.
pub open spec fn digit_char(d: nat) -> char
    recommends
        d < 10,
{
    if d == 0 {
        '0'
    } else if d == 1 {
        '1'
    } else if d == 2 {
        '2'
    } else if d == 3 {
        '3'
    } else if d == 4 {
        '4'
    } else if d == 5 {
        '5'
    } else if d == 6 {
        '6'
    } else if d == 7 {
        '7'
    } else if d == 8 {
        '8'
    } else {
        '9'
    }
}

/// A number in decimal notation: no sign, no leading zero but for zero itself.
pub open spec fn decimal_text(n: nat) -> Seq<char>
    decreases n,
{
    if n < 10 {
        seq![digit_char(n)]
    } else {
        decimal_text(n / 10).push(digit_char(n % 10))
    }
}

/// The one-character text of a digit below ten.
fn digit_str(d: u64) -> (s: &'static str)
    requires
        d < 10,
    ensures
        s@ == seq![digit_char(d as nat)],
{
    proof {
        reveal_strlit("0");
        reveal_strlit("1");
        reveal_strlit("2");
        reveal_strlit("3");
        reveal_strlit("4");
        reveal_strlit("5");
        reveal_strlit("6");
        reveal_strlit("7");
        reveal_strlit("8");
        reveal_strlit("9");
    }
    let s = if d == 0 {
        "0"
    } else if d == 1 {
        "1"
    } else if d == 2 {
        "2"
    } else if d == 3 {
        "3"
    } else if d == 4 {
        "4"
    } else if d == 5 {
        "5"
    } else if d == 6 {
        "6"
    } else if d == 7 {
        "7"
    } else if d == 8 {
        "8"
    } else {
        "9"
    };
    s
}

/// A number written in decimal notation.
pub fn decimal(n: u64) -> (s: String)
    ensures
        s@ == decimal_text(n as nat),
    decreases n,
{
    if n < 10 {
        String::from_str(digit_str(n))
    } else {
        let mut s = decimal(n / 10);
        s.append(digit_str(n % 10));
        s
    }
}

/// A list of texts with one more text at its end.
pub fn push_text(list: &mut Vec<String>, text: &str)
    ensures
        final(list).deep_view() == old(list).deep_view().push(text@),
{
    list.push(String::from_str(text));
}

/// Why a text is no number.
#[derive(Clone, Copy, Debug, PartialEq, Eq, Structural)]
pub enum NumberFault {
    /// The text is empty.
    Empty,
    /// The text holds something other than digits after an optional `+`.
    InvalidDigit,
    /// The number does not fit in 32 bits.
    TooLarge,
}

/// The character is one of `0` to `9`.
pub open spec fn is_digit(c: char) -> bool {
    '0' <= c <= '9'
}

/// The value of a digit.
pub open spec fn digit_value(c: char) -> nat
    recommends
        is_digit(c),
{
    (c as int - '0' as int) as nat
}

/// Reads digits from left to right onto the value `acc` read so far. The first
/// character that is no digit, or the first digit that takes the value past
/// `u32::MAX`, ends the reading with its fault.
pub open spec fn read_digits(digits: Seq<char>, acc: nat) -> Result<nat, NumberFault>
    decreases digits.len(),
{
    if digits.len() == 0 {
        Ok(acc)
    } else if !is_digit(digits[0]) {
        Err(NumberFault::InvalidDigit)
    } else if acc * 10 + digit_value(digits[0]) > u32::MAX {
        Err(NumberFault::TooLarge)
    } else {
        read_digits(digits.drop_first(), acc * 10 + digit_value(digits[0]))
    }
}

/// The number that a text denotes: decimal digits, with an optional `+` in
/// front of them, of a value that fits in 32 bits.
pub open spec fn number_of(text: Seq<char>) -> Result<nat, NumberFault> {
    if text.len() == 0 {
        Err(NumberFault::Empty)
    } else {
        let digits = if text[0] == '+' {
            text.drop_first()
        } else {
            text
        };
        if digits.len() == 0 {
            Err(NumberFault::InvalidDigit)
        } else {
            read_digits(digits, 0)
        }
    }
}

/// The decimal notation of a number holds digits only.
pub proof fn decimal_text_is_digits(n: nat)
    ensures
        decimal_text(n).len() > 0,
        forall|i: int| 0 <= i < decimal_text(n).len() ==> is_digit(#[trigger] decimal_text(n)[i]),
    decreases n,
{
    if n >= 10 {
        decimal_text_is_digits(n / 10);
    }
}

/// Reading one more character after `digits`: the fault of `digits` if it has
/// one, else what the character makes of the value read so far.
proof fn read_digits_push(digits: Seq<char>, c: char, acc: nat)
    ensures
        read_digits(digits.push(c), acc) == match read_digits(digits, acc) {
            Ok(value) => read_digits(seq![c], value),
            Err(fault) => Err(fault),
        },
    decreases digits.len(),
{
    if digits.len() == 0 {
        assert(digits.push(c) =~= seq![c]);
    } else {
        assert(digits.push(c).drop_first() =~= digits.drop_first().push(c));
        if is_digit(digits[0]) && acc * 10 + digit_value(digits[0]) <= u32::MAX {
            read_digits_push(digits.drop_first(), c, acc * 10 + digit_value(digits[0]));
        }
    }
}

/// The digits of a number that fits in 32 bits read back as that number.
proof fn decimal_digits_read_back(n: nat)
    requires
        n <= u32::MAX,
    ensures
        read_digits(decimal_text(n), 0) == Ok::<nat, NumberFault>(n),
        decimal_text(n).len() > 0,
        is_digit(decimal_text(n)[0]),
    decreases n,
{
    reveal_with_fuel(read_digits, 2);
    if n < 10 {
    } else {
        let c = digit_char(n % 10);
        decimal_digits_read_back(n / 10);
        read_digits_push(decimal_text(n / 10), c, 0);
    }
}

/// Writing and reading agree: the decimal notation of a number that fits in
/// 32 bits denotes that number.
pub proof fn decimal_text_denotes_its_number(n: nat)
    requires
        n <= u32::MAX,
    ensures
        number_of(decimal_text(n)) == Ok::<nat, NumberFault>(n),
{
    decimal_digits_read_back(n);
}

/// The number that the characters from `from` up to `to` denote.
pub(crate) fn parse_number(
    chars: &Vec<char>,
    from: usize,
    to: usize,
) -> (r: Result<u32, NumberFault>)
    requires
        from <= to <= chars@.len(),
    ensures
        match r {
            Ok(n) => number_of(chars@.subrange(from as int, to as int)) == Ok::<nat, NumberFault>(
                n as nat,
            ),
            Err(fault) => number_of(chars@.subrange(from as int, to as int)) == Err::<
                nat,
                NumberFault,
            >(fault),
        },
{
    let ghost text = chars@.subrange(from as int, to as int);
    if from == to {
        return Err(NumberFault::Empty);
    }
    let start = if chars[from] == '+' {
        from + 1
    } else {
        from
    };
    let ghost digits = chars@.subrange(start as int, to as int);
    assert(digits =~= if text[0] == '+' {
        text.drop_first()
    } else {
        text
    });
    if start == to {
        return Err(NumberFault::InvalidDigit);
    }
    let mut acc: u32 = 0;
    let mut i: usize = start;
    while i < to
        invariant
            from <= start <= i <= to <= chars@.len(),
            number_of(chars@.subrange(from as int, to as int)) == read_digits(
                chars@.subrange(i as int, to as int),
                acc as nat,
            ),
        decreases to - i,
    {
        let c = chars[i];
        let ghost rest = chars@.subrange(i as int, to as int);
        assert(rest.drop_first() =~= chars@.subrange(i + 1, to as int));
        if c < '0' || c > '9' {
            return Err(NumberFault::InvalidDigit);
        }
        let d: u32 = c as u32 - '0' as u32;
        if acc > (u32::MAX - d) / 10 {
            return Err(NumberFault::TooLarge);
        }
        acc = acc * 10 + d;
        i += 1;
    }
    Ok(acc)
}

} // verus!
