//! Small verified helpers for building text: views of optional and repeated
//! strings, and decimal rendering of unsigned integers.

use vstd::prelude::*;

verus! {

/// View of an optional string as an optional character sequence.
pub open spec fn text_of(s: Option<String>) -> Option<Seq<char>> {
    match s {
        Some(t) => Some(t@),
        None => None,
    }
}

/// View of a sequence of strings as a sequence of character sequences.
pub open spec fn texts_of(s: Seq<String>) -> Seq<Seq<char>> {
    s.map_values(|t: String| t@)
}

/// The character that writes the decimal digit `d`.
pub open spec fn digit_char(d: nat) -> char {
    if d == 0 {
        '0'
    } else if d == 1 {
        '1'
    } else if d == 2 {
        '2'
    } else if d == 3 {
        '3'
    } else if d == 4 {
        '4'
    } else if d == 5 {
        '5'
    } else if d == 6 {
        '6'
    } else if d == 7 {
        '7'
    } else if d == 8 {
        '8'
    } else {
        '9'
    }
}

/// The decimal numeral of `n`: most significant digit first, no leading zero
/// except for zero itself.
pub open spec fn decimal_digits(n: nat) -> Seq<char>
    decreases n,
{
    if n < 10 {
        seq![digit_char(n)]
    } else {
        decimal_digits(n / 10).push(digit_char(n % 10))
    }
}

/// The one-character literal for a decimal digit.
fn digit_text(d: u64) -> (s: &'static str)
    requires
        d < 10,
    ensures
        s@ == seq![digit_char(d as nat)],
{
    proof {
        reveal_strlit("0");
        reveal_strlit("1");
        reveal_strlit("2");
        reveal_strlit("3");
        reveal_strlit("4");
        reveal_strlit("5");
        reveal_strlit("6");
        reveal_strlit("7");
        reveal_strlit("8");
        reveal_strlit("9");
    }
    let s = if d == 0 {
        "0"
    } else if d == 1 {
        "1"
    } else if d == 2 {
        "2"
    } else if d == 3 {
        "3"
    } else if d == 4 {
        "4"
    } else if d == 5 {
        "5"
    } else if d == 6 {
        "6"
    } else if d == 7 {
        "7"
    } else if d == 8 {
        "8"
    } else {
        "9"
    };
    assert(s@ =~= seq![digit_char(d as nat)]);
    s
}

/// Appends the decimal numeral of `n` to `out`.
pub fn push_decimal(out: &mut String, n: u64)
    ensures
        final(out)@ == old(out)@ + decimal_digits(n as nat),
    decreases n,
{
    if n >= 10 {
        push_decimal(out, n / 10);
    }
    out.append(digit_text(n % 10));
    proof {
        let d = seq![digit_char((n % 10) as nat)];
        if n >= 10 {
            assert(decimal_digits(n as nat) =~= decimal_digits((n / 10) as nat) + d);
            assert(out@ =~= old(out)@ + decimal_digits(n as nat));
        } else {
            assert(decimal_digits(n as nat) =~= d);
        }
    }
}

/// Whether two pieces of text are the same.
pub fn same_text(a: &str, b: &str) -> (same: bool)
    ensures
        same == (a@ == b@),
{
    let left = a.to_string();
    let right = b.to_string();
    left == right
}

/// Whether `text` begins with `prefix`.
pub open spec fn has_prefix(text: Seq<char>, prefix: Seq<char>) -> bool {
    prefix.len() <= text.len() && text.subrange(0, prefix.len() as int) == prefix
}

/// What follows `prefix` in `text`, if `text` begins with it.
pub open spec fn after_prefix(text: Seq<char>, prefix: Seq<char>) -> Option<Seq<char>> {
    if has_prefix(text, prefix) {
        Some(text.subrange(prefix.len() as int, text.len() as int))
    } else {
        None
    }
}

/// Whether `text` begins with `prefix`.
pub fn starts_with(text: &str, prefix: &str) -> (found: bool)
    ensures
        found == has_prefix(text@, prefix@),
{
    let n = prefix.unicode_len();
    if text.unicode_len() < n {
        return false;
    }
    let mut i: usize = 0;
    while i < n
        invariant
            i <= n,
            n == prefix@.len(),
            n <= text@.len(),
            forall|k: int| 0 <= k < i ==> text@[k] == prefix@[k],
        decreases n - i,
    {
        if text.get_char(i) != prefix.get_char(i) {
            assert(text@.subrange(0, n as int)[i as int] != prefix@[i as int]);
            return false;
        }
        i += 1;
    }
    assert(text@.subrange(0, n as int) =~= prefix@);
    true
}

/// What follows `prefix` in `text`, if `text` begins with it.
pub fn strip_prefix(text: &str, prefix: &str) -> (rest: Option<String>)
    ensures
        text_of(rest) == after_prefix(text@, prefix@),
{
    if starts_with(text, prefix) {
        let rest = text.substring_char(prefix.unicode_len(), text.unicode_len());
        Some(rest.to_string())
    } else {
        None
    }
}

/// The place of the first `sep` in `text`, or the length of `text` if there
/// is none.
pub open spec fn first_sep(text: Seq<char>, sep: char) -> int
    decreases text.len(),
{
    if text.len() == 0 || text[0] == sep {
        0
    } else {
        1 + first_sep(text.subrange(1, text.len() as int), sep)
    }
}

/// The pieces of `text` between occurrences of `sep`, in order. There is
/// always at least one piece; pieces may be empty.
pub open spec fn split_on(text: Seq<char>, sep: char) -> Seq<Seq<char>>
    decreases text.len(),
{
    let i = first_sep(text, sep);
    if 0 <= i < text.len() {
        seq![text.subrange(0, i)] + split_on(text.subrange(i + 1, text.len() as int), sep)
    } else {
        seq![text]
    }
}

/// The first separator is where the text says it is: behind a stretch
/// without one.
proof fn lemma_first_sep_at(text: Seq<char>, sep: char, at: int)
    requires
        0 <= at <= text.len(),
        forall|k: int| 0 <= k < at ==> text[k] != sep,
        at == text.len() || text[at] == sep,
    ensures
        first_sep(text, sep) == at,
    decreases at,
{
    if at > 0 {
        let rest = text.subrange(1, text.len() as int);
        assert forall|k: int| 0 <= k < at - 1 implies rest[k] != sep by {
            assert(rest[k] == text[k + 1]);
        }
        lemma_first_sep_at(rest, sep, at - 1);
    }
}

/// Splits `text` at every occurrence of `sep`.
pub fn split_text(text: &str, sep: char) -> (pieces: Vec<String>)
    ensures
        texts_of(pieces@) == split_on(text@, sep),
{
    let n = text.unicode_len();
    let mut pieces: Vec<String> = Vec::new();
    let mut start: usize = 0;
    let mut i: usize = 0;
    assert(text@.subrange(0, n as int) =~= text@);
    assert(texts_of(pieces@) + split_on(text@, sep) =~= split_on(text@, sep));
    while i < n
        invariant
            start <= i <= n,
            n == text@.len(),
            forall|k: int| start <= k < i ==> text@[k] != sep,
            split_on(text@, sep) == texts_of(pieces@) + split_on(
                text@.subrange(start as int, n as int),
                sep,
            ),
        decreases n - i,
    {
        if text.get_char(i) == sep {
            let piece = text.substring_char(start, i).to_string();
            proof {
                let rest = text@.subrange(start as int, n as int);
                assert forall|k: int| 0 <= k < i - start implies rest[k] != sep by {
                    assert(rest[k] == text@[start + k]);
                }
                lemma_first_sep_at(rest, sep, i - start);
                assert(rest.subrange(0, i - start) =~= text@.subrange(start as int, i as int));
                assert(rest.subrange(i - start + 1, rest.len() as int) =~= text@.subrange(
                    i + 1,
                    n as int,
                ));
                assert(texts_of(pieces@.push(piece)) =~= texts_of(pieces@).push(piece@));
                assert(texts_of(pieces@) + (seq![piece@] + split_on(
                    text@.subrange(i + 1, n as int),
                    sep,
                )) =~= texts_of(pieces@).push(piece@) + split_on(
                    text@.subrange(i + 1, n as int),
                    sep,
                ));
            }
            pieces.push(piece);
            start = i + 1;
        }
        i += 1;
    }
    let piece = text.substring_char(start, n).to_string();
    proof {
        let rest = text@.subrange(start as int, n as int);
        assert forall|k: int| 0 <= k < rest.len() implies rest[k] != sep by {
            assert(rest[k] == text@[start + k]);
        }
        lemma_first_sep_at(rest, sep, rest.len() as int);
        assert(texts_of(pieces@.push(piece)) =~= texts_of(pieces@) + seq![rest]);
    }
    pieces.push(piece);
    pieces
}

/// The value of a decimal digit, if the character is one.
pub open spec fn digit_of(c: char) -> Option<nat> {
    if c == '0' {
        Some(0)
    } else if c == '1' {
        Some(1)
    } else if c == '2' {
        Some(2)
    } else if c == '3' {
        Some(3)
    } else if c == '4' {
        Some(4)
    } else if c == '5' {
        Some(5)
    } else if c == '6' {
        Some(6)
    } else if c == '7' {
        Some(7)
    } else if c == '8' {
        Some(8)
    } else if c == '9' {
        Some(9)
    } else {
        None
    }
}

/// Whether every character of `digits` is a decimal digit.
pub open spec fn all_digits(digits: Seq<char>) -> bool {
    forall|i: int| 0 <= i < digits.len() ==> digit_of(#[trigger] digits[i]) is Some
}

/// The number that a sequence of decimal digits writes, most significant
/// digit first.
pub open spec fn numeral_value(digits: Seq<char>) -> nat
    decreases digits.len(),
{
    if digits.len() == 0 {
        0
    } else {
        numeral_value(digits.drop_last()) * 10 + match digit_of(digits.last()) {
            Some(d) => d,
            None => 0,
        }
    }
}

/// `text` without one leading plus sign.
pub open spec fn unsigned_part(text: Seq<char>) -> Seq<char> {
    if text.len() > 0 && text[0] == '+' {
        text.subrange(1, text.len() as int)
    } else {
        text
    }
}

/// The number that `text` writes, if it is a numeral for a number up to
/// `max`: an optional plus sign, then one or more decimal digits and nothing
/// else.
pub open spec fn parsed_unsigned(text: Seq<char>, max: nat) -> Option<nat> {
    let digits = unsigned_part(text);
    if digits.len() > 0 && all_digits(digits) && numeral_value(digits) <= max {
        Some(numeral_value(digits))
    } else {
        None
    }
}

/// A numeral is worth at least as much as each of its beginnings.
proof fn lemma_numeral_grows(digits: Seq<char>, upto: int)
    requires
        0 <= upto <= digits.len(),
    ensures
        numeral_value(digits.take(upto)) <= numeral_value(digits),
    decreases digits.len() - upto,
{
    if upto < digits.len() {
        lemma_numeral_grows(digits, upto + 1);
        assert(digits.take(upto + 1).drop_last() =~= digits.take(upto));
    } else {
        assert(digits.take(upto) =~= digits);
    }
}

/// The value of a decimal digit, if the character is one.
fn digit_value(c: char) -> (d: Option<u64>)
    ensures
        match d {
            Some(v) => digit_of(c) == Some(v as nat) && v <= 9,
            None => digit_of(c) is None,
        },
{
    match c {
        '0' => Some(0),
        '1' => Some(1),
        '2' => Some(2),
        '3' => Some(3),
        '4' => Some(4),
        '5' => Some(5),
        '6' => Some(6),
        '7' => Some(7),
        '8' => Some(8),
        '9' => Some(9),
        _ => None,
    }
}

/// Reads `text` as a decimal numeral for a number up to `max`.
pub fn parse_unsigned(text: &str, max: u64) -> (value: Option<u64>)
    ensures
        match value {
            Some(v) => parsed_unsigned(text@, max as nat) == Some(v as nat),
            None => parsed_unsigned(text@, max as nat) is None,
        },
{
    let n = text.unicode_len();
    let first: usize = if n > 0 && text.get_char(0) == '+' {
        1
    } else {
        0
    };
    let ghost digits = unsigned_part(text@);
    assert(digits =~= text@.subrange(first as int, n as int));
    if first == n {
        return None;
    }
    let mut value: u64 = 0;
    let mut i: usize = first;
    assert(digits.take(0) =~= Seq::<char>::empty());
    while i < n
        invariant
            first <= i <= n,
            n == text@.len(),
            digits == unsigned_part(text@),
            digits == text@.subrange(first as int, n as int),
            all_digits(digits.take(i - first)),
            value as nat == numeral_value(digits.take(i - first)),
            value <= max,
        decreases n - i,
    {
        let c = text.get_char(i);
        let ghost before = digits.take(i - first);
        let ghost after = digits.take(i - first + 1);
        proof {
            assert(digits[i - first] == c);
            assert(after.drop_last() =~= before);
            assert(after.last() == c);
        }
        match digit_value(c) {
            None => {
                assert(!all_digits(digits));
                return None;
            },
            Some(d) => {
                proof {
                    assert forall|k: int| 0 <= k < after.len() implies digit_of(
                        #[trigger] after[k],
                    ) is Some by {
                        if k < before.len() {
                            assert(after[k] == before[k]);
                        }
                    }
                    lemma_numeral_grows(digits, i - first + 1);
                }
                if d > max || value > (max - d) / 10 {
                    assert(numeral_value(after) > max) by (nonlinear_arith)
                        requires
                            numeral_value(after) == value as nat * 10 + d as nat,
                            d > max || value > (max - d) / 10,
                    ;
                    return None;
                }
                assert(value * 10 + d <= max) by (nonlinear_arith)
                    requires
                        value <= (max - d) / 10,
                        d <= max,
                ;
                value = value * 10 + d;
            },
        }
        i += 1;
    }
    assert(digits.take(n - first) =~= digits);
    Some(value)
}

/// Whether a character is white space: one of the twenty-five characters
/// with the Unicode property `White_Space`.
pub open spec fn is_white_space(c: char) -> bool {
    ||| ('\u{9}' <= c && c <= '\u{d}')
    ||| c == ' '
    ||| c == '\u{85}'
    ||| c == '\u{a0}'
    ||| c == '\u{1680}'
    ||| ('\u{2000}' <= c && c <= '\u{200a}')
    ||| c == '\u{2028}'
    ||| c == '\u{2029}'
    ||| c == '\u{202f}'
    ||| c == '\u{205f}'
    ||| c == '\u{3000}'
}

/// How many characters of white space `text` begins with.
pub open spec fn leading_space(text: Seq<char>) -> nat
    decreases text.len(),
{
    if text.len() > 0 && is_white_space(text[0]) {
        1 + leading_space(text.subrange(1, text.len() as int))
    } else {
        0
    }
}

/// How many characters of white space `text` ends with.
pub open spec fn trailing_space(text: Seq<char>) -> nat
    decreases text.len(),
{
    if text.len() > 0 && is_white_space(text.last()) {
        1 + trailing_space(text.drop_last())
    } else {
        0
    }
}

/// `text` without the white space at its ends: the part between the white
/// space it begins with and the white space it ends with, and nothing if it
/// is white space throughout.
pub open spec fn trimmed(text: Seq<char>) -> Seq<char> {
    if leading_space(text) >= text.len() {
        Seq::empty()
    } else {
        text.subrange(leading_space(text) as int, text.len() - trailing_space(text))
    }
}

/// The white space that a text begins with: it lies within the text, it is
/// white space throughout, and what follows it is none.
proof fn lemma_leading_space(text: Seq<char>)
    ensures
        leading_space(text) <= text.len(),
        forall|i: int| 0 <= i < leading_space(text) ==> is_white_space(#[trigger] text[i]),
        leading_space(text) < text.len() ==> !is_white_space(text[leading_space(text) as int]),
    decreases text.len(),
{
    if text.len() > 0 && is_white_space(text[0]) {
        let tail = text.subrange(1, text.len() as int);
        lemma_leading_space(tail);
        assert forall|i: int| 0 <= i < leading_space(text) implies is_white_space(
            #[trigger] text[i],
        ) by {
            if i > 0 {
                assert(text[i] == tail[i - 1]);
            }
        }
        if leading_space(text) < text.len() {
            assert(text[leading_space(text) as int] == tail[leading_space(tail) as int]);
        }
    }
}

/// The white space that a text ends with: it lies within the text, it is
/// white space throughout, and what stands before it is none.
proof fn lemma_trailing_space(text: Seq<char>)
    ensures
        trailing_space(text) <= text.len(),
        forall|i: int|
            text.len() - trailing_space(text) <= i < text.len() ==> is_white_space(
                #[trigger] text[i],
            ),
        trailing_space(text) < text.len() ==> !is_white_space(
            text[text.len() - trailing_space(text) - 1],
        ),
    decreases text.len(),
{
    if text.len() > 0 && is_white_space(text.last()) {
        let head = text.drop_last();
        lemma_trailing_space(head);
        assert forall|i: int|
            text.len() - trailing_space(text) <= i < text.len() implies is_white_space(
            #[trigger] text[i],
        ) by {
            if i < text.len() - 1 {
                assert(text[i] == head[i]);
            }
        }
        if trailing_space(text) < text.len() {
            assert(text[text.len() - trailing_space(text) - 1] == head[head.len()
                - trailing_space(head) - 1]);
        }
    }
}

/// What trimming leaves of a text that is not white space throughout is the
/// part of the text between the white space at its two ends, and that part
/// begins and ends with a character that is no white space.
pub proof fn lemma_trimmed_is_clean_part(text: Seq<char>)
    requires
        leading_space(text) < text.len(),
    ensures
        leading_space(text) + trailing_space(text) < text.len(),
        trimmed(text) == text.subrange(
            leading_space(text) as int,
            text.len() - trailing_space(text),
        ),
        forall|i: int| 0 <= i < leading_space(text) ==> is_white_space(#[trigger] text[i]),
        forall|i: int|
            text.len() - trailing_space(text) <= i < text.len() ==> is_white_space(
                #[trigger] text[i],
            ),
        trimmed(text).len() > 0,
        !is_white_space(trimmed(text)[0]),
        !is_white_space(trimmed(text).last()),
{
    lemma_leading_space(text);
    lemma_trailing_space(text);
    let first = leading_space(text) as int;
    if first >= text.len() - trailing_space(text) {
        assert(is_white_space(text[first]));
    }
}

/// A text that is white space throughout is trimmed to nothing.
pub proof fn lemma_trimmed_of_space(text: Seq<char>)
    requires
        forall|i: int| 0 <= i < text.len() ==> is_white_space(#[trigger] text[i]),
    ensures
        trimmed(text) == Seq::<char>::empty(),
{
    lemma_leading_space(text);
}

/// A text that neither begins nor ends with white space is left as it is.
pub proof fn lemma_trimmed_keeps_clean_text(text: Seq<char>)
    requires
        text.len() > 0,
        !is_white_space(text[0]),
        !is_white_space(text.last()),
    ensures
        trimmed(text) == text,
{
    assert(text.subrange(0, text.len() as int) =~= text);
}

} // verus!
