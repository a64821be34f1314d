//! Text handling shared by the other modules: decimal numerals, white space
//! and the decoding of collaborator output.
//!
//! Numerals and white space are handled by verified code. Decoding is left to
//! the standard library: `text_from_utf8` and `text_from_utf8_lossy` call it,
//! and what they say of the result is taken on trust.

use vstd::prelude::*;
use vstd::string::*;
use vstd::utf8::*;

verus! {

/// The character that writes a value below ten.
pub open spec fn digit_char(d: nat) -> char
    recommends
        d < 10,
{
    seq!['0', '1', '2', '3', '4', '5', '6', '7', '8', '9'][d as int]
}

/// The decimal numeral of `n`: most significant digit first, no sign, no
/// leading zero except for zero itself.
pub open spec fn decimal(n: nat) -> Seq<char>
    decreases n,
{
    if n < 10 {
        seq![digit_char(n)]
    } else {
        decimal(n / 10).push(digit_char(n % 10))
    }
}

/// The value of a decimal digit character, if it is one.
pub open spec fn digit_value(c: char) -> Option<nat> {
    if '0' <= c <= '9' {
        Some((c as u32 - '0' as u32) as nat)
    } else {
        None
    }
}

/// A non-empty run of decimal digits.
pub open spec fn is_numeral(s: Seq<char>) -> bool {
    &&& s.len() > 0
    &&& forall|i: int| 0 <= i < s.len() ==> digit_value(#[trigger] s[i]) is Some
}

/// The number that a run of decimal digits writes, most significant first.
pub open spec fn numeral_value(s: Seq<char>) -> nat
    decreases s.len(),
{
    if s.len() == 0 {
        0
    } else {
        10 * numeral_value(s.drop_last()) + digit_value(s.last()).unwrap()
    }
}

/// The digits of an unsigned literal: the text itself, less one leading `+`.
pub open spec fn literal_digits(text: Seq<char>) -> Seq<char> {
    if text.len() > 0 && text[0] == '+' {
        text.drop_first()
    } else {
        text
    }
}

/// The number that `text` denotes as an unsigned decimal literal: an optional
/// `+` followed by at least one digit. Anything else denotes nothing.
pub open spec fn unsigned_value(text: Seq<char>) -> Option<nat> {
    if is_numeral(literal_digits(text)) {
        Some(numeral_value(literal_digits(text)))
    } else {
        None
    }
}

/// As `unsigned_value`, but a number above `max` denotes nothing either.
pub open spec fn bounded_value(text: Seq<char>, max: nat) -> Option<nat> {
    match unsigned_value(text) {
        Some(v) => if v <= max {
            Some(v)
        } else {
            None
        },
        None => None,
    }
}

/// The characters that Unicode classes as White_Space.
pub open spec fn is_white_space(c: char) -> bool {
    ||| '\u{9}' <= c <= '\u{D}'
    ||| c == ' '
    ||| c == '\u{85}'
    ||| c == '\u{A0}'
    ||| c == '\u{1680}'
    ||| '\u{2000}' <= c <= '\u{200A}'
    ||| c == '\u{2028}'
    ||| c == '\u{2029}'
    ||| c == '\u{202F}'
    ||| c == '\u{205F}'
    ||| c == '\u{3000}'
}

/// `s` without the white space it starts with.
pub open spec fn without_leading_space(s: Seq<char>) -> Seq<char>
    decreases s.len(),
{
    if s.len() > 0 && is_white_space(s[0]) {
        without_leading_space(s.drop_first())
    } else {
        s
    }
}

/// `s` without the white space it ends with.
pub open spec fn without_trailing_space(s: Seq<char>) -> Seq<char>
    decreases s.len(),
{
    if s.len() > 0 && is_white_space(s.last()) {
        without_trailing_space(s.drop_last())
    } else {
        s
    }
}

/// `s` without the white space at either end.
pub open spec fn trimmed(s: Seq<char>) -> Seq<char> {
    without_trailing_space(without_leading_space(s))
}

/// What lossy decoding makes of a byte string: the text it encodes where it is
/// valid UTF-8, and otherwise that text with each malformed stretch replaced
/// by U+FFFD.
pub uninterp spec fn lossy_text(bytes: Seq<u8>) -> Seq<char>;

fn digit_text(d: u64) -> (text: &'static str)
    requires
        d < 10,
    ensures
        text@ == seq![digit_char(d as nat)],
{
    proof {
        reveal_strlit("0");
        reveal_strlit("1");
        reveal_strlit("2");
        reveal_strlit("3");
        reveal_strlit("4");
        reveal_strlit("5");
        reveal_strlit("6");
        reveal_strlit("7");
        reveal_strlit("8");
        reveal_strlit("9");
    }
    let text = match d {
        0 => "0",
        1 => "1",
        2 => "2",
        3 => "3",
        4 => "4",
        5 => "5",
        6 => "6",
        7 => "7",
        8 => "8",
        _ => "9",
    };
    text
}

/// Writes `n` as a decimal numeral.
pub fn decimal_text(n: u64) -> (text: String)
    ensures
        text@ == decimal(n as nat),
    decreases n,
{
    if n < 10 {
        String::from_str(digit_text(n))
    } else {
        let mut text = decimal_text(n / 10);
        text.append(digit_text(n % 10));
        text
    }
}

/// The characters of `text`, in order.
pub fn characters(text: &str) -> (chars: Vec<char>)
    ensures
        chars@ == text@,
{
    let mut chars: Vec<char> = Vec::new();
    for c in it: text.chars()
        invariant
            it.seq() == text@,
            chars@ == it.seq().take(it.index() as int),
    {
        chars.push(c);
    }
    chars
}

/// Tells a decimal digit from other characters, and gives its value.
pub fn digit_of(c: char) -> (d: Option<u8>)
    ensures
        match d {
            Some(v) => digit_value(c) == Some(v as nat),
            None => digit_value(c) is None,
        },
{
    if '0' <= c && c <= '9' {
        let v: u32 = c as u32 - '0' as u32;
        Some(v as u8)
    } else {
        None
    }
}

/// A numeral is worth at least as much as any of its prefixes.
proof fn lemma_numeral_prefix(s: Seq<char>, k: int)
    requires
        0 <= k <= s.len(),
    ensures
        numeral_value(s.take(k)) <= numeral_value(s),
    decreases s.len(),
{
    if k == s.len() {
        assert(s.take(k) =~= s);
    } else {
        assert(s.drop_last().take(k) =~= s.take(k));
        lemma_numeral_prefix(s.drop_last(), k);
    }
}

/// What `decimal` writes is a numeral, without a sign, that is worth the number
/// written.
proof fn lemma_decimal_is_numeral(n: nat)
    ensures
        is_numeral(decimal(n)),
        decimal(n)[0] != '+',
        numeral_value(decimal(n)) == n,
    decreases n,
{
    if n < 10 {
        assert(decimal(n).drop_last() =~= Seq::<char>::empty());
        assert(numeral_value(Seq::<char>::empty()) == 0);
    } else {
        lemma_decimal_is_numeral(n / 10);
        assert(decimal(n).drop_last() =~= decimal(n / 10));
    }
}

/// A number that is written with `decimal` reads back as itself: writing a
/// number down and handing it on as text does not change it.
pub proof fn lemma_decimal_reads_back(n: nat)
    ensures
        unsigned_value(decimal(n)) == Some(n),
        forall|max: nat| n <= max ==> bounded_value(decimal(n), max) == Some(n),
{
    lemma_decimal_is_numeral(n);
}

/// Reads an unsigned decimal literal no greater than `max`: an optional `+`,
/// then digits. Returns `None` for anything else, and for a number above `max`.
pub fn parse_unsigned(text: &str, max: u64) -> (value: Option<u64>)
    ensures
        match value {
            Some(v) => bounded_value(text@, max as nat) == Some(v as nat),
            None => bounded_value(text@, max as nat) is None,
        },
{
    let chars = characters(text);
    let n = chars.len();
    let start: usize = if n > 0 && chars[0] == '+' {
        1
    } else {
        0
    };
    let ghost digits = literal_digits(text@);
    if start == n {
        return None;
    }
    let mut acc: u64 = 0;
    let mut i: usize = start;
    while i < n
        invariant
            start <= i <= n,
            n == chars.len(),
            chars@ == text@,
            digits == text@.subrange(start as int, n as int),
            digits == literal_digits(text@),
            digits.len() > 0,
            forall|j: int| 0 <= j < i - start ==> digit_value(#[trigger] digits[j]) is Some,
            acc as nat == numeral_value(digits.take(i - start)),
            acc <= max,
        decreases n - i,
    {
        let ghost k = i - start;
        assert(digits[k] == chars@[i as int]);
        match digit_of(chars[i]) {
            None => {
                return None;
            },
            Some(d) => {
                let next: u128 = acc as u128 * 10 + d as u128;
                proof {
                    assert(digits.take(k + 1).drop_last() =~= digits.take(k));
                }
                if next > max as u128 {
                    proof {
                        lemma_numeral_prefix(digits, k + 1);
                    }
                    return None;
                }
                acc = next as u64;
                i = i + 1;
            },
        }
    }
    assert(digits.take(i - start) =~= digits);
    Some(acc)
}

/// `part` stands in `whole`, unbroken, from the index `from` on.
pub open spec fn is_stretch_at(part: Seq<char>, whole: Seq<char>, from: int) -> bool {
    &&& 0 <= from
    &&& from + part.len() <= whole.len()
    &&& part == whole.subrange(from, from + part.len())
}

/// What is left when leading white space is taken away is the end of the
/// text, and does not start with white space.
proof fn lemma_without_leading_space(s: Seq<char>)
    ensures
        ({
            let rest = without_leading_space(s);
            &&& rest.len() <= s.len()
            &&& rest == s.subrange(s.len() - rest.len(), s.len() as int)
            &&& rest.len() > 0 ==> !is_white_space(rest[0])
        }),
    decreases s.len(),
{
    if s.len() > 0 && is_white_space(s[0]) {
        lemma_without_leading_space(s.drop_first());
        let rest = without_leading_space(s);
        assert(rest =~= s.subrange(s.len() - rest.len(), s.len() as int));
    } else {
        assert(s =~= s.subrange(0, s.len() as int));
    }
}

/// What is left when trailing white space is taken away is the start of the
/// text, and does not end with white space.
proof fn lemma_without_trailing_space(s: Seq<char>)
    ensures
        ({
            let rest = without_trailing_space(s);
            &&& rest.len() <= s.len()
            &&& rest == s.take(rest.len() as int)
            &&& rest.len() > 0 ==> !is_white_space(rest.last())
        }),
    decreases s.len(),
{
    if s.len() > 0 && is_white_space(s.last()) {
        lemma_without_trailing_space(s.drop_last());
        let rest = without_trailing_space(s);
        assert(rest =~= s.take(rest.len() as int));
    } else {
        assert(s =~= s.take(s.len() as int));
    }
}

/// Trimmed text is a stretch of the text it was made from, neither starts nor
/// ends with white space, and stays as it is when trimmed again.
pub proof fn lemma_trimmed_is_trim(s: Seq<char>)
    ensures
        ({
            let t = trimmed(s);
            &&& exists|from: int| #[trigger] is_stretch_at(t, s, from)
            &&& t.len() > 0 ==> !is_white_space(t[0]) && !is_white_space(t.last())
            &&& trimmed(t) == t
        }),
{
    let front = without_leading_space(s);
    let t = trimmed(s);
    lemma_without_leading_space(s);
    lemma_without_trailing_space(front);
    let from = s.len() - front.len();
    assert(t =~= s.subrange(from, from + t.len()));
    assert(is_stretch_at(t, s, from));
    if t.len() > 0 {
        assert(t[0] == front[0]);
    }
}

/// Tells white space from other characters.
pub fn is_space(c: char) -> (space: bool)
    ensures
        space == is_white_space(c),
{
    ('\u{9}' <= c && c <= '\u{D}') || c == ' ' || c == '\u{85}' || c == '\u{A0}' || c
        == '\u{1680}' || ('\u{2000}' <= c && c <= '\u{200A}') || c == '\u{2028}' || c
        == '\u{2029}' || c == '\u{202F}' || c == '\u{205F}' || c == '\u{3000}'
}

/// `text` without the white space at either end.
pub fn trim(text: &str) -> (result: String)
    ensures
        result@ == trimmed(text@),
{
    let chars = characters(text);
    let n = chars.len();
    let mut from: usize = 0;
    assert(text@.subrange(0, n as int) =~= text@);
    while from < n && is_space(chars[from])
        invariant
            from <= n,
            n == chars.len(),
            chars@ == text@,
            without_leading_space(text@) == without_leading_space(
                text@.subrange(from as int, n as int),
            ),
        decreases n - from,
    {
        assert(text@.subrange(from as int, n as int).drop_first() =~= text@.subrange(
            from + 1,
            n as int,
        ));
        from = from + 1;
    }
    let ghost front = text@.subrange(from as int, n as int);
    let mut to: usize = n;
    assert(front.take(n - from) =~= front);
    while to > from && is_space(chars[to - 1])
        invariant
            from <= to <= n,
            n == chars.len(),
            chars@ == text@,
            front == text@.subrange(from as int, n as int),
            without_trailing_space(front) == without_trailing_space(front.take(to - from)),
        decreases to,
    {
        assert(front.take(to - from).drop_last() =~= front.take(to - from - 1));
        to = to - 1;
    }
    String::from_str(text.substring_char(from, to))
}

/// `std::str::from_utf8`: a byte string decodes exactly when it is valid UTF-8,
/// and then to the text that it encodes.
#[verifier::external_body]
pub(crate) fn text_from_utf8(bytes: &Vec<u8>) -> (text: Option<String>)
    ensures
        text is Some <==> valid_utf8(bytes@),
        text matches Some(t) ==> t@ == decode_utf8(bytes@),
{
    match std::str::from_utf8(bytes) {
        Ok(text) => Some(text.to_string()),
        Err(_) => None,
    }
}

/// `String::from_utf8_lossy`: the result depends on the bytes alone, and valid
/// UTF-8 decodes to the text that it encodes.
#[verifier::external_body]
pub(crate) fn text_from_utf8_lossy(bytes: &Vec<u8>) -> (text: String)
    ensures
        text@ == lossy_text(bytes@),
        valid_utf8(bytes@) ==> text@ == decode_utf8(bytes@),
{
    String::from_utf8_lossy(bytes).into_owned()
}

} // verus!
