//! Decimal numbers as text: reading them, writing them, and recognising the
//! decimal floating-point notation.

use vstd::prelude::*;
use crate::text::slice_of;

verus! {

/// The ASCII digits `0` to `9`.
pub open spec fn is_digit(c: char) -> bool {
    '0' <= c <= '9'
}

/// The value of an ASCII digit.
pub open spec fn digit_value(c: char) -> nat {
    (c as int - '0' as int) as nat
}

/// Every character of `s` is an ASCII digit.
pub open spec fn all_digits(s: Seq<char>) -> bool {
    forall|i: int| 0 <= i < s.len() ==> is_digit(#[trigger] s[i])
}

/// The number that the digits of `s` write in base ten.
pub open spec fn decimal_value(s: Seq<char>) -> nat
    decreases s.len(),
{
    if s.len() == 0 {
        0
    } else {
        decimal_value(s.drop_last()) * 10 + digit_value(s.last())
    }
}

/// What a run of digits denotes when its value may not exceed `max`:
/// the run must not be empty and must hold digits only.
pub open spec fn digits_value(s: Seq<char>, max: nat) -> Option<nat> {
    if s.len() > 0 && all_digits(s) && decimal_value(s) <= max {
        Some(decimal_value(s))
    } else {
        None
    }
}

/// What an unsigned decimal number with an optional leading `+` denotes
/// when its value may not exceed `max`.
pub open spec fn unsigned_value(s: Seq<char>, max: nat) -> Option<nat> {
    if s.len() > 0 && s[0] == '+' {
        digits_value(s.drop_first(), max)
    } else {
        digits_value(s, max)
    }
}

/// Whether `c` is an ASCII digit.
pub fn is_digit_char(c: char) -> (yes: bool)
    ensures
        yes == is_digit(c),
{
    '0' <= c && c <= '9'
}

/// The value of the ASCII digit `c`.
pub fn digit_of(c: char) -> (d: u64)
    requires
        is_digit(c),
    ensures
        d == digit_value(c),
        d <= 9,
{
    (c as u32 - '0' as u32) as u64
}

/// The value of a digit string never falls when digits are appended.
pub proof fn lemma_decimal_value_grows(s: Seq<char>, k: int)
    requires
        0 <= k <= s.len(),
    ensures
        decimal_value(s.take(k)) <= decimal_value(s),
    decreases s.len() - k,
{
    if k == s.len() {
        assert(s.take(k) =~= s);
    } else {
        lemma_decimal_value_grows(s, k + 1);
        assert(s.take(k + 1).drop_last() =~= s.take(k));
    }
}

/// Reads a run of digits whose value may not exceed `max`.
pub fn parse_digits(s: &Vec<char>, max: u64) -> (value: Option<u64>)
    ensures
        match value {
            Some(v) => digits_value(s@, max as nat) == Some(v as nat),
            None => digits_value(s@, max as nat) is None,
        },
{
    if s.len() == 0 {
        return None;
    }
    let mut acc: u64 = 0;
    let mut i: usize = 0;
    while i < s.len()
        invariant
            i <= s.len(),
            all_digits(s@.take(i as int)),
            acc == decimal_value(s@.take(i as int)),
            acc <= max,
        decreases s.len() - i,
    {
        let c = s[i];
        if !is_digit_char(c) {
            return None;
        }
        let d = digit_of(c);
        proof {
            assert(s@.take(i + 1).drop_last() =~= s@.take(i as int));
            assert(s@.take(i + 1).last() == c);
        }
        if d > max || acc > (max - d) / 10 {
            proof {
                assert(decimal_value(s@.take(i + 1)) > max) by {
                    assert(acc * 10 + d > max) by (nonlinear_arith)
                        requires
                            d > max || acc > (max - d) / 10,
                            acc >= 0,
                            d >= 0,
                            max >= 0,
                    ;
                }
                lemma_decimal_value_grows(s@, i + 1);
            }
            return None;
        }
        assert(acc * 10 + d <= max) by (nonlinear_arith)
            requires
                acc <= (max - d) / 10,
                d <= max,
        ;
        acc = acc * 10 + d;
        i += 1;
    }
    assert(s@.take(s@.len() as int) =~= s@);
    Some(acc)
}

/// Reads an unsigned decimal number with an optional leading `+` whose
/// value may not exceed `max`.
pub fn parse_unsigned(s: &Vec<char>, max: u64) -> (value: Option<u64>)
    ensures
        match value {
            Some(v) => unsigned_value(s@, max as nat) == Some(v as nat),
            None => unsigned_value(s@, max as nat) is None,
        },
{
    if s.len() > 0 && s[0] == '+' {
        let digits = slice_of(s, 1, s.len());
        assert(digits@ =~= s@.drop_first());
        parse_digits(&digits, max)
    } else {
        parse_digits(s, max)
    }
}

/// The decimal notation of `n`, without sign or leading zeros.
pub open spec fn decimal_text(n: nat) -> Seq<char>
    decreases n,
{
    if n < 10 {
        seq![digit_char(n)]
    } else {
        decimal_text(n / 10).push(digit_char(n % 10))
    }
}

/// The ASCII digit for a value below ten.
pub open spec fn digit_char(d: nat) -> char {
    if d == 0 {
        '0'
    } else if d == 1 {
        '1'
    } else if d == 2 {
        '2'
    } else if d == 3 {
        '3'
    } else if d == 4 {
        '4'
    } else if d == 5 {
        '5'
    } else if d == 6 {
        '6'
    } else if d == 7 {
        '7'
    } else if d == 8 {
        '8'
    } else {
        '9'
    }
}

/// The ASCII digit for `d`.
pub fn digit_char_of(d: u64) -> (c: char)
    requires
        d < 10,
    ensures
        c == digit_char(d as nat),
{
    if d == 0 {
        '0'
    } else if d == 1 {
        '1'
    } else if d == 2 {
        '2'
    } else if d == 3 {
        '3'
    } else if d == 4 {
        '4'
    } else if d == 5 {
        '5'
    } else if d == 6 {
        '6'
    } else if d == 7 {
        '7'
    } else if d == 8 {
        '8'
    } else {
        '9'
    }
}

/// The decimal notation of `n`.
pub fn decimal_chars(n: u64) -> (out: Vec<char>)
    ensures
        out@ == decimal_text(n as nat),
    decreases n,
{
    if n < 10 {
        let mut out: Vec<char> = Vec::new();
        out.push(digit_char_of(n));
        out
    } else {
        let mut out = decimal_chars(n / 10);
        out.push(digit_char_of(n % 10));
        out
    }
}

proof fn lemma_decimal_text_is_digits(n: nat)
    ensures
        decimal_text(n).len() > 0,
        all_digits(decimal_text(n)),
        decimal_value(decimal_text(n)) == n,
    decreases n,
{
    if n < 10 {
        let t = decimal_text(n);
        assert(t.drop_last() =~= Seq::<char>::empty());
        assert(decimal_value(t.drop_last()) == 0);
    } else {
        lemma_decimal_text_is_digits(n / 10);
        let t = decimal_text(n);
        assert(t.drop_last() =~= decimal_text(n / 10));
        assert(t.last() == digit_char(n % 10));
    }
}

/// Decimal notation reads back as the number it writes, where the number
/// is within the limit.
pub proof fn law_decimal_text_reads_back(n: nat, max: nat)
    ensures
        digits_value(decimal_text(n), max) == if n <= max {
            Some(n)
        } else {
            None
        },
        unsigned_value(decimal_text(n), max) == digits_value(decimal_text(n), max),
{
    lemma_decimal_text_is_digits(n);
    let t = decimal_text(n);
    assert(is_digit(t[0]));
}

/// The number of ASCII digits at the start of `s`.
pub open spec fn leading_digits(s: Seq<char>) -> nat
    decreases s.len(),
{
    if s.len() > 0 && is_digit(s.first()) {
        1 + leading_digits(s.drop_first())
    } else {
        0
    }
}

/// `s` without one leading `+` or `-`.
pub open spec fn without_sign(s: Seq<char>) -> Seq<char> {
    if s.len() > 0 && (s[0] == '+' || s[0] == '-') {
        s.drop_first()
    } else {
        s
    }
}

/// The lower-case form of an ASCII letter; any other character itself.
pub open spec fn ascii_lower(c: char) -> char {
    if 'A' <= c <= 'Z' {
        ((c as u8) + 32) as char
    } else {
        c
    }
}

/// `s` spells the lower-case `word`, whatever the case of its letters.
pub open spec fn spells(s: Seq<char>, word: Seq<char>) -> bool {
    s.len() == word.len() && forall|i: int|
        0 <= i < s.len() ==> ascii_lower(#[trigger] s[i]) == word[i]
}

/// One of the words for an infinity or for not-a-number.
pub open spec fn is_special_number(s: Seq<char>) -> bool {
    ||| spells(s, seq!['i', 'n', 'f'])
    ||| spells(s, seq!['i', 'n', 'f', 'i', 'n', 'i', 't', 'y'])
    ||| spells(s, seq!['n', 'a', 'n'])
}

/// An exponent after its marker: an optional sign, then one digit or more.
pub open spec fn is_exponent(s: Seq<char>) -> bool {
    without_sign(s).len() > 0 && all_digits(without_sign(s))
}

/// What may follow the digits of a number: nothing, or `e` or `E` and an
/// exponent.
pub open spec fn is_number_tail(s: Seq<char>) -> bool {
    s.len() == 0 || ((s[0] == 'e' || s[0] == 'E') && is_exponent(s.skip(1)))
}

/// Digits with at most one `.` among them and at least one digit in all,
/// then an optional exponent.
pub open spec fn is_number(s: Seq<char>) -> bool {
    let whole = leading_digits(s) as int;
    let rest = s.skip(whole);
    if rest.len() > 0 && rest[0] == '.' {
        let fraction = leading_digits(rest.skip(1)) as int;
        whole + fraction > 0 && is_number_tail(rest.skip(1 + fraction))
    } else {
        whole > 0 && is_number_tail(rest)
    }
}

/// The decimal floating-point notation: an optional sign, then `inf`,
/// `infinity` or `nan` in any case, or a number.
pub open spec fn is_float_text(s: Seq<char>) -> bool {
    is_special_number(without_sign(s)) || is_number(without_sign(s))
}

/// The lower-case form of an ASCII letter; any other character itself.
pub fn lower_of(c: char) -> (l: char)
    ensures
        l == ascii_lower(c),
{
    if 'A' <= c && c <= 'Z' {
        ((c as u8) + 32) as char
    } else {
        c
    }
}

/// Whether `s` from `from` on spells the lower-case `word`, whatever the
/// case of its letters.
fn spells_word(s: &Vec<char>, from: usize, word: &str) -> (yes: bool)
    requires
        from <= s.len(),
    ensures
        yes == spells(s@.skip(from as int), word@),
{
    let letters = crate::text::chars_of(word);
    let ghost rest = s@.skip(from as int);
    if s.len() - from != letters.len() {
        return false;
    }
    let mut i: usize = 0;
    while i < letters.len()
        invariant
            i <= letters.len(),
            from + letters.len() == s.len(),
            letters@ == word@,
            rest == s@.skip(from as int),
            forall|j: int| 0 <= j < i ==> ascii_lower(#[trigger] rest[j]) == letters@[j],
        decreases letters.len() - i,
    {
        assert(rest[i as int] == s@[from + i]);
        if lower_of(s[from + i]) != letters[i] {
            assert(ascii_lower(rest[i as int]) != word@[i as int]);
            return false;
        }
        i += 1;
    }
    true
}

/// The number of ASCII digits in `s` from index `from` on.
fn count_digits(s: &Vec<char>, from: usize) -> (n: usize)
    requires
        from <= s.len(),
    ensures
        n == leading_digits(s@.skip(from as int)),
        from + n <= s.len(),
{
    let mut i: usize = from;
    while i < s.len() && is_digit_char(s[i])
        invariant
            from <= i <= s.len(),
            leading_digits(s@.skip(from as int)) == (i - from) + leading_digits(s@.skip(i as int)),
        decreases s.len() - i,
    {
        assert(s@.skip(i as int).drop_first() =~= s@.skip(i + 1));
        i += 1;
    }
    i - from
}

/// Whether `s` from `from` on holds digits only.
fn digits_only(s: &Vec<char>, from: usize) -> (yes: bool)
    requires
        from <= s.len(),
    ensures
        yes == all_digits(s@.skip(from as int)),
{
    let mut i: usize = from;
    while i < s.len()
        invariant
            from <= i <= s.len(),
            forall|j: int| from <= j < i ==> is_digit(s@[j]),
        decreases s.len() - i,
    {
        if !is_digit_char(s[i]) {
            assert(s@.skip(from as int)[i - from] == s@[i as int]);
            return false;
        }
        i += 1;
    }
    assert forall|j: int| 0 <= j < s@.skip(from as int).len() implies is_digit(
        #[trigger] s@.skip(from as int)[j],
    ) by {
        assert(s@.skip(from as int)[j] == s@[from + j]);
    }
    true
}

/// Whether `s` from `from` on is an exponent without its marker.
fn exponent_at(s: &Vec<char>, from: usize) -> (yes: bool)
    requires
        from <= s.len(),
    ensures
        yes == is_exponent(s@.skip(from as int)),
{
    let ghost rest = s@.skip(from as int);
    if from < s.len() && (s[from] == '+' || s[from] == '-') {
        assert(rest[0] == s@[from as int]);
        assert(rest.drop_first() =~= s@.skip(from + 1));
        from + 1 < s.len() && digits_only(s, from + 1)
    } else {
        assert(from < s.len() ==> rest[0] == s@[from as int]);
        from < s.len() && digits_only(s, from)
    }
}

/// Whether `s` from `from` on may follow the digits of a number.
fn number_tail_at(s: &Vec<char>, from: usize) -> (yes: bool)
    requires
        from <= s.len(),
    ensures
        yes == is_number_tail(s@.skip(from as int)),
{
    if from == s.len() {
        return true;
    }
    let ghost rest = s@.skip(from as int);
    assert(rest[0] == s@[from as int]);
    assert(rest.skip(1) =~= s@.skip(from + 1));
    (s[from] == 'e' || s[from] == 'E') && exponent_at(s, from + 1)
}

/// Whether `s` from `from` on is a number.
fn number_at(s: &Vec<char>, from: usize) -> (yes: bool)
    requires
        from <= s.len(),
    ensures
        yes == is_number(s@.skip(from as int)),
{
    let ghost body = s@.skip(from as int);
    let whole = count_digits(s, from);
    let dot = from + whole;
    assert(body.skip(whole as int) =~= s@.skip(dot as int));
    if dot < s.len() && s[dot] == '.' {
        assert(s@.skip(dot as int)[0] == s@[dot as int]);
        assert(s@.skip(dot as int).skip(1) =~= s@.skip(dot + 1));
        let fraction = count_digits(s, dot + 1);
        assert(s@.skip(dot as int).skip(1 + fraction) =~= s@.skip(dot + 1 + fraction));
        (whole > 0 || fraction > 0) && number_tail_at(s, dot + 1 + fraction)
    } else {
        assert(dot < s.len() ==> s@.skip(dot as int)[0] == s@[dot as int]);
        whole > 0 && number_tail_at(s, dot)
    }
}

/// Whether `s` is in decimal floating-point notation.
pub fn is_float(s: &Vec<char>) -> (yes: bool)
    ensures
        yes == is_float_text(s@),
{
    let from: usize = if s.len() > 0 && (s[0] == '+' || s[0] == '-') {
        1
    } else {
        0
    };
    assert(without_sign(s@) =~= s@.skip(from as int));
    proof {
        reveal_strlit("inf");
        reveal_strlit("infinity");
        reveal_strlit("nan");
        assert("inf"@ =~= seq!['i', 'n', 'f']);
        assert("infinity"@ =~= seq!['i', 'n', 'f', 'i', 'n', 'i', 't', 'y']);
        assert("nan"@ =~= seq!['n', 'a', 'n']);
    }
    spells_word(s, from, "inf") || spells_word(s, from, "infinity") || spells_word(s, from, "nan")
        || number_at(s, from)
}

/// The decimal notation of an integer: a `-` before a negative one.
pub open spec fn integer_text(n: int) -> Seq<char> {
    if n < 0 {
        seq!['-'] + decimal_text((-n) as nat)
    } else {
        decimal_text(n as nat)
    }
}

/// The decimal notation of `n`.
pub fn integer_chars(n: i32) -> (out: Vec<char>)
    ensures
        out@ == integer_text(n as int),
{
    if n < 0 {
        let mut out: Vec<char> = Vec::new();
        out.push('-');
        let magnitude: u64 = (-(n as i64)) as u64;
        let mut digits = decimal_chars(magnitude);
        out.append(&mut digits);
        assert(out@ =~= integer_text(n as int));
        out
    } else {
        decimal_chars(n as u64)
    }
}

} // verus!
