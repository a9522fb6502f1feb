//! Decimal number literals, kept as validated text.
//!
//! A venue sends every price and size as a string. The library decides whether
//! such a string is a number and keeps the accepted text unchanged, so that no
//! digit is lost before the value is published.

use vstd::prelude::*;
use vstd::string::*;
use vstd::utf8::is_ascii_chars;

verus! {

pub open spec fn is_digit(c: char) -> bool {
    '0' <= c && c <= '9'
}

pub open spec fn is_sign(c: char) -> bool {
    c == '+' || c == '-'
}

/// The letter `c` in lower case, where it is an ASCII capital; else `c`.
pub open spec fn ascii_lower(c: char) -> char {
    if 'A' <= c && c <= 'Z' {
        ((c as u8) + 32) as char
    } else {
        c
    }
}

/// The end of the longest run of digits of `s` that starts at `from`.
pub open spec fn digits_end(s: Seq<char>, from: int) -> int
    decreases s.len() - from,
{
    if 0 <= from < s.len() && is_digit(s[from]) {
        digits_end(s, from + 1)
    } else {
        from
    }
}

/// 1 where a sign stands at `from`, else 0.
pub open spec fn sign_len(s: Seq<char>, from: int) -> int {
    if 0 <= from < s.len() && is_sign(s[from]) {
        1
    } else {
        0
    }
}

/// From `from` to its end, `s` is an exponent: `e` or `E`, an optional sign,
/// one digit or more.
pub open spec fn is_exponent_at(s: Seq<char>, from: int) -> bool {
    let first = from + 1 + sign_len(s, from + 1);
    &&& 0 <= from < s.len()
    &&& (s[from] == 'e' || s[from] == 'E')
    &&& first < s.len()
    &&& digits_end(s, first) == s.len()
}

/// From `from` to its end, `s` is digits with at most one point among them,
/// one digit at least, and then an optional exponent.
pub open spec fn is_decimal_at(s: Seq<char>, from: int) -> bool {
    let int_end = digits_end(s, from);
    let frac_start = if int_end < s.len() && s[int_end] == '.' {
        int_end + 1
    } else {
        int_end
    };
    let frac_end = digits_end(s, frac_start);
    &&& (int_end - from) + (frac_end - frac_start) > 0
    &&& (frac_end == s.len() || is_exponent_at(s, frac_end))
}

/// From `from` to its end, `s` is `word`, in capitals or small letters.
pub open spec fn is_word_at(s: Seq<char>, from: int, word: Seq<char>) -> bool {
    &&& s.len() - from == word.len()
    &&& forall|i: int| 0 <= i < word.len() ==> ascii_lower(#[trigger] s[from + i]) == word[i]
}

/// From `from` to its end, `s` names an infinity or not-a-number.
pub open spec fn is_special_at(s: Seq<char>, from: int) -> bool {
    ||| is_word_at(s, from, seq!['i', 'n', 'f'])
    ||| is_word_at(s, from, seq!['n', 'a', 'n'])
    ||| is_word_at(s, from, seq!['i', 'n', 'f', 'i', 'n', 'i', 't', 'y'])
}

/// `s` is a number literal: ASCII text made of an optional sign and then
/// either a decimal with an optional exponent, or one of the words `inf`,
/// `infinity`, `nan` in any case. Nothing stands before or after it.
pub open spec fn is_number_literal(s: Seq<char>) -> bool {
    let body = sign_len(s, 0);
    &&& is_ascii_chars(s)
    &&& (is_decimal_at(s, body) || is_special_at(s, body))
}

/// What `bytes` holds is `s`, character by character.
pub open spec fn same_text(bytes: Seq<u8>, s: Seq<char>) -> bool {
    &&& bytes.len() == s.len()
    &&& forall|i: int| 0 <= i < s.len() ==> (#[trigger] s[i]) as int == bytes[i] as int
}

fn scan_digits(bytes: &[u8], from: usize, Ghost(s): Ghost<Seq<char>>) -> (end: usize)
    requires
        same_text(bytes@, s),
        from <= bytes@.len(),
    ensures
        end == digits_end(s, from as int),
        from <= end <= bytes@.len(),
{
    let mut end: usize = from;
    while end < bytes.len() && 48 <= bytes[end] && bytes[end] <= 57
        invariant
            same_text(bytes@, s),
            from <= end <= bytes@.len(),
            digits_end(s, from as int) == digits_end(s, end as int),
        decreases bytes@.len() - end,
    {
        assert(is_digit(s[end as int]));
        end = end + 1;
    }
    assert(end < s.len() ==> !is_digit(s[end as int]));
    end
}

fn scan_sign(bytes: &[u8], from: usize, Ghost(s): Ghost<Seq<char>>) -> (len: usize)
    requires
        same_text(bytes@, s),
        from <= bytes@.len(),
    ensures
        len == sign_len(s, from as int),
{
    if from < bytes.len() && (bytes[from] == 43 || bytes[from] == 45) {
        assert(is_sign(s[from as int]));
        1
    } else {
        assert(from < s.len() ==> !is_sign(s[from as int]));
        0
    }
}

fn check_exponent(bytes: &[u8], from: usize, Ghost(s): Ghost<Seq<char>>) -> (found: bool)
    requires
        same_text(bytes@, s),
        from < bytes@.len(),
    ensures
        found == is_exponent_at(s, from as int),
{
    if bytes[from] != 101 && bytes[from] != 69 {
        assert(s[from as int] != 'e' && s[from as int] != 'E');
        return false;
    }
    assert(s[from as int] == 'e' || s[from as int] == 'E');
    let first: usize = from + 1 + scan_sign(bytes, from + 1, Ghost(s));
    if first >= bytes.len() {
        return false;
    }
    scan_digits(bytes, first, Ghost(s)) == bytes.len()
}

fn check_decimal(bytes: &[u8], from: usize, Ghost(s): Ghost<Seq<char>>) -> (found: bool)
    requires
        same_text(bytes@, s),
        from <= bytes@.len(),
    ensures
        found == is_decimal_at(s, from as int),
{
    let int_end: usize = scan_digits(bytes, from, Ghost(s));
    let frac_start: usize = if int_end < bytes.len() && bytes[int_end] == 46 {
        assert(s[int_end as int] == '.');
        int_end + 1
    } else {
        assert(int_end < s.len() ==> s[int_end as int] != '.');
        int_end
    };
    let frac_end: usize = scan_digits(bytes, frac_start, Ghost(s));
    if (int_end - from) + (frac_end - frac_start) == 0 {
        return false;
    }
    frac_end == bytes.len() || check_exponent(bytes, frac_end, Ghost(s))
}

fn lower_byte(b: u8) -> (low: u8)
    ensures
        b < 128 ==> low < 128,
        forall|c: char| (c as int) == (b as int) ==> (#[trigger] ascii_lower(c)) as int == low as int,
{
    if 65 <= b && b <= 90 {
        b + 32
    } else {
        b
    }
}

fn check_word(bytes: &[u8], from: usize, word: &[u8], Ghost(s): Ghost<Seq<char>>, Ghost(w): Ghost<Seq<char>>) -> (found: bool)
    requires
        same_text(bytes@, s),
        same_text(word@, w),
        from <= bytes@.len(),
    ensures
        found == is_word_at(s, from as int, w),
{
    if bytes.len() - from != word.len() {
        return false;
    }
    let total: usize = bytes.len();
    let mut i: usize = 0;
    while i < word.len()
        invariant
            total == bytes@.len(),
            same_text(bytes@, s),
            same_text(word@, w),
            from <= bytes@.len(),
            bytes@.len() - from == word@.len(),
            i <= word@.len(),
            forall|k: int| 0 <= k < i ==> ascii_lower(#[trigger] s[from + k]) == w[k],
        decreases word@.len() - i,
    {
        let low: u8 = lower_byte(bytes[from + i]);
        if low != word[i] {
            assert(ascii_lower(s[from + i]) != w[i as int]);
            return false;
        }
        assert(ascii_lower(s[from + i]) == w[i as int]);
        i = i + 1;
    }
    true
}

/// Whether `text` is a number literal.
pub fn is_number(text: &str) -> (found: bool)
    ensures
        found == is_number_literal(text@),
{
    if !text.is_ascii() {
        return false;
    }
    let bytes = text.as_bytes();
    let ghost s = text@;
    proof {
        is_ascii_spec_bytes(text);
        reveal_strlit("inf");
        reveal_strlit("nan");
        reveal_strlit("infinity");
        is_ascii_spec_bytes("inf");
        is_ascii_spec_bytes("nan");
        is_ascii_spec_bytes("infinity");
        assert("inf"@ =~= seq!['i', 'n', 'f']);
        assert("nan"@ =~= seq!['n', 'a', 'n']);
        assert("infinity"@ =~= seq!['i', 'n', 'f', 'i', 'n', 'i', 't', 'y']);
    }
    let body: usize = scan_sign(bytes, 0, Ghost(s));
    if check_decimal(bytes, body, Ghost(s)) {
        return true;
    }
    check_word(bytes, body, "inf".as_bytes(), Ghost(s), Ghost("inf"@))
        || check_word(bytes, body, "nan".as_bytes(), Ghost(s), Ghost("nan"@))
        || check_word(bytes, body, "infinity".as_bytes(), Ghost(s), Ghost("infinity"@))
}

/// A number as a venue wrote it: text that is a number literal.
#[derive(Debug)]
pub struct Number {
    text: String,
}

impl View for Number {
    type V = Seq<char>;

    closed spec fn view(&self) -> Seq<char> {
        self.text@
    }
}

impl Number {
    #[verifier::type_invariant]
    closed spec fn holds_literal(&self) -> bool {
        is_number_literal(self.text@)
    }

    /// The number that `text` denotes, or `None` where it denotes none.
    pub fn parse(text: &str) -> (parsed: Option<Number>)
        ensures
            parsed.is_some() == is_number_literal(text@),
            parsed.is_some() ==> parsed.unwrap()@ == text@,
    {
        if is_number(text) {
            Some(Number { text: String::from_str(text) })
        } else {
            None
        }
    }

    /// Zero, which stands for a side that the venue left out.
    pub fn zero() -> (zero: Number)
        ensures
            zero@ == seq!['0'],
    {
        let text = String::from_str("0");
        proof {
            reveal_strlit("0");
            assert("0"@ =~= seq!['0']);
            lemma_zero_is_number();
        }
        Number { text }
    }

    /// The text of the number, which is a number literal.
    pub fn as_str(&self) -> (text: &str)
        ensures
            text@ == self@,
            is_number_literal(text@),
    {
        proof {
            use_type_invariant(self);
        }
        self.text.as_str()
    }

    /// A copy of the number.
    pub fn duplicate(&self) -> (copy: Number)
        ensures
            copy@ == self@,
    {
        proof {
            use_type_invariant(self);
        }
        Number { text: self.text.clone() }
    }
}

/// The text `0` is a number literal.
pub proof fn lemma_zero_is_number()
    ensures
        is_number_literal(seq!['0']),
{
    let s = seq!['0'];
    reveal_with_fuel(digits_end, 3);
    assert(sign_len(s, 0) == 0);
    assert(digits_end(s, 0) == 1);
    assert(digits_end(s, 1) == 1);
    assert(is_decimal_at(s, 0));
}

} // verus!
