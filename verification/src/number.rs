//! Numbers as they are written in a document: decimal integers, booleans and
//! decimal floating-point literals.

use vstd::prelude::*;
use crate::text::{chars_of, find, first_occurrence, is_text, lemma_first_occurrence, string_of};

verus! {

/// `c` is one of the ten decimal digits.
pub open spec fn is_digit(c: char) -> bool {
    '0' <= c && c <= '9'
}

/// The number that the digit `c` stands for.
pub open spec fn digit_value(c: char) -> int {
    c as int - 48
}

/// Every character of `s` is a decimal digit.
pub open spec fn all_digits(s: Seq<char>) -> bool {
    forall|i: int| 0 <= i < s.len() ==> is_digit(#[trigger] s[i])
}

/// The number that the digits of `s` write in base ten; 0 for no digits.
pub open spec fn decimal_value(s: Seq<char>) -> int
    decreases s.len(),
{
    if s.len() == 0 {
        0
    } else {
        10 * decimal_value(s.drop_last()) + digit_value(s.last())
    }
}

/// The number written by `s`: digits, at least one, after an optional `+`.
pub open spec fn unsigned_number(s: Seq<char>) -> Option<int> {
    let digits = if s.len() > 0 && s[0] == '+' {
        s.drop_first()
    } else {
        s
    };
    if digits.len() > 0 && all_digits(digits) {
        Some(decimal_value(digits))
    } else {
        None
    }
}

/// The number written by `s`: digits, at least one, after an optional `+` or `-`.
pub open spec fn signed_number(s: Seq<char>) -> Option<int> {
    if s.len() > 0 && s[0] == '-' {
        let digits = s.drop_first();
        if digits.len() > 0 && all_digits(digits) {
            Some(-decimal_value(digits))
        } else {
            None
        }
    } else {
        unsigned_number(s)
    }
}

/// The unsigned 32-bit number written by `s`, if it writes one.
pub open spec fn u32_of(s: Seq<char>) -> Option<u32> {
    match unsigned_number(s) {
        Some(v) => if v <= u32::MAX {
            Some(v as u32)
        } else {
            None
        },
        None => None,
    }
}

/// The positive 32-bit number written by `s`, if it writes one.
pub open spec fn positive_u32_of(s: Seq<char>) -> Option<u32> {
    match u32_of(s) {
        Some(v) => if v > 0 {
            Some(v)
        } else {
            None
        },
        None => None,
    }
}

/// The signed 64-bit number written by `s`, if it writes one.
pub open spec fn i64_of(s: Seq<char>) -> Option<i64> {
    match signed_number(s) {
        Some(v) => if i64::MIN <= v <= i64::MAX {
            Some(v as i64)
        } else {
            None
        },
        None => None,
    }
}

/// The truth value written by `s`: `true` or `false`, in exactly these letters.
pub open spec fn bool_of(s: Seq<char>) -> Option<bool> {
    if s == "true"@ {
        Some(true)
    } else if s == "false"@ {
        Some(false)
    } else {
        None
    }
}

/// Digits write no negative number.
pub proof fn lemma_decimal_value_nonnegative(s: Seq<char>)
    requires
        all_digits(s),
    ensures
        0 <= decimal_value(s),
    decreases s.len(),
{
    if s.len() > 0 {
        assert(is_digit(s[s.len() - 1]));
        assert forall|i: int| 0 <= i < s.drop_last().len() implies is_digit(
            #[trigger] s.drop_last()[i],
        ) by {
            assert(s.drop_last()[i] == s[i]);
        }
        lemma_decimal_value_nonnegative(s.drop_last());
    }
}

/// The first `k` digits write no more than all of them.
pub proof fn lemma_decimal_value_prefix(s: Seq<char>, k: int)
    requires
        all_digits(s),
        0 <= k <= s.len(),
    ensures
        all_digits(s.take(k)),
        0 <= decimal_value(s.take(k)) <= decimal_value(s),
    decreases s.len(),
{
    assert forall|i: int| 0 <= i < s.take(k).len() implies is_digit(#[trigger] s.take(k)[i]) by {
        assert(s.take(k)[i] == s[i]);
    }
    lemma_decimal_value_nonnegative(s.take(k));
    if k == s.len() {
        assert(s.take(k) =~= s);
    } else {
        assert(is_digit(s[s.len() - 1]));
        assert forall|i: int| 0 <= i < s.drop_last().len() implies is_digit(
            #[trigger] s.drop_last()[i],
        ) by {
            assert(s.drop_last()[i] == s[i]);
        }
        assert(s.drop_last().take(k) =~= s.take(k));
        lemma_decimal_value_prefix(s.drop_last(), k);
    }
}

/// Tells whether `c` is a decimal digit.
pub fn digit(c: char) -> (b: bool)
    ensures
        b == is_digit(c),
{
    '0' <= c && c <= '9'
}

/// Tells whether `s` holds decimal digits only.
pub fn digits_only(s: &[char]) -> (b: bool)
    ensures
        b == all_digits(s@),
{
    let mut i: usize = 0;
    while i < s.len()
        invariant
            i <= s.len(),
            forall|j: int| 0 <= j < i ==> is_digit(#[trigger] s@[j]),
        decreases s.len() - i,
    {
        if !digit(s[i]) {
            return false;
        }
        i += 1;
    }
    true
}

/// Reads the digits of `s` as a number of at most `limit`.
///
/// `None` where `s` is empty, holds something else than digits, or writes more
/// than `limit`.
pub fn read_digits(s: &[char], limit: u64) -> (r: Option<u64>)
    ensures
        match r {
            Some(v) => s@.len() > 0 && all_digits(s@) && decimal_value(s@) == v && v <= limit,
            None => !(s@.len() > 0 && all_digits(s@) && decimal_value(s@) <= limit),
        },
{
    let n = s.len();
    if n == 0 {
        return None;
    }
    let mut acc: u64 = 0;
    let mut i: usize = 0;
    while i < n
        invariant
            n == s.len(),
            i <= n,
            all_digits(s@.take(i as int)),
            acc == decimal_value(s@.take(i as int)),
            acc <= limit,
        decreases n - i,
    {
        let c = s[i];
        if !digit(c) {
            return None;
        }
        let d: u64 = (c as u32 - 48) as u64;
        proof {
            let next = s@.take(i + 1);
            assert(next.drop_last() =~= s@.take(i as int));
            assert(next.last() == c);
            assert forall|j: int| 0 <= j < next.len() implies is_digit(#[trigger] next[j]) by {
                if j < i {
                    assert(s@.take(i as int)[j] == next[j]);
                }
            }
            assert(decimal_value(next) == 10 * acc + d);
            if all_digits(s@) {
                lemma_decimal_value_prefix(s@, i + 1);
            }
        }
        if limit < d || acc > (limit - d) / 10 {
            return None;
        }
        acc = acc * 10 + d;
        i += 1;
    }
    proof {
        assert(s@.take(n as int) =~= s@);
    }
    Some(acc)
}

/// Reads `s` as an unsigned 32-bit number: digits after an optional `+`.
pub fn parse_u32(s: &[char]) -> (r: Option<u32>)
    ensures
        r == u32_of(s@),
{
    let n = s.len();
    let digits = if n > 0 && s[0] == '+' {
        vstd::slice::slice_subrange(s, 1, n)
    } else {
        s
    };
    proof {
        assert(s@.subrange(1, n as int) =~= s@.drop_first());
    }
    match read_digits(digits, 0xffff_ffff) {
        Some(v) => Some(v as u32),
        None => None,
    }
}

/// Reads `s` as a positive 32-bit number.
pub fn parse_positive_u32(s: &[char]) -> (r: Option<u32>)
    ensures
        r == positive_u32_of(s@),
{
    match parse_u32(s) {
        Some(v) => if v > 0 {
            Some(v)
        } else {
            None
        },
        None => None,
    }
}

/// Reads `s` as a signed 64-bit number: digits after an optional `+` or `-`.
pub fn parse_i64(s: &[char]) -> (r: Option<i64>)
    ensures
        r == i64_of(s@),
{
    let n = s.len();
    proof {
        assert(s@.subrange(1, n as int) =~= s@.drop_first());
    }
    if n > 0 && s[0] == '-' {
        let digits = vstd::slice::slice_subrange(s, 1, n);
        match read_digits(digits, 0x8000_0000_0000_0000) {
            Some(v) => if v == 0x8000_0000_0000_0000 {
                Some(i64::MIN)
            } else {
                Some(-(v as i64))
            },
            None => None,
        }
    } else {
        let digits = if n > 0 && s[0] == '+' {
            vstd::slice::slice_subrange(s, 1, n)
        } else {
            s
        };
        match read_digits(digits, 0x7fff_ffff_ffff_ffff) {
            Some(v) => Some(v as i64),
            None => None,
        }
    }
}

/// Reads `s` as a truth value.
pub fn parse_bool(s: &[char]) -> (r: Option<bool>)
    ensures
        r == bool_of(s@),
{
    if is_text(s, "true") {
        Some(true)
    } else if is_text(s, "false") {
        Some(false)
    } else {
        None
    }
}

/// `s` without the sign that it may begin with.
pub open spec fn without_sign(s: Seq<char>) -> Seq<char> {
    if s.len() > 0 && (s[0] == '+' || s[0] == '-') {
        s.drop_first()
    } else {
        s
    }
}

/// `s` is `inf`, in letters of either case.
pub open spec fn is_inf_word(s: Seq<char>) -> bool {
    &&& s.len() == 3
    &&& (s[0] == 'i' || s[0] == 'I')
    &&& (s[1] == 'n' || s[1] == 'N')
    &&& (s[2] == 'f' || s[2] == 'F')
}

/// `s` is `nan`, in letters of either case.
pub open spec fn is_nan_word(s: Seq<char>) -> bool {
    &&& s.len() == 3
    &&& (s[0] == 'n' || s[0] == 'N')
    &&& (s[1] == 'a' || s[1] == 'A')
    &&& (s[2] == 'n' || s[2] == 'N')
}

/// `s` is `infinity`, in letters of either case.
pub open spec fn is_infinity_word(s: Seq<char>) -> bool {
    &&& s.len() == 8
    &&& is_inf_word(s.take(3))
    &&& (s[3] == 'i' || s[3] == 'I')
    &&& (s[4] == 'n' || s[4] == 'N')
    &&& (s[5] == 'i' || s[5] == 'I')
    &&& (s[6] == 't' || s[6] == 'T')
    &&& (s[7] == 'y' || s[7] == 'Y')
}

/// `s` is a mantissa: digits with at most one point among them, and at least
/// one digit before or after it.
pub open spec fn is_mantissa(s: Seq<char>) -> bool {
    match first_occurrence(s, "."@) {
        Some(i) => {
            &&& s.len() > 1
            &&& all_digits(s.subrange(0, i))
            &&& all_digits(s.subrange(i + 1, s.len() as int))
        },
        None => s.len() > 0 && all_digits(s),
    }
}

/// `s` is an exponent: digits, at least one, after an optional sign.
pub open spec fn is_exponent(s: Seq<char>) -> bool {
    without_sign(s).len() > 0 && all_digits(without_sign(s))
}

/// Where the exponent mark of `s` stands: its first `e` or `E`.
pub open spec fn exponent_mark(s: Seq<char>) -> Option<int> {
    match (first_occurrence(s, "e"@), first_occurrence(s, "E"@)) {
        (Some(a), Some(b)) => Some(if a <= b { a } else { b }),
        (Some(a), None) => Some(a),
        (None, Some(b)) => Some(b),
        (None, None) => None,
    }
}

/// `s` is a decimal number: a mantissa, which an exponent mark and an exponent
/// may follow.
pub open spec fn is_decimal_number(s: Seq<char>) -> bool {
    match exponent_mark(s) {
        Some(i) => is_mantissa(s.subrange(0, i)) && is_exponent(s.subrange(i + 1, s.len() as int)),
        None => is_mantissa(s),
    }
}

/// `s` is a floating-point literal: after an optional sign, a decimal number or
/// one of the words `inf`, `infinity` and `nan`.
pub open spec fn is_float_text(s: Seq<char>) -> bool {
    let body = without_sign(s);
    is_inf_word(body) || is_infinity_word(body) || is_nan_word(body) || is_decimal_number(body)
}

/// Tells whether `c` is the letter `lower` or the letter `upper`.
fn either(c: char, lower: char, upper: char) -> (b: bool)
    ensures
        b == (c == lower || c == upper),
{
    c == lower || c == upper
}

/// Tells whether `s` is one of the words that a floating-point literal may be.
fn float_word(s: &[char]) -> (b: bool)
    ensures
        b == (is_inf_word(s@) || is_infinity_word(s@) || is_nan_word(s@)),
{
    let n = s.len();
    if n == 3 {
        (either(s[0], 'i', 'I') && either(s[1], 'n', 'N') && either(s[2], 'f', 'F')) || (either(
            s[0],
            'n',
            'N',
        ) && either(s[1], 'a', 'A') && either(s[2], 'n', 'N'))
    } else if n == 8 {
        either(s[0], 'i', 'I') && either(s[1], 'n', 'N') && either(s[2], 'f', 'F') && either(
            s[3],
            'i',
            'I',
        ) && either(s[4], 'n', 'N') && either(s[5], 'i', 'I') && either(s[6], 't', 'T') && either(
            s[7],
            'y',
            'Y',
        )
    } else {
        false
    }
}

/// Tells whether `s` is a mantissa.
fn mantissa(s: &[char]) -> (b: bool)
    ensures
        b == is_mantissa(s@),
{
    let n = s.len();
    let point = chars_of(".");
    match find(s, point.as_slice()) {
        Some(i) => {
            proof {
                lemma_first_occurrence(s@, point@);
                reveal_strlit(".");
            }
            n > 1 && digits_only(vstd::slice::slice_subrange(s, 0, i)) && digits_only(
                vstd::slice::slice_subrange(s, i + 1, n),
            )
        },
        None => n > 0 && digits_only(s),
    }
}

/// Tells whether `s` is an exponent.
fn exponent(s: &[char]) -> (b: bool)
    ensures
        b == is_exponent(s@),
{
    let n = s.len();
    proof {
        assert(s@.subrange(1, n as int) =~= s@.drop_first());
    }
    let digits = if n > 0 && (s[0] == '+' || s[0] == '-') {
        vstd::slice::slice_subrange(s, 1, n)
    } else {
        s
    };
    digits.len() > 0 && digits_only(digits)
}

/// Finds the exponent mark of `s`.
fn find_exponent_mark(s: &[char]) -> (r: Option<usize>)
    ensures
        match r {
            Some(i) => exponent_mark(s@) == Some(i as int) && i < s@.len(),
            None => exponent_mark(s@) is None,
        },
{
    let small = chars_of("e");
    let large = chars_of("E");
    proof {
        lemma_first_occurrence(s@, small@);
        lemma_first_occurrence(s@, large@);
        reveal_strlit("e");
        reveal_strlit("E");
    }
    match (find(s, small.as_slice()), find(s, large.as_slice())) {
        (Some(a), Some(b)) => Some(if a <= b { a } else { b }),
        (Some(a), None) => Some(a),
        (None, Some(b)) => Some(b),
        (None, None) => None,
    }
}

/// Tells whether `s` is a floating-point literal.
pub fn float_text(s: &[char]) -> (b: bool)
    ensures
        b == is_float_text(s@),
{
    let n = s.len();
    proof {
        assert(s@.subrange(1, n as int) =~= s@.drop_first());
    }
    let body = if n > 0 && (s[0] == '+' || s[0] == '-') {
        vstd::slice::slice_subrange(s, 1, n)
    } else {
        s
    };
    if float_word(body) {
        return true;
    }
    match find_exponent_mark(body) {
        Some(i) => mantissa(vstd::slice::slice_subrange(body, 0, i)) && exponent(
            vstd::slice::slice_subrange(body, i + 1, body.len()),
        ),
        None => mantissa(body),
    }
}

/// A floating-point literal, kept as it was written.
///
/// The text is a literal that `f64` of the standard library reads: the grammar of
/// `is_float_text` is the one that its `FromStr` documents.
#[derive(Debug, PartialEq, Eq)]
pub struct FloatLiteral {
    text: String,
}

impl View for FloatLiteral {
    type V = Seq<char>;

    closed spec fn view(&self) -> Seq<char> {
        self.text@
    }
}

impl DeepView for FloatLiteral {
    type V = Seq<char>;

    open spec fn deep_view(&self) -> Seq<char> {
        self@
    }
}

impl FloatLiteral {
    #[verifier::type_invariant]
    spec fn well_formed(&self) -> bool {
        is_float_text(self.text@)
    }

    /// The literal that `s` writes, if it writes one.
    pub fn new(s: &[char]) -> (r: Option<FloatLiteral>)
        ensures
            match r {
                Some(f) => is_float_text(s@) && f@ == s@,
                None => !is_float_text(s@),
            },
    {
        if float_text(s) {
            Some(FloatLiteral { text: string_of(s) })
        } else {
            None
        }
    }

    /// The literal as text.
    pub fn text(&self) -> (t: &str)
        ensures
            t@ == self@,
            is_float_text(t@),
    {
        proof {
            use_type_invariant(self);
        }
        self.text.as_str()
    }
}

} // verus!
