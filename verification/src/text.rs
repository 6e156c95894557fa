//! Character-level helpers for the strings that the service handles.
//!
//! Every contract here is stated over `Seq<char>`, the view of `str` and
//! `String`.
use vstd::prelude::*;

verus! {

/// The lowercase form of a text as `str::to_lowercase` computes it: the
/// Unicode `Lowercase` mapping applied to every character, with the special
/// handling of a word-final capital sigma.
pub uninterp spec fn lowercase_of(s: Seq<char>) -> Seq<char>;

/// `str::to_lowercase` returns the lowercase form of its argument. The
/// mapping is fixed by the Unicode tables that the standard library carries;
/// it is named here rather than written out.
pub assume_specification[ str::to_lowercase ](s: &str) -> (lowered: String)
    ensures
        lowered@ == lowercase_of(s@),
;

/// `String::push` appends one character at the end of the string.
pub assume_specification[ String::push ](s: &mut String, c: char)
    ensures
        final(s)@ == old(s)@.push(c),
;

/// Two texts are the same up to letter case.
pub open spec fn same_ignoring_case(a: Seq<char>, b: Seq<char>) -> bool {
    lowercase_of(a) == lowercase_of(b)
}

/// `needle` occurs in `hay` as a contiguous run of characters.
pub open spec fn occurs_in(needle: Seq<char>, hay: Seq<char>) -> bool {
    exists|i: int| occurs_at(needle, hay, i)
}

/// `needle` occurs in `hay` starting at position `i`.
pub open spec fn occurs_at(needle: Seq<char>, hay: Seq<char>, i: int) -> bool {
    &&& 0 <= i
    &&& i + needle.len() <= hay.len()
    &&& hay.subrange(i, i + needle.len()) == needle
}

/// `a` and `b` agree before position `k`, and at `k` the text `a` ends while
/// `b` goes on, or `a` has the character with the smaller code.
pub open spec fn parts_at(a: Seq<char>, b: Seq<char>, k: int) -> bool {
    &&& 0 <= k <= a.len()
    &&& k < b.len()
    &&& forall|i: int| 0 <= i < k ==> a[i] == b[i]
    &&& k < a.len() ==> a[k] < b[k]
}

/// `a` comes before `b` in dictionary order, characters taken by their code.
pub open spec fn precedes(a: Seq<char>, b: Seq<char>) -> bool {
    exists|k: int| parts_at(a, b, k)
}

/// How one text stands to another in dictionary order.
#[derive(Clone, Copy, Debug, PartialEq, Eq, Structural)]
pub enum TextOrder {
    Before,
    Same,
    After,
}

/// Where two texts part, the one that comes first is settled: the other does
/// not come before it, and the two are not the same.
pub proof fn lemma_parting_decides(a: Seq<char>, b: Seq<char>, k: int)
    requires
        parts_at(a, b, k),
    ensures
        precedes(a, b),
        !precedes(b, a),
        a != b,
{
    if precedes(b, a) {
        let j = choose|j: int| parts_at(b, a, j);
        if j < k {
            assert(a[j] == b[j]);
        } else if j > k {
            assert(b[k] == a[k]);
        }
    }
    if a == b {
        assert(k < a.len());
    }
}

/// No text comes before itself.
pub proof fn lemma_precedes_is_strict(a: Seq<char>)
    ensures
        !precedes(a, a),
{
    if precedes(a, a) {
        let k = choose|k: int| parts_at(a, a, k);
        lemma_parting_decides(a, a, k);
    }
}

/// Dictionary order is transitive.
pub proof fn lemma_precedes_chains(a: Seq<char>, b: Seq<char>, c: Seq<char>)
    requires
        precedes(a, b),
        precedes(b, c),
    ensures
        precedes(a, c),
{
    let k1 = choose|k: int| parts_at(a, b, k);
    let k2 = choose|k: int| parts_at(b, c, k);
    let k = if k1 <= k2 { k1 } else { k2 };
    assert forall|i: int| 0 <= i < k implies a[i] == c[i] by {
        assert(a[i] == b[i]);
        assert(b[i] == c[i]);
    }
    if k1 < k2 {
        assert(b[k1] == c[k1]);
    } else if k2 < k1 {
        assert(a[k2] == b[k2]);
    }
    assert(parts_at(a, c, k));
}

/// The decimal digit for `d`, for `d` below ten.
pub open spec fn digit_char(d: int) -> char {
    seq!['0', '1', '2', '3', '4', '5', '6', '7', '8', '9'][d]
}

/// The decimal numeral of `n`, without sign or leading zeros.
pub open spec fn decimal(n: nat) -> Seq<char>
    decreases n,
{
    if n < 10 {
        seq![digit_char(n as int)]
    } else {
        decimal(n / 10).push(digit_char((n % 10) as int))
    }
}

/// The decimal numeral of `v`, with a leading minus sign when `v` is negative.
pub open spec fn signed_decimal(v: int) -> Seq<char> {
    if v < 0 {
        seq!['-'] + decimal((-v) as nat)
    } else {
        decimal(v as nat)
    }
}

/// A count of hundredths rounded to tenths, a tie going to the even tenth.
pub open spec fn tenths_of_hundredths(h: nat) -> nat {
    let q = h / 10;
    let r = h % 10;
    if r > 5 || (r == 5 && q % 2 == 1) {
        q + 1
    } else {
        q
    }
}

/// A value given in hundredths, written with one decimal place. The sign is
/// that of the value itself, also where it rounds to zero.
pub open spec fn one_decimal(hundredths: int) -> Seq<char> {
    let magnitude = if hundredths < 0 { -hundredths } else { hundredths };
    let tenths = tenths_of_hundredths(magnitude as nat);
    let sign = if hundredths < 0 { seq!['-'] } else { Seq::<char>::empty() };
    sign + decimal(tenths / 10) + seq!['.', digit_char((tenths % 10) as int)]
}

/// The value of a decimal digit character, or -1 for any other character.
pub open spec fn digit_value(c: char) -> int {
    if c == '0' {
        0
    } else if c == '1' {
        1
    } else if c == '2' {
        2
    } else if c == '3' {
        3
    } else if c == '4' {
        4
    } else if c == '5' {
        5
    } else if c == '6' {
        6
    } else if c == '7' {
        7
    } else if c == '8' {
        8
    } else if c == '9' {
        9
    } else {
        -1
    }
}

/// Every character of `s` is a decimal digit.
pub open spec fn all_digits(s: Seq<char>) -> bool {
    forall|i: int| 0 <= i < s.len() ==> digit_value(#[trigger] s[i]) >= 0
}

/// The number that a run of decimal digits denotes.
pub open spec fn digits_value(s: Seq<char>) -> nat
    decreases s.len(),
{
    if s.len() == 0 {
        0
    } else {
        let v = digit_value(s.last());
        (digits_value(s.drop_last()) * 10 + if v >= 0 { v } else { 0 }) as nat
    }
}

/// The characters of `s`, in order.
pub fn chars_of(s: &str) -> (out: Vec<char>)
    ensures
        out@ == s@,
{
    let mut out: Vec<char> = Vec::new();
    for c in it: s.chars()
        invariant
            out@ == it.seq().take(it.index()),
            it.seq() == s@,
    {
        out.push(c);
    }
    out
}

/// How `a` stands to `b` in dictionary order.
pub fn order_of(a: &str, b: &str) -> (r: TextOrder)
    ensures
        r == TextOrder::Before <==> precedes(a@, b@),
        r == TextOrder::Same <==> a@ == b@,
        r == TextOrder::After <==> precedes(b@, a@),
{
    let x = chars_of(a);
    let y = chars_of(b);
    let mut i: usize = 0;
    while i < x.len() && i < y.len()
        invariant
            i <= x.len(),
            i <= y.len(),
            x@ == a@,
            y@ == b@,
            forall|k: int| 0 <= k < i ==> a@[k] == b@[k],
        decreases x.len() - i,
    {
        if x[i] < y[i] {
            proof {
                lemma_parting_decides(a@, b@, i as int);
            }
            return TextOrder::Before;
        }
        if y[i] < x[i] {
            proof {
                lemma_parting_decides(b@, a@, i as int);
            }
            return TextOrder::After;
        }
        i += 1;
    }
    if i < y.len() {
        proof {
            lemma_parting_decides(a@, b@, i as int);
        }
        TextOrder::Before
    } else if i < x.len() {
        proof {
            lemma_parting_decides(b@, a@, i as int);
        }
        TextOrder::After
    } else {
        proof {
            assert(a@ =~= b@);
            lemma_precedes_is_strict(a@);
        }
        TextOrder::Same
    }
}

/// Whether `needle` stands in `hay` at position `i`.
fn matches_at(needle: &Vec<char>, hay: &Vec<char>, i: usize) -> (r: bool)
    requires
        i + needle.len() <= hay.len(),
    ensures
        r == occurs_at(needle@, hay@, i as int),
{
    let mut j: usize = 0;
    while j < needle.len()
        invariant
            j <= needle.len(),
            i + needle.len() <= hay.len(),
            forall|k: int| 0 <= k < j ==> hay@[i + k] == needle@[k],
        decreases needle.len() - j,
    {
        if hay[i + j] != needle[j] {
            assert(hay@.subrange(i as int, i + needle.len())[j as int] != needle@[j as int]);
            return false;
        }
        j += 1;
    }
    assert(hay@.subrange(i as int, i + needle.len()) =~= needle@);
    true
}

/// Whether `needle` occurs in `hay`.
pub fn contains(hay: &str, needle: &str) -> (r: bool)
    ensures
        r == occurs_in(needle@, hay@),
{
    let h = chars_of(hay);
    let n = chars_of(needle);
    if n.len() > h.len() {
        return false;
    }
    let mut i: usize = 0;
    while h.len() - i >= n.len()
        invariant
            i <= h.len(),
            n.len() <= h.len(),
            h@ == hay@,
            n@ == needle@,
            forall|k: int| 0 <= k < i ==> !occurs_at(n@, h@, k),
        decreases h.len() - i,
    {
        if matches_at(&n, &h, i) {
            return true;
        }
        if i == h.len() {
            return false;
        }
        i += 1;
    }
    false
}

/// The character of the decimal digit `d`.
fn digit(d: u8) -> (c: char)
    requires
        d < 10,
    ensures
        c == digit_char(d as int),
        digit_value(c) == d,
{
    match d {
        0 => '0',
        1 => '1',
        2 => '2',
        3 => '3',
        4 => '4',
        5 => '5',
        6 => '6',
        7 => '7',
        8 => '8',
        _ => '9',
    }
}

/// Appends the decimal numeral of `n` to `out`.
pub fn push_decimal(out: &mut String, n: u64)
    ensures
        final(out)@ == old(out)@ + decimal(n as nat),
    decreases n,
{
    if n >= 10 {
        push_decimal(out, n / 10);
    }
    out.push(digit((n % 10) as u8));
}

/// Appends the decimal numeral of `v` to `out`, with its sign.
pub fn push_signed(out: &mut String, v: i64)
    ensures
        final(out)@ == old(out)@ + signed_decimal(v as int),
{
    if v < 0 {
        out.push('-');
        let magnitude: u64 = (-(v as i128)) as u64;
        push_decimal(out, magnitude);
    } else {
        push_decimal(out, v as u64);
    }
}

/// Appends a value given in hundredths to `out`, written with one decimal
/// place.
pub fn push_one_decimal(out: &mut String, hundredths: i64)
    ensures
        final(out)@ == old(out)@ + one_decimal(hundredths as int),
{
    let magnitude: u64 = if hundredths < 0 {
        out.push('-');
        (-(hundredths as i128)) as u64
    } else {
        hundredths as u64
    };
    let q: u64 = magnitude / 10;
    let r: u64 = magnitude % 10;
    let tenths: u64 = if r > 5 || (r == 5 && q % 2 == 1) {
        q + 1
    } else {
        q
    };
    push_decimal(out, tenths / 10);
    out.push('.');
    out.push(digit((tenths % 10) as u8));
    assert(final(out)@ =~= old(out)@ + one_decimal(hundredths as int));
}

/// The value of a decimal digit character.
fn digit_of(c: char) -> (v: Option<u8>)
    ensures
        match v {
            Some(d) => d < 10 && digit_value(c) == d,
            None => digit_value(c) == -1,
        },
{
    match c {
        '0' => Some(0),
        '1' => Some(1),
        '2' => Some(2),
        '3' => Some(3),
        '4' => Some(4),
        '5' => Some(5),
        '6' => Some(6),
        '7' => Some(7),
        '8' => Some(8),
        '9' => Some(9),
        _ => None,
    }
}

/// What a text denotes as an unsigned 16-bit number: one or more decimal
/// digits, optionally after a single `+`, whose value fits.
pub open spec fn u16_of(s: Seq<char>) -> Option<u16> {
    let digits = if s.len() > 0 && s[0] == '+' { s.drop_first() } else { s };
    if digits.len() > 0 && all_digits(digits) && digits_value(digits) <= u16::MAX {
        Some(digits_value(digits) as u16)
    } else {
        None
    }
}

/// A prefix of a digit run denotes no more than the whole run.
pub proof fn lemma_digits_value_grows(s: Seq<char>, k: int)
    requires
        0 <= k <= s.len(),
    ensures
        digits_value(s.take(k)) <= digits_value(s),
    decreases s.len() - k,
{
    if k < s.len() {
        lemma_digits_value_grows(s, k + 1);
        assert(s.take(k + 1).drop_last() == s.take(k));
    } else {
        assert(s.take(k) == s);
    }
}

/// Reads a text as an unsigned 16-bit number.
pub fn parse_u16(s: &str) -> (r: Option<u16>)
    ensures
        r == u16_of(s@),
{
    let chars = chars_of(s);
    let start: usize = if chars.len() > 0 && chars[0] == '+' { 1 } else { 0 };
    let ghost digits = chars@.skip(start as int);
    let ghost stripped = if s@.len() > 0 && s@[0] == '+' {
        s@.drop_first()
    } else {
        s@
    };
    assert(digits == stripped);
    if start >= chars.len() {
        return None;
    }
    let mut value: u32 = 0;
    let mut i: usize = start;
    while i < chars.len()
        invariant
            start <= i <= chars.len(),
            digits == chars@.skip(start as int),
            digits == stripped,
            stripped == if s@.len() > 0 && s@[0] == '+' {
                s@.drop_first()
            } else {
                s@
            },
            all_digits(digits.take(i - start)),
            value == digits_value(digits.take(i - start)),
            value <= u16::MAX,
        decreases chars.len() - i,
    {
        let ghost upto = digits.take(i - start + 1);
        proof {
            assert(upto.drop_last() == digits.take(i - start));
            assert(upto.last() == chars@[i as int]);
        }
        match digit_of(chars[i]) {
            None => {
                assert(chars@[i as int] == digits[i - start]);
                assert(digit_value(digits[i - start]) < 0);
                return None;
            },
            Some(d) => {
                let next: u32 = value * 10 + d as u32;
                assert(next == digits_value(upto));
                if next > 65535 {
                    proof {
                        lemma_digits_value_grows(digits, i - start + 1);
                    }
                    return None;
                }
                assert forall|k: int| 0 <= k < upto.len() implies digit_value(
                    #[trigger] upto[k],
                ) >= 0 by {
                    if k < upto.len() - 1 {
                        assert(upto[k] == digits.take(i - start)[k]);
                    }
                }
                value = next;
            },
        }
        i += 1;
    }
    assert(digits.take(i - start) == digits);
    Some(value as u16)
}

} // verus!
