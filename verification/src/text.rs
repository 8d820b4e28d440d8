//! Text building blocks: decimal rendering of integers and string equality.

use vstd::prelude::*;
use vstd::string::*;

verus! {

/// The decimal digit character for `d` (`d < 10`).
pub open spec fn digit_char(d: nat) -> char {
    seq!['0', '1', '2', '3', '4', '5', '6', '7', '8', '9'][d as int]
}

/// Decimal rendering of a natural number, most significant digit first,
/// without leading zeros (zero is rendered as `"0"`).
pub open spec fn decimal(n: nat) -> Seq<char>
    decreases n,
{
    if n < 10 {
        seq![digit_char(n)]
    } else {
        decimal(n / 10).push(digit_char(n % 10))
    }
}

/// Decimal rendering of an integer, as Rust's `Display` writes it:
/// a leading `-` for negative numbers.
pub open spec fn signed_decimal(i: int) -> Seq<char> {
    if i < 0 {
        seq!['-'] + decimal((-i) as nat)
    } else {
        decimal(i as nat)
    }
}

fn digit_str(d: u64) -> (s: &'static str)
    requires
        d < 10,
    ensures
        s@ == seq![digit_char(d as nat)],
{
    let digits = "0123456789";
    proof {
        reveal_strlit("0123456789");
    }
    assert(digits@ =~= seq!['0', '1', '2', '3', '4', '5', '6', '7', '8', '9']);
    let s = digits.substring_char(d as usize, (d + 1) as usize);
    assert(s@ =~= seq![digit_char(d as nat)]);
    s
}

/// Appends the decimal rendering of `n` to `s`.
pub fn push_decimal(s: &mut String, n: u64)
    ensures
        final(s)@ == old(s)@ + decimal(n as nat),
    decreases n,
{
    if n >= 10 {
        push_decimal(s, n / 10);
    }
    let d = digit_str(n % 10);
    s.append(d);
    assert(s@ =~= old(s)@ + decimal(n as nat));
}

/// Appends the decimal rendering of `i` (with a `-` sign when negative) to `s`.
pub fn push_signed(s: &mut String, i: i64)
    ensures
        final(s)@ == old(s)@ + signed_decimal(i as int),
{
    if i < 0 {
        proof {
            reveal_strlit("-");
        }
        s.append("-");
        let magnitude: u64 = (0i128 - (i as i128)) as u64;
        push_decimal(s, magnitude);
        assert(s@ =~= old(s)@ + signed_decimal(i as int));
    } else {
        push_decimal(s, i as u64);
    }
}

/// Character-wise equality of two string slices.
pub fn str_eq(a: &str, b: &str) -> (r: bool)
    ensures
        r == (a@ == b@),
{
    let n = a.unicode_len();
    if n != b.unicode_len() {
        return false;
    }
    let mut i: usize = 0;
    while i < n
        invariant
            n == a@.len(),
            n == b@.len(),
            i <= n,
            forall|j: int| 0 <= j < i ==> a@[j] == b@[j],
        decreases n - i,
    {
        if a.get_char(i) != b.get_char(i) {
            return false;
        }
        i = i + 1;
    }
    assert(a@ =~= b@);
    true
}

/// `c` is an ASCII decimal digit.
pub open spec fn is_digit(c: char) -> bool {
    '0' <= c && c <= '9'
}

/// The value of a string of decimal digits (zero for the empty string).
pub open spec fn digits_value(s: Seq<char>) -> nat
    decreases s.len(),
{
    if s.len() == 0 {
        0
    } else {
        digits_value(s.drop_last()) * 10 + ((s.last() as int) - ('0' as int)) as nat
    }
}

/// What Rust's `u64::from_str` reads from `s`: an optional `+` and then one
/// or more decimal digits whose value fits in a `u64`; nothing otherwise.
pub open spec fn parsed_u64(s: Seq<char>) -> Option<u64> {
    let digits = unsigned_part(s);
    if digits.len() > 0 && all_digits(digits) && digits_value(digits) <= u64::MAX {
        Some(digits_value(digits) as u64)
    } else {
        None
    }
}

/// `s` without a leading `+`.
pub open spec fn unsigned_part(s: Seq<char>) -> Seq<char> {
    if s.len() > 0 && s[0] == '+' {
        s.drop_first()
    } else {
        s
    }
}

/// Every character of `s` is a decimal digit.
pub open spec fn all_digits(s: Seq<char>) -> bool {
    forall|i: int| 0 <= i < s.len() ==> is_digit(#[trigger] s[i])
}

/// Reads a Discord id (an unsigned 64-bit number) from its decimal text.
pub fn parse_id(s: &str) -> (r: Option<u64>)
    ensures
        r == parsed_u64(s@),
{
    let n = s.unicode_len();
    let mut start: usize = 0;
    if n > 0 && s.get_char(0) == '+' {
        start = 1;
    }
    let ghost digits = unsigned_part(s@);
    assert(digits =~= s@.subrange(start as int, n as int));
    if start >= n {
        return None;
    }
    let mut value: u128 = 0;
    let mut i: usize = start;
    while i < n
        invariant
            n == s@.len(),
            start <= i <= n,
            digits =~= s@.subrange(start as int, n as int),
            digits == unsigned_part(s@),
            forall|j: int| start <= j < i ==> is_digit(#[trigger] s@[j]),
            value == digits_value(s@.subrange(start as int, i as int)),
            value <= u64::MAX,
        decreases n - i,
    {
        let c = s.get_char(i);
        if !('0' <= c && c <= '9') {
            assert(digits[i - start] == s@[i as int]);
            assert(!all_digits(digits));
            return None;
        }
        let d = (c as u32 - '0' as u32) as u128;
        assert(s@.subrange(start as int, i + 1).drop_last() =~= s@.subrange(start as int, i as int));
        value = value * 10 + d;
        if value > 18446744073709551615u128 {
            proof {
                if all_digits(digits) {
                    lemma_digits_value_prefix(digits, (i + 1 - start) as int);
                    assert(digits.subrange(0, i + 1 - start) =~= s@.subrange(start as int, i + 1));
                }
            }
            return None;
        }
        i = i + 1;
    }
    assert(s@.subrange(start as int, n as int) =~= digits);
    Some(value as u64)
}

/// A prefix of a string of digits is worth no more than the whole.
pub proof fn lemma_digits_value_prefix(s: Seq<char>, k: int)
    requires
        0 <= k <= s.len(),
        all_digits(s),
    ensures
        digits_value(s.subrange(0, k)) <= digits_value(s),
    decreases s.len() - k,
{
    if k < s.len() {
        lemma_digits_value_prefix(s, k + 1);
        assert(s.subrange(0, k + 1).drop_last() =~= s.subrange(0, k));
    } else {
        assert(s.subrange(0, k) =~= s);
    }
}

/// The digit character of `k` has code `'0' + k`.
pub proof fn lemma_digit_char(k: nat)
    requires
        k < 10,
    ensures
        digit_char(k) as int == ('0' as int) + k,
        is_digit(digit_char(k)),
{
    let d = seq!['0', '1', '2', '3', '4', '5', '6', '7', '8', '9'];
    assert(d[0] == '0' && d[1] == '1' && d[2] == '2' && d[3] == '3' && d[4] == '4');
    assert(d[5] == '5' && d[6] == '6' && d[7] == '7' && d[8] == '8' && d[9] == '9');
    if k == 0 {} else if k == 1 {} else if k == 2 {} else if k == 3 {} else if k == 4 {}
    else if k == 5 {} else if k == 6 {} else if k == 7 {} else if k == 8 {} else {}
}

/// The decimal rendering of a number is a string of digits worth the number.
pub proof fn lemma_decimal_digits(n: nat)
    ensures
        decimal(n).len() > 0,
        all_digits(decimal(n)),
        digits_value(decimal(n)) == n,
    decreases n,
{
    lemma_digit_char((n % 10) as nat);
    if n < 10 {
        lemma_digit_char(n);
        assert(decimal(n).drop_last() =~= Seq::<char>::empty());
        assert(digits_value(Seq::<char>::empty()) == 0);
    } else {
        lemma_decimal_digits(n / 10);
        assert(decimal(n).drop_last() =~= decimal(n / 10));
        assert(decimal(n).last() == digit_char(n % 10));
        assert((n / 10) * 10 + n % 10 == n);
    }
}

/// Reading a number back from its decimal rendering gives the number.
pub proof fn lemma_parse_decimal(n: u64)
    ensures
        parsed_u64(decimal(n as nat)) == Some(n),
{
    lemma_decimal_digits(n as nat);
    assert(unsigned_part(decimal(n as nat)) == decimal(n as nat));
}

/// The rendering of a non-negative number reads back as that number; the
/// rendering of a negative number is a `-` followed by a text that reads back
/// as its magnitude.
pub proof fn lemma_signed_decimal_reads_back(i: int)
    requires
        -u64::MAX <= i <= u64::MAX,
    ensures
        i >= 0 ==> parsed_u64(signed_decimal(i)) == Some(i as u64),
        i < 0 ==> signed_decimal(i).len() > 1 && signed_decimal(i)[0] == '-'
            && parsed_u64(signed_decimal(i).drop_first()) == Some((-i) as u64),
{
    if i >= 0 {
        lemma_parse_decimal(i as u64);
    } else {
        lemma_parse_decimal((-i) as u64);
        lemma_decimal_digits((-i) as nat);
        assert(signed_decimal(i).drop_first() =~= decimal((-i) as nat));
    }
}

} // verus!
