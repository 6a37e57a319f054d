//! Building and reading decimal text, verified character by character.

use vstd::prelude::*;

use crate::input::{char_of_digit, digit_of, spec_char_of_digit, spec_digit_of, spec_is_digit};

verus! {

/// Relies on `String::push`: appends exactly one character at the end.
#[verifier::external_body]
pub fn push_char(s: &mut String, c: char)
    ensures
        final(s)@ == old(s)@.push(c),
{
    s.push(c);
}

/// Relies on `String::pop`: removes and returns the last character.
#[verifier::external_body]
pub fn string_pop(s: &mut String) -> (r: Option<char>)
    ensures
        old(s)@.len() == 0 ==> final(s)@ == old(s)@ && r is None,
        old(s)@.len() > 0 ==> final(s)@ == old(s)@.drop_last() && r == Some(old(s)@.last()),
{
    s.pop()
}

/// Relies on `str::chars`: yields the characters of the string in order.
#[verifier::external_body]
pub fn string_to_chars(s: &str) -> (v: Vec<char>)
    ensures
        v@ == s@,
{
    s.chars().collect()
}

/// The digit value of `c`, zero for a character that is no digit.
pub open spec fn spec_digit_val(c: char) -> int {
    match spec_digit_of(c) {
        Some(d) => d as int,
        None => 0,
    }
}

/// Whether every character of `s` is an ASCII digit.
pub open spec fn all_digits(s: Seq<char>) -> bool {
    forall|i: int| 0 <= i < s.len() ==> spec_is_digit(#[trigger] s[i])
}

/// The number written by the digit sequence `s`, most significant first.
pub open spec fn spec_digits_val(s: Seq<char>) -> int
    decreases s.len(),
{
    if s.len() == 0 {
        0
    } else {
        spec_digits_val(s.drop_last()) * 10 + spec_digit_val(s.last())
    }
}

/// Ten to the power `n`.
pub open spec fn pow10(n: nat) -> int
    decreases n,
{
    if n == 0 {
        1
    } else {
        10 * pow10((n - 1) as nat)
    }
}

pub proof fn lemma_pow10_positive(n: nat)
    ensures
        pow10(n) >= 1,
    decreases n,
{
    if n > 0 {
        lemma_pow10_positive((n - 1) as nat);
    }
}

/// A sequence of `n` digits writes a number below `pow10(n)`.
pub proof fn lemma_digits_val_bound(s: Seq<char>)
    ensures
        0 <= spec_digits_val(s) < pow10(s.len()),
    decreases s.len(),
{
    if s.len() == 0 {
        lemma_pow10_positive(0);
    } else {
        lemma_digits_val_bound(s.drop_last());
    }
}

/// Reads the number written by a sequence of at most nine digits.
pub fn digits_val_u32(v: &Vec<char>) -> (n: u32)
    requires
        v@.len() <= 9,
        all_digits(v@),
    ensures
        n as int == spec_digits_val(v@),
{
    let mut acc: u32 = 0;
    let mut i: usize = 0;
    proof {
        assert(v@.subrange(0, 0) =~= Seq::<char>::empty());
    }
    while i < v.len()
        invariant
            i <= v@.len() <= 9,
            all_digits(v@),
            acc as int == spec_digits_val(v@.subrange(0, i as int)),
        decreases v@.len() - i,
    {
        proof {
            reveal_with_fuel(pow10, 9);
            lemma_digits_val_bound(v@.subrange(0, i as int));
            lemma_pow10_monotonic(i as nat, 8);
            assert(v@.subrange(0, i + 1).drop_last() =~= v@.subrange(0, i as int));
            assert(v@.subrange(0, i + 1).last() == v@[i as int]);
        }
        let d = match digit_of(v[i]) {
            Some(d) => d,
            None => 0,  // unreachable: every character is a digit
        };
        acc = acc * 10 + d;
        i = i + 1;
    }
    proof {
        assert(v@.subrange(0, v@.len() as int) =~= v@);
    }
    acc
}

pub proof fn lemma_pow10_monotonic(m: nat, n: nat)
    requires
        m <= n,
    ensures
        pow10(m) <= pow10(n),
    decreases n,
{
    if m < n {
        lemma_pow10_monotonic(m, (n - 1) as nat);
        lemma_pow10_positive((n - 1) as nat);
    }
}

/// Two decimal digits, zero padded.
pub open spec fn spec_two_digits(n: int) -> Seq<char> {
    seq![spec_char_of_digit((n / 10) as u32), spec_char_of_digit((n % 10) as u32)]
}

/// Four decimal digits, zero padded.
pub open spec fn spec_four_digits(n: int) -> Seq<char> {
    spec_two_digits(n / 100) + spec_two_digits(n % 100)
}

/// Appends `n` as exactly two digits.
pub fn push_two_digits(s: &mut String, n: u32)
    requires
        n < 100,
    ensures
        final(s)@ == old(s)@ + spec_two_digits(n as int),
{
    push_char(s, char_of_digit(n / 10));
    push_char(s, char_of_digit(n % 10));
    proof {
        assert(final(s)@ =~= old(s)@ + spec_two_digits(n as int));
    }
}

/// Appends `n` as exactly four digits.
pub fn push_four_digits(s: &mut String, n: u32)
    requires
        n < 10000,
    ensures
        final(s)@ == old(s)@ + spec_four_digits(n as int),
{
    push_two_digits(s, n / 100);
    push_two_digits(s, n % 100);
    proof {
        assert(final(s)@ =~= old(s)@ + spec_four_digits(n as int));
    }
}

/// The decimal digits of `n`, without padding.
pub open spec fn spec_dec_digits(n: int) -> Seq<char>
    decreases n,
{
    if n < 10 {
        seq![spec_char_of_digit(if 0 <= n { n as u32 } else { 0u32 })]
    } else {
        spec_dec_digits(n / 10).push(spec_char_of_digit((n % 10) as u32))
    }
}

/// Appends `n` in plain decimal.
pub fn push_u64_dec(s: &mut String, n: u64)
    ensures
        final(s)@ == old(s)@ + spec_dec_digits(n as int),
    decreases n,
{
    if n < 10 {
        push_char(s, char_of_digit(n as u32));
        proof {
            assert(final(s)@ =~= old(s)@ + spec_dec_digits(n as int));
        }
    } else {
        push_u64_dec(s, n / 10);
        push_char(s, char_of_digit((n % 10) as u32));
        proof {
            assert(final(s)@ =~= old(s)@ + spec_dec_digits(n as int));
        }
    }
}

/// Appends `n` in plain decimal; the wide variant for summed totals.
pub fn push_u128_dec(s: &mut String, n: u128)
    ensures
        final(s)@ == old(s)@ + spec_dec_digits(n as int),
    decreases n,
{
    if n < 10 {
        push_char(s, char_of_digit(n as u32));
        proof {
            assert(final(s)@ =~= old(s)@ + spec_dec_digits(n as int));
        }
    } else {
        push_u128_dec(s, n / 10);
        push_char(s, char_of_digit((n % 10) as u32));
        proof {
            assert(final(s)@ =~= old(s)@ + spec_dec_digits(n as int));
        }
    }
}

/// Index of the first dot in `s`, or minus one if there is none.
pub open spec fn spec_first_dot(s: Seq<char>) -> int
    decreases s.len(),
{
    if s.len() == 0 {
        -1
    } else if s[0] == '.' {
        0
    } else {
        let r = spec_first_dot(s.drop_first());
        if r == -1 {
            -1
        } else {
            r + 1
        }
    }
}

/// What [`spec_first_dot`] finds: the first dot and nothing but digits or
/// other characters before it.
pub proof fn lemma_first_dot(s: Seq<char>)
    ensures
        spec_first_dot(s) == -1 ==> forall|i: int| 0 <= i < s.len() ==> s[i] != '.',
        spec_first_dot(s) != -1 ==> {
            &&& 0 <= spec_first_dot(s) < s.len()
            &&& s[spec_first_dot(s)] == '.'
            &&& forall|i: int| 0 <= i < spec_first_dot(s) ==> s[i] != '.'
        },
    decreases s.len(),
{
    if s.len() > 0 && s[0] != '.' {
        lemma_first_dot(s.drop_first());
        let r = spec_first_dot(s.drop_first());
        if r != -1 {
            assert forall|i: int| 0 <= i < r + 1 implies s[i] != '.' by {
                if i > 0 {
                    assert(s.drop_first()[i - 1] != '.');
                }
            }
        } else {
            assert forall|i: int| 0 <= i < s.len() implies s[i] != '.' by {
                if i > 0 {
                    assert(s.drop_first()[i - 1] != '.');
                }
            }
        }
    }
}

/// A fixed-point number with two implied decimals, as this library writes
/// amounts: one to six integer digits, optionally a dot and one or two
/// fraction digits.  The value is in hundredths.
pub open spec fn spec_parse_fixed2(s: Seq<char>) -> Option<int> {
    let d = spec_first_dot(s);
    if d == -1 {
        if 1 <= s.len() <= 6 && all_digits(s) {
            Some(spec_digits_val(s) * 100)
        } else {
            None
        }
    } else {
        let ip = s.subrange(0, d);
        let fp = s.subrange(d + 1, s.len() as int);
        if 1 <= ip.len() <= 6 && all_digits(ip) && 1 <= fp.len() <= 2 && all_digits(fp) {
            Some(
                spec_digits_val(ip) * 100 + spec_digits_val(fp) * (if fp.len() == 1 {
                    10int
                } else {
                    1int
                }),
            )
        } else {
            None
        }
    }
}

/// Every accepted amount is below ten to the eighth (999999.99 at most).
pub proof fn lemma_parse_fixed2_bound(s: Seq<char>)
    ensures
        spec_parse_fixed2(s) is Some ==> 0 <= spec_parse_fixed2(s)->Some_0 < 100_000_000,
{
    reveal_with_fuel(pow10, 7);
    let d = spec_first_dot(s);
    if d == -1 {
        if 1 <= s.len() <= 6 && all_digits(s) {
            lemma_digits_val_bound(s);
            lemma_pow10_monotonic(s.len(), 6);
        }
    } else {
        let ip = s.subrange(0, d);
        let fp = s.subrange(d + 1, s.len() as int);
        if 1 <= ip.len() <= 6 && all_digits(ip) && 1 <= fp.len() <= 2 && all_digits(fp) {
            lemma_digits_val_bound(ip);
            lemma_pow10_monotonic(ip.len(), 6);
            lemma_digits_val_bound(fp);
            lemma_pow10_monotonic(fp.len(), 2);
        }
    }
}

/// Whether characters `from..to` of `v` are all digits.
fn all_digits_range(v: &Vec<char>, from: usize, to: usize) -> (r: bool)
    requires
        from <= to <= v@.len(),
    ensures
        r == all_digits(v@.subrange(from as int, to as int)),
{
    let mut i = from;
    while i < to
        invariant
            from <= i <= to <= v@.len(),
            forall|j: int| from <= j < i ==> spec_is_digit(#[trigger] v@[j]),
        decreases to - i,
    {
        if digit_of(v[i]).is_none() {
            proof {
                assert(v@.subrange(from as int, to as int)[i - from] == v@[i as int]);
            }
            return false;
        }
        i = i + 1;
    }
    proof {
        assert forall|j: int| 0 <= j < to - from implies spec_is_digit(
            #[trigger] v@.subrange(from as int, to as int)[j],
        ) by {
            assert(v@.subrange(from as int, to as int)[j] == v@[j + from]);
        }
    }
    true
}

/// Reads the number written by digits `from..to` of `v`.
fn digits_val_range(v: &Vec<char>, from: usize, to: usize) -> (n: u32)
    requires
        from <= to <= v@.len(),
        to - from <= 9,
        all_digits(v@.subrange(from as int, to as int)),
    ensures
        n as int == spec_digits_val(v@.subrange(from as int, to as int)),
{
    let mut sub: Vec<char> = Vec::new();
    let mut i = from;
    while i < to
        invariant
            from <= i <= to <= v@.len(),
            all_digits(v@.subrange(from as int, to as int)),
            sub@ =~= v@.subrange(from as int, i as int),
        decreases to - i,
    {
        proof {
            assert(v@.subrange(from as int, to as int)[i - from] == v@[i as int]);
        }
        sub.push(v[i]);
        i = i + 1;
    }
    proof {
        assert(sub@ =~= v@.subrange(from as int, to as int));
    }
    digits_val_u32(&sub)
}

/// Reads an amount written with two implied decimals; see
/// [`spec_parse_fixed2`].  Rejected text leaves the caller's state alone.
pub fn parse_fixed2(v: &Vec<char>) -> (r: Option<u64>)
    ensures
        match r {
            Some(x) => spec_parse_fixed2(v@) == Some(x as int) && x < 100_000_000,
            None => spec_parse_fixed2(v@) is None,
        },
{
    proof {
        lemma_first_dot(v@);
        lemma_parse_fixed2_bound(v@);
    }
    let n = v.len();
    let mut dot: usize = 0;
    let mut has_dot = false;
    while dot < n && !has_dot
        invariant
            0 <= dot <= n == v@.len(),
            !has_dot ==> forall|j: int| 0 <= j < dot ==> v@[j] != '.',
            has_dot ==> 0 <= (dot as int) < n && v@[dot as int] == '.' && forall|j: int|
                0 <= j < dot ==> v@[j] != '.',
        decreases n - dot + (if has_dot { 0int } else { 1int }),
    {
        if v[dot] == '.' {
            has_dot = true;
        } else {
            dot = dot + 1;
        }
    }
    if !has_dot {
        proof {
            if spec_first_dot(v@) != -1 {
                assert(v@[spec_first_dot(v@)] == '.');
            }
        }
        if n < 1 || n > 6 {
            return None;
        }
        if !all_digits_range(v, 0, n) {
            proof {
                assert(v@.subrange(0, n as int) =~= v@);
            }
            return None;
        }
        proof {
            assert(v@.subrange(0, n as int) =~= v@);
            reveal_with_fuel(pow10, 7);
            lemma_digits_val_bound(v@);
            lemma_pow10_monotonic(v@.len(), 6);
        }
        let ip = digits_val_range(v, 0, n);
        Some((ip as u64) * 100)
    } else {
        proof {
            lemma_first_dot(v@);
            assert(spec_first_dot(v@) == dot as int);
        }
        let ip_len = dot;
        let fp_len = n - dot - 1;
        if ip_len < 1 || ip_len > 6 || fp_len < 1 || fp_len > 2 {
            return None;
        }
        if !all_digits_range(v, 0, ip_len) {
            return None;
        }
        if !all_digits_range(v, dot + 1, n) {
            return None;
        }
        proof {
            reveal_with_fuel(pow10, 7);
            lemma_digits_val_bound(v@.subrange(0, ip_len as int));
            lemma_pow10_monotonic(ip_len as nat, 6);
            lemma_digits_val_bound(v@.subrange(dot + 1, n as int));
            lemma_pow10_monotonic(fp_len as nat, 2);
        }
        let ip = digits_val_range(v, 0, ip_len);
        let fp = digits_val_range(v, dot + 1, n);
        let scale: u64 = if fp_len == 1 {
            10
        } else {
            1
        };
        Some((ip as u64) * 100 + (fp as u64) * scale)
    }
}

/// A digit character reads back as its value.
pub proof fn lemma_char_digit_inverse(d: u32)
    requires
        d < 10,
    ensures
        spec_digit_of(spec_char_of_digit(d)) == Some(d),
        spec_digit_val(spec_char_of_digit(d)) == d as int,
{
}

/// The round trip law for fixed width rendering: reading two padded digits
/// gives the number back.
pub proof fn lemma_two_digits_round_trip(n: int)
    requires
        0 <= n < 100,
    ensures
        spec_digits_val(spec_two_digits(n)) == n,
        all_digits(spec_two_digits(n)),
        spec_two_digits(n).len() == 2,
{
    let s = spec_two_digits(n);
    lemma_char_digit_inverse((n / 10) as u32);
    lemma_char_digit_inverse((n % 10) as u32);
    assert(s.drop_last() =~= seq![spec_char_of_digit((n / 10) as u32)]);
    assert(s.drop_last().drop_last() =~= Seq::<char>::empty());
    assert(spec_digits_val(s.drop_last().drop_last()) == 0);
    assert(s.drop_last().last() == spec_char_of_digit((n / 10) as u32));
    assert(spec_digits_val(s.drop_last()) == n / 10);
    assert(s.last() == spec_char_of_digit((n % 10) as u32));
    assert(spec_digits_val(s) == (n / 10) * 10 + n % 10);
    assert((n / 10) * 10 + n % 10 == n);
}

/// The round trip law for fixed width rendering: reading four padded digits
/// gives the number back.
pub proof fn lemma_four_digits_round_trip(n: int)
    requires
        0 <= n < 10000,
    ensures
        spec_digits_val(spec_four_digits(n)) == n,
        all_digits(spec_four_digits(n)),
        spec_four_digits(n).len() == 4,
{
    let s = spec_four_digits(n);
    lemma_two_digits_round_trip(n / 100);
    lemma_two_digits_round_trip(n % 100);
    assert(s.drop_last().drop_last() =~= spec_two_digits(n / 100));
    assert(s.drop_last() =~= spec_two_digits(n / 100).push(spec_char_of_digit(((n % 100) / 10) as u32)));
    assert(spec_digits_val(s.drop_last().drop_last()) == n / 100);
    assert(s.last() == spec_char_of_digit((n % 100 % 10) as u32));
    assert(spec_digits_val(s) == (n / 100) * 100 + (n % 100)) by {
        assert(spec_digits_val(s.drop_last()) == (n / 100) * 10 + (n % 100) / 10);
        assert(spec_digit_val(s.last()) == n % 100 % 10);
    }
}

} // verus!
