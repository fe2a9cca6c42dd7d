//! Decimal text: parsing digit strings to integers and formatting integers
//! back, with exact contracts over the character sequences.

use vstd::prelude::*;
use vstd::string::StringExecFns;

verus! {

/// `c` is one of the ten ASCII decimal digits.
pub open spec fn is_digit(c: char) -> bool {
    48 <= c as u32 && c as u32 <= 57
}

/// Every character of `s` is a decimal digit.
pub open spec fn all_digits(s: Seq<char>) -> bool {
    forall|i: int| 0 <= i < s.len() ==> is_digit(#[trigger] s[i])
}

/// Numeric value of a single digit character.
pub open spec fn digit_val(c: char) -> nat {
    ((c as u32) - 48) as nat
}

/// Digit character for a value below ten.
pub open spec fn digit_char(d: nat) -> char {
    if d == 0 { '0' }
    else if d == 1 { '1' }
    else if d == 2 { '2' }
    else if d == 3 { '3' }
    else if d == 4 { '4' }
    else if d == 5 { '5' }
    else if d == 6 { '6' }
    else if d == 7 { '7' }
    else if d == 8 { '8' }
    else { '9' }
}

/// Value of a digit string read most-significant first.
pub open spec fn dec_val(s: Seq<char>) -> nat
    decreases s.len(),
{
    if s.len() == 0 {
        0
    } else {
        dec_val(s.drop_last()) * 10 + digit_val(s.last())
    }
}

/// Ten to the `k`.
pub open spec fn pow10(k: nat) -> nat
    decreases k,
{
    if k == 0 { 1 } else { 10 * pow10((k - 1) as nat) }
}

/// The canonical decimal digit string of `n` (no leading zeros, except for
/// `n == 0` itself).
pub open spec fn dec_digits(n: nat) -> Seq<char>
    decreases n,
{
    if n < 10 {
        seq![digit_char(n)]
    } else {
        dec_digits(n / 10).push(digit_char(n % 10))
    }
}

/// Decimal rendering of a signed integer: a minus sign before the digit
/// string of the magnitude.
pub open spec fn dec_int(v: int) -> Seq<char> {
    if v < 0 {
        seq!['-'] + dec_digits((-v) as nat)
    } else {
        dec_digits(v as nat)
    }
}

/// Splitting a digit string multiplies the high part by ten to the length
/// of the low part.
pub proof fn lemma_dec_val_append(s: Seq<char>, t: Seq<char>)
    ensures
        dec_val(s + t) == dec_val(s) * pow10(t.len()) + dec_val(t),
    decreases t.len(),
{
    if t.len() == 0 {
        assert(s + t =~= s);
        assert(pow10(0) == 1);
        assert(dec_val(s + t) == dec_val(s) * pow10(t.len()) + dec_val(t));
    } else {
        lemma_dec_val_append(s, t.drop_last());
        assert((s + t).drop_last() =~= s + t.drop_last());
        assert((s + t).last() == t.last());
        let k = (t.len() - 1) as nat;
        let a = dec_val(s);
        let b = dec_val(t.drop_last());
        let d = digit_val(t.last());
        assert(dec_val(s + t) == (a * pow10(k) + b) * 10 + d);
        assert((a * pow10(k) + b) * 10 == a * (pow10(k) * 10) + b * 10) by (nonlinear_arith);
        assert(pow10(k) * 10 == pow10(t.len())) by {
            assert(pow10(t.len()) == 10 * pow10(k));
        };
        assert(dec_val(t) == b * 10 + d);
        assert(dec_val(s + t) == a * pow10(t.len()) + dec_val(t));
    }
}

/// A digit string is worth at least any of its prefixes, so a prefix that
/// already exceeds a bound keeps the whole string above it.
pub proof fn lemma_dec_val_prefix(s: Seq<char>, i: int)
    requires
        0 <= i <= s.len(),
    ensures
        dec_val(s) >= dec_val(s.subrange(0, i)),
{
    let pre = s.subrange(0, i);
    let suf = s.subrange(i, s.len() as int);
    assert(s =~= pre + suf);
    lemma_dec_val_append(pre, suf);
    lemma_pow10_pos(suf.len());
    assert(dec_val(pre) * pow10(suf.len()) >= dec_val(pre) * 1) by (nonlinear_arith)
        requires pow10(suf.len()) >= 1;
}

/// A run of `k` digits is worth less than ten to the `k`.
pub proof fn lemma_dec_val_bound(s: Seq<char>)
    requires
        all_digits(s),
    ensures
        dec_val(s) < pow10(s.len()),
    decreases s.len(),
{
    if s.len() > 0 {
        assert(all_digits(s.drop_last())) by {
            assert(forall|i: int| 0 <= i < s.len() - 1 ==> s.drop_last()[i] == s[i]);
        };
        lemma_dec_val_bound(s.drop_last());
        assert(is_digit(s.last()));
        assert(digit_val(s.last()) <= 9);
        assert(pow10(s.len()) == 10 * pow10((s.len() - 1) as nat));
    }
}

pub proof fn lemma_pow10_pos(k: nat)
    ensures
        pow10(k) >= 1,
    decreases k,
{
    if k > 0 {
        lemma_pow10_pos((k - 1) as nat);
    }
}

/// Parse an unsigned decimal string. Returns the value exactly when the
/// string is a nonempty run of digits whose value fits in `u64`.
pub fn parse_u64(s: &str) -> (r: Option<u64>)
    ensures
        r is Some <==> s@.len() > 0 && all_digits(s@) && dec_val(s@) <= u64::MAX,
        r is Some ==> r.unwrap() as nat == dec_val(s@),
{
    let len = s.unicode_len();
    if len == 0 {
        return None;
    }
    let mut acc: u64 = 0;
    let mut i: usize = 0;
    while i < len
        invariant
            0 <= i <= len,
            len == s@.len(),
            all_digits(s@.subrange(0, i as int)),
            acc as nat == dec_val(s@.subrange(0, i as int)),
        decreases len - i,
    {
        let c = s.get_char(i);
        let cv = c as u32;
        proof {
            assert(s@.subrange(0, i as int + 1).drop_last() =~= s@.subrange(0, i as int));
            assert(s@.subrange(0, i as int + 1).last() == s@[i as int]);
        }
        if cv < 48 || cv > 57 {
            return None;
        }
        let d: u64 = (cv - 48) as u64;
        if acc > (u64::MAX - d) / 10 {
            // Overflow: the prefix read so far is already worth more than
            // u64::MAX, and the value only grows with the rest.
            proof {
                lemma_dec_val_prefix(s@, i as int + 1);
            }
            return None;
        }
        acc = acc * 10 + d;
        i = i + 1;
    }
    proof {
        assert(s@.subrange(0, len as int) =~= s@);
    }
    Some(acc)
}

/// Parse a signed decimal string: an optional leading minus sign followed
/// by a nonempty digit run; the value must fit in `i64`.
pub fn parse_i64(s: &str) -> (r: Option<i64>)
    ensures
        r is Some ==> r.unwrap() as int == spec_parse_i64(s@).unwrap(),
        r is Some <==> spec_parse_i64(s@) is Some,
{
    let len = s.unicode_len();
    if len == 0 {
        return None;
    }
    let c0 = s.get_char(0);
    if c0 == '-' {
        let rest = s.substring_char(1, len);
        match parse_u64(rest) {
            None => None,
            Some(mag) => {
                if mag > 9223372036854775808u64 {
                    None
                } else if mag == 9223372036854775808u64 {
                    Some(i64::MIN)
                } else {
                    Some(-(mag as i64))
                }
            },
        }
    } else {
        match parse_u64(s) {
            None => None,
            Some(mag) => {
                if mag > i64::MAX as u64 {
                    None
                } else {
                    Some(mag as i64)
                }
            },
        }
    }
}

/// What `parse_i64` accepts, and the value it returns.
pub open spec fn spec_parse_i64(s: Seq<char>) -> Option<int> {
    if s.len() > 0 && s[0] == '-' {
        let mag = s.subrange(1, s.len() as int);
        if mag.len() > 0 && all_digits(mag) && dec_val(mag) <= 9223372036854775808 {
            Some(-(dec_val(mag) as int))
        } else {
            None
        }
    } else if s.len() > 0 && all_digits(s) && dec_val(s) <= i64::MAX {
        Some(dec_val(s) as int)
    } else {
        None
    }
}

/// Index of the first occurrence of `c` in `s`.
pub open spec fn find_char(s: Seq<char>, c: char) -> Option<int>
    decreases s.len(),
{
    if s.len() == 0 {
        None
    } else if s[0] == c {
        Some(0)
    } else {
        match find_char(s.drop_first(), c) {
            Some(i) => Some(i + 1),
            None => None,
        }
    }
}

/// The first three fraction digits as thousandths: shorter fractions are
/// padded with zeros, further digits are dropped.
pub open spec fn frac_milli(fp: Seq<char>) -> nat {
    if fp.len() >= 3 {
        dec_val(fp.take(3))
    } else if fp.len() == 2 {
        dec_val(fp) * 10
    } else {
        dec_val(fp) * 100
    }
}

/// Largest whole part whose thousandths still fit the machine word.
pub open spec fn milli_whole_max() -> nat {
    9223372036854774
}

/// What parsing unsigned decimal text to thousandths accepts and yields:
/// digits, optionally a dot and at least one fraction digit.
pub open spec fn spec_milli_unsigned(s: Seq<char>) -> Option<int> {
    match find_char(s, '.') {
        None => if s.len() > 0 && all_digits(s) && dec_val(s) <= milli_whole_max() {
            Some(dec_val(s) * 1000 as int)
        } else {
            None
        },
        Some(p) => {
            let ip = s.take(p);
            let fp = s.subrange(p + 1, s.len() as int);
            if ip.len() > 0 && fp.len() > 0 && all_digits(ip) && all_digits(fp)
                && dec_val(ip) <= milli_whole_max() {
                Some(dec_val(ip) * 1000 + frac_milli(fp) as int)
            } else {
                None
            }
        },
    }
}

/// What parsing signed decimal text to thousandths accepts and yields.
pub open spec fn spec_milli(s: Seq<char>) -> Option<int> {
    if s.len() > 0 && s[0] == '-' {
        match spec_milli_unsigned(s.subrange(1, s.len() as int)) {
            Some(v) => Some(-v),
            None => None,
        }
    } else {
        spec_milli_unsigned(s)
    }
}

/// Where `find_char` points, the character stands.
pub proof fn lemma_find_char_range(s: Seq<char>, c: char)
    ensures
        (match find_char(s, c) {
            Some(p) => 0 <= p < s.len() && s[p] == c,
            None => true,
        }),
    decreases s.len(),
{
    if s.len() > 0 && s[0] != c {
        lemma_find_char_range(s.drop_first(), c);
    }
}

/// Find the first `'.'` of `s`.
fn find_dot(s: &str) -> (r: Option<usize>)
    ensures
        (match r {
            Some(i) => find_char(s@, '.') == Some(i as int) && i < s@.len(),
            None => find_char(s@, '.') is None,
        }),
{
    let len = s.unicode_len();
    let mut i: usize = 0;
    proof {
        assert(s@.skip(0) =~= s@);
        lemma_find_char_range(s@, '.');
    }
    while i < len
        invariant
            0 <= i <= len,
            len == s@.len(),
            (match find_char(s@, '.') {
                Some(p) => find_char(s@.skip(i as int), '.') == Some(p - i)
                    && i <= p < len && s@[p] == '.',
                None => find_char(s@.skip(i as int), '.') is None,
            }),
        decreases len - i,
    {
        proof {
            assert(s@.skip(i as int)[0] == s@[i as int]);
            assert(s@.skip(i as int).drop_first() =~= s@.skip(i as int + 1));
        }
        if s.get_char(i) == '.' {
            return Some(i);
        }
        i = i + 1;
    }
    None
}

/// `s` is a nonempty run of digits.
fn check_digits(s: &str) -> (b: bool)
    ensures
        b == (s@.len() > 0 && all_digits(s@)),
{
    let len = s.unicode_len();
    if len == 0 {
        return false;
    }
    let mut i: usize = 0;
    while i < len
        invariant
            0 <= i <= len,
            len == s@.len(),
            forall|j: int| 0 <= j < i ==> is_digit(#[trigger] s@[j]),
        decreases len - i,
    {
        let cv = s.get_char(i) as u32;
        if cv < 48 || cv > 57 {
            return false;
        }
        i = i + 1;
    }
    true
}

/// Parse decimal text to thousandths: an optional minus sign, whole
/// digits, and optionally a dot with fraction digits, of which the first
/// three count.
pub fn parse_dec_milli(s: &str) -> (r: Option<i64>)
    ensures
        (match r {
            Some(v) => spec_milli(s@) == Some(v as int),
            None => spec_milli(s@) is None,
        }),
{
    let len = s.unicode_len();
    if len == 0 {
        return None;
    }
    if s.get_char(0) == '-' {
        let rest = s.substring_char(1, len);
        match parse_milli_unsigned(rest) {
            Some(v) => Some(-v),
            None => None,
        }
    } else {
        parse_milli_unsigned(s)
    }
}

/// Parse unsigned decimal text to thousandths.
fn parse_milli_unsigned(s: &str) -> (r: Option<i64>)
    ensures
        (match r {
            Some(v) => spec_milli_unsigned(s@) == Some(v as int) && v >= 0,
            None => spec_milli_unsigned(s@) is None,
        }),
{
    let len = s.unicode_len();
    match find_dot(s) {
        None => {
            match parse_u64(s) {
                None => {
                    proof {
                        if s@.len() > 0 && all_digits(s@) {
                            assert(dec_val(s@) > u64::MAX);
                        }
                    }
                    None
                },
                Some(v) => {
                    if v > 9223372036854774u64 {
                        None
                    } else {
                        Some((v as i64) * 1000)
                    }
                },
            }
        },
        Some(p) => {
            let ip = s.substring_char(0, p);
            let fp = s.substring_char(p + 1, len);
            proof {
                assert(ip@ =~= s@.take(p as int));
                assert(fp@ =~= s@.subrange(p as int + 1, s@.len() as int));
            }
            let whole = match parse_u64(ip) {
                None => {
                    proof {
                        if ip@.len() > 0 && all_digits(ip@) {
                            assert(dec_val(ip@) > u64::MAX);
                        }
                    }
                    return None;
                },
                Some(v) => v,
            };
            if whole > 9223372036854774u64 {
                return None;
            }
            let frac = match parse_frac_milli(fp) {
                Some(f) => f,
                None => { return None; },
            };
            Some((whole as i64) * 1000 + (frac as i64))
        },
    }
}

/// Parse a fraction-digit run into thousandths.
fn parse_frac_milli(fp: &str) -> (r: Option<u64>)
    ensures
        (match r {
            Some(v) => fp@.len() > 0 && all_digits(fp@) && v as int == frac_milli(fp@)
                && v <= 999,
            None => fp@.len() == 0 || !all_digits(fp@),
        }),
{
    let len = fp.unicode_len();
    if !check_digits(fp) {
        return None;
    }
    let head = if len >= 3 {
        fp.substring_char(0, 3)
    } else {
        fp.substring_char(0, len)
    };
    proof {
        if len >= 3 {
            assert(head@ =~= fp@.take(3));
            assert(forall|i: int| 0 <= i < 3 ==> fp@.take(3)[i] == fp@[i]);
            assert(all_digits(head@));
        } else {
            assert(head@ =~= fp@);
        }
        lemma_dec_val_bound(head@);
        assert(pow10(head@.len()) <= 1000) by {
            assert(pow10(0) == 1);
            assert(pow10(1) == 10);
            assert(pow10(2) == 100);
            assert(pow10(3) == 1000);
        };
    }
    let v = match parse_u64(head) {
        Some(v) => v,
        None => {
            proof {
                assert(false);
            }
            return None;
        },
    };
    proof {
        assert(v as nat == dec_val(head@));
        assert(v < 1000);
        if len >= 3 {
            assert(frac_milli(fp@) == dec_val(fp@.take(3)));
            assert(v as int == frac_milli(fp@));
        } else if len == 2 {
            assert(frac_milli(fp@) == dec_val(fp@) * 10);
            assert(v < 100) by {
                assert(pow10(2) == 100) by {
                    assert(pow10(0) == 1);
                    assert(pow10(1) == 10);
                };
            };
        } else {
            assert(len == 1);
            assert(frac_milli(fp@) == dec_val(fp@) * 100);
            assert(v < 10) by {
                assert(pow10(1) == 10) by {
                    assert(pow10(0) == 1);
                };
            };
        }
    }
    if len >= 3 {
        Some(v)
    } else if len == 2 {
        Some(v * 10)
    } else {
        Some(v * 100)
    }
}

/// A single-digit string slice.
fn digit_str(d: u64) -> (r: &'static str)
    requires
        d < 10,
    ensures
        r@ =~= seq![digit_char(d as nat)],
{
    proof {
        reveal_strlit("0");
        reveal_strlit("1");
        reveal_strlit("2");
        reveal_strlit("3");
        reveal_strlit("4");
        reveal_strlit("5");
        reveal_strlit("6");
        reveal_strlit("7");
        reveal_strlit("8");
        reveal_strlit("9");
    }
    if d == 0 { "0" }
    else if d == 1 { "1" }
    else if d == 2 { "2" }
    else if d == 3 { "3" }
    else if d == 4 { "4" }
    else if d == 5 { "5" }
    else if d == 6 { "6" }
    else if d == 7 { "7" }
    else if d == 8 { "8" }
    else { "9" }
}

/// Format an unsigned integer as its canonical decimal string.
pub fn fmt_u64(n: u64) -> (r: String)
    ensures
        r@ == dec_digits(n as nat),
    decreases n,
{
    if n < 10 {
        let s = digit_str(n);
        let r = s.to_owned();
        proof {
            assert(r@ =~= dec_digits(n as nat));
        }
        r
    } else {
        let mut r = fmt_u64(n / 10);
        r.append(digit_str(n % 10));
        proof {
            assert(r@ =~= dec_digits(n as nat));
        }
        r
    }
}

/// Format a signed integer: minus sign, then the magnitude's digits.
pub fn fmt_i64(v: i64) -> (r: String)
    ensures
        r@ == dec_int(v as int),
{
    if v >= 0 {
        fmt_u64(v as u64)
    } else {
        let mag: u64 = if v == i64::MIN {
            9223372036854775808u64
        } else {
            (-v) as u64
        };
        proof {
            reveal_strlit("-");
        }
        let mut r: String = "-".to_owned();
        r.append(fmt_u64(mag).as_str());
        proof {
            assert(r@ =~= dec_int(v as int));
        }
        r
    }
}

/// The two-digit, zero-padded rendering of a value below one hundred.
pub open spec fn dec_2(n: nat) -> Seq<char> {
    seq![digit_char(n / 10), digit_char(n % 10)]
}

/// Format a value below one hundred as exactly two digits.
pub fn fmt_2(n: u64) -> (r: String)
    requires
        n < 100,
    ensures
        r@ == dec_2(n as nat),
{
    let mut r = digit_str(n / 10).to_owned();
    r.append(digit_str(n % 10));
    proof {
        assert(r@ =~= dec_2(n as nat));
    }
    r
}

/// The four-digit, zero-padded rendering of a value below ten thousand.
pub open spec fn dec_4(n: nat) -> Seq<char> {
    seq![
        digit_char(n / 1000),
        digit_char(n / 100 % 10),
        digit_char(n / 10 % 10),
        digit_char(n % 10),
    ]
}

/// Format a value below ten thousand as exactly four digits.
pub fn fmt_4(n: u64) -> (r: String)
    requires
        n < 10000,
    ensures
        r@ == dec_4(n as nat),
{
    let mut r = digit_str(n / 1000).to_owned();
    r.append(digit_str(n / 100 % 10));
    r.append(digit_str(n / 10 % 10));
    r.append(digit_str(n % 10));
    proof {
        assert(r@ =~= dec_4(n as nat));
    }
    r
}

} // verus!
