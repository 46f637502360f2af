use vstd::prelude::*;
use crate::text::{chars_of, is_digit, trim, trim_spec};

verus! {

/// Value of a run of decimal digits, read most significant first.
pub open spec fn digits_value(s: Seq<char>) -> int
    decreases s.len(),
{
    if s.len() == 0 {
        0
    } else {
        digits_value(s.subrange(0, s.len() - 1)) * 10 + (s[s.len() - 1] as int - '0' as int)
    }
}

/// A non-empty run of ASCII decimal digits.
pub open spec fn all_digits(s: Seq<char>) -> bool {
    s.len() > 0 && forall|i: int| 0 <= i < s.len() ==> is_digit(#[trigger] s[i])
}

/// The text after an optional leading `+` or `-`.
pub open spec fn unsigned_part(s: Seq<char>) -> Seq<char> {
    if s.len() > 0 && (s[0] == '-' || s[0] == '+') {
        s.subrange(1, s.len() as int)
    } else {
        s
    }
}

/// The number that a decimal text denotes: an optional sign, then one or
/// more digits. `None` when the text has another form.
pub open spec fn signed_value(s: Seq<char>) -> Option<int> {
    let body = unsigned_part(s);
    if !all_digits(body) {
        None
    } else if s[0] == '-' {
        Some(-digits_value(body))
    } else {
        Some(digits_value(body))
    }
}

/// `str::parse::<i64>`: the denoted number when it fits in an `i64`.
pub open spec fn parse_i64_spec(s: Seq<char>) -> Option<i64> {
    match signed_value(s) {
        Some(v) => if i64::MIN <= v <= i64::MAX {
            Some(v as i64)
        } else {
            None
        },
        None => None,
    }
}

proof fn lemma_digits_value_prefix_monotone(s: Seq<char>, j: int)
    requires
        forall|i: int| 0 <= i < s.len() ==> is_digit(#[trigger] s[i]),
        0 <= j <= s.len(),
    ensures
        0 <= digits_value(s.subrange(0, j)) <= digits_value(s),
    decreases s.len(),
{
    if s.len() == 0 {
        assert(s.subrange(0, j) =~= s);
    } else if j == s.len() {
        assert(s.subrange(0, j) =~= s);
        lemma_digits_value_prefix_monotone(s.subrange(0, s.len() - 1), 0);
    } else {
        let p = s.subrange(0, s.len() - 1);
        assert(p.subrange(0, j) =~= s.subrange(0, j));
        lemma_digits_value_prefix_monotone(p, j);
    }
}

/// `str::parse::<i64>` for decimal texts.
pub fn parse_i64(s: &str) -> (r: Option<i64>)
    ensures
        r == parse_i64_spec(s@),
{
    let v = chars_of(s);
    let n = v.len();
    let mut start: usize = 0;
    let mut neg = false;
    if n > 0 && (v[0] == '-' || v[0] == '+') {
        start = 1;
        neg = v[0] == '-';
    }
    let ghost body = unsigned_part(s@);
    assert(body =~= s@.subrange(start as int, n as int));
    if start == n {
        return None;
    }
    let mut acc: i64 = 0;
    let mut k: usize = start;
    while k < n
        invariant
            v@ == s@,
            n == v@.len(),
            start <= k <= n,
            start < n,
            body == s@.subrange(start as int, n as int),
            body == unsigned_part(s@),
            neg == (s@[0] == '-'),
            forall|i: int| start <= i < k ==> is_digit(#[trigger] s@[i]),
            acc == (if neg {
                -digits_value(s@.subrange(start as int, k as int))
            } else {
                digits_value(s@.subrange(start as int, k as int))
            }),
        decreases n - k,
    {
        let c = v[k];
        if !('0' <= c && c <= '9') {
            assert(body[k - start] == c);
            assert(!is_digit(body[k - start]));
            return None;
        }
        let d: i128 = (c as u32 - '0' as u32) as i128;
        let next: i128 = if neg {
            (acc as i128) * 10 - d
        } else {
            (acc as i128) * 10 + d
        };
        proof {
            let t = s@.subrange(start as int, k + 1);
            assert(t.subrange(0, t.len() - 1) =~= s@.subrange(start as int, k as int));
            assert(t[t.len() - 1] == c);
            assert(digits_value(t) == digits_value(s@.subrange(start as int, k as int)) * 10 + (
            c as int - '0' as int));
            assert(next == (if neg {
                -digits_value(t)
            } else {
                digits_value(t)
            }));
        }
        if next < i64::MIN as i128 || next > i64::MAX as i128 {
            proof {
                let j = (k + 1 - start) as int;
                assert(body.subrange(0, j) =~= s@.subrange(start as int, k + 1));
                if all_digits(body) {
                    lemma_digits_value_prefix_monotone(body, j);
                    assert(s@[0] == '-' ==> signed_value(s@) == Some(-digits_value(body)));
                }
            }
            return None;
        }
        acc = next as i64;
        k = k + 1;
    }
    assert(body =~= s@.subrange(start as int, k as int));
    Some(acc)
}

/// The unit scale of an expiry suffix: seconds, minutes, hours, days.
pub open spec fn unit_scale(u: char) -> int {
    if u == 'm' {
        60
    } else if u == 'h' {
        3600
    } else if u == 'd' {
        86_400
    } else {
        1
    }
}

/// The number in front of the unit, `0` when it does not parse.
pub open spec fn expiry_amount(t: Seq<char>) -> int {
    match parse_i64_spec(t.subrange(0, t.len() - 1)) {
        Some(v) => v as int,
        None => 0,
    }
}

/// Seconds that an expiry text such as `"15m"` or `"7d"` denotes; a blank
/// text means the 15 minute default.
pub open spec fn expiry_seconds(s: Seq<char>) -> int {
    let t = trim_spec(s);
    if t.len() == 0 {
        900
    } else {
        expiry_amount(t) * unit_scale(t[t.len() - 1])
    }
}

/// The text can be read: its unit, the last character of the trimmed text,
/// is a single byte (the number in front is cut at that byte), and the
/// resulting number of seconds fits in an `i64`.
pub open spec fn expiry_readable(s: Seq<char>) -> bool {
    let t = trim_spec(s);
    &&& t.len() > 0 ==> (t[t.len() - 1] as u32) < 0x80
    &&& i64::MIN <= expiry_seconds(s) <= i64::MAX
}

/// Parses a token lifetime such as `"900s"`, `"15m"`, `"12h"` or `"7d"`
/// into seconds. A blank text gives 900; an unknown unit counts seconds; a
/// number that does not parse counts as 0.
pub fn parse_expiry(expiry_str: &str) -> (r: i64)
    requires
        expiry_readable(expiry_str@),
    ensures
        r as int == expiry_seconds(expiry_str@),
{
    let t = trim(expiry_str);
    let v = chars_of(t);
    let n = v.len();
    if n == 0 {
        return 900;
    }
    let unit = v[n - 1];
    let val_str = t.substring_char(0, n - 1);
    let val: i64 = match parse_i64(val_str) {
        Some(x) => x,
        None => 0,
    };
    if unit == 's' {
        val
    } else if unit == 'm' {
        val * 60
    } else if unit == 'h' {
        val * 3600
    } else if unit == 'd' {
        val * 86_400
    } else {
        val
    }
}

/// `parse_expiry` for any text: `None` on exactly the texts that it does
/// not accept (a multi-byte unit character, or a number of seconds that
/// overflows an `i64`), else the seconds.
pub fn parse_expiry_checked(expiry_str: &str) -> (r: Option<i64>)
    ensures
        r is Some <==> expiry_readable(expiry_str@),
        r is Some ==> r->0 as int == expiry_seconds(expiry_str@),
{
    let t = trim(expiry_str);
    let v = chars_of(t);
    let n = v.len();
    if n == 0 {
        return Some(900);
    }
    let unit = v[n - 1];
    if unit as u32 >= 0x80 {
        return None;
    }
    let val_str = t.substring_char(0, n - 1);
    let val: i64 = match parse_i64(val_str) {
        Some(x) => x,
        None => 0,
    };
    let scale: i128 = if unit == 'm' {
        60
    } else if unit == 'h' {
        3600
    } else if unit == 'd' {
        86_400
    } else {
        1
    };
    let total: i128 = (val as i128) * scale;
    if total < i64::MIN as i128 || total > i64::MAX as i128 {
        return None;
    }
    Some(total as i64)
}

/// A count of minutes is sixty times the same count of seconds: for any
/// number text `digits`, `digits + "m"` and `digits + "s"` relate by a
/// factor of sixty (and the same holds of hours and days).
pub proof fn law_expiry_units_scale(digits: Seq<char>)
    requires
        trim_spec(digits + seq!['s']) == digits + seq!['s'],
        trim_spec(digits + seq!['m']) == digits + seq!['m'],
        trim_spec(digits + seq!['h']) == digits + seq!['h'],
        trim_spec(digits + seq!['d']) == digits + seq!['d'],
    ensures
        expiry_seconds(digits + seq!['m']) == 60 * expiry_seconds(digits + seq!['s']),
        expiry_seconds(digits + seq!['h']) == 3600 * expiry_seconds(digits + seq!['s']),
        expiry_seconds(digits + seq!['d']) == 86_400 * expiry_seconds(digits + seq!['s']),
{
    let a = digits + seq!['s'];
    let b = digits + seq!['m'];
    let c = digits + seq!['h'];
    let d = digits + seq!['d'];
    assert(a.subrange(0, a.len() - 1) =~= digits);
    assert(b.subrange(0, b.len() - 1) =~= digits);
    assert(c.subrange(0, c.len() - 1) =~= digits);
    assert(d.subrange(0, d.len() - 1) =~= digits);
}

} // verus!
