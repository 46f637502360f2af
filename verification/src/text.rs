use vstd::prelude::*;

verus! {

/// Unicode `White_Space` property, the set that `char::is_whitespace` and
/// `str::trim` use.
pub open spec fn is_ws(c: char) -> bool {
    ||| ('\u{9}' <= c && c <= '\u{d}')
    ||| c == ' '
    ||| c == '\u{85}'
    ||| c == '\u{a0}'
    ||| c == '\u{1680}'
    ||| ('\u{2000}' <= c && c <= '\u{200a}')
    ||| c == '\u{2028}'
    ||| c == '\u{2029}'
    ||| c == '\u{202f}'
    ||| c == '\u{205f}'
    ||| c == '\u{3000}'
}

/// The text with its leading white space removed.
pub open spec fn trim_start_spec(s: Seq<char>) -> Seq<char>
    decreases s.len(),
{
    if s.len() > 0 && is_ws(s[0]) {
        trim_start_spec(s.subrange(1, s.len() as int))
    } else {
        s
    }
}

/// The text with its trailing white space removed.
pub open spec fn trim_end_spec(s: Seq<char>) -> Seq<char>
    decreases s.len(),
{
    if s.len() > 0 && is_ws(s[s.len() - 1]) {
        trim_end_spec(s.subrange(0, s.len() - 1))
    } else {
        s
    }
}

/// The text with leading and trailing white space removed (`str::trim`).
pub open spec fn trim_spec(s: Seq<char>) -> Seq<char> {
    trim_end_spec(trim_start_spec(s))
}

/// Every character of the text is white space (so it trims to nothing).
pub open spec fn all_ws(s: Seq<char>) -> bool {
    forall|i: int| 0 <= i < s.len() ==> is_ws(#[trigger] s[i])
}

/// `p` occurs in `s` starting at position `i`.
pub open spec fn occurs_at(s: Seq<char>, p: Seq<char>, i: int) -> bool {
    0 <= i && i + p.len() <= s.len() && s.subrange(i, i + p.len()) == p
}

/// `p` occurs somewhere in `s` (`str::contains`).
pub open spec fn contains_spec(s: Seq<char>, p: Seq<char>) -> bool {
    exists|i: int| occurs_at(s, p, i)
}

/// `s` begins with `p` (`str::starts_with`).
pub open spec fn starts_with_spec(s: Seq<char>, p: Seq<char>) -> bool {
    occurs_at(s, p, 0)
}

/// An ASCII decimal digit.
pub open spec fn is_digit(c: char) -> bool {
    '0' <= c && c <= '9'
}

/// The characters of `s` that are ASCII digits, in order.
pub open spec fn digits_spec(s: Seq<char>) -> Seq<char>
    decreases s.len(),
{
    if s.len() == 0 {
        Seq::empty()
    } else if is_digit(s[s.len() - 1]) {
        digits_spec(s.subrange(0, s.len() - 1)).push(s[s.len() - 1])
    } else {
        digits_spec(s.subrange(0, s.len() - 1))
    }
}

/// The digit character for `d` in `0..10`.
pub open spec fn digit_char(d: int) -> char {
    seq!['0', '1', '2', '3', '4', '5', '6', '7', '8', '9'][d]
}

/// Decimal rendering of a natural number, without leading zeros.
pub open spec fn dec_spec(n: nat) -> Seq<char>
    decreases n,
{
    if n < 10 {
        seq![digit_char(n as int)]
    } else {
        dec_spec(n / 10).push(digit_char((n % 10) as int))
    }
}

/// A decimal rendering is never empty and starts with a digit.
pub proof fn lemma_dec_first_digit(n: nat)
    ensures
        dec_spec(n).len() >= 1,
        is_digit(dec_spec(n)[0]),
    decreases n,
{
    if n >= 10 {
        lemma_dec_first_digit(n / 10);
    }
}

/// The decimal rendering of a positive number does not start with `0`.
pub proof fn lemma_dec_lead_nonzero(n: nat)
    requires
        n >= 1,
    ensures
        dec_spec(n)[0] != '0',
    decreases n,
{
    lemma_dec_first_digit(n);
    if n >= 10 {
        lemma_dec_lead_nonzero(n / 10);
        lemma_dec_first_digit(n / 10);
    }
}

/// The digit characters of different digits differ.
proof fn lemma_digit_char_injective(a: int, b: int)
    requires
        0 <= a < 10,
        0 <= b < 10,
        digit_char(a) == digit_char(b),
    ensures
        a == b,
{
}

/// Different numbers have different decimal renderings.
pub proof fn lemma_dec_injective(a: nat, b: nat)
    requires
        dec_spec(a) == dec_spec(b),
    ensures
        a == b,
    decreases a,
{
    lemma_dec_first_digit(a);
    lemma_dec_first_digit(b);
    if a < 10 && b < 10 {
        lemma_digit_char_injective(a as int, b as int);
    } else if a < 10 {
        lemma_dec_first_digit(b / 10);
        assert(dec_spec(b).len() >= 2);
    } else if b < 10 {
        lemma_dec_first_digit(a / 10);
        assert(dec_spec(a).len() >= 2);
    } else {
        let pa = dec_spec(a / 10);
        let pb = dec_spec(b / 10);
        assert(dec_spec(a) == pa.push(digit_char((a % 10) as int)));
        assert(dec_spec(b) == pb.push(digit_char((b % 10) as int)));
        assert(pa.len() == pb.len());
        assert(dec_spec(a)[pa.len() as int] == digit_char((a % 10) as int));
        assert(dec_spec(b)[pb.len() as int] == digit_char((b % 10) as int));
        lemma_digit_char_injective((a % 10) as int, (b % 10) as int);
        assert(pa =~= dec_spec(a).subrange(0, pa.len() as int));
        assert(pb =~= dec_spec(b).subrange(0, pb.len() as int));
        lemma_dec_injective(a / 10, b / 10);
    }
}

/// Decimal rendering of an integer, with a leading `-` when negative
/// (the `Display` form of Rust integers).
pub open spec fn dec_int_spec(n: int) -> Seq<char> {
    if n < 0 {
        seq!['-'] + dec_spec((-n) as nat)
    } else {
        dec_spec(n as nat)
    }
}

/// Different integers have different decimal renderings.
pub proof fn lemma_dec_int_injective(a: int, b: int)
    requires
        dec_int_spec(a) == dec_int_spec(b),
    ensures
        a == b,
{
    if a < 0 && b < 0 {
        let da = dec_spec((-a) as nat);
        let db = dec_spec((-b) as nat);
        assert(da =~= dec_int_spec(a).subrange(1, dec_int_spec(a).len() as int));
        assert(db =~= dec_int_spec(b).subrange(1, dec_int_spec(b).len() as int));
        lemma_dec_injective((-a) as nat, (-b) as nat);
    } else if a < 0 {
        lemma_dec_first_digit(b as nat);
        assert(dec_int_spec(a)[0] == '-');
    } else if b < 0 {
        lemma_dec_first_digit(a as nat);
        assert(dec_int_spec(b)[0] == '-');
    } else {
        lemma_dec_injective(a as nat, b as nat);
    }
}

/// `s` left-padded with `'0'` up to `width` characters (`{:0width}` of a
/// non-negative number).
pub open spec fn zero_pad_spec(s: Seq<char>, width: nat) -> Seq<char> {
    if s.len() >= width {
        s
    } else {
        Seq::new((width - s.len()) as nat, |i: int| '0') + s
    }
}

/// Zero-padding keeps different positive numbers apart.
pub proof fn lemma_zero_pad_dec_injective(a: nat, b: nat, width: nat)
    requires
        a >= 1,
        b >= 1,
        zero_pad_spec(dec_spec(a), width) == zero_pad_spec(dec_spec(b), width),
    ensures
        a == b,
{
    let da = dec_spec(a);
    let db = dec_spec(b);
    let pa = zero_pad_spec(da, width);
    let pb = zero_pad_spec(db, width);
    lemma_dec_lead_nonzero(a);
    lemma_dec_lead_nonzero(b);
    lemma_dec_first_digit(a);
    lemma_dec_first_digit(b);
    if da.len() >= width && db.len() >= width {
        lemma_dec_injective(a, b);
    } else if da.len() < width && db.len() >= width {
        assert(pa[0] == '0');
        assert(pb[0] == db[0]);
    } else if da.len() >= width && db.len() < width {
        assert(pb[0] == '0');
        assert(pa[0] == da[0]);
    } else {
        let za = (width - da.len()) as int;
        let zb = (width - db.len()) as int;
        if za < zb {
            assert(pa[za] == da[0]);
            assert(pb[za] == '0');
        } else if zb < za {
            assert(pb[zb] == db[0]);
            assert(pa[zb] == '0');
        } else {
            assert(da =~= pa.subrange(za, width as int));
            assert(db =~= pb.subrange(zb, width as int));
            lemma_dec_injective(a, b);
        }
    }
}

/// Full Unicode lower-case mapping of a text, as `str::to_lowercase` computes
/// it.
pub uninterp spec fn lowercase_of(s: Seq<char>) -> Seq<char>;

/// Full Unicode upper-case mapping of a text, as `str::to_uppercase` computes
/// it.
pub uninterp spec fn uppercase_of(s: Seq<char>) -> Seq<char>;

/// Calls `str::to_lowercase`; the result is the Unicode lower-case mapping
/// of the text, which is only named here, not spelled out.
#[verifier::external_body]
pub(crate) fn to_lower(s: &str) -> (r: String)
    ensures
        r@ == lowercase_of(s@),
{
    s.to_lowercase()
}

/// Calls `str::to_uppercase`; the result is the Unicode upper-case mapping
/// of the text, which is only named here, not spelled out.
#[verifier::external_body]
pub(crate) fn to_upper(s: &str) -> (r: String)
    ensures
        r@ == uppercase_of(s@),
{
    s.to_uppercase()
}

/// The digits of a text are all digits.
pub proof fn lemma_digits_spec_are_digits(s: Seq<char>)
    ensures
        forall|i: int| 0 <= i < digits_spec(s).len() ==> is_digit(#[trigger] digits_spec(s)[i]),
    decreases s.len(),
{
    if s.len() > 0 {
        let p = s.subrange(0, s.len() - 1);
        lemma_digits_spec_are_digits(p);
        if is_digit(s[s.len() - 1]) {
            let d = digits_spec(p).push(s[s.len() - 1]);
            assert(digits_spec(s) == d);
            assert forall|i: int| 0 <= i < d.len() implies is_digit(#[trigger] d[i]) by {
                if i < d.len() - 1 {
                    assert(d[i] == digits_spec(p)[i]);
                }
            }
        }
    }
}

/// A text of digits only is its own digit text.
pub proof fn lemma_digits_spec_fixpoint(s: Seq<char>)
    requires
        forall|i: int| 0 <= i < s.len() ==> is_digit(#[trigger] s[i]),
    ensures
        digits_spec(s) == s,
    decreases s.len(),
{
    if s.len() > 0 {
        let p = s.subrange(0, s.len() - 1);
        lemma_digits_spec_fixpoint(p);
        assert(p.push(s[s.len() - 1]) =~= s);
    }
}

/// Copies the characters of a string slice into a vector.
pub fn chars_of(s: &str) -> (v: Vec<char>)
    ensures
        v@ == s@,
{
    let mut v: Vec<char> = Vec::new();
    for c in it: s.chars()
        invariant
            v@ == it.seq().take(it.index() as int),
            it.seq() == s@,
    {
        v.push(c);
    }
    v
}

/// Whether a character is Unicode white space (`char::is_whitespace`).
pub fn is_ws_char(c: char) -> (b: bool)
    ensures
        b == is_ws(c),
{
    ('\u{9}' <= c && c <= '\u{d}') || c == ' ' || c == '\u{85}' || c == '\u{a0}' || c
        == '\u{1680}' || ('\u{2000}' <= c && c <= '\u{200a}') || c == '\u{2028}' || c
        == '\u{2029}' || c == '\u{202f}' || c == '\u{205f}' || c == '\u{3000}'
}

proof fn lemma_trim_start_step(s: Seq<char>, i: int)
    requires
        0 <= i < s.len(),
        is_ws(s[i]),
    ensures
        trim_start_spec(s.subrange(i, s.len() as int)) == trim_start_spec(
            s.subrange(i + 1, s.len() as int),
        ),
{
    let t = s.subrange(i, s.len() as int);
    assert(t.subrange(1, t.len() as int) =~= s.subrange(i + 1, s.len() as int));
}

proof fn lemma_trim_end_step(s: Seq<char>, j: int)
    requires
        0 < j <= s.len(),
        is_ws(s[j - 1]),
    ensures
        trim_end_spec(s.subrange(0, j)) == trim_end_spec(s.subrange(0, j - 1)),
{
    let t = s.subrange(0, j);
    assert(t.subrange(0, t.len() - 1) =~= s.subrange(0, j - 1));
}

/// Trimming removes exactly the white space: a text trims to nothing if and
/// only if it is all white space.
pub proof fn lemma_trim_empty_iff_all_ws(s: Seq<char>)
    ensures
        (trim_spec(s).len() == 0) == all_ws(s),
    decreases s.len(),
{
    lemma_trim_start_empty_iff_all_ws(s);
    let t = trim_start_spec(s);
    if t.len() > 0 {
        lemma_trim_start_first_not_ws(s);
        lemma_trim_end_keeps_first(t);
    }
}

proof fn lemma_trim_start_empty_iff_all_ws(s: Seq<char>)
    ensures
        (trim_start_spec(s).len() == 0) == all_ws(s),
    decreases s.len(),
{
    if s.len() > 0 && is_ws(s[0]) {
        let r = s.subrange(1, s.len() as int);
        lemma_trim_start_empty_iff_all_ws(r);
        if all_ws(r) {
            assert forall|i: int| 0 <= i < s.len() implies is_ws(#[trigger] s[i]) by {
                if i > 0 {
                    assert(s[i] == r[i - 1]);
                }
            }
        }
        if all_ws(s) {
            assert forall|i: int| 0 <= i < r.len() implies is_ws(#[trigger] r[i]) by {
                assert(r[i] == s[i + 1]);
            }
        }
    }
}

proof fn lemma_trim_start_first_not_ws(s: Seq<char>)
    ensures
        trim_start_spec(s).len() > 0 ==> !is_ws(trim_start_spec(s)[0]),
    decreases s.len(),
{
    if s.len() > 0 && is_ws(s[0]) {
        lemma_trim_start_first_not_ws(s.subrange(1, s.len() as int));
    }
}

proof fn lemma_trim_end_keeps_first(t: Seq<char>)
    requires
        t.len() > 0,
        !is_ws(t[0]),
    ensures
        trim_end_spec(t).len() > 0,
    decreases t.len(),
{
    if is_ws(t[t.len() - 1]) {
        let r = t.subrange(0, t.len() - 1);
        assert(r.len() > 0);
        assert(r[0] == t[0]);
        lemma_trim_end_keeps_first(r);
    }
}

proof fn lemma_trim_end_prefix(t: Seq<char>)
    ensures
        trim_end_spec(t).len() <= t.len(),
        trim_end_spec(t) == t.subrange(0, trim_end_spec(t).len() as int),
    decreases t.len(),
{
    if t.len() > 0 && is_ws(t[t.len() - 1]) {
        let r = t.subrange(0, t.len() - 1);
        lemma_trim_end_prefix(r);
        assert(r.subrange(0, trim_end_spec(r).len() as int) =~= t.subrange(
            0,
            trim_end_spec(r).len() as int,
        ));
    } else {
        assert(t.subrange(0, t.len() as int) =~= t);
    }
}

proof fn lemma_trim_end_last_not_ws(t: Seq<char>)
    ensures
        trim_end_spec(t).len() > 0 ==> !is_ws(trim_end_spec(t)[trim_end_spec(t).len() - 1]),
    decreases t.len(),
{
    if t.len() > 0 && is_ws(t[t.len() - 1]) {
        lemma_trim_end_last_not_ws(t.subrange(0, t.len() - 1));
    }
}

/// Trimming twice is trimming once.
pub proof fn lemma_trim_idempotent(s: Seq<char>)
    ensures
        trim_spec(trim_spec(s)) == trim_spec(s),
{
    let a = trim_start_spec(s);
    let t = trim_end_spec(a);
    if t.len() > 0 {
        lemma_trim_end_prefix(a);
        lemma_trim_start_first_not_ws(s);
        assert(t[0] == a[0]);
        assert(trim_start_spec(t) == t);
        lemma_trim_end_last_not_ws(a);
        assert(trim_end_spec(t) == t);
    } else {
        assert(trim_start_spec(t) == t);
        assert(trim_end_spec(t) == t);
    }
}

/// `str::trim`: the text without leading and trailing white space.
pub fn trim<'a>(s: &'a str) -> (r: &'a str)
    ensures
        r@ == trim_spec(s@),
{
    let n = s.unicode_len();
    let mut i: usize = 0;
    assert(s@.subrange(0, n as int) =~= s@);
    while i < n && is_ws_char(s.get_char(i))
        invariant
            i <= n,
            n == s@.len(),
            trim_start_spec(s@) == trim_start_spec(s@.subrange(i as int, n as int)),
        decreases n - i,
    {
        proof {
            lemma_trim_start_step(s@, i as int);
        }
        i = i + 1;
    }
    let ghost mid = s@.subrange(i as int, n as int);
    assert(trim_start_spec(mid) == mid);
    let mut j: usize = n;
    assert(mid.subrange(0, (j - i) as int) =~= mid);
    while j > i && is_ws_char(s.get_char(j - 1))
        invariant
            i <= j <= n,
            n == s@.len(),
            mid == s@.subrange(i as int, n as int),
            trim_end_spec(mid) == trim_end_spec(mid.subrange(0, (j - i) as int)),
        decreases j - i,
    {
        proof {
            assert(mid[(j - i) - 1] == s@[j - 1]);
            lemma_trim_end_step(mid, (j - i) as int);
        }
        j = j - 1;
    }
    let ghost fin = mid.subrange(0, (j - i) as int);
    assert(fin =~= s@.subrange(i as int, j as int));
    assert(trim_end_spec(fin) == fin) by {
        if fin.len() > 0 {
            assert(fin[fin.len() - 1] == s@[j - 1]);
        }
    }
    s.substring_char(i, j)
}

/// `s.trim().is_empty()`: the text is empty or white space only.
pub fn is_blank(s: &str) -> (b: bool)
    ensures
        b == (trim_spec(s@).len() == 0),
        b == all_ws(s@),
{
    proof {
        lemma_trim_empty_iff_all_ws(s@);
    }
    trim(s).is_empty()
}

/// Character-wise equality of two texts (`==` on `str`).
pub fn str_eq(a: &str, b: &str) -> (r: bool)
    ensures
        r == (a@ == b@),
{
    let x = chars_of(a);
    let y = chars_of(b);
    if x.len() != y.len() {
        return false;
    }
    let mut i: usize = 0;
    while i < x.len()
        invariant
            x@ == a@,
            y@ == b@,
            x.len() == y.len(),
            i <= x.len(),
            forall|k: int| 0 <= k < i ==> x@[k] == y@[k],
        decreases x.len() - i,
    {
        if x[i] != y[i] {
            return false;
        }
        i = i + 1;
    }
    assert(x@ =~= y@);
    true
}

/// Whether `p` occurs in `s` at position `i`.
fn occurs_at_exec(s: &Vec<char>, p: &Vec<char>, i: usize) -> (r: bool)
    ensures
        r == occurs_at(s@, p@, i as int),
{
    if i > s.len() || p.len() > s.len() - i {
        return false;
    }
    let mut k: usize = 0;
    while k < p.len()
        invariant
            i + p.len() <= s.len(),
            k <= p.len(),
            forall|m: int| 0 <= m < k ==> s@[i + m] == p@[m],
        decreases p.len() - k,
    {
        if s[i + k] != p[k] {
            assert(s@.subrange(i as int, i + p.len())[k as int] != p@[k as int]);
            return false;
        }
        k = k + 1;
    }
    assert(s@.subrange(i as int, i + p.len()) =~= p@);
    true
}

/// `str::starts_with` with a text pattern.
pub fn starts_with(s: &str, p: &str) -> (r: bool)
    ensures
        r == starts_with_spec(s@, p@),
{
    let x = chars_of(s);
    let y = chars_of(p);
    occurs_at_exec(&x, &y, 0)
}

/// `str::contains` with a text pattern.
pub fn contains(s: &str, p: &str) -> (r: bool)
    ensures
        r == contains_spec(s@, p@),
{
    let x = chars_of(s);
    let y = chars_of(p);
    if y.len() == 0 {
        assert(s@.subrange(0, 0) =~= p@);
        assert(occurs_at(s@, p@, 0));
        return true;
    }
    if y.len() > x.len() {
        return false;
    }
    let mut i: usize = 0;
    while i <= x.len() - y.len()
        invariant
            x@ == s@,
            y@ == p@,
            1 <= y.len() <= x.len(),
            forall|m: int| 0 <= m < i ==> !occurs_at(s@, p@, m),
        decreases x.len() - i,
    {
        if occurs_at_exec(&x, &y, i) {
            return true;
        }
        i = i + 1;
    }
    assert forall|m: int| !occurs_at(s@, p@, m) by {
        if 0 <= m && m < i {
        }
    }
    false
}

/// The single-digit text for `d` (`0..10`).
fn digit_str(d: u64) -> (r: &'static str)
    requires
        d < 10,
    ensures
        r@ == seq![digit_char(d as int)],
{
    let all = "0123456789";
    proof {
        reveal_strlit("0123456789");
    }
    all.substring_char(d as usize, (d + 1) as usize)
}

/// Decimal rendering of an unsigned number (`u64::to_string`).
pub fn dec_u64(n: u64) -> (r: String)
    ensures
        r@ == dec_spec(n as nat),
    decreases n,
{
    if n < 10 {
        let mut r = String::new();
        r.append(digit_str(n));
        r
    } else {
        let mut r = dec_u64(n / 10);
        r.append(digit_str(n % 10));
        r
    }
}

/// Decimal rendering of a signed number (`i64::to_string`).
pub fn dec_i64(n: i64) -> (r: String)
    ensures
        r@ == dec_int_spec(n as int),
{
    if n < 0 {
        let m: u64 = if n == i64::MIN {
            9223372036854775808u64
        } else {
            (-n) as u64
        };
        let mut r = String::new();
        r.append("-");
        proof {
            reveal_strlit("-");
        }
        let d = dec_u64(m);
        r.append(d.as_str());
        r
    } else {
        dec_u64(n as u64)
    }
}

/// The ASCII digits of a text, in order.
pub fn digits_only(s: &str) -> (r: String)
    ensures
        r@ == digits_spec(s@),
{
    let n = s.unicode_len();
    let mut r = String::new();
    let mut i: usize = 0;
    while i < n
        invariant
            i <= n,
            n == s@.len(),
            r@ == digits_spec(s@.subrange(0, i as int)),
        decreases n - i,
    {
        let c = s.get_char(i);
        proof {
            let t = s@.subrange(0, i + 1);
            assert(t.subrange(0, t.len() - 1) =~= s@.subrange(0, i as int));
        }
        if '0' <= c && c <= '9' {
            let one = s.substring_char(i, i + 1);
            assert(one@ =~= seq![c]);
            r.append(one);
        }
        i = i + 1;
    }
    assert(s@.subrange(0, n as int) =~= s@);
    r
}

} // verus!
