//! Small text routines used by the configuration and request code:
//! decimal parsing and formatting, and Unix path joining.
use vstd::prelude::*;
use vstd::string::StrSliceExecFns;
use vstd::string::StringExecFns;

verus! {

/// `c` is an ASCII decimal digit.
pub open spec fn is_digit(c: char) -> bool {
    '0' <= c && c <= '9'
}

/// Every character of `s` is an ASCII decimal digit.
pub open spec fn all_digits(s: Seq<char>) -> bool {
    forall|i: int| 0 <= i < s.len() ==> #[trigger] is_digit(s[i])
}

/// Numeric value of a digit character.
pub open spec fn digit_value(c: char) -> nat {
    (c as nat - '0' as nat) as nat
}

/// Value of a string of decimal digits, most significant first.
pub open spec fn digits_value(s: Seq<char>) -> nat
    decreases s.len(),
{
    if s.len() == 0 {
        0
    } else {
        digits_value(s.drop_last()) * 10 + digit_value(s.last())
    }
}

/// The digits that follow an optional leading `+`.
pub open spec fn unsigned_digits(s: Seq<char>) -> Seq<char> {
    if s.len() > 0 && s[0] == '+' {
        s.drop_first()
    } else {
        s
    }
}

/// What parsing `s` as a `u64` in base ten gives: an optional `+` followed by at
/// least one digit and nothing else, whose value fits in 64 bits.
pub open spec fn parse_u64_spec(s: Seq<char>) -> Option<u64> {
    let d = unsigned_digits(s);
    if d.len() > 0 && all_digits(d) && digits_value(d) <= u64::MAX {
        Some(digits_value(d) as u64)
    } else {
        None
    }
}

proof fn lemma_digits_value_monotone(s: Seq<char>, k: int)
    requires
        0 <= k <= s.len(),
        all_digits(s),
    ensures
        digits_value(s.take(k)) <= digits_value(s),
    decreases s.len() - k,
{
    if k < s.len() {
        lemma_digits_value_monotone(s, k + 1);
        assert(s.take(k + 1).drop_last() =~= s.take(k));
    } else {
        assert(s.take(k) =~= s);
    }
}

/// Parses a decimal `u64` the way `str::parse::<u64>` does.
pub fn parse_u64(s: &str) -> (res: Option<u64>)
    ensures
        res == parse_u64_spec(s@),
{
    let n = s.unicode_len();
    let mut start: usize = 0;
    if n > 0 && s.get_char(0) == '+' {
        start = 1;
    }
    let ghost d = unsigned_digits(s@);
    assert(d =~= s@.subrange(start as int, n as int));
    if start == n {
        return None;
    }
    let mut acc: u64 = 0;
    let mut i: usize = start;
    while i < n
        invariant
            start <= i <= n,
            n == s@.len(),
            d =~= s@.subrange(start as int, n as int),
            d == unsigned_digits(s@),
            all_digits(d.take(i - start)),
            acc as nat == digits_value(d.take(i - start)),
        decreases n - i,
    {
        let c = s.get_char(i);
        let ghost k = i - start;
        assert(d.take(k + 1).drop_last() =~= d.take(k));
        assert(d[k] == c);
        if !('0' <= c && c <= '9') {
            assert(!is_digit(d[k]));
            assert(!all_digits(d));
            return None;
        }
        let dv: u64 = (c as u32 - '0' as u32) as u64;
        if acc > (u64::MAX - dv) / 10 {
            proof {
                assert(digits_value(d.take(k + 1)) > u64::MAX);
                if all_digits(d) {
                    lemma_digits_value_monotone(d, k + 1);
                }
                assert(parse_u64_spec(s@) is None);
            }
            return None;
        }
        acc = acc * 10 + dv;
        i = i + 1;
        assert(all_digits(d.take(i - start))) by {
            assert forall|j: int| 0 <= j < d.take(i - start).len() implies #[trigger] is_digit(
                d.take(i - start)[j],
            ) by {
                if j < k {
                    assert(d.take(i - start)[j] == d.take(k)[j]);
                }
            }
        }
    }
    assert(d.take(n - start) =~= d);
    Some(acc)
}

/// ASCII decimal representation of `n`, most significant digit first, without
/// leading zeros (`0` is written as a single `0`).
pub open spec fn decimal_ascii_spec(n: nat) -> Seq<u8>
    decreases n,
{
    if n < 10 {
        seq![(48 + n) as u8]
    } else {
        decimal_ascii_spec(n / 10).push((48 + n % 10) as u8)
    }
}

/// Writes `x` in decimal as ASCII bytes, as `x.to_string().as_bytes()` does.
pub fn decimal_ascii(x: u128) -> (res: Vec<u8>)
    ensures
        res@ == decimal_ascii_spec(x as nat),
{
    let mut out: Vec<u8> = Vec::new();
    let mut n: u128 = x;
    loop
        invariant_except_break
            decimal_ascii_spec(x as nat) == decimal_ascii_spec(n as nat) + out@,
        ensures
            decimal_ascii_spec(x as nat) == out@,
        decreases n,
    {
        let d: u8 = (n % 10) as u8 + 48;
        let ghost m = n as nat;
        let ghost old_out = out@;
        out.insert(0, d);
        assert(out@ =~= seq![d] + old_out);
        n = n / 10;
        proof {
            if m >= 10 {
                assert(decimal_ascii_spec(m) == decimal_ascii_spec(m / 10).push(d));
                assert(decimal_ascii_spec(m / 10).push(d) + old_out =~= decimal_ascii_spec(m / 10) + out@);
            } else {
                assert(decimal_ascii_spec(m) =~= seq![d]);
                assert(decimal_ascii_spec(x as nat) == out@);
            }
        }
        if n == 0 {
            break;
        }
    }
    out
}

/// Joins a path component onto a base path with Unix rules, as `Path::join`
/// documents them: an absolute component replaces the base; otherwise a `/` is
/// put between them unless the base is empty or already ends with one.
pub open spec fn join_path_spec(base: Seq<char>, comp: Seq<char>) -> Seq<char> {
    if comp.len() > 0 && comp[0] == '/' {
        comp
    } else if base.len() == 0 || base.last() == '/' {
        base + comp
    } else {
        base + seq!['/'] + comp
    }
}

/// Joins `comp` onto `base` (see [`join_path_spec`]).
pub fn join_path(base: &str, comp: &str) -> (res: String)
    ensures
        res@ == join_path_spec(base@, comp@),
{
    let comp_len = comp.unicode_len();
    if comp_len > 0 && comp.get_char(0) == '/' {
        return comp.to_owned();
    }
    let base_len = base.unicode_len();
    let mut out = base.to_owned();
    if base_len > 0 && base.get_char(base_len - 1) != '/' {
        let sep = "/";
        proof {
            reveal_strlit("/");
        }
        out.append(sep);
    }
    out.append(comp);
    out
}

/// Compares two strings character by character.
pub fn str_eq(a: &str, b: &str) -> (res: bool)
    ensures
        res == (a@ == b@),
{
    let n = a.unicode_len();
    if n != b.unicode_len() {
        return false;
    }
    let mut i: usize = 0;
    while i < n
        invariant
            i <= n,
            n == a@.len(),
            n == b@.len(),
            forall|j: int| 0 <= j < i ==> a@[j] == b@[j],
        decreases n - i,
    {
        if a.get_char(i) != b.get_char(i) {
            return false;
        }
        i = i + 1;
    }
    assert(a@ =~= b@);
    true
}

/// Concatenates two strings.
pub fn str_concat(a: &str, b: &str) -> (res: String)
    ensures
        res@ == a@ + b@,
{
    let mut out = a.to_owned();
    out.append(b);
    out
}

/// Decimal text of `n`, as `to_string` writes it.
pub open spec fn decimal_text_spec(n: nat) -> Seq<char> {
    decimal_ascii_spec(n).map_values(|b: u8| b as char)
}

/// Decimal text of a signed value: a `-` before the digits of a negative value.
pub open spec fn signed_decimal_text_spec(x: int) -> Seq<char> {
    if x < 0 {
        seq!['-'] + decimal_text_spec((-x) as nat)
    } else {
        decimal_text_spec(x as nat)
    }
}

proof fn lemma_decimal_ascii_digits(n: nat)
    ensures
        forall|i: int| 0 <= i < decimal_ascii_spec(n).len() ==> 48 <= #[trigger] decimal_ascii_spec(n)[i] <= 57,
    decreases n,
{
    let s = decimal_ascii_spec(n);
    if n >= 10 {
        lemma_decimal_ascii_digits(n / 10);
        let p = decimal_ascii_spec(n / 10);
        assert(s == p.push((48 + n % 10) as u8));
        assert forall|i: int| 0 <= i < s.len() implies 48 <= #[trigger] s[i] <= 57 by {
            if i < p.len() {
                assert(s[i] == p[i]);
            }
        }
    } else {
        assert(s =~= seq![(48 + n) as u8]);
    }
}

fn digit_str(d: u8) -> (res: &'static str)
    requires
        d < 10,
    ensures
        res@ == seq![(48 + d) as char],
{
    proof {
        reveal_strlit("0");
        reveal_strlit("1");
        reveal_strlit("2");
        reveal_strlit("3");
        reveal_strlit("4");
        reveal_strlit("5");
        reveal_strlit("6");
        reveal_strlit("7");
        reveal_strlit("8");
        reveal_strlit("9");
    }
    if d == 0 {
        "0"
    } else if d == 1 {
        "1"
    } else if d == 2 {
        "2"
    } else if d == 3 {
        "3"
    } else if d == 4 {
        "4"
    } else if d == 5 {
        "5"
    } else if d == 6 {
        "6"
    } else if d == 7 {
        "7"
    } else if d == 8 {
        "8"
    } else {
        "9"
    }
}

/// Writes `x` in decimal, as `x.to_string()` does.
pub fn decimal_text(x: u128) -> (res: String)
    ensures
        res@ == decimal_text_spec(x as nat),
{
    let digits = decimal_ascii(x);
    proof {
        lemma_decimal_ascii_digits(x as nat);
    }
    let mut out = String::new();
    let n = digits.len();
    let mut i: usize = 0;
    while i < n
        invariant
            i <= n,
            n == digits@.len(),
            digits@ == decimal_ascii_spec(x as nat),
            forall|j: int| 0 <= j < digits@.len() ==> 48 <= #[trigger] digits@[j] <= 57,
            out@ == digits@.take(i as int).map_values(|b: u8| b as char),
        decreases n - i,
    {
        let d = digits[i];
        let ghost old_out = out@;
        out.append(digit_str(d - 48));
        assert(digits@.take(i + 1).map_values(|b: u8| b as char) =~= old_out.push(d as char));
        i = i + 1;
    }
    assert(digits@.take(n as int) =~= digits@);
    out
}

/// Writes `x` in decimal, with a `-` when negative, as `x.to_string()` does.
pub fn signed_decimal_text(x: i128) -> (res: String)
    ensures
        res@ == signed_decimal_text_spec(x as int),
{
    if x < 0 {
        let magnitude: u128 = (-(x + 1)) as u128 + 1;
        let mut out = String::new();
        proof {
            reveal_strlit("-");
        }
        out.append("-");
        let digits = decimal_text(magnitude);
        out.append(digits.as_str());
        out
    } else {
        decimal_text(x as u128)
    }
}

proof fn lemma_decimal_text_digits(n: nat)
    ensures
        decimal_text_spec(n).len() > 0,
        all_digits(decimal_text_spec(n)),
        digits_value(decimal_text_spec(n)) == n,
        decimal_text_spec(n)[0] != '+',
    decreases n,
{
    let t = decimal_text_spec(n);
    if n >= 10 {
        lemma_decimal_text_digits(n / 10);
        let p = decimal_text_spec(n / 10);
        assert(decimal_ascii_spec(n) == decimal_ascii_spec(n / 10).push((48 + n % 10) as u8));
        assert(t =~= p.push((48 + n % 10) as char));
        assert(t.drop_last() =~= p);
        assert forall|i: int| 0 <= i < t.len() implies #[trigger] is_digit(t[i]) by {
            if i < p.len() {
                assert(t[i] == p[i]);
            }
        }
        assert(t[0] == p[0]);
        let c = t.last();
        assert(c == (48 + n % 10) as char);
        assert(c as nat == 48 + n % 10);
        assert(digit_value(c) == n % 10);
        assert(digits_value(t) == digits_value(p) * 10 + n % 10);
        assert(digits_value(t) == n);
    } else {
        assert(t =~= seq![(48 + n) as char]);
        assert(t.drop_last() =~= Seq::<char>::empty());
        assert(t.last() as nat == 48 + n);
        assert(digits_value(t.drop_last()) == 0);
        assert(digits_value(t) == n);
    }
}

/// Decimal numbers read back: parsing what the decimal writer writes for any
/// `u64` gives that number, with or without a leading `+`; an empty text, a lone
/// `+` and anything starting with `-` are refused.
pub proof fn decimal_text_parses_back(x: u64, s: Seq<char>)
    ensures
        parse_u64_spec(decimal_text_spec(x as nat)) == Some(x),
        parse_u64_spec(seq!['+'] + decimal_text_spec(x as nat)) == Some(x),
        parse_u64_spec(Seq::<char>::empty()) is None,
        parse_u64_spec(seq!['+']) is None,
        parse_u64_spec(seq!['-'] + s) is None,
{
    lemma_decimal_text_digits(x as nat);
    let t = decimal_text_spec(x as nat);
    assert((seq!['+'] + t).drop_first() =~= t);
    let m = seq!['-'] + s;
    assert(m[0] == '-');
    assert(!is_digit(unsigned_digits(m)[0]));
    assert((seq!['+']).drop_first() =~= Seq::<char>::empty());
}

} // verus!
