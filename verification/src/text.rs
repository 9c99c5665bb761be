//! Character-level helpers shared by the rendering, parsing and formatting
//! code: decimal representations of integers and whitespace handling.

use vstd::prelude::*;

verus! {

use crate::Error;
use vstd::string::StrSliceExecFns;

/// Character-for-character equality of two string slices.
pub fn str_eq(a: &str, b: &str) -> (r: bool)
    ensures
        r == (a@ == b@),
{
    let n = a.unicode_len();
    if n != b.unicode_len() {
        return false;
    }
    for i in 0..n
        invariant
            n == a@.len(),
            n == b@.len(),
            forall|j: int| 0 <= j < i ==> a@[j] == b@[j],
    {
        if a.get_char(i) != b.get_char(i) {
            return false;
        }
    }
    proof {
        assert(a@ =~= b@);
    }
    true
}

/// The decimal digit character for a value below ten.
pub open spec fn spec_digit(d: nat) -> char {
    if d == 0 {
        '0'
    } else if d == 1 {
        '1'
    } else if d == 2 {
        '2'
    } else if d == 3 {
        '3'
    } else if d == 4 {
        '4'
    } else if d == 5 {
        '5'
    } else if d == 6 {
        '6'
    } else if d == 7 {
        '7'
    } else if d == 8 {
        '8'
    } else {
        '9'
    }
}

/// The decimal representation of a natural number, without sign and without
/// leading zeros (a single `'0'` for zero).
pub open spec fn spec_dec(n: nat) -> Seq<char>
    decreases n,
{
    if n < 10 {
        seq![spec_digit(n)]
    } else {
        spec_dec(n / 10).push(spec_digit(n % 10))
    }
}

/// The decimal representation of a signed integer: a leading `'-'` for
/// negative values, then the digits of the magnitude.
pub open spec fn spec_dec_signed(n: int) -> Seq<char> {
    if n < 0 {
        seq!['-'].add(spec_dec((-n) as nat))
    } else {
        spec_dec(n as nat)
    }
}

/// The whitespace characters that separate the columns of the proc-file
/// lines this crate reads.
pub open spec fn is_space(c: char) -> bool {
    c == ' ' || c == '\t' || c == '\n' || c == '\r'
}

pub open spec fn is_digit(c: char) -> bool {
    '0' <= c && c <= '9'
}

pub open spec fn digit_val(c: char) -> nat
    recommends
        is_digit(c),
{
    (c as nat - '0' as nat) as nat
}

pub open spec fn all_digits(s: Seq<char>) -> bool {
    forall|i: int| 0 <= i < s.len() ==> is_digit(#[trigger] s[i])
}

/// The number a digit string denotes.
pub open spec fn dec_val(s: Seq<char>) -> nat
    recommends
        all_digits(s),
    decreases s.len(),
{
    if s.len() == 0 {
        0
    } else {
        dec_val(s.drop_last()) * 10 + digit_val(s.last())
    }
}

/// The digit part of an unsigned decimal string: the whole of it, or what
/// follows a leading `+`.
pub open spec fn unsigned_digits(s: Seq<char>) -> Seq<char> {
    if s.len() > 0 && s[0] == '+' {
        s.skip(1)
    } else {
        s
    }
}

/// Whether `u64::from_str` accepts the string: an optional `+`, then at
/// least one digit, denoting a value that fits.
pub open spec fn is_u64_string(s: Seq<char>) -> bool {
    let d = unsigned_digits(s);
    d.len() > 0 && all_digits(d) && dec_val(d) <= u64::MAX
}

/// Relies on `str::parse::<u64>` (`u64::from_str`): it accepts an
/// optional `+` sign followed by one or more decimal digits, and fails
/// on anything else and on values that do not fit.
#[verifier::external_body]
pub fn parse_u64(s: &str) -> (r: Option<u64>)
    ensures
        r is Some <==> is_u64_string(s@),
        r matches Some(v) ==> v == dec_val(unsigned_digits(s@)),
{
    s.parse::<u64>().ok()
}

/// Relies on `u64::to_string` (via `core::fmt::Display` for `u64`), which
/// the standard library documents as the plain decimal representation.
#[verifier::external_body]
pub fn u64_to_string(n: u64) -> (r: String)
    ensures
        r@ == spec_dec(n as nat),
{
    n.to_string()
}

/// Relies on `u128::to_string` (via `core::fmt::Display` for `u128`),
/// which the standard library documents as the plain decimal
/// representation.
#[verifier::external_body]
pub fn u128_to_string(n: u128) -> (r: String)
    ensures
        r@ == spec_dec(n as nat),
{
    n.to_string()
}

/// Relies on `i64::to_string` (via `core::fmt::Display` for `i64`), which
/// the standard library documents as the decimal representation with a
/// leading `-` for negative values.
#[verifier::external_body]
pub fn i64_to_string(n: i64) -> (r: String)
    ensures
        r@ == spec_dec_signed(n as int),
{
    n.to_string()
}

/// The first position at or after `k` that does not hold whitespace.
pub open spec fn skip_spaces(s: Seq<char>, k: int) -> int
    decreases s.len() - k,
{
    if k + 1 > s.len() {
        s.len() as int
    } else if !is_space(s[k]) {
        k
    } else {
        skip_spaces(s, k + 1)
    }
}

/// The first position at or after `k` that ends the token starting there.
pub open spec fn token_end(s: Seq<char>, k: int) -> int
    decreases s.len() - k,
{
    if k + 1 > s.len() {
        s.len() as int
    } else if is_space(s[k]) {
        k
    } else {
        token_end(s, k + 1)
    }
}

proof fn lemma_skip_spaces_bounds(s: Seq<char>, k: int)
    requires
        0 <= k <= s.len(),
    ensures
        k <= skip_spaces(s, k) <= s.len(),
        k <= token_end(s, k) <= s.len(),
        skip_spaces(s, k) < s.len() ==> !is_space(s[skip_spaces(s, k)]),
    decreases s.len() - k,
{
    if k < s.len() {
        lemma_skip_spaces_bounds(s, k + 1);
    }
}

/// The bounds of the `n`-th whitespace-separated column at or after `k`.
pub open spec fn nth_token_from(s: Seq<char>, k: int, n: nat) -> Option<(int, int)>
    decreases s.len() - k + n,
    via nth_token_from_dec
{
    let k1 = if k < 0 {
        0
    } else {
        k
    };
    let a = skip_spaces(s, k1);
    if a >= s.len() {
        None
    } else {
        let b = token_end(s, a);
        if n == 0 {
            Some((a, b))
        } else {
            nth_token_from(s, b, (n - 1) as nat)
        }
    }
}

#[via_fn]
proof fn nth_token_from_dec(s: Seq<char>, k: int, n: nat) {
    let k1 = if k < 0 {
        0int
    } else {
        k
    };
    if k1 <= s.len() {
        lemma_skip_spaces_bounds(s, k1);
        let a = skip_spaces(s, k1);
        if a < s.len() {
            lemma_skip_spaces_bounds(s, a + 1);
            assert(!is_space(s[a]));
            assert(token_end(s, a) == token_end(s, a + 1));
            assert(token_end(s, a) >= a + 1);
        }
    }
}

/// The bounds of the `n`-th whitespace-separated column.
pub open spec fn nth_token(s: Seq<char>, n: nat) -> Option<(int, int)> {
    nth_token_from(s, 0, n)
}

fn is_space_exec(c: char) -> (r: bool)
    ensures
        r == is_space(c),
{
    c == ' ' || c == '\t' || c == '\n' || c == '\r'
}

fn skip_spaces_exec(t: &str, k: usize) -> (r: usize)
    requires
        k <= t@.len(),
    ensures
        r == skip_spaces(t@, k as int),
        k <= r <= t@.len(),
{
    let n = t.unicode_len();
    let mut a = k;
    while a < n && is_space_exec(t.get_char(a))
        invariant
            k <= a <= n,
            n == t@.len(),
            skip_spaces(t@, k as int) == skip_spaces(t@, a as int),
        decreases n - a,
    {
        a = a + 1;
    }
    a
}

fn token_end_exec(t: &str, k: usize) -> (r: usize)
    requires
        k <= t@.len(),
    ensures
        r == token_end(t@, k as int),
        k <= r <= t@.len(),
{
    let n = t.unicode_len();
    let mut a = k;
    while a < n && !is_space_exec(t.get_char(a))
        invariant
            k <= a <= n,
            n == t@.len(),
            token_end(t@, k as int) == token_end(t@, a as int),
        decreases n - a,
    {
        a = a + 1;
    }
    a
}

fn nth_token_from_exec(t: &str, k: usize, n: usize) -> (r: Option<(usize, usize)>)
    requires
        k <= t@.len(),
    ensures
        match r {
            Some((a, b)) => nth_token_from(t@, k as int, n as nat) == Some((a as int, b as int))
                && a <= b <= t@.len(),
            None => nth_token_from(t@, k as int, n as nat) is None,
        },
    decreases t@.len() - k + n,
{
    let a = skip_spaces_exec(t, k);
    if a >= t.unicode_len() {
        None
    } else {
        let b = token_end_exec(t, a);
        proof {
            lemma_skip_spaces_bounds(t@, k as int);
            lemma_skip_spaces_bounds(t@, a + 1);
            assert(!is_space(t@[a as int]));
            assert(token_end(t@, a as int) == token_end(t@, a + 1));
            assert(b >= a + 1);
        }
        if n == 0 {
            Some((a, b))
        } else {
            nth_token_from_exec(t, b, n - 1)
        }
    }
}

/// The bounds of the `n`-th whitespace-separated column, as runtime
/// values.
pub fn nth_token_exec(t: &str, n: usize) -> (r: Option<(usize, usize)>)
    ensures
        match r {
            Some((a, b)) => nth_token(t@, n as nat) == Some((a as int, b as int)) && a <= b
                <= t@.len(),
            None => nth_token(t@, n as nat) is None,
        },
{
    nth_token_from_exec(t, 0, n)
}

/// Reads the number in the `column`-th whitespace-separated column of
/// `line`. The error carries `error_message` and names what went wrong:
/// a missing column or a column that is not a number.
pub fn get_number(error_message: &str, line: &str, column: usize) -> (r: Result<u64, Error>)
    ensures
        match nth_token(line@, column as nat) {
            None => r matches Err(e) && e.0@ == error_message@ + ": Column not found."@,
            Some((a, b)) => {
                let tok = line@.subrange(a, b);
                if is_u64_string(tok) {
                    r matches Ok(v) && v == dec_val(unsigned_digits(tok))
                } else {
                    r matches Err(e) && e.0@ == error_message@ + ": Could not parse number."@
                }
            },
        },
{
    match nth_token_from_exec(line, 0, column) {
        None => {
            let mut e = String::from_str(error_message);
            e.append(": Column not found.");
            Err(Error(e))
        },
        Some((a, b)) => {
            let tok = line.substring_char(a, b);
            match parse_u64(tok) {
                Some(v) => Ok(v),
                None => {
                    let mut e = String::from_str(error_message);
                    e.append(": Could not parse number.");
                    Err(Error(e))
                },
            }
        },
    }
}

/// The position of the first line break at or after `k`, or the length
/// if there is none.
pub open spec fn line_end(s: Seq<char>, k: int) -> int
    decreases s.len() - k,
{
    if k < 0 {
        0
    } else if k >= s.len() {
        s.len() as int
    } else if s[k] == '\n' {
        k
    } else {
        line_end(s, k + 1)
    }
}

pub proof fn lemma_line_end_bounds(s: Seq<char>, k: int)
    requires
        0 <= k <= s.len(),
    ensures
        k <= line_end(s, k) <= s.len(),
    decreases s.len() - k,
{
    if k < s.len() {
        lemma_line_end_bounds(s, k + 1);
    }
}

/// The position after the first line break at or after `k`.
pub fn line_end_exec(t: &str, k: usize) -> (r: usize)
    requires
        k <= t@.len(),
    ensures
        r == line_end(t@, k as int),
        k <= r <= t@.len(),
{
    let n = t.unicode_len();
    let mut a = k;
    while a < n && t.get_char(a) != '\n'
        invariant
            k <= a <= n,
            n == t@.len(),
            line_end(t@, k as int) == line_end(t@, a as int),
        decreases n - a,
    {
        a = a + 1;
    }
    a
}

/// Whether `s` starts with `prefix`.
pub open spec fn spec_starts_with(s: Seq<char>, prefix: Seq<char>) -> bool {
    s.len() >= prefix.len() && s.subrange(0, prefix.len() as int) == prefix
}

pub fn starts_with(s: &str, prefix: &str) -> (r: bool)
    ensures
        r == spec_starts_with(s@, prefix@),
{
    let n = s.unicode_len();
    let m = prefix.unicode_len();
    if n < m {
        proof {
            assert(!spec_starts_with(s@, prefix@));
        }
        return false;
    }
    let head = s.substring_char(0, m);
    let r = str_eq(head, prefix);
    proof {
        if r {
            assert(s@.subrange(0, m as int) == prefix@);
        } else {
            assert(s@.subrange(0, m as int) != prefix@);
        }
    }
    r
}

/// Whether a string is a plain non-negative decimal with an optional
/// fraction: one or more digits, optionally a point and more digits.
pub open spec fn is_simple_decimal(s: Seq<char>) -> bool {
    exists|d: int|
        0 < d <= s.len() && all_digits(#[trigger] s.subrange(0, d)) && (d == s.len() || (s[d]
            == '.' && all_digits(s.subrange(d + 1, s.len() as int)))) && (d < s.len() ==> s[d]
            == '.')
}

/// The integer part of a simple decimal.
pub open spec fn simple_decimal_trunc(s: Seq<char>) -> nat {
    let d = spec_point_pos(s, 0);
    dec_val(s.subrange(0, d))
}

/// The position of the first `.` at or after `k`, or the length.
pub open spec fn spec_point_pos(s: Seq<char>, k: int) -> int
    decreases s.len() - k,
{
    if k < 0 {
        0
    } else if k >= s.len() {
        s.len() as int
    } else if s[k] == '.' {
        k
    } else {
        spec_point_pos(s, k + 1)
    }
}

/// Parses a non-negative decimal such as `3.99`, truncating the
/// fraction: the digits before the point, which must fit in `u64`.
/// Other forms (signs, exponents, a leading point) are rejected.
pub fn parse_decimal_trunc(s: &str) -> (r: Option<u64>)
    ensures
        r is Some <==> (is_simple_decimal(s@) && dec_val(
            s@.subrange(0, spec_point_pos(s@, 0)),
        ) <= u64::MAX),
        r matches Some(v) ==> v == simple_decimal_trunc(s@),
{
    let n = s.unicode_len();
    let mut d: usize = 0;
    while d < n && s.get_char(d) != '.'
        invariant
            d <= n,
            n == s@.len(),
            spec_point_pos(s@, 0) == spec_point_pos(s@, d as int),
        decreases n - d,
    {
        d = d + 1;
    }
    proof {
        assert(d == spec_point_pos(s@, 0));
    }
    let int_part = s.substring_char(0, d);
    let frac_ok = if d < n {
        let frac = s.substring_char(d + 1, n);
        let m = frac.unicode_len();
        let mut ok = true;
        let mut i: usize = 0;
        while i < m
            invariant
                i <= m,
                m == frac@.len(),
                frac@ == s@.subrange(d + 1, n as int),
                ok == all_digits(frac@.take(i as int)),
            decreases m - i,
        {
            let c = frac.get_char(i);
            let good = c >= '0' && c <= '9';
            proof {
                lemma_all_digits_step(frac@, i as int);
            }
            ok = ok && good;
            i = i + 1;
        }
        proof {
            assert(frac@.take(m as int) == frac@);
        }
        ok
    } else {
        true
    };
    let value = parse_u64_digits_only(int_part);
    proof {
        let sv = s@;
        let dp = d as int;
        if value.is_some() && frac_ok && d > 0 {
            assert(is_simple_decimal(sv)) by {
                assert(0 < dp <= sv.len() && all_digits(sv.subrange(0, dp)) && (dp == sv.len() || (
                sv[dp] == '.' && all_digits(sv.subrange(dp + 1, sv.len() as int)))) && (dp
                    < sv.len() ==> sv[dp] == '.')) by {
                    assert(int_part@ == sv.subrange(0, dp));
                }
            }
        }
        if is_simple_decimal(sv) {
            let d2 = choose|d2: int|
                0 < d2 <= sv.len() && all_digits(#[trigger] sv.subrange(0, d2)) && (d2 == sv.len()
                    || (sv[d2] == '.' && all_digits(sv.subrange(d2 + 1, sv.len() as int)))) && (d2
                    < sv.len() ==> sv[d2] == '.');
            assert(d2 == dp) by {
                lemma_point_pos_first(sv, d2);
            }
        }
    }
    if value.is_some() && frac_ok && d > 0 {
        value
    } else {
        None
    }
}

/// One more character keeps a prefix all-digits exactly when it is a
/// digit itself.
proof fn lemma_all_digits_step(s: Seq<char>, i: int)
    requires
        0 <= i < s.len(),
    ensures
        all_digits(s.take(i + 1)) == (all_digits(s.take(i)) && is_digit(s[i])),
{
    if all_digits(s.take(i)) && is_digit(s[i]) {
        assert forall|j: int| 0 <= j < i + 1 implies is_digit(#[trigger] s.take(i + 1)[j]) by {
            if j < i {
                assert(s.take(i + 1)[j] == s.take(i)[j]);
            } else {
                assert(s.take(i + 1)[j] == s[i]);
            }
        }
    }
    if all_digits(s.take(i + 1)) {
        assert forall|j: int| 0 <= j < i implies is_digit(#[trigger] s.take(i)[j]) by {
            assert(s.take(i)[j] == s.take(i + 1)[j]);
        }
        assert(is_digit(s.take(i + 1)[i]));
    }
}

/// A digit-only parse: like `parse_u64` but rejecting a sign.
fn parse_u64_digits_only(s: &str) -> (r: Option<u64>)
    ensures
        r is Some <==> (s@.len() > 0 && all_digits(s@) && dec_val(s@) <= u64::MAX),
        r matches Some(v) ==> v == dec_val(s@),
{
    let n = s.unicode_len();
    if n == 0 {
        return None;
    }
    let c = s.get_char(0);
    if !(c >= '0' && c <= '9') {
        proof {
            assert(!is_digit(s@[0]));
        }
        return None;
    }
    proof {
        if s@.len() > 0 && s@[0] == '+' {
            assert(false);
        }
        assert(unsigned_digits(s@) == s@);
    }
    parse_u64(s)
}

/// If a decimal splits at `d2`, then `d2` is the first point position.
proof fn lemma_point_pos_first(s: Seq<char>, d2: int)
    requires
        0 < d2 <= s.len(),
        all_digits(s.subrange(0, d2)),
        d2 < s.len() ==> s[d2] == '.',
    ensures
        spec_point_pos(s, 0) == d2 || (d2 == s.len() && spec_point_pos(s, 0) == s.len()),
{
    lemma_point_pos_steps(s, 0, d2);
}

proof fn lemma_point_pos_steps(s: Seq<char>, k: int, d2: int)
    requires
        0 <= k <= d2 <= s.len(),
        all_digits(s.subrange(0, d2)),
        d2 < s.len() ==> s[d2] == '.',
    ensures
        spec_point_pos(s, k) == (if d2 < s.len() {
            d2
        } else {
            s.len() as int
        }),
    decreases d2 - k,
{
    if k < d2 {
        assert(s[k] == s.subrange(0, d2)[k]);
        assert(is_digit(s[k]));
        assert(s[k] != '.') by {
            assert(('0' as nat) <= s[k] as nat <= ('9' as nat));
        }
        lemma_point_pos_steps(s, k + 1, d2);
    }
}

/// The first position at or after `k` that does not hold a plain space.
pub open spec fn skip_blanks(s: Seq<char>, k: int) -> int
    decreases s.len() - k,
{
    if k + 1 > s.len() {
        s.len() as int
    } else if s[k] != ' ' {
        k
    } else {
        skip_blanks(s, k + 1)
    }
}

/// The length of `s` without its trailing spaces.
pub open spec fn len_wo_trailing_blanks(s: Seq<char>) -> nat
    decreases s.len(),
{
    if s.len() == 0 {
        0
    } else if s.last() == ' ' {
        len_wo_trailing_blanks(s.drop_last())
    } else {
        s.len()
    }
}

/// `s` without its leading and trailing spaces (only the space character
/// itself, as placeholder keys are trimmed).
pub open spec fn trim_spaces(s: Seq<char>) -> Seq<char> {
    let s1 = s.skip(skip_blanks(s, 0));
    s1.take(len_wo_trailing_blanks(s1) as int)
}

proof fn lemma_skip_blanks_bounds(s: Seq<char>, k: int)
    requires
        0 <= k <= s.len(),
    ensures
        k <= skip_blanks(s, k) <= s.len(),
    decreases s.len() - k,
{
    if k < s.len() {
        lemma_skip_blanks_bounds(s, k + 1);
    }
}

/// A string slice without its leading and trailing spaces.
fn trim_blanks<'a>(raw: &'a str) -> (r: &'a str)
    ensures
        r@ == trim_spaces(raw@),
{
    let n = raw.unicode_len();
    let mut a: usize = 0;
    while a < n && raw.get_char(a) == ' '
        invariant
            a <= n,
            n == raw@.len(),
            skip_blanks(raw@, 0) == skip_blanks(raw@, a as int),
        decreases n - a,
    {
        a = a + 1;
    }
    proof {
        assert(a == skip_blanks(raw@, 0));
    }
    let ghost s1 = raw@.skip(a as int);
    proof {
        assert(s1.take(n - a as int) =~= s1);
    }
    let mut b: usize = n;
    while b > a && raw.get_char(b - 1) == ' '
        invariant
            a <= b <= n,
            n == raw@.len(),
            s1 == raw@.skip(a as int),
            len_wo_trailing_blanks(s1) == len_wo_trailing_blanks(s1.take(b - a)),
        decreases b,
    {
        proof {
            assert(s1.take(b - a).drop_last() == s1.take(b - 1 - a));
            assert(s1.take(b - a).last() == raw@[b - 1]);
        }
        b = b - 1;
    }
    proof {
        if b == a {
            assert(s1.take(0) =~= Seq::<char>::empty());
            assert(len_wo_trailing_blanks(s1) == 0);
        } else {
            assert(s1.take(b - a).last() == raw@[b - 1]);
            assert(len_wo_trailing_blanks(s1.take(b - a)) == b - a);
        }
    }
    let r = raw.substring_char(a, b);
    proof {
        assert(r@ =~= trim_spaces(raw@));
    }
    r
}

/// The position of the first `}}` at or after `k`, or the length if
/// there is none.
pub open spec fn find_close_from(s: Seq<char>, k: int) -> int
    decreases s.len() - k,
{
    if k + 1 >= s.len() {
        s.len() as int
    } else if s[k] == '}' && s[k + 1] == '}' {
        k
    } else {
        find_close_from(s, k + 1)
    }
}

proof fn lemma_find_close_bounds(s: Seq<char>, k: int)
    requires
        0 <= k <= s.len(),
    ensures
        k <= find_close_from(s, k),
        find_close_from(s, k) == s.len() || find_close_from(s, k) + 2 <= s.len(),
    decreases s.len() - k,
{
    if k + 1 < s.len() {
        lemma_find_close_bounds(s, k + 1);
    }
}

/// What a template renders to from position `i` on: literal text copied
/// through, each `{{…}}` token replaced by the value its trimmed key
/// maps to (or nothing, for an unknown key), and an unterminated `{{`
/// copied through as literal text.
pub open spec fn spec_render_from(t: Seq<char>, m: Map<Seq<char>, Seq<char>>, i: int) -> Seq<char>
    decreases t.len() - i,
    via spec_render_from_dec
{
    if i < 0 || i >= t.len() {
        Seq::empty()
    } else if i + 1 < t.len() && t[i] == '{' && t[i + 1] == '{' {
        let j = find_close_from(t, i + 2);
        if j < t.len() {
            let key = trim_spaces(t.subrange(i + 2, j));
            (if m.contains_key(key) {
                m[key]
            } else {
                Seq::empty()
            }) + spec_render_from(t, m, j + 2)
        } else {
            t.subrange(i, t.len() as int)
        }
    } else {
        seq![t[i]] + spec_render_from(t, m, i + 1)
    }
}

#[via_fn]
proof fn spec_render_from_dec(t: Seq<char>, m: Map<Seq<char>, Seq<char>>, i: int) {
    if 0 <= i && i + 1 < t.len() {
        lemma_find_close_bounds(t, i + 2);
    }
}

/// What a template renders to under a placeholder map.
pub open spec fn spec_render(t: Seq<char>, m: Map<Seq<char>, Seq<char>>) -> Seq<char> {
    spec_render_from(t, m, 0)
}

fn find_close_exec(t: &str, k: usize) -> (r: usize)
    requires
        k <= t@.len(),
    ensures
        r == find_close_from(t@, k as int),
        k <= r <= t@.len(),
        r < t@.len() ==> r + 2 <= t@.len(),
{
    proof {
        lemma_find_close_bounds(t@, k as int);
    }
    let n = t.unicode_len();
    let mut a = k;
    while a < n && a + 1 < n && !(t.get_char(a) == '}' && t.get_char(a + 1) == '}')
        invariant
            k <= a <= n,
            n == t@.len(),
            find_close_from(t@, k as int) == find_close_from(t@, a as int),
        decreases n - a,
    {
        a = a + 1;
    }
    if a < n && a + 1 < n {
        a
    } else {
        n
    }
}

fn render_from(t: &str, m: &crate::placeholder::PlaceholderMap, i: usize) -> (r: String)
    requires
        i <= t@.len(),
    ensures
        r@ == spec_render_from(t@, m@, i as int),
    decreases t@.len() - i,
{
    let n = t.unicode_len();
    if i >= n {
        return String::new();
    }
    if i + 1 < n && t.get_char(i) == '{' && t.get_char(i + 1) == '{' {
        let j = find_close_exec(t, i + 2);
        if j < n {
            let raw = t.substring_char(i + 2, j);
            let key = trim_blanks(raw);
            let mut out = match m.get(key) {
                Some(v) => v.clone(),
                None => String::new(),
            };
            let rest = render_from(t, m, j + 2);
            out.append(rest.as_str());
            out
        } else {
            String::from_str(t.substring_char(i, n))
        }
    } else {
        let mut out = String::from_str(t.substring_char(i, i + 1));
        let rest = render_from(t, m, i + 1);
        out.append(rest.as_str());
        proof {
            assert(t@.subrange(i as int, i + 1) =~= seq![t@[i as int]]);
        }
        out
    }
}

/// Substitutes `{{key}}` tokens in a template: keys are trimmed of
/// spaces, unknown keys render as empty.
pub fn render(template: &str, placeholders: &crate::placeholder::PlaceholderMap) -> (r: String)
    ensures
        r@ == spec_render(template@, placeholders@),
{
    render_from(template, placeholders, 0)
}

/// Law: rendering is the identity on a template without `{{` anywhere in
/// it, whatever the placeholder map holds.
pub proof fn lemma_render_no_tokens(t: Seq<char>, m: Map<Seq<char>, Seq<char>>)
    requires
        forall|i: int| 0 <= i < t.len() - 1 ==> !(#[trigger] t[i] == '{' && t[i + 1] == '{'),
    ensures
        spec_render(t, m) == t,
{
    lemma_render_identity_from(t, m, 0);
    assert(t.skip(0) =~= t);
}

proof fn lemma_render_identity_from(t: Seq<char>, m: Map<Seq<char>, Seq<char>>, i: int)
    requires
        0 <= i <= t.len(),
        forall|k: int| 0 <= k < t.len() - 1 ==> !(#[trigger] t[k] == '{' && t[k + 1] == '{'),
    ensures
        spec_render_from(t, m, i) == t.skip(i),
    decreases t.len() - i,
{
    if i >= t.len() {
        assert(t.skip(i) =~= Seq::<char>::empty());
    } else {
        lemma_render_identity_from(t, m, i + 1);
        assert(spec_render_from(t, m, i) == seq![t[i]] + spec_render_from(t, m, i + 1));
        assert(t.skip(i) =~= seq![t[i]] + t.skip(i + 1));
    }
}

} // verus!
