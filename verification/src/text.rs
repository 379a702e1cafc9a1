use vstd::prelude::*;
use vstd::string::*;

verus! {

/// ASCII character classes used by the validation rules and by the
/// case-insensitive column matching of the store.
pub open spec fn is_lowercase_char(c: char) -> bool {
    97 <= c as u32 && c as u32 <= 122
}

pub open spec fn is_uppercase_char(c: char) -> bool {
    65 <= c as u32 && c as u32 <= 90
}

pub open spec fn is_digit_char(c: char) -> bool {
    48 <= c as u32 && c as u32 <= 57
}

/// Anything that is not an ASCII letter or digit counts as a special
/// character for the password-strength policy.
pub open spec fn is_special_char(c: char) -> bool {
    !is_lowercase_char(c) && !is_uppercase_char(c) && !is_digit_char(c)
}

/// Characters allowed in a username: ASCII letters, digits and underscore.
pub open spec fn is_username_char(c: char) -> bool {
    is_lowercase_char(c) || is_uppercase_char(c) || is_digit_char(c) || c as u32 == 95
}

pub open spec fn all_username_chars(s: Seq<char>) -> bool {
    forall|i: int| 0 <= i < s.len() ==> is_username_char(#[trigger] s[i])
}

/// A password is strong when it holds at least one lowercase letter, one
/// uppercase letter, one digit and one special character.
pub open spec fn spec_strong_password(s: Seq<char>) -> bool {
    &&& exists|i: int| 0 <= i < s.len() && is_lowercase_char(#[trigger] s[i])
    &&& exists|i: int| 0 <= i < s.len() && is_uppercase_char(#[trigger] s[i])
    &&& exists|i: int| 0 <= i < s.len() && is_digit_char(#[trigger] s[i])
    &&& exists|i: int| 0 <= i < s.len() && is_special_char(#[trigger] s[i])
}

/// Decides the password-strength policy by a single scan.
pub fn password_is_strong(s: &str) -> (r: bool)
    ensures
        r == spec_strong_password(s@),
{
    let n = s.unicode_len();
    let mut has_lower = false;
    let mut has_upper = false;
    let mut has_digit = false;
    let mut has_special = false;
    let mut i: usize = 0;
    while i < n
        invariant
            n == s@.len(),
            0 <= i <= n,
            has_lower == exists|j: int| 0 <= j < i && is_lowercase_char(#[trigger] s@[j]),
            has_upper == exists|j: int| 0 <= j < i && is_uppercase_char(#[trigger] s@[j]),
            has_digit == exists|j: int| 0 <= j < i && is_digit_char(#[trigger] s@[j]),
            has_special == exists|j: int| 0 <= j < i && is_special_char(#[trigger] s@[j]),
        decreases n - i,
    {
        let c = s.get_char(i);
        let v: u32 = c as u32;
        if 97 <= v && v <= 122 {
            has_lower = true;
        } else if 65 <= v && v <= 90 {
            has_upper = true;
        } else if 48 <= v && v <= 57 {
            has_digit = true;
        } else {
            has_special = true;
        }
        i += 1;
    }
    has_lower && has_upper && has_digit && has_special
}

/// Decides whether every character of `s` may appear in a username.
pub fn username_chars_ok(s: &str) -> (r: bool)
    ensures
        r == all_username_chars(s@),
{
    let n = s.unicode_len();
    let mut i: usize = 0;
    while i < n
        invariant
            n == s@.len(),
            0 <= i <= n,
            forall|j: int| 0 <= j < i ==> is_username_char(#[trigger] s@[j]),
        decreases n - i,
    {
        let c = s.get_char(i);
        let v: u32 = c as u32;
        let ok = (97 <= v && v <= 122) || (65 <= v && v <= 90) || (48 <= v && v <= 57) || v == 95;
        if !ok {
            return false;
        }
        i += 1;
    }
    true
}

/// The ASCII-lowercased code point of a character; the basis of the
/// case-insensitive comparison the store's filtering uses.
pub open spec fn spec_lower_code(c: char) -> int {
    if is_uppercase_char(c) {
        c as u32 + 32
    } else {
        c as u32 as int
    }
}

/// Case-insensitive character equality (ASCII case folding only).
pub open spec fn chars_eq_ci(a: char, b: char) -> bool {
    spec_lower_code(a) == spec_lower_code(b)
}

fn char_eq_ci(a: char, b: char) -> (r: bool)
    ensures
        r == chars_eq_ci(a, b),
{
    let va: u32 = a as u32;
    let vb: u32 = b as u32;
    let la: u32 = if 65 <= va && va <= 90 {
        va + 32
    } else {
        va
    };
    let lb: u32 = if 65 <= vb && vb <= 90 {
        vb + 32
    } else {
        vb
    };
    la == lb
}

/// `needle` occurs at offset `i` of `hay`, comparing case-insensitively.
pub open spec fn spec_matches_at(hay: Seq<char>, needle: Seq<char>, i: int) -> bool {
    forall|j: int| 0 <= j < needle.len() ==> chars_eq_ci(hay[i + j], #[trigger] needle[j])
}

/// `hay` holds `needle` somewhere, comparing case-insensitively; the
/// model of a `%needle%` pattern match.
pub open spec fn spec_contains_ci(hay: Seq<char>, needle: Seq<char>) -> bool {
    exists|i: int| 0 <= i <= hay.len() - needle.len() && spec_matches_at(hay, needle, i)
}

/// Case-insensitive substring search.
pub fn str_contains_ci(hay: &str, needle: &str) -> (r: bool)
    ensures
        r == spec_contains_ci(hay@, needle@),
{
    let h = hay.unicode_len();
    let n = needle.unicode_len();
    if n > h {
        return false;
    }
    let mut i: usize = 0;
    while i <= h - n
        invariant
            h == hay@.len(),
            n == needle@.len(),
            n <= h,
            0 <= i <= h - n + 1,
            forall|k: int| 0 <= k < i ==> !spec_matches_at(hay@, needle@, k),
        decreases h + 1 - n - i,
    {
        let mut j: usize = 0;
        let mut all = true;
        while j < n
            invariant
                h == hay@.len(),
                n == needle@.len(),
                n <= h,
                0 <= i <= h - n,
                0 <= j <= n,
                all == forall|k: int|
                    0 <= k < j ==> chars_eq_ci(hay@[i + k], #[trigger] needle@[k]),
            decreases n - j,
        {
            if !char_eq_ci(hay.get_char(i + j), needle.get_char(j)) {
                all = false;
                proof {
                    assert(!chars_eq_ci(hay@[i + j], needle@[j as int]));
                }
                j = n;
            } else {
                j += 1;
            }
        }
        if all {
            assert(spec_matches_at(hay@, needle@, i as int));
            return true;
        }
        i += 1;
    }
    false
}


/// Exact string equality, decided through `String` comparison.
pub fn str_eq(a: &str, b: &str) -> (r: bool)
    ensures
        r == (a@ == b@),
{
    a.to_owned() == b.to_owned()
}

/// `p` is a prefix of `s`.
pub open spec fn spec_has_prefix(s: Seq<char>, p: Seq<char>) -> bool {
    s.len() >= p.len() && s.subrange(0, p.len() as int) == p
}

/// Decides whether `s` starts with `p`, character by character.
pub fn str_has_prefix(s: &str, p: &str) -> (r: bool)
    ensures
        r == spec_has_prefix(s@, p@),
{
    let n = s.unicode_len();
    let m = p.unicode_len();
    if m > n {
        return false;
    }
    let mut i: usize = 0;
    while i < m
        invariant
            n == s@.len(),
            m == p@.len(),
            m <= n,
            0 <= i <= m,
            forall|j: int| 0 <= j < i ==> s@[j] == p@[j],
        decreases m - i,
    {
        if s.get_char(i) != p.get_char(i) {
            assert(s@.subrange(0, p@.len() as int) != p@) by {
                assert(s@.subrange(0, p@.len() as int)[i as int] != p@[i as int]);
            }
            return false;
        }
        i += 1;
    }
    assert(s@.subrange(0, p@.len() as int) =~= p@);
    true
}

/// The numeric value of an ASCII digit character.
pub open spec fn char_digit(c: char) -> int {
    c as u32 - 48
}

pub open spec fn all_digit_chars(s: Seq<char>) -> bool {
    forall|i: int| 0 <= i < s.len() ==> is_digit_char(#[trigger] s[i])
}

/// The integer denoted by a sequence of digit characters, most
/// significant first.
pub open spec fn spec_digits_value(s: Seq<char>) -> int
    decreases s.len(),
{
    if s.len() == 0 {
        0
    } else {
        spec_digits_value(s.drop_last()) * 10 + char_digit(s.last())
    }
}

pub proof fn lemma_digits_value_nonneg(s: Seq<char>)
    requires
        all_digit_chars(s),
    ensures
        spec_digits_value(s) >= 0,
    decreases s.len(),
{
    if s.len() > 0 {
        assert(all_digit_chars(s.drop_last()));
        lemma_digits_value_nonneg(s.drop_last());
    }
}

/// A digit string is worth at least as much as any of its prefixes.
pub proof fn lemma_digits_value_prefix(s: Seq<char>, j: int)
    requires
        all_digit_chars(s),
        0 <= j <= s.len(),
    ensures
        spec_digits_value(s) >= spec_digits_value(s.subrange(0, j)),
    decreases s.len() - j,
{
    if j == s.len() {
        assert(s.subrange(0, j) =~= s);
    } else {
        assert(all_digit_chars(s.drop_last()));
        assert(s.drop_last().subrange(0, j) =~= s.subrange(0, j));
        lemma_digits_value_prefix(s.drop_last(), j);
        lemma_digits_value_nonneg(s.drop_last());
    }
}

/// What `i64` parsing of a decimal string yields: an optional sign
/// followed by at least one digit, value within the `i64` range.
pub open spec fn spec_parse_i64(s: Seq<char>) -> Option<i64> {
    if s.len() == 0 {
        None
    } else {
        let neg = s[0] == '-';
        let body = if s[0] == '-' || s[0] == '+' {
            s.subrange(1, s.len() as int)
        } else {
            s
        };
        if body.len() == 0 || !all_digit_chars(body) {
            None
        } else {
            let v = spec_digits_value(body);
            if neg {
                if v <= 0x8000000000000000 {
                    Some((-v) as i64)
                } else {
                    None
                }
            } else {
                if v <= 0x7fffffffffffffff {
                    Some(v as i64)
                } else {
                    None
                }
            }
        }
    }
}

/// Parses a decimal `i64`, accepting exactly the strings that
/// `spec_parse_i64` gives a value.
pub fn parse_i64(s: &str) -> (r: Option<i64>)
    ensures
        r == spec_parse_i64(s@),
{
    let n = s.unicode_len();
    if n == 0 {
        return None;
    }
    let first = s.get_char(0);
    let neg = first == '-';
    let has_sign = neg || first == '+';
    let start: usize = if has_sign {
        1
    } else {
        0
    };
    if start == n {
        return None;
    }
    let ghost body: Seq<char> = if has_sign {
        s@.subrange(1, s@.len() as int)
    } else {
        s@
    };
    assert(body.len() == n - start);
    assert(forall|j: int| 0 <= j < body.len() ==> body[j] == s@[j + start]);
    let bound: u64 = if neg {
        0x8000000000000000
    } else {
        0x7fffffffffffffff
    };
    let mut acc: u64 = 0;
    let mut i: usize = start;
    while i < n
        invariant
            n == s@.len(),
            start <= i <= n,
            start < n,
            neg == (s@[0] == '-'),
            has_sign == (s@[0] == '-' || s@[0] == '+'),
            start == if has_sign { 1int } else { 0int },
            body == if has_sign { s@.subrange(1, s@.len() as int) } else { s@ },
            body.len() == n - start,
            forall|j: int| 0 <= j < body.len() ==> body[j] == s@[j + start],
            forall|j: int| 0 <= j < i - start ==> is_digit_char(#[trigger] body[j]),
            acc == spec_digits_value(body.subrange(0, i - start)),
            acc <= bound,
            bound == if neg { 0x8000000000000000u64 } else { 0x7fffffffffffffffu64 },
        decreases n - i,
    {
        let c = s.get_char(i);
        let v: u32 = c as u32;
        if !(48 <= v && v <= 57) {
            assert(!all_digit_chars(body)) by {
                assert(!is_digit_char(body[i - start]));
            }
            return None;
        }
        let d: u64 = (v - 48) as u64;
        let ghost pref = body.subrange(0, i - start);
        let ghost pref1 = body.subrange(0, i + 1 - start);
        proof {
            assert(pref1.drop_last() =~= pref);
            assert(pref1.last() == body[i - start]);
            assert(spec_digits_value(pref1) == acc * 10 + d);
        }
        if acc > 1844674407370955161 || acc * 10 > bound - d {
            // the value denoted so far already exceeds the i64 range
            proof {
                assert(spec_digits_value(pref1) > bound);
                if all_digit_chars(body) {
                    lemma_digits_value_prefix(body, i + 1 - start);
                }
            }
            return None;
        }
        acc = acc * 10 + d;
        i += 1;
    }
    assert(body.subrange(0, n - start) =~= body);
    assert(all_digit_chars(body));
    if neg {
        if acc == 0x8000000000000000 {
            Some(-0x7fffffffffffffffi64 - 1)
        } else {
            Some(-(acc as i64))
        }
    } else {
        Some(acc as i64)
    }
}


/// What `u32` parsing of a decimal string yields: an optional leading
/// `+` followed by at least one digit, value within the `u32` range.
pub open spec fn spec_parse_u32(s: Seq<char>) -> Option<u32> {
    if s.len() == 0 {
        None
    } else {
        let body = if s[0] == '+' {
            s.subrange(1, s.len() as int)
        } else {
            s
        };
        if body.len() == 0 || !all_digit_chars(body) {
            None
        } else {
            let v = spec_digits_value(body);
            if v <= 0xffffffff {
                Some(v as u32)
            } else {
                None
            }
        }
    }
}

/// Parses a decimal `u32`, accepting exactly the strings that
/// `spec_parse_u32` gives a value.
pub fn parse_u32(s: &str) -> (r: Option<u32>)
    ensures
        r == spec_parse_u32(s@),
{
    let n = s.unicode_len();
    if n == 0 {
        return None;
    }
    let has_sign = s.get_char(0) == '+';
    let start: usize = if has_sign {
        1
    } else {
        0
    };
    if start == n {
        return None;
    }
    let ghost body: Seq<char> = if has_sign {
        s@.subrange(1, s@.len() as int)
    } else {
        s@
    };
    assert(body.len() == n - start);
    assert(forall|j: int| 0 <= j < body.len() ==> body[j] == s@[j + start]);
    let mut acc: u64 = 0;
    let mut i: usize = start;
    while i < n
        invariant
            n == s@.len(),
            start <= i <= n,
            start < n,
            has_sign == (s@[0] == '+'),
            start == if has_sign { 1int } else { 0int },
            body == if has_sign { s@.subrange(1, s@.len() as int) } else { s@ },
            body.len() == n - start,
            forall|j: int| 0 <= j < body.len() ==> body[j] == s@[j + start],
            forall|j: int| 0 <= j < i - start ==> is_digit_char(#[trigger] body[j]),
            acc == spec_digits_value(body.subrange(0, i - start)),
            acc <= 0xffffffff,
        decreases n - i,
    {
        let c = s.get_char(i);
        let v: u32 = c as u32;
        if !(48 <= v && v <= 57) {
            assert(!all_digit_chars(body)) by {
                assert(!is_digit_char(body[i - start]));
            }
            return None;
        }
        let d: u64 = (v - 48) as u64;
        let ghost pref = body.subrange(0, i - start);
        let ghost pref1 = body.subrange(0, i + 1 - start);
        proof {
            assert(pref1.drop_last() =~= pref);
            assert(pref1.last() == body[i - start]);
            assert(spec_digits_value(pref1) == acc * 10 + d);
        }
        let next: u64 = acc * 10 + d;
        if next > 0xffffffff {
            proof {
                if all_digit_chars(body) {
                    lemma_digits_value_prefix(body, i + 1 - start);
                }
            }
            return None;
        }
        acc = next;
        i += 1;
    }
    assert(body.subrange(0, n - start) =~= body);
    assert(all_digit_chars(body));
    Some(acc as u32)
}

/// The decimal digit character for `d`.
pub open spec fn spec_dec_digit(d: int) -> char {
    if d == 0 {
        '0'
    } else if d == 1 {
        '1'
    } else if d == 2 {
        '2'
    } else if d == 3 {
        '3'
    } else if d == 4 {
        '4'
    } else if d == 5 {
        '5'
    } else if d == 6 {
        '6'
    } else if d == 7 {
        '7'
    } else if d == 8 {
        '8'
    } else {
        '9'
    }
}

/// The decimal rendering of a non-negative integer, without sign or
/// leading zeros.
pub open spec fn spec_dec_str(n: int) -> Seq<char>
    decreases n,
{
    if n <= 9 {
        seq![spec_dec_digit(n)]
    } else {
        spec_dec_str(n / 10).push(spec_dec_digit(n % 10))
    }
}

fn digit_str(d: u64) -> (r: &'static str)
    requires
        d < 10,
    ensures
        r@ =~= seq![spec_dec_digit(d as int)],
{
    proof {
        reveal_strlit("0");
        reveal_strlit("1");
        reveal_strlit("2");
        reveal_strlit("3");
        reveal_strlit("4");
        reveal_strlit("5");
        reveal_strlit("6");
        reveal_strlit("7");
        reveal_strlit("8");
        reveal_strlit("9");
    }
    match d {
        0 => "0",
        1 => "1",
        2 => "2",
        3 => "3",
        4 => "4",
        5 => "5",
        6 => "6",
        7 => "7",
        8 => "8",
        _ => "9",
    }
}

/// Renders `n` in decimal, digit by digit.
pub fn u64_to_string(n: u64) -> (r: String)
    ensures
        r@ == spec_dec_str(n as int),
    decreases n,
{
    if n <= 9 {
        digit_str(n).to_owned()
    } else {
        let mut prefix = u64_to_string(n / 10);
        prefix.append(digit_str(n % 10));
        assert(prefix@ =~= spec_dec_str(n as int));
        prefix
    }
}

/// Renders a non-negative `i64` in decimal; the store's identifiers are
/// always positive, so no sign is ever needed.
pub fn id_to_string(n: i64) -> (r: String)
    requires
        n >= 0,
    ensures
        r@ == spec_dec_str(n as int),
{
    u64_to_string(n as u64)
}

} // verus!
