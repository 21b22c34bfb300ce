//! Character classes, searches and rewrites on strings, stated over `Seq<char>`.

use vstd::prelude::*;
use vstd::string::*;

verus! {

/// Sets of characters that names of different kinds may be made of.
#[derive(Clone, Copy, Debug, PartialEq, Eq, Structural)]
pub enum CharClass {
    /// ASCII digits.
    Digit,
    /// ASCII letters, digits and `-`.
    Label,
    /// ASCII letters, digits, `-` and `.`.
    Domain,
    /// ASCII letters, digits, `-`, `.` and `@`.
    Unit,
}

pub open spec fn is_digit(c: char) -> bool {
    '0' <= c && c <= '9'
}

pub open spec fn is_alnum(c: char) -> bool {
    ('a' <= c && c <= 'z') || ('A' <= c && c <= 'Z') || is_digit(c)
}

pub open spec fn allows(class: CharClass, c: char) -> bool {
    match class {
        CharClass::Digit => is_digit(c),
        CharClass::Label => is_alnum(c) || c == '-',
        CharClass::Domain => is_alnum(c) || c == '-' || c == '.',
        CharClass::Unit => is_alnum(c) || c == '-' || c == '.' || c == '@',
    }
}

/// Every character of `s` belongs to `class`.
pub open spec fn all_in(s: Seq<char>, class: CharClass) -> bool {
    forall|i: int| 0 <= i < s.len() ==> allows(class, #[trigger] s[i])
}

pub open spec fn dots_at(s: Seq<char>, i: int) -> bool {
    0 <= i && i + 1 < s.len() && s[i] == '.' && s[i + 1] == '.'
}

/// `s` holds two dots in a row.
pub open spec fn has_dot_dot(s: Seq<char>) -> bool {
    exists|i: int| #[trigger] dots_at(s, i)
}

pub open spec fn starts_with(s: Seq<char>, c: char) -> bool {
    s.len() > 0 && s[0] == c
}

/// The characters that Unicode gives the property White_Space.
pub open spec fn is_white_space(c: char) -> bool {
    let n = c as u32;
    (0x09 <= n && n <= 0x0D) || n == 0x20 || n == 0x85 || n == 0xA0 || n == 0x1680 || (0x2000 <= n
        && n <= 0x200A) || n == 0x2028 || n == 0x2029 || n == 0x202F || n == 0x205F || n
        == 0x3000
}

/// `s` is empty or made of white space only.
pub open spec fn is_blank(s: Seq<char>) -> bool {
    forall|i: int| 0 <= i < s.len() ==> is_white_space(#[trigger] s[i])
}

/// `t` is the part `s[i..j]`, nothing but white space lies outside it, and it
/// neither starts nor ends with white space.
pub open spec fn trims_at(t: Seq<char>, s: Seq<char>, i: int, j: int) -> bool {
    &&& 0 <= i <= j <= s.len()
    &&& t == s.subrange(i, j)
    &&& is_blank(s.subrange(0, i))
    &&& is_blank(s.subrange(j, s.len() as int))
    &&& (i < j ==> !is_white_space(s[i]) && !is_white_space(s[j - 1]))
}

/// What replacing every match of `pat` in `s` by `with` gives: matches are taken
/// from the left and do not overlap, and the empty pattern matches before every
/// character and at the end.
pub open spec fn replaced(s: Seq<char>, pat: Seq<char>, with: Seq<char>) -> Seq<char>
    decreases s.len(),
{
    if pat.len() == 0 {
        if s.len() == 0 {
            with
        } else {
            with + seq![s[0]] + replaced(s.drop_first(), pat, with)
        }
    } else if s.len() < pat.len() {
        s
    } else if s.subrange(0, pat.len() as int) == pat {
        with + replaced(s.subrange(pat.len() as int, s.len() as int), pat, with)
    } else {
        seq![s[0]] + replaced(s.drop_first(), pat, with)
    }
}

pub open spec fn digit_char(d: nat) -> char {
    if d == 0 {
        '0'
    } else if d == 1 {
        '1'
    } else if d == 2 {
        '2'
    } else if d == 3 {
        '3'
    } else if d == 4 {
        '4'
    } else if d == 5 {
        '5'
    } else if d == 6 {
        '6'
    } else if d == 7 {
        '7'
    } else if d == 8 {
        '8'
    } else {
        '9'
    }
}

/// The decimal digits of `n`, without leading zeros.
pub open spec fn digits(n: nat) -> Seq<char>
    decreases n,
{
    if n < 10 {
        seq![digit_char(n)]
    } else {
        digits(n / 10) + seq![digit_char(n % 10)]
    }
}

/// `n` written in base ten, with `-` in front where it is negative.
pub open spec fn decimal(n: int) -> Seq<char> {
    if n < 0 {
        seq!['-'] + digits((-n) as nat)
    } else {
        digits(n as nat)
    }
}

/// The number that a row of decimal digits stands for.
pub open spec fn digits_value(s: Seq<char>) -> nat
    decreases s.len(),
{
    if s.len() == 0 {
        0
    } else {
        digits_value(s.drop_last()) * 10 + (s.last() as u32 - '0' as u32) as nat
    }
}

/// What a string means as a `u32`: an optional `+`, then one or more decimal
/// digits whose value fits.
pub open spec fn parsed_u32(s: Seq<char>) -> Option<u32> {
    let body = if starts_with(s, '+') {
        s.drop_first()
    } else {
        s
    };
    if body.len() > 0 && all_in(body, CharClass::Digit) && digits_value(body) <= u32::MAX {
        Some(digits_value(body) as u32)
    } else {
        None
    }
}

/// What `regex`'s `Regex::replace_all` returns for a pattern, a haystack and a
/// replacement, or `None` where `Regex::new` does not accept the pattern.
pub uninterp spec fn regex_replaced(pattern: Seq<char>, haystack: Seq<char>, rep: Seq<char>) -> Option<Seq<char>>;

/// Calls std's `str::trim`. Claims what its documentation says: the result is
/// the part of `s` left after the white space at both ends is taken away.
#[verifier::external_body]
pub(crate) fn trimmed(s: &str) -> (t: &str)
    ensures
        exists|i: int, j: int| #[trigger] trims_at(t@, s@, i, j),
{
    s.trim()
}

/// Calls std's `str::replace`. Claims that the result is `s` with every match
/// of `pat`, found from the left without overlap, replaced by `with`.
#[verifier::external_body]
pub(crate) fn replace_all(s: &str, pat: &str, with: &str) -> (r: String)
    ensures
        r@ == replaced(s@, pat@, with@),
{
    s.replace(pat, with)
}

/// Calls std's `ToString::to_string` on an `i64`. Claims that the result is the
/// number in base ten, with a leading `-` for a negative one.
#[verifier::external_body]
pub(crate) fn decimal_string(n: i64) -> (r: String)
    ensures
        r@ == decimal(n as int),
{
    n.to_string()
}

/// Calls std's `str::parse` for `u32`. Claims that a string is accepted where
/// it is an optional `+` and then decimal digits whose value fits in 32 bits.
#[verifier::external_body]
pub(crate) fn parse_u32(s: &str) -> (r: Option<u32>)
    ensures
        r == parsed_u32(s@),
{
    s.parse::<u32>().ok()
}

/// Calls `regex::Regex::new` and, where the pattern is accepted,
/// `regex::Regex::replace_all`. Claims only that the outcome is a function of
/// the three strings.
#[verifier::external_body]
pub(crate) fn regex_replace_all(pattern: &str, haystack: &str, rep: &str) -> (r: Option<String>)
    ensures
        r.is_some() == regex_replaced(pattern@, haystack@, rep@).is_some(),
        r.is_some() ==> r.unwrap()@ == regex_replaced(pattern@, haystack@, rep@).unwrap(),
{
    match regex::Regex::new(pattern) {
        Ok(re) => Some(re.replace_all(haystack, rep).into_owned()),
        Err(_) => None,
    }
}

pub fn char_is_digit(c: char) -> (b: bool)
    ensures
        b == is_digit(c),
{
    c >= '0' && c <= '9'
}

pub fn char_is_alnum(c: char) -> (b: bool)
    ensures
        b == is_alnum(c),
{
    (c >= 'a' && c <= 'z') || (c >= 'A' && c <= 'Z') || char_is_digit(c)
}

pub fn class_allows(class: CharClass, c: char) -> (b: bool)
    ensures
        b == allows(class, c),
{
    match class {
        CharClass::Digit => char_is_digit(c),
        CharClass::Label => char_is_alnum(c) || c == '-',
        CharClass::Domain => char_is_alnum(c) || c == '-' || c == '.',
        CharClass::Unit => char_is_alnum(c) || c == '-' || c == '.' || c == '@',
    }
}

/// Tells whether every character of `s` belongs to `class`.
pub fn str_all_in(s: &str, class: CharClass) -> (b: bool)
    ensures
        b == all_in(s@, class),
{
    let n: usize = s.unicode_len();
    let mut i: usize = 0;
    while i < n
        invariant
            n == s@.len(),
            i <= n,
            forall|j: int| 0 <= j < i ==> allows(class, #[trigger] s@[j]),
        decreases n - i,
    {
        if !class_allows(class, s.get_char(i)) {
            return false;
        }
        i = i + 1;
    }
    true
}

/// Tells whether `c` occurs in `s`.
pub fn str_contains_char(s: &str, c: char) -> (b: bool)
    ensures
        b == s@.contains(c),
{
    let n: usize = s.unicode_len();
    let mut i: usize = 0;
    while i < n
        invariant
            n == s@.len(),
            i <= n,
            forall|j: int| 0 <= j < i ==> s@[j] != c,
        decreases n - i,
    {
        if s.get_char(i) == c {
            return true;
        }
        i = i + 1;
    }
    false
}

/// Tells whether `s` holds two dots in a row.
pub fn str_has_dot_dot(s: &str) -> (b: bool)
    ensures
        b == has_dot_dot(s@),
{
    let n: usize = s.unicode_len();
    if n < 2 {
        assert(forall|i: int| !dots_at(s@, i));
        return false;
    }
    let mut i: usize = 0;
    while i < n - 1
        invariant
            n == s@.len(),
            n >= 2,
            i <= n - 1,
            forall|j: int| j < i ==> !dots_at(s@, j),
        decreases n - i,
    {
        if s.get_char(i) == '.' && s.get_char(i + 1) == '.' {
            assert(dots_at(s@, i as int));
            return true;
        }
        i = i + 1;
    }
    assert(forall|j: int| !dots_at(s@, j));
    false
}

/// Tells whether two strings hold the same characters.
pub fn str_eq(a: &str, b: &str) -> (r: bool)
    ensures
        r == (a@ == b@),
{
    let n: usize = a.unicode_len();
    if n != b.unicode_len() {
        return false;
    }
    let mut i: usize = 0;
    while i < n
        invariant
            n == a@.len(),
            n == b@.len(),
            i <= n,
            forall|j: int| 0 <= j < i ==> a@[j] == b@[j],
        decreases n - i,
    {
        if a.get_char(i) != b.get_char(i) {
            return false;
        }
        i = i + 1;
    }
    assert(a@ =~= b@);
    true
}

/// Tells whether `s` begins with `c`.
pub fn str_starts_with(s: &str, c: char) -> (b: bool)
    ensures
        b == starts_with(s@, c),
{
    let n: usize = s.unicode_len();
    n > 0 && s.get_char(0) == c
}

/// Tells whether `s` is empty once the white space at both ends is gone.
pub fn str_is_blank(s: &str) -> (b: bool)
    ensures
        b == is_blank(s@),
{
    let t = trimmed(s);
    let b = t.is_empty();
    proof {
        let (i, j) = choose|i: int, j: int| #[trigger] trims_at(t@, s@, i, j);
        assert(trims_at(t@, s@, i, j));
        if b {
            assert(i == j);
            assert forall|k: int| 0 <= k < s@.len() implies is_white_space(#[trigger] s@[k]) by {
                if k < i {
                    assert(s@.subrange(0, i)[k] == s@[k]);
                } else {
                    assert(s@.subrange(j, s@.len() as int)[k - j] == s@[k]);
                }
            }
        } else {
            assert(i < j);
            assert(!is_white_space(s@[i]));
        }
    }
    b
}

/// Replacing leaves out a character that neither the text nor the replacement
/// holds.
pub proof fn lemma_replaced_keeps_out(s: Seq<char>, pat: Seq<char>, with: Seq<char>, c: char)
    requires
        !s.contains(c),
        !with.contains(c),
    ensures
        !replaced(s, pat, with).contains(c),
    decreases s.len(),
{
    let r = replaced(s, pat, with);
    if pat.len() == 0 {
        if s.len() > 0 {
            let rest = s.drop_first();
            assert forall|k: int| 0 <= k < rest.len() implies rest[k] != c by {
                assert(rest[k] == s[k + 1]);
                assert(s.contains(s[k + 1]));
            }
            lemma_replaced_keeps_out(rest, pat, with, c);
            assert(s.contains(s[0]));
            let tail = replaced(rest, pat, with);
            assert forall|k: int| 0 <= k < r.len() implies r[k] != c by {
                if k < with.len() {
                    assert(with.contains(with[k]));
                } else if k == with.len() {
                } else {
                    assert(tail.contains(tail[k - with.len() - 1]));
                }
            }
        }
    } else if s.len() < pat.len() {
    } else if s.subrange(0, pat.len() as int) == pat {
        let rest = s.subrange(pat.len() as int, s.len() as int);
        assert forall|k: int| 0 <= k < rest.len() implies rest[k] != c by {
            assert(rest[k] == s[k + pat.len()]);
            assert(s.contains(s[k + pat.len()]));
        }
        lemma_replaced_keeps_out(rest, pat, with, c);
        let tail = replaced(rest, pat, with);
        assert forall|k: int| 0 <= k < r.len() implies r[k] != c by {
            if k < with.len() {
                assert(with.contains(with[k]));
            } else {
                assert(tail.contains(tail[k - with.len()]));
            }
        }
    } else {
        let rest = s.drop_first();
        assert forall|k: int| 0 <= k < rest.len() implies rest[k] != c by {
            assert(rest[k] == s[k + 1]);
            assert(s.contains(s[k + 1]));
        }
        lemma_replaced_keeps_out(rest, pat, with, c);
        assert(s.contains(s[0]));
        let tail = replaced(rest, pat, with);
        assert forall|k: int| 0 <= k < r.len() implies r[k] != c by {
            if k >= 1 {
                assert(tail.contains(tail[k - 1]));
            }
        }
    }
}

/// Replacing a single character by a text without it leaves none of it.
pub proof fn lemma_replaced_removes(s: Seq<char>, c: char, with: Seq<char>)
    requires
        !with.contains(c),
    ensures
        !replaced(s, seq![c], with).contains(c),
    decreases s.len(),
{
    let pat = seq![c];
    let r = replaced(s, pat, with);
    if s.len() < 1 {
    } else if s.subrange(0, 1) == pat {
        let rest = s.subrange(1, s.len() as int);
        lemma_replaced_removes(rest, c, with);
        let tail = replaced(rest, pat, with);
        assert forall|k: int| 0 <= k < r.len() implies r[k] != c by {
            if k < with.len() {
                assert(with.contains(with[k]));
            } else {
                assert(tail.contains(tail[k - with.len()]));
            }
        }
    } else {
        let rest = s.drop_first();
        lemma_replaced_removes(rest, c, with);
        let tail = replaced(rest, pat, with);
        assert(s[0] != c) by {
            if s[0] == c {
                assert(s.subrange(0, 1) =~= pat);
            }
        }
        assert forall|k: int| 0 <= k < r.len() implies r[k] != c by {
            if k >= 1 {
                assert(tail.contains(tail[k - 1]));
            }
        }
    }
}

/// Every double quote of `r` stands behind a backslash.
pub open spec fn quotes_escaped(r: Seq<char>) -> bool {
    forall|i: int| 0 <= i < r.len() && #[trigger] r[i] == '"' ==> i > 0 && r[i - 1] == '\\'
}

/// Replacing every double quote by a backslash and a double quote leaves no
/// double quote without a backslash before it.
pub proof fn lemma_replaced_escapes_quotes(s: Seq<char>)
    ensures
        quotes_escaped(replaced(s, seq!['"'], seq!['\\', '"'])),
    decreases s.len(),
{
    let pat = seq!['"'];
    let with = seq!['\\', '"'];
    let r = replaced(s, pat, with);
    if s.len() < 1 {
    } else if s.subrange(0, 1) == pat {
        let rest = s.subrange(1, s.len() as int);
        lemma_replaced_escapes_quotes(rest);
        let tail = replaced(rest, pat, with);
        assert forall|i: int| 0 <= i < r.len() && #[trigger] r[i] == '"' implies i > 0 && r[i
            - 1] == '\\' by {
            if i >= 2 {
                assert(r[i] == tail[i - 2]);
                assert(tail[i - 2] == '"');
                assert(r[i - 1] == tail[i - 3]);
            }
        }
    } else {
        let rest = s.drop_first();
        lemma_replaced_escapes_quotes(rest);
        let tail = replaced(rest, pat, with);
        assert(s[0] != '"') by {
            if s[0] == '"' {
                assert(s.subrange(0, 1) =~= pat);
            }
        }
        assert forall|i: int| 0 <= i < r.len() && #[trigger] r[i] == '"' implies i > 0 && r[i
            - 1] == '\\' by {
            if i >= 1 {
                assert(r[i] == tail[i - 1]);
                assert(tail[i - 1] == '"');
                assert(r[i - 1] == tail[i - 2]);
            }
        }
    }
}

} // verus!
