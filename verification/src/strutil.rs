//! Small verified string utilities: character-wise comparison, whitespace
//! tokenization of tool output, suffix tests and decimal formatting.

use vstd::prelude::*;
use vstd::string::StrSliceExecFns;
use vstd::string::StringExecFns;

verus! {

/// The whitespace characters that separate tokens in a tool's `--version`
/// output: the characters with the Unicode White_Space property, as
/// `char::is_whitespace` recognizes them.
pub open spec fn is_ws_char(c: char) -> bool {
    c == '\t' || c == '\n' || c == '\u{000B}' || c == '\u{000C}' || c == '\r' || c == ' '
        || c == '\u{0085}' || c == '\u{00A0}' || c == '\u{1680}' || ('\u{2000}' <= c && c
        <= '\u{200A}') || c == '\u{2028}' || c == '\u{2029}' || c == '\u{202F}'
        || c == '\u{205F}' || c == '\u{3000}'
}

/// First index at or after `i` holding a non-whitespace character, or the
/// length of `s` if there is none.
pub open spec fn skip_ws_from(s: Seq<char>, i: nat) -> nat
    decreases s.len() - i,
{
    if i >= s.len() {
        i
    } else if is_ws_char(s[i as int]) {
        skip_ws_from(s, i + 1)
    } else {
        i
    }
}

/// First index at or after `i` holding a whitespace character, or the length
/// of `s` if there is none: the end of the token starting at `i`.
pub open spec fn token_end_from(s: Seq<char>, i: nat) -> nat
    decreases s.len() - i,
{
    if i >= s.len() {
        i
    } else if !is_ws_char(s[i as int]) {
        token_end_from(s, i + 1)
    } else {
        i
    }
}

/// The second whitespace-separated token of `s`, if `s` has at least two.
pub open spec fn second_token(s: Seq<char>) -> Option<Seq<char>> {
    let a = skip_ws_from(s, 0);
    let b = token_end_from(s, a);
    let c = skip_ws_from(s, b);
    let d = token_end_from(s, c);
    if c < s.len() {
        Some(s.subrange(c as int, d as int))
    } else {
        None
    }
}

pub fn is_ws(c: char) -> (r: bool)
    ensures
        r == is_ws_char(c),
{
    c == '\t' || c == '\n' || c == '\u{000B}' || c == '\u{000C}' || c == '\r' || c == ' '
        || c == '\u{0085}' || c == '\u{00A0}' || c == '\u{1680}' || ('\u{2000}' <= c && c
        <= '\u{200A}') || c == '\u{2028}' || c == '\u{2029}' || c == '\u{202F}'
        || c == '\u{205F}' || c == '\u{3000}'
}

fn skip_ws_exec(s: &str, i: usize) -> (j: usize)
    requires
        i <= s@.len(),
    ensures
        j == skip_ws_from(s@, i as nat),
        i <= j <= s@.len(),
    decreases s@.len() - i,
{
    let n = s.unicode_len();
    if i >= n {
        i
    } else if is_ws(s.get_char(i)) {
        skip_ws_exec(s, i + 1)
    } else {
        i
    }
}

fn token_end_exec(s: &str, i: usize) -> (j: usize)
    requires
        i <= s@.len(),
    ensures
        j == token_end_from(s@, i as nat),
        i <= j <= s@.len(),
    decreases s@.len() - i,
{
    let n = s.unicode_len();
    if i >= n {
        i
    } else if !is_ws(s.get_char(i)) {
        token_end_exec(s, i + 1)
    } else {
        i
    }
}

/// Extracts the second whitespace-separated token of `s`, as the reference
/// sequence-level `second_token` describes it.
pub fn second_token_exec(s: &str) -> (r: Option<String>)
    ensures
        r is Some <==> second_token(s@) is Some,
        r matches Some(v) ==> second_token(s@) == Some(v@),
{
    let a = skip_ws_exec(s, 0);
    let b = token_end_exec(s, a);
    let c = skip_ws_exec(s, b);
    let d = token_end_exec(s, c);
    let n = s.unicode_len();
    if c < n {
        Some(s.substring_char(c, d).to_owned())
    } else {
        None
    }
}

/// Character-wise string equality, reflected as equality of the views.
pub fn str_eq(a: &str, b: &str) -> (r: bool)
    ensures
        r == (a@ == b@),
{
    let na = a.unicode_len();
    let nb = b.unicode_len();
    if na != nb {
        return false;
    }
    let mut i: usize = 0;
    while i < na
        invariant
            na == a@.len(),
            nb == b@.len(),
            na == nb,
            i <= na,
            forall|k: int| 0 <= k < i ==> a@[k] == b@[k],
        decreases na - i,
    {
        if a.get_char(i) != b.get_char(i) {
            return false;
        }
        i += 1;
    }
    proof {
        assert(a@ =~= b@);
    }
    true
}

/// Whether `s` ends with `suffix`.
pub open spec fn spec_str_ends_with(s: Seq<char>, suffix: Seq<char>) -> bool {
    s.len() >= suffix.len() && s.subrange(s.len() - suffix.len(), s.len() as int) == suffix
}

/// True when `s` ends with `suffix`, reflected on the views.
pub fn str_ends_with(s: &str, suffix: &str) -> (r: bool)
    ensures
        r == spec_str_ends_with(s@, suffix@),
{
    let n = s.unicode_len();
    let m = suffix.unicode_len();
    if n < m {
        return false;
    }
    let tail = s.substring_char(n - m, n);
    str_eq(tail, suffix)
}

/// The decimal digit character for `d`.
pub open spec fn dec_digit(d: nat) -> char {
    if d == 0 {
        '0'
    } else if d == 1 {
        '1'
    } else if d == 2 {
        '2'
    } else if d == 3 {
        '3'
    } else if d == 4 {
        '4'
    } else if d == 5 {
        '5'
    } else if d == 6 {
        '6'
    } else if d == 7 {
        '7'
    } else if d == 8 {
        '8'
    } else {
        '9'
    }
}

/// The usual decimal rendering of `n`, most significant digit first.
pub open spec fn dec_str(n: nat) -> Seq<char>
    decreases n,
{
    if n < 10 {
        seq![dec_digit(n)]
    } else {
        dec_str(n / 10).push(dec_digit(n % 10))
    }
}

fn digit_str(d: u64) -> (s: &'static str)
    requires
        d < 10,
    ensures
        s@ == seq![dec_digit(d as nat)],
{
    proof {
        reveal_strlit("0");
        reveal_strlit("1");
        reveal_strlit("2");
        reveal_strlit("3");
        reveal_strlit("4");
        reveal_strlit("5");
        reveal_strlit("6");
        reveal_strlit("7");
        reveal_strlit("8");
        reveal_strlit("9");
    }
    let r = if d == 0 {
        "0"
    } else if d == 1 {
        "1"
    } else if d == 2 {
        "2"
    } else if d == 3 {
        "3"
    } else if d == 4 {
        "4"
    } else if d == 5 {
        "5"
    } else if d == 6 {
        "6"
    } else if d == 7 {
        "7"
    } else {
        "8"
    };
    let r = if d == 9 { "9" } else { r };
    proof {
        assert(r@ =~= seq![dec_digit(d as nat)]);
    }
    r
}

/// Renders `n` in decimal.
pub fn u64_to_dec(n: u64) -> (s: String)
    ensures
        s@ == dec_str(n as nat),
    decreases n,
{
    if n < 10 {
        digit_str(n).to_owned()
    } else {
        let front = u64_to_dec(n / 10);
        let s = front.concat(digit_str(n % 10));
        proof {
            assert(s@ =~= dec_str(n as nat));
        }
        s
    }
}

} // verus!
