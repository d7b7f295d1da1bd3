//! Text helpers: what trimming means, stated over sequences of characters, and
//! the few string operations of the standard library that the rest of the crate
//! relies on.

use vstd::prelude::*;

verus! {

/// Whether `c` is white space as Unicode defines it (`White_Space`).
pub open spec fn is_white_space(c: char) -> bool {
    let n = c as u32;
    ||| 0x09 <= n <= 0x0D
    ||| n == 0x20
    ||| n == 0x85
    ||| n == 0xA0
    ||| n == 0x1680
    ||| 0x2000 <= n <= 0x200A
    ||| n == 0x2028
    ||| n == 0x2029
    ||| n == 0x202F
    ||| n == 0x205F
    ||| n == 0x3000
}

/// `s` without its leading white space.
pub open spec fn trim_start_of(s: Seq<char>) -> Seq<char>
    decreases s.len(),
{
    if s.len() > 0 && is_white_space(s[0]) {
        trim_start_of(s.subrange(1, s.len() as int))
    } else {
        s
    }
}

/// `s` without its trailing white space.
pub open spec fn trim_end_of(s: Seq<char>) -> Seq<char>
    decreases s.len(),
{
    if s.len() > 0 && is_white_space(s.last()) {
        trim_end_of(s.drop_last())
    } else {
        s
    }
}

/// `s` without leading and trailing white space.
pub open spec fn trimmed(s: Seq<char>) -> Seq<char> {
    trim_end_of(trim_start_of(s))
}

proof fn lemma_trim_start_is_suffix(s: Seq<char>)
    ensures
        trim_start_of(s).len() <= s.len(),
        trim_start_of(s) == s.subrange(s.len() - trim_start_of(s).len(), s.len() as int),
        trim_start_of(s).len() > 0 ==> !is_white_space(trim_start_of(s)[0]),
    decreases s.len(),
{
    if s.len() > 0 && is_white_space(s[0]) {
        let rest = s.subrange(1, s.len() as int);
        lemma_trim_start_is_suffix(rest);
        let t = trim_start_of(rest);
        assert(t == s.subrange(s.len() - t.len(), s.len() as int));
    } else {
        assert(s == s.subrange(0, s.len() as int));
    }
}

proof fn lemma_trim_end_is_prefix(s: Seq<char>)
    ensures
        trim_end_of(s).len() <= s.len(),
        trim_end_of(s) == s.subrange(0, trim_end_of(s).len() as int),
        trim_end_of(s).len() > 0 ==> !is_white_space(trim_end_of(s).last()),
    decreases s.len(),
{
    if s.len() > 0 && is_white_space(s.last()) {
        lemma_trim_end_is_prefix(s.drop_last());
        let t = trim_end_of(s.drop_last());
        assert(t == s.subrange(0, t.len() as int));
    } else {
        assert(s == s.subrange(0, s.len() as int));
    }
}

/// What trimming leaves is a part of the text that neither begins nor ends
/// with white space, and trimming it again changes nothing.
pub proof fn lemma_trimmed_is_clean(s: Seq<char>)
    ensures
        trimmed(s).len() <= s.len(),
        trimmed(s).len() > 0 ==> !is_white_space(trimmed(s)[0]) && !is_white_space(
            trimmed(s).last(),
        ),
        trimmed(trimmed(s)) == trimmed(s),
{
    let t = trim_start_of(s);
    lemma_trim_start_is_suffix(s);
    lemma_trim_end_is_prefix(t);
    let u = trim_end_of(t);
    if u.len() > 0 {
        assert(u[0] == t[0]);
    }
    assert(trim_start_of(u) == u);
    assert(trim_end_of(u) == u);
}

/// Whether `c` ends a line: a carriage return or a line feed.
pub open spec fn is_line_end(c: char) -> bool {
    c == '\r' || c == '\n'
}

/// `s` without the carriage returns and line feeds at its end.
pub open spec fn without_line_end(s: Seq<char>) -> Seq<char>
    decreases s.len(),
{
    if s.len() > 0 && is_line_end(s.last()) {
        without_line_end(s.drop_last())
    } else {
        s
    }
}

/// The character that stands for the digit `d`.
pub open spec fn digit_char(d: nat) -> char {
    if d == 0 {
        '0'
    } else if d == 1 {
        '1'
    } else if d == 2 {
        '2'
    } else if d == 3 {
        '3'
    } else if d == 4 {
        '4'
    } else if d == 5 {
        '5'
    } else if d == 6 {
        '6'
    } else if d == 7 {
        '7'
    } else if d == 8 {
        '8'
    } else {
        '9'
    }
}

/// The decimal digits of `n`, without leading zeros.
pub open spec fn digits_of(n: nat) -> Seq<char>
    decreases n,
{
    if n < 10 {
        seq![digit_char(n)]
    } else {
        digits_of(n / 10).push(digit_char(n % 10))
    }
}

/// `n` in decimal, with a minus sign in front where it is negative.
pub open spec fn decimal_text(n: int) -> Seq<char> {
    if n < 0 {
        seq!['-'] + digits_of((-n) as nat)
    } else {
        digits_of(n as nat)
    }
}

/// The view of an optional string.
pub open spec fn opt_view(o: Option<String>) -> Option<Seq<char>> {
    match o {
        Some(s) => Some(s@),
        None => None,
    }
}

/// The texts of a list of strings.
pub open spec fn texts_of(strings: Seq<String>) -> Seq<Seq<char>> {
    strings.map_values(|s: String| s@)
}

/// Puts `text` at the end of `list`.
pub fn push_text(list: &mut Vec<String>, text: String)
    ensures
        texts_of(final(list)@) == texts_of(old(list)@).push(text@),
{
    list.push(text);
    assert(texts_of(list@) =~= texts_of(old(list)@).push(text@));
}

/// Puts a copy of `text` at the end of `list`.
pub fn push_str(list: &mut Vec<String>, text: &str)
    ensures
        texts_of(final(list)@) == texts_of(old(list)@).push(text@),
{
    push_text(list, text.to_owned());
}

/// Whether `list` holds `text`.
pub fn holds_text(list: &Vec<String>, text: &str) -> (r: bool)
    ensures
        r == texts_of(list@).contains(text@),
{
    let wanted = text.to_owned();
    let mut i: usize = 0;
    while i < list.len()
        invariant
            i <= list.len(),
            wanted@ == text@,
            forall|k: int| 0 <= k < i ==> texts_of(list@)[k] != text@,
        decreases list.len() - i,
    {
        if same_string(&list[i], &wanted) {
            assert(texts_of(list@)[i as int] == text@);
            return true;
        }
        i += 1;
    }
    false
}

/// Calls `str::starts_with` with a string slice as the pattern, which holds
/// when `s` begins with the characters of `prefix`.
#[verifier::external_body]
pub(crate) fn starts_with_text(s: &str, prefix: &str) -> (r: bool)
    ensures
        r == prefix@.is_prefix_of(s@),
{
    s.starts_with(prefix)
}

/// Whether two strings are made of the same characters.
pub fn same_string(a: &String, b: &String) -> (r: bool)
    ensures
        r == (a@ == b@),
{
    *a == *b
}

/// Whether two string slices are made of the same characters.
pub fn same_text(a: &str, b: &str) -> (r: bool)
    ensures
        r == (a@ == b@),
{
    let left = a.to_owned();
    let right = b.to_owned();
    same_string(&left, &right)
}

/// Calls `to_string` on an `i32`, which writes the number in decimal, with a
/// minus sign in front where it is negative.
#[verifier::external_body]
pub(crate) fn decimal_string(n: i32) -> (r: String)
    ensures
        r@ == decimal_text(n as int),
{
    n.to_string()
}

/// Calls `str::trim`, which returns the slice of `s` that is left when leading
/// and trailing white space, as Unicode defines it, is removed.
#[verifier::external_body]
pub(crate) fn trim_str<'a>(s: &'a str) -> (r: &'a str)
    ensures
        r@ == trimmed(s@),
{
    s.trim()
}

/// Calls `str::trim_end_matches` with the pattern `['\r', '\n']`, which returns
/// the slice of `s` that is left when every trailing carriage return and line
/// feed is removed.
#[verifier::external_body]
pub(crate) fn trim_line_end<'a>(s: &'a str) -> (r: &'a str)
    ensures
        r@ == without_line_end(s@),
{
    s.trim_end_matches(['\r', '\n'])
}

} // verus!
