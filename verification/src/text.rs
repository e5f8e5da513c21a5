//! Text as a sequence of characters: conversion, search and splitting.

use vstd::prelude::*;
use vstd::string::StrSliceExecFns;

verus! {

/// Calls `String::push`, which puts one character at the end of the string.
#[verifier::external_body]
fn string_push(s: &mut String, c: char)
    ensures
        final(s)@ == old(s)@.push(c),
{
    s.push(c)
}

/// The text that `String::from_utf8_lossy` makes of a byte string: the text
/// that the bytes encode in UTF-8, with a replacement character for each
/// run of bytes that encodes nothing. It is a function of the bytes alone,
/// computed by the standard library and not defined here.
pub uninterp spec fn utf8_lossy(bytes: Seq<u8>) -> Seq<char>;

/// Calls `String::from_utf8_lossy` and takes the text as a string of its own.
#[verifier::external_body]
pub(crate) fn decode_lossy(bytes: &[u8]) -> (r: String)
    ensures
        r@ == utf8_lossy(bytes@),
{
    String::from_utf8_lossy(bytes).into_owned()
}

/// Whether the regular expression `pattern`, in the syntax of the `regex`
/// crate, matches somewhere in `text`; nothing where `pattern` is no
/// regular expression that the crate accepts. It is a function of the two
/// texts alone, computed by the crate and not defined here.
pub uninterp spec fn regex_search(pattern: Seq<char>, text: Seq<char>) -> Option<bool>;

/// Calls `Regex::new` on `pattern` and, where that gives a regular
/// expression, `Regex::is_match` on `text`.
#[verifier::external_body]
pub(crate) fn pattern_matches(pattern: &str, text: &str) -> (r: Option<bool>)
    ensures
        r == regex_search(pattern@, text@),
{
    match regex::Regex::new(pattern) {
        Ok(re) => Some(re.is_match(text)),
        Err(_) => None,
    }
}

/// The characters of a text.
pub fn chars_of(s: &str) -> (r: Vec<char>)
    ensures
        r@ == s@,
{
    let n = s.unicode_len();
    let mut out: Vec<char> = Vec::new();
    let mut i: usize = 0;
    while i < n
        invariant
            n == s@.len(),
            i <= n,
            out@ == s@.subrange(0, i as int),
        decreases n - i,
    {
        out.push(s.get_char(i));
        i += 1;
        assert(out@ =~= s@.subrange(0, i as int));
    }
    assert(s@.subrange(0, n as int) =~= s@);
    out
}

/// The text that the characters from `from` up to `to` make.
pub fn string_of(chars: &Vec<char>, from: usize, to: usize) -> (r: String)
    requires
        from <= to <= chars@.len(),
    ensures
        r@ == chars@.subrange(from as int, to as int),
{
    let mut out = String::new();
    let mut i: usize = from;
    while i < to
        invariant
            from <= i <= to <= chars@.len(),
            out@ == chars@.subrange(from as int, i as int),
        decreases to - i,
    {
        string_push(&mut out, chars[i]);
        i += 1;
        assert(out@ =~= chars@.subrange(from as int, i as int));
    }
    out
}

/// Whether `sep` stands in `s` at the place `i`.
pub open spec fn occurs_at(s: Seq<char>, sep: Seq<char>, i: int) -> bool {
    0 <= i && i + sep.len() <= s.len() && s.subrange(i, i + sep.len()) == sep
}

/// The first place from `from` on at which `sep` stands in `s`, or -1 where
/// it stands at none.
pub open spec fn find_from(s: Seq<char>, sep: Seq<char>, from: int) -> int
    decreases s.len() - from + 1,
{
    if from < 0 || from + sep.len() > s.len() {
        -1
    } else if occurs_at(s, sep, from) {
        from
    } else {
        find_from(s, sep, from + 1)
    }
}

/// The pieces into which the occurrences of `sep` cut `s`, found from left
/// to right without overlap: one piece more than there are cuts. An empty
/// `sep` cuts nothing.
pub open spec fn split_by(s: Seq<char>, sep: Seq<char>) -> Seq<Seq<char>>
    decreases s.len(),
{
    let at = find_from(s, sep, 0);
    if sep.len() == 0 || at < 0 || at + sep.len() > s.len() {
        seq![s]
    } else {
        seq![s.subrange(0, at)] + split_by(s.subrange(at + sep.len(), s.len() as int), sep)
    }
}

/// A split gives one piece at the least.
pub proof fn lemma_split_has_a_piece(s: Seq<char>, sep: Seq<char>)
    ensures
        split_by(s, sep).len() >= 1,
{
}

/// What `find_from` finds is a place at or behind `from` where `sep` stands.
pub proof fn lemma_find_from(s: Seq<char>, sep: Seq<char>, from: int)
    requires
        0 <= from,
    ensures
        find_from(s, sep, from) == -1 || (from <= find_from(s, sep, from) && occurs_at(
            s,
            sep,
            find_from(s, sep, from),
        )),
    decreases s.len() - from + 1,
{
    if from + sep.len() <= s.len() && !occurs_at(s, sep, from) {
        lemma_find_from(s, sep, from + 1);
    }
}

/// Searching a tail of `s` finds what searching `s` from the tail's start
/// finds, counted from that start.
proof fn lemma_find_in_tail(s: Seq<char>, sep: Seq<char>, start: int, from: int)
    requires
        0 <= start <= s.len(),
        0 <= from,
    ensures
        find_from(s.subrange(start, s.len() as int), sep, from) == (if find_from(
            s,
            sep,
            start + from,
        ) < 0 {
            -1
        } else {
            find_from(s, sep, start + from) - start
        }),
    decreases s.len() - start - from + 1,
{
    let tail = s.subrange(start, s.len() as int);
    if from + sep.len() <= tail.len() {
        assert(tail.subrange(from, from + sep.len()) =~= s.subrange(
            start + from,
            start + from + sep.len(),
        ));
        if !occurs_at(tail, sep, from) {
            lemma_find_in_tail(s, sep, start, from + 1);
        }
    }
}

/// Whether `sep` stands in `s` at the place `at`.
fn matches_at(s: &Vec<char>, sep: &Vec<char>, at: usize) -> (r: bool)
    requires
        at + sep@.len() <= s@.len(),
    ensures
        r == occurs_at(s@, sep@, at as int),
{
    let n = s.len();
    let mut k: usize = 0;
    while k < sep.len()
        invariant
            k <= sep@.len(),
            at + sep@.len() <= s@.len(),
            n == s@.len(),
            forall|j: int| 0 <= j < k ==> s@[at + j] == sep@[j],
        decreases sep.len() - k,
    {
        if s[at + k] != sep[k] {
            assert(s@.subrange(at as int, at + sep@.len())[k as int] != sep@[k as int]);
            return false;
        }
        k += 1;
    }
    assert(s@.subrange(at as int, at + sep@.len()) =~= sep@);
    true
}

/// The first place from `from` on at which `sep` stands in `s`.
pub fn find(s: &Vec<char>, sep: &Vec<char>, from: usize) -> (r: Option<usize>)
    ensures
        r.is_none() == (find_from(s@, sep@, from as int) == -1),
        r.is_some() ==> r.unwrap() == find_from(s@, sep@, from as int),
{
    let n = s.len();
    let m = sep.len();
    let mut i: usize = from;
    while m <= n && i <= n - m
        invariant
            n == s@.len(),
            m == sep@.len(),
            from <= i,
            find_from(s@, sep@, from as int) == find_from(s@, sep@, i as int),
        decreases n + 1 - i,
    {
        if matches_at(s, sep, i) {
            proof {
                lemma_find_from(s@, sep@, i as int);
            }
            return Some(i);
        }
        if i == n - m {
            assert(find_from(s@, sep@, i + 1) == -1);
            return None;
        }
        i += 1;
    }
    None
}

/// The character strings of the pieces.
pub open spec fn piece_views(pieces: Seq<Vec<char>>) -> Seq<Seq<char>> {
    Seq::new(pieces.len(), |i: int| pieces[i]@)
}

/// A copy of the characters from `from` up to `to`.
fn piece(s: &Vec<char>, from: usize, to: usize) -> (r: Vec<char>)
    requires
        from <= to <= s@.len(),
    ensures
        r@ == s@.subrange(from as int, to as int),
{
    let mut out: Vec<char> = Vec::new();
    let mut i: usize = from;
    while i < to
        invariant
            from <= i <= to <= s@.len(),
            out@ == s@.subrange(from as int, i as int),
        decreases to - i,
    {
        out.push(s[i]);
        i += 1;
        assert(out@ =~= s@.subrange(from as int, i as int));
    }
    out
}

/// The pieces into which the occurrences of `sep` cut `s`.
pub fn split(s: &Vec<char>, sep: &Vec<char>) -> (r: Vec<Vec<char>>)
    ensures
        piece_views(r@) == split_by(s@, sep@),
{
    let n = s.len();
    let m = sep.len();
    let mut pieces: Vec<Vec<char>> = Vec::new();
    if m == 0 {
        pieces.push(piece(s, 0, n));
        assert(s@.subrange(0, n as int) =~= s@);
        assert(piece_views(pieces@) =~= seq![s@]);
        return pieces;
    }
    let mut pos: usize = 0;
    assert(s@.subrange(0, n as int) =~= s@);
    assert(piece_views(pieces@) + split_by(s@, sep@) =~= split_by(s@, sep@));
    loop
        invariant
            n == s@.len(),
            m == sep@.len(),
            m > 0,
            pos <= n,
            split_by(s@, sep@) == piece_views(pieces@) + split_by(
                s@.subrange(pos as int, n as int),
                sep@,
            ),
        decreases n - pos,
    {
        let ghost tail = s@.subrange(pos as int, n as int);
        proof {
            lemma_find_in_tail(s@, sep@, pos as int, 0);
            lemma_find_from(s@, sep@, pos as int);
        }
        match find(s, sep, pos) {
            None => {
                let ghost before = piece_views(pieces@);
                pieces.push(piece(s, pos, n));
                assert(piece_views(pieces@) =~= before + seq![tail]);
                return pieces;
            },
            Some(at) => {
                let ghost before = piece_views(pieces@);
                pieces.push(piece(s, pos, at));
                proof {
                    assert(tail.subrange(0, at - pos) =~= s@.subrange(pos as int, at as int));
                    assert(tail.subrange(at - pos + m, tail.len() as int) =~= s@.subrange(
                        at + m,
                        n as int,
                    ));
                    assert(piece_views(pieces@) =~= before + seq![
                        s@.subrange(pos as int, at as int),
                    ]);
                    assert(before + (seq![s@.subrange(pos as int, at as int)] + split_by(
                        s@.subrange(at + m, n as int),
                        sep@,
                    )) =~= piece_views(pieces@) + split_by(s@.subrange(at + m, n as int), sep@));
                }
                pos = at + m;
            },
        }
    }
}

/// The character of a decimal digit.
pub open spec fn digit_char(d: nat) -> char {
    if d == 0 {
        '0'
    } else if d == 1 {
        '1'
    } else if d == 2 {
        '2'
    } else if d == 3 {
        '3'
    } else if d == 4 {
        '4'
    } else if d == 5 {
        '5'
    } else if d == 6 {
        '6'
    } else if d == 7 {
        '7'
    } else if d == 8 {
        '8'
    } else {
        '9'
    }
}

/// A number in decimal digits, without leading zeros.
pub open spec fn decimal_text(n: nat) -> Seq<char>
    decreases n,
{
    if n < 10 {
        seq![digit_char(n)]
    } else {
        decimal_text(n / 10).push(digit_char(n % 10))
    }
}

/// The character of the decimal digit `d`.
fn digit_of(d: usize) -> (r: char)
    requires
        d < 10,
    ensures
        r == digit_char(d as nat),
{
    if d == 0 {
        '0'
    } else if d == 1 {
        '1'
    } else if d == 2 {
        '2'
    } else if d == 3 {
        '3'
    } else if d == 4 {
        '4'
    } else if d == 5 {
        '5'
    } else if d == 6 {
        '6'
    } else if d == 7 {
        '7'
    } else if d == 8 {
        '8'
    } else {
        '9'
    }
}

/// `n` in decimal digits.
pub fn decimal_string(n: usize) -> (r: String)
    ensures
        r@ == decimal_text(n as nat),
    decreases n,
{
    if n < 10 {
        let mut out = String::new();
        string_push(&mut out, digit_of(n));
        assert(out@ =~= seq![digit_char(n as nat)]);
        out
    } else {
        let mut out = decimal_string(n / 10);
        string_push(&mut out, digit_of(n % 10));
        out
    }
}

/// The lower-case letter of an upper-case letter of the Latin alphabet; any
/// other character itself.
pub open spec fn lower_ascii(c: char) -> char {
    if 'A' <= c <= 'Z' {
        ((c as u8) + 32) as char
    } else {
        c
    }
}

/// The text with each upper-case letter of the Latin alphabet made lower case.
pub open spec fn lowered(s: Seq<char>) -> Seq<char> {
    Seq::new(s.len(), |i: int| lower_ascii(s[i]))
}

/// The characters of `s`, each upper-case letter of the Latin alphabet made
/// lower case.
pub fn to_ascii_lowercase(s: &str) -> (r: Vec<char>)
    ensures
        r@ == lowered(s@),
{
    let chars = chars_of(s);
    let mut out: Vec<char> = Vec::new();
    let mut i: usize = 0;
    while i < chars.len()
        invariant
            i <= chars@.len(),
            chars@ == s@,
            out@.len() == i,
            forall|j: int| 0 <= j < i ==> out@[j] == lower_ascii(s@[j]),
        decreases chars.len() - i,
    {
        let c = chars[i];
        if 'A' <= c && c <= 'Z' {
            out.push(((c as u8) + 32) as char);
        } else {
            out.push(c);
        }
        i += 1;
    }
    assert(out@ =~= lowered(s@));
    out
}

/// Whether the two hold the same characters.
pub fn same_chars(a: &Vec<char>, b: &Vec<char>) -> (r: bool)
    ensures
        r == (a@ == b@),
{
    if a.len() != b.len() {
        return false;
    }
    let mut i: usize = 0;
    while i < a.len()
        invariant
            i <= a@.len(),
            a@.len() == b@.len(),
            forall|j: int| 0 <= j < i ==> a@[j] == b@[j],
        decreases a.len() - i,
    {
        if a[i] != b[i] {
            return false;
        }
        i += 1;
    }
    assert(a@ =~= b@);
    true
}

} // verus!
