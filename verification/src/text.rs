//! Character-level helpers: conversion between `&str`/`String` and `Vec<char>`,
//! whitespace trimming, decimal and hexadecimal rendering and decimal parsing.
//!
//! Every rendering function appends to a `Vec<char>` and is specified by a spec
//! function over `Seq<char>`, so that the text a caller produces can be stated
//! exactly in its own contract.
use vstd::prelude::*;

verus! {

// ---------------------------------------------------------------------------
// Conversions
// ---------------------------------------------------------------------------

/// The characters of a string slice, in order.
pub fn chars_of(s: &str) -> (r: Vec<char>)
    ensures
        r@ == s@,
{
    let mut v: Vec<char> = Vec::new();
    for c in it: s.chars()
        invariant
            v@ == it.seq().take(it.index()),
            it.seq() == s@,
    {
        v.push(c);
    }
    v
}

/// `String::push` of std: appends one character.
#[verifier::external_body]
pub(crate) fn push_char(s: &mut String, c: char)
    ensures
        final(s)@ == old(s)@.push(c),
{
    s.push(c);
}

/// The string made of the given characters.
pub fn string_of(v: &Vec<char>) -> (r: String)
    ensures
        r@ == v@,
{
    let mut s = String::new();
    let mut i: usize = 0;
    while i < v.len()
        invariant
            i <= v.len(),
            s@ == v@.take(i as int),
        decreases v.len() - i,
    {
        push_char(&mut s, v[i]);
        i += 1;
    }
    assert(v@.take(v.len() as int) =~= v@);
    s
}

/// Appends the characters of `s`.
pub fn push_str(v: &mut Vec<char>, s: &str)
    ensures
        final(v)@ == old(v)@ + s@,
{
    let ghost v0 = v@;
    for c in it: s.chars()
        invariant
            v@ == v0 + it.seq().take(it.index()),
            it.seq() == s@,
    {
        v.push(c);
        assert(v0 + it.seq().take(it.index() + 1) =~= v0 + it.seq().take(it.index()).push(c));
    }
}

/// Appends the characters of `w`.
pub fn push_chars(v: &mut Vec<char>, w: &Vec<char>)
    ensures
        final(v)@ == old(v)@ + w@,
{
    let ghost v0 = v@;
    let mut i: usize = 0;
    while i < w.len()
        invariant
            i <= w.len(),
            v@ == v0 + w@.take(i as int),
        decreases w.len() - i,
    {
        v.push(w[i]);
        assert(w@.take(i + 1) =~= w@.take(i as int).push(w@[i as int]));
        i += 1;
    }
    assert(w@.take(w.len() as int) =~= w@);
}

/// Copy of the characters in positions `lo..hi`.
pub fn sub_chars(v: &Vec<char>, lo: usize, hi: usize) -> (r: Vec<char>)
    requires
        lo <= hi <= v.len(),
    ensures
        r@ == v@.subrange(lo as int, hi as int),
{
    let mut r: Vec<char> = Vec::new();
    let mut i = lo;
    while i < hi
        invariant
            lo <= i <= hi <= v.len(),
            r@ == v@.subrange(lo as int, i as int),
        decreases hi - i,
    {
        r.push(v[i]);
        assert(v@.subrange(lo as int, i + 1) =~= v@.subrange(lo as int, i as int).push(v@[i as int]));
        i += 1;
    }
    r
}

/// Whether the two character sequences are equal.
pub fn chars_eq(a: &Vec<char>, b: &Vec<char>) -> (r: bool)
    ensures
        r == (a@ == b@),
{
    if a.len() != b.len() {
        return false;
    }
    let mut i: usize = 0;
    while i < a.len()
        invariant
            i <= a.len(),
            a.len() == b.len(),
            forall|k: int| 0 <= k < i ==> a@[k] == b@[k],
        decreases a.len() - i,
    {
        if a[i] != b[i] {
            return false;
        }
        i += 1;
    }
    assert(a@ =~= b@);
    true
}

/// Whether the characters equal those of the string slice `s`.
pub fn chars_eq_str(a: &Vec<char>, s: &str) -> (r: bool)
    ensures
        r == (a@ == s@),
{
    let b = chars_of(s);
    chars_eq(a, &b)
}

/// Whether the two strings are equal.
pub fn strings_eq(a: &String, b: &String) -> (r: bool)
    ensures
        r == (a@ == b@),
{
    let x = chars_of(a.as_str());
    let y = chars_of(b.as_str());
    chars_eq(&x, &y)
}

/// Whether `c` occurs in `v`.
pub fn contains_char(v: &Vec<char>, c: char) -> (r: bool)
    ensures
        r == v@.contains(c),
{
    let mut i: usize = 0;
    while i < v.len()
        invariant
            i <= v.len(),
            forall|k: int| 0 <= k < i ==> v@[k] != c,
        decreases v.len() - i,
    {
        if v[i] == c {
            assert(v@[i as int] == c);
            return true;
        }
        i += 1;
    }
    false
}

/// Position of the first occurrence of `c` in `s`, if any.
pub open spec fn first_index(s: Seq<char>, c: char) -> Option<int>
    decreases s.len(),
{
    if s.len() == 0 {
        None
    } else if s[0] == c {
        Some(0)
    } else {
        match first_index(s.drop_first(), c) {
            Some(i) => Some(i + 1),
            None => None,
        }
    }
}

/// The first-index search is characterised pointwise.
pub proof fn lemma_first_index(s: Seq<char>, c: char)
    ensures
        first_index(s, c) matches Some(i) ==> 0 <= i < s.len() && s[i] == c && forall|k: int|
            0 <= k < i ==> s[k] != c,
        first_index(s, c) is None ==> !s.contains(c),
    decreases s.len(),
{
    if s.len() > 0 {
        lemma_first_index(s.drop_first(), c);
        if s[0] != c {
            if first_index(s.drop_first(), c) is None {
                assert forall|k: int| 0 <= k < s.len() implies s[k] != c by {
                    if k > 0 {
                        assert(s[k] == s.drop_first()[k - 1]);
                    }
                }
            } else {
                let i = first_index(s.drop_first(), c)->0;
                assert forall|k: int| 0 <= k < i + 1 implies s[k] != c by {
                    if k > 0 {
                        assert(s[k] == s.drop_first()[k - 1]);
                    }
                }
            }
        }
    }
}

/// Finds the first occurrence of `c`.
pub fn find_char(v: &Vec<char>, c: char) -> (r: Option<usize>)
    ensures
        r matches Some(i) ==> first_index(v@, c) == Some(i as int),
        r is None ==> first_index(v@, c) is None,
{
    proof {
        lemma_first_index(v@, c);
    }
    let mut i: usize = 0;
    while i < v.len()
        invariant
            i <= v.len(),
            forall|k: int| 0 <= k < i ==> v@[k] != c,
        decreases v.len() - i,
    {
        if v[i] == c {
            proof {
                lemma_first_index_unique(v@, c, i as int);
            }
            return Some(i);
        }
        i += 1;
    }
    proof {
        if first_index(v@, c) is Some {
            let j = first_index(v@, c)->0;
            assert(v@[j] == c);
        }
    }
    None
}

/// The first index is the first position holding `c`.
pub proof fn lemma_first_index_unique(s: Seq<char>, c: char, i: int)
    requires
        0 <= i < s.len(),
        s[i] == c,
        forall|k: int| 0 <= k < i ==> s[k] != c,
    ensures
        first_index(s, c) == Some(i),
    decreases s.len(),
{
    if i > 0 {
        assert(s[0] != c);
        assert forall|k: int| 0 <= k < i - 1 implies s.drop_first()[k] != c by {
            assert(s.drop_first()[k] == s[k + 1]);
        }
        lemma_first_index_unique(s.drop_first(), c, i - 1);
    }
}

// ---------------------------------------------------------------------------
// Whitespace
// ---------------------------------------------------------------------------

/// Unicode `White_Space`, as `char::is_whitespace` defines it.
pub open spec fn is_ws(c: char) -> bool {
    let u = c as u32;
    (0x09 <= u <= 0x0d) || u == 0x20 || u == 0x85 || u == 0xa0 || u == 0x1680 || (0x2000 <= u
        <= 0x200a) || u == 0x2028 || u == 0x2029 || u == 0x202f || u == 0x205f || u == 0x3000
}

/// Whether `c` is whitespace.
pub fn is_whitespace(c: char) -> (r: bool)
    ensures
        r == is_ws(c),
{
    let u = c as u32;
    (0x09 <= u && u <= 0x0d) || u == 0x20 || u == 0x85 || u == 0xa0 || u == 0x1680 || (0x2000 <= u
        && u <= 0x200a) || u == 0x2028 || u == 0x2029 || u == 0x202f || u == 0x205f || u == 0x3000
}

/// `s` without leading whitespace.
pub open spec fn trim_start(s: Seq<char>) -> Seq<char>
    decreases s.len(),
{
    if s.len() > 0 && is_ws(s[0]) {
        trim_start(s.drop_first())
    } else {
        s
    }
}

/// `s` without trailing whitespace.
pub open spec fn trim_end(s: Seq<char>) -> Seq<char>
    decreases s.len(),
{
    if s.len() > 0 && is_ws(s.last()) {
        trim_end(s.drop_last())
    } else {
        s
    }
}

/// `s` without leading and trailing whitespace (`str::trim`).
pub open spec fn trim(s: Seq<char>) -> Seq<char> {
    trim_end(trim_start(s))
}

/// Removes leading and trailing whitespace.
pub fn trim_chars(v: &Vec<char>) -> (r: Vec<char>)
    ensures
        r@ == trim(v@),
{
    let n = v.len();
    let mut i: usize = 0;
    assert(v@.subrange(0, n as int) =~= v@);
    while i < n && is_whitespace(v[i])
        invariant
            i <= n == v.len(),
            trim_start(v@) == trim_start(v@.subrange(i as int, n as int)),
        decreases n - i,
    {
        assert(v@.subrange(i as int, n as int).drop_first() =~= v@.subrange(i + 1, n as int));
        i += 1;
    }
    assert(trim_start(v@) == v@.subrange(i as int, n as int));
    let mut j: usize = n;
    while j > i && is_whitespace(v[j - 1])
        invariant
            i <= j <= n == v.len(),
            trim(v@) == trim_end(v@.subrange(i as int, j as int)),
        decreases j,
    {
        assert(v@.subrange(i as int, j as int).drop_last() =~= v@.subrange(i as int, j - 1));
        j -= 1;
    }
    sub_chars(v, i, j)
}

/// The characters of `s` without leading and trailing whitespace.
pub fn trim_str(s: &str) -> (r: Vec<char>)
    ensures
        r@ == trim(s@),
{
    let v = chars_of(s);
    trim_chars(&v)
}


// ---------------------------------------------------------------------------
// Splitting
// ---------------------------------------------------------------------------

/// Length of the run of non-whitespace characters at the start of `s`.
pub open spec fn word_len(s: Seq<char>) -> nat
    decreases s.len(),
{
    if s.len() == 0 || is_ws(s[0]) {
        0
    } else {
        1 + word_len(s.drop_first())
    }
}

/// Trimming the start never lengthens a sequence, and what it leaves does not
/// start with whitespace.
pub proof fn lemma_trim_start(s: Seq<char>)
    ensures
        trim_start(s).len() <= s.len(),
        trim_start(s).len() > 0 ==> !is_ws(trim_start(s)[0]),
        trim_start(s) == s.skip(s.len() - trim_start(s).len()),
    decreases s.len(),
{
    if s.len() > 0 && is_ws(s[0]) {
        lemma_trim_start(s.drop_first());
        assert(s.drop_first().skip(s.drop_first().len() - trim_start(s.drop_first()).len())
            =~= s.skip(s.len() - trim_start(s).len()));
    } else {
        assert(s.skip(0) =~= s);
    }
}

/// The leading word is a run of non-whitespace characters.
pub proof fn lemma_word_len(s: Seq<char>)
    ensures
        word_len(s) <= s.len(),
        s.len() > 0 && !is_ws(s[0]) ==> word_len(s) >= 1,
        forall|k: int| 0 <= k < word_len(s) ==> !is_ws(s[k]),
        word_len(s) < s.len() ==> is_ws(s[word_len(s) as int]),
    decreases s.len(),
{
    if s.len() > 0 && !is_ws(s[0]) {
        lemma_word_len(s.drop_first());
        assert forall|k: int| 0 <= k < word_len(s) implies !is_ws(s[k]) by {
            if k > 0 {
                assert(s[k] == s.drop_first()[k - 1]);
            }
        }
        if word_len(s) < s.len() {
            assert(s[word_len(s) as int] == s.drop_first()[word_len(s.drop_first()) as int]);
        }
    }
}

/// The whitespace-separated words of `s` (`str::split_whitespace`).
pub open spec fn words(s: Seq<char>) -> Seq<Seq<char>>
    decreases s.len(),
{
    let t = trim_start(s);
    if t.len() == 0 {
        seq![]
    } else {
        let n = word_len(t);
        proof {
            lemma_trim_start(s);
            lemma_word_len(t);
        }
        seq![t.take(n as int)] + words(t.skip(n as int))
    }
}

/// Dropping one leading whitespace character does not change the words.
pub proof fn lemma_words_skip_ws(s: Seq<char>, i: int)
    requires
        0 <= i < s.len(),
        is_ws(s[i]),
    ensures
        words(s.skip(i)) == words(s.skip(i + 1)),
{
    assert(s.skip(i).drop_first() =~= s.skip(i + 1));
    assert(trim_start(s.skip(i)) == trim_start(s.skip(i + 1)));
}

/// A maximal run of non-whitespace characters at position `i` is the next word.
pub proof fn lemma_words_take_word(s: Seq<char>, i: int, j: int)
    requires
        0 <= i < j <= s.len(),
        forall|k: int| i <= k < j ==> !is_ws(s[k]),
        j == s.len() || is_ws(s[j]),
    ensures
        words(s.skip(i)) == seq![s.subrange(i, j)] + words(s.skip(j)),
{
    let t = s.skip(i);
    assert(trim_start(t) == t);
    lemma_word_len_run(t, j - i);
    assert(t.take(j - i) =~= s.subrange(i, j));
    assert(t.skip(j - i) =~= s.skip(j));
}

proof fn lemma_word_len_run(t: Seq<char>, n: int)
    requires
        0 <= n <= t.len(),
        forall|k: int| 0 <= k < n ==> !is_ws(t[k]),
        n == t.len() || is_ws(t[n]),
    ensures
        word_len(t) == n,
    decreases n,
{
    if n > 0 {
        assert forall|k: int| 0 <= k < n - 1 implies !is_ws(t.drop_first()[k]) by {
            assert(t.drop_first()[k] == t[k + 1]);
        }
        if n - 1 < t.drop_first().len() {
            assert(t.drop_first()[n - 1] == t[n]);
        }
        lemma_word_len_run(t.drop_first(), n - 1);
    }
}

/// The views of a vector of character vectors.
pub open spec fn views(v: Seq<Vec<char>>) -> Seq<Seq<char>> {
    v.map_values(|w: Vec<char>| w@)
}

/// The views of a vector of strings.
pub open spec fn string_views(v: Seq<String>) -> Seq<Seq<char>> {
    v.map_values(|w: String| w@)
}

/// Splits at runs of whitespace, dropping empty pieces (`str::split_whitespace`).
pub fn split_whitespace(v: &Vec<char>) -> (r: Vec<Vec<char>>)
    ensures
        views(r@) == words(v@),
{
    let mut r: Vec<Vec<char>> = Vec::new();
    let n = v.len();
    let mut i: usize = 0;
    assert(v@.skip(0) =~= v@);
    while i < n
        invariant
            i <= n == v.len(),
            words(v@) == views(r@) + words(v@.skip(i as int)),
        decreases n - i,
    {
        if is_whitespace(v[i]) {
            proof {
                lemma_words_skip_ws(v@, i as int);
            }
            i += 1;
        } else {
            let mut j = i + 1;
            while j < n && !is_whitespace(v[j])
                invariant
                    i < j <= n == v.len(),
                    forall|k: int| i <= k < j ==> !is_ws(v@[k]),
                decreases n - j,
            {
                j += 1;
            }
            proof {
                lemma_words_take_word(v@, i as int, j as int);
            }
            let w = sub_chars(v, i, j);
            let ghost r0 = r@;
            r.push(w);
            assert(views(r@) =~= views(r0) + seq![v@.subrange(i as int, j as int)]);
            i = j;
        }
    }
    assert(v@.skip(n as int) =~= Seq::<char>::empty());
    assert(trim_start(Seq::<char>::empty()) =~= Seq::<char>::empty());
    assert(views(r@) + seq![] =~= views(r@));
    r
}

// ---------------------------------------------------------------------------
// Case mapping
// ---------------------------------------------------------------------------

/// What `str::to_lowercase` of std returns for a string with the given
/// characters (Unicode `Lowercase` mapping).
pub uninterp spec fn unicode_lowercase(s: Seq<char>) -> Seq<char>;

/// What `str::to_uppercase` of std returns for a string with the given
/// characters (Unicode `Uppercase` mapping).
pub uninterp spec fn unicode_uppercase(s: Seq<char>) -> Seq<char>;

/// Every character is ASCII.
pub open spec fn all_ascii(s: Seq<char>) -> bool {
    forall|i: int| 0 <= i < s.len() ==> (s[i] as u32) < 128
}

/// ASCII lower-case form of a text.
pub open spec fn ascii_lowercase(s: Seq<char>) -> Seq<char> {
    s.map_values(|c: char| ascii_lower(c))
}

/// ASCII upper-case form of a text.
pub open spec fn ascii_uppercase(s: Seq<char>) -> Seq<char> {
    s.map_values(|c: char| ascii_upper(c))
}

/// Trimming keeps a text ASCII.
pub proof fn lemma_trim_ascii(s: Seq<char>)
    requires
        all_ascii(s),
    ensures
        all_ascii(trim(s)),
{
    lemma_trim_start_ascii(s);
    lemma_trim_end_ascii(trim_start(s));
}

proof fn lemma_trim_start_ascii(s: Seq<char>)
    requires
        all_ascii(s),
    ensures
        all_ascii(trim_start(s)),
    decreases s.len(),
{
    if s.len() > 0 && is_ws(s[0]) {
        assert(all_ascii(s.drop_first())) by {
            assert forall|i: int| 0 <= i < s.drop_first().len() implies (s.drop_first()[i] as u32) < 128 by {
                assert(s.drop_first()[i] == s[i + 1]);
            }
        }
        lemma_trim_start_ascii(s.drop_first());
    }
}

proof fn lemma_trim_end_ascii(s: Seq<char>)
    requires
        all_ascii(s),
    ensures
        all_ascii(trim_end(s)),
    decreases s.len(),
{
    if s.len() > 0 && is_ws(s.last()) {
        assert(all_ascii(s.drop_last())) by {
            assert forall|i: int| 0 <= i < s.drop_last().len() implies (s.drop_last()[i] as u32) < 128 by {
                assert(s.drop_last()[i] == s[i]);
            }
        }
        lemma_trim_end_ascii(s.drop_last());
    }
}

/// The ASCII upper-case form of a character; others unchanged.
pub open spec fn ascii_upper(c: char) -> char {
    if 'a' <= c <= 'z' {
        ((c as u32) - 32) as char
    } else {
        c
    }
}

/// `str::to_lowercase` of std. The result is named by `unicode_lowercase`;
/// of the Unicode tables only the ASCII part is stated: on ASCII text each
/// `A`..`Z` becomes `a`..`z` and every other character stays.
#[verifier::external_body]
pub(crate) fn std_to_lowercase(s: &str) -> (r: String)
    ensures
        r@ == unicode_lowercase(s@),
        all_ascii(s@) ==> r@ == ascii_lowercase(s@),
{
    s.to_lowercase()
}

/// `str::to_uppercase` of std. The result is named by `unicode_uppercase`;
/// of the Unicode tables only the ASCII part is stated: on ASCII text each
/// `a`..`z` becomes `A`..`Z` and every other character stays.
#[verifier::external_body]
pub(crate) fn std_to_uppercase(s: &str) -> (r: String)
    ensures
        r@ == unicode_uppercase(s@),
        all_ascii(s@) ==> r@ == ascii_uppercase(s@),
{
    s.to_uppercase()
}

/// The Unicode lowercase form of the given characters.
pub fn lowercase_chars(v: &Vec<char>) -> (r: Vec<char>)
    ensures
        r@ == unicode_lowercase(v@),
        all_ascii(v@) ==> r@ == ascii_lowercase(v@),
{
    let s = string_of(v);
    let l = std_to_lowercase(s.as_str());
    chars_of(l.as_str())
}

/// ASCII lower-case form of one character.
pub open spec fn ascii_lower(c: char) -> char {
    if 'A' <= c <= 'Z' {
        ((c as u32) + 32) as char
    } else {
        c
    }
}

/// `eq_ignore_ascii_case` on character sequences.
pub open spec fn eq_ignore_ascii_case(a: Seq<char>, b: Seq<char>) -> bool {
    a.len() == b.len() && forall|i: int| 0 <= i < a.len() ==> ascii_lower(a[i]) == ascii_lower(
        b[i],
    )
}

/// ASCII lower-case form of one character.
pub fn to_ascii_lower(c: char) -> (r: char)
    ensures
        r == ascii_lower(c),
{
    if 'A' <= c && c <= 'Z' {
        let u = (c as u32) + 32;
        assert(u < 0x80);
        (u as u8) as char
    } else {
        c
    }
}

// ---------------------------------------------------------------------------
// Decimal and hexadecimal rendering
// ---------------------------------------------------------------------------

/// The character of a decimal or hexadecimal (upper-case) digit.
pub open spec fn digit_char(d: int) -> char {
    if d < 10 {
        (d + 48) as char
    } else {
        (d - 10 + 65) as char
    }
}

/// Decimal digits of `n` (no sign, no leading zeros).
pub open spec fn dec(n: nat) -> Seq<char>
    decreases n,
{
    if n < 10 {
        seq![digit_char(n as int)]
    } else {
        dec(n / 10).push(digit_char((n % 10) as int))
    }
}

/// Upper-case hexadecimal digits of `n` (`{:X}`).
pub open spec fn hex(n: nat) -> Seq<char>
    decreases n,
{
    if n < 16 {
        seq![digit_char(n as int)]
    } else {
        hex(n / 16).push(digit_char((n % 16) as int))
    }
}

/// Signed decimal rendering of `i` (`{}`).
pub open spec fn dec_int(i: int) -> Seq<char> {
    if i < 0 {
        seq!['-'] + dec((-i) as nat)
    } else {
        dec(i as nat)
    }
}

/// Decimal rendering with an explicit sign (`{:+}`): `+0`, `+5`, `-3`.
pub open spec fn dec_plus(i: int) -> Seq<char> {
    if i < 0 {
        seq!['-'] + dec((-i) as nat)
    } else {
        seq!['+'] + dec(i as nat)
    }
}

/// `n` copies of `c`.
pub open spec fn repeat(c: char, n: nat) -> Seq<char> {
    Seq::new(n, |i: int| c)
}

/// `s` padded on the left with `'0'` to at least `w` characters (`{:0w}`).
pub open spec fn pad_zero(s: Seq<char>, w: nat) -> Seq<char> {
    if s.len() < w {
        repeat('0', (w - s.len()) as nat) + s
    } else {
        s
    }
}

/// `s` padded on the left with spaces to at least `w` characters (`{:w}` of a number).
pub open spec fn pad_left(s: Seq<char>, w: nat) -> Seq<char> {
    if s.len() < w {
        repeat(' ', (w - s.len()) as nat) + s
    } else {
        s
    }
}

/// `s` padded on the right with spaces to at least `w` characters (`{:<w}`).
pub open spec fn pad_right(s: Seq<char>, w: nat) -> Seq<char> {
    if s.len() < w {
        s + repeat(' ', (w - s.len()) as nat)
    } else {
        s
    }
}

fn digit_to_char(d: u64) -> (c: char)
    requires
        d < 16,
    ensures
        c == digit_char(d as int),
{
    let b: u8 = if d < 10 {
        (d + 48) as u8
    } else {
        (d + 55) as u8
    };
    b as char
}

/// Appends the decimal digits of `n`.
pub fn push_dec(v: &mut Vec<char>, n: u64)
    ensures
        final(v)@ == old(v)@ + dec(n as nat),
    decreases n,
{
    if n >= 10 {
        push_dec(v, n / 10);
    }
    v.push(digit_to_char(n % 10));
}

/// Appends the upper-case hexadecimal digits of `n`.
pub fn push_hex(v: &mut Vec<char>, n: u64)
    ensures
        final(v)@ == old(v)@ + hex(n as nat),
    decreases n,
{
    if n >= 16 {
        push_hex(v, n / 16);
    }
    v.push(digit_to_char(n % 16));
}

/// Appends `n` copies of `c`.
pub fn push_repeat(v: &mut Vec<char>, c: char, n: usize)
    ensures
        final(v)@ == old(v)@ + repeat(c, n as nat),
{
    let ghost v0 = v@;
    let mut i: usize = 0;
    while i < n
        invariant
            i <= n,
            v@ == v0 + repeat(c, i as nat),
        decreases n - i,
    {
        v.push(c);
        assert(repeat(c, (i + 1) as nat) =~= repeat(c, i as nat).push(c));
        i += 1;
    }
}

/// The decimal digits of `n`.
pub fn dec_chars(n: u64) -> (r: Vec<char>)
    ensures
        r@ == dec(n as nat),
{
    let mut v: Vec<char> = Vec::new();
    push_dec(&mut v, n);
    v
}

/// The upper-case hexadecimal digits of `n`.
pub fn hex_chars(n: u64) -> (r: Vec<char>)
    ensures
        r@ == hex(n as nat),
{
    let mut v: Vec<char> = Vec::new();
    push_hex(&mut v, n);
    v
}

/// Appends `s` padded on the left with `'0'` to `w` characters.
pub fn push_pad_zero(v: &mut Vec<char>, s: &Vec<char>, w: usize)
    ensures
        final(v)@ == old(v)@ + pad_zero(s@, w as nat),
{
    let ghost v0 = v@;
    if s.len() < w {
        push_repeat(v, '0', w - s.len());
    }
    push_chars(v, s);
    assert(v@ =~= v0 + pad_zero(s@, w as nat));
}

/// Appends `s` padded on the left with spaces to `w` characters.
pub fn push_pad_left(v: &mut Vec<char>, s: &Vec<char>, w: usize)
    ensures
        final(v)@ == old(v)@ + pad_left(s@, w as nat),
{
    let ghost v0 = v@;
    if s.len() < w {
        push_repeat(v, ' ', w - s.len());
    }
    push_chars(v, s);
    assert(v@ =~= v0 + pad_left(s@, w as nat));
}

/// Appends `s` padded on the right with spaces to `w` characters.
pub fn push_pad_right(v: &mut Vec<char>, s: &Vec<char>, w: usize)
    ensures
        final(v)@ == old(v)@ + pad_right(s@, w as nat),
{
    let ghost v0 = v@;
    push_chars(v, s);
    if s.len() < w {
        push_repeat(v, ' ', w - s.len());
    }
    assert(v@ =~= v0 + pad_right(s@, w as nat));
}

/// Appends the signed decimal rendering of `i`.
pub fn push_dec_i64(v: &mut Vec<char>, i: i64)
    ensures
        final(v)@ == old(v)@ + dec_int(i as int),
{
    let ghost v0 = v@;
    if i < 0 {
        v.push('-');
        let m: u64 = if i == i64::MIN {
            0x8000_0000_0000_0000u64
        } else {
            (-i) as u64
        };
        push_dec(v, m);
    } else {
        push_dec(v, i as u64);
    }
    assert(v@ =~= v0 + dec_int(i as int));
}

/// Appends the decimal rendering of `i` with an explicit sign (`{:+}`).
pub fn push_dec_plus(v: &mut Vec<char>, i: i64)
    ensures
        final(v)@ == old(v)@ + dec_plus(i as int),
{
    let ghost v0 = v@;
    if i < 0 {
        v.push('-');
        let m: u64 = if i == i64::MIN {
            0x8000_0000_0000_0000u64
        } else {
            (-i) as u64
        };
        push_dec(v, m);
    } else {
        v.push('+');
        push_dec(v, i as u64);
    }
    assert(v@ =~= v0 + dec_plus(i as int));
}

// ---------------------------------------------------------------------------
// Decimal parsing (the grammar of `str::parse` for integers)
// ---------------------------------------------------------------------------

/// An ASCII decimal digit.
pub open spec fn is_digit(c: char) -> bool {
    '0' <= c <= '9'
}

/// Every character is an ASCII decimal digit.
pub open spec fn all_digits(s: Seq<char>) -> bool {
    forall|i: int| 0 <= i < s.len() ==> is_digit(s[i])
}

/// The value of a string of decimal digits.
pub open spec fn digits_value(s: Seq<char>) -> int
    decreases s.len(),
{
    if s.len() == 0 {
        0
    } else {
        digits_value(s.drop_last()) * 10 + ((s.last() as u32) - 48)
    }
}

/// The value of an unsigned decimal with an optional leading `+`, as
/// `u32::from_str` reads it, before its range is checked.
pub open spec fn unsigned_value(s: Seq<char>) -> Option<int> {
    let d = if s.len() > 0 && s[0] == '+' {
        s.drop_first()
    } else {
        s
    };
    if d.len() > 0 && all_digits(d) {
        Some(digits_value(d))
    } else {
        None
    }
}

/// The value of a signed decimal with an optional leading `+` or `-`, as
/// `i32::from_str` reads it, before its range is checked.
pub open spec fn signed_value(s: Seq<char>) -> Option<int> {
    if s.len() > 0 && s[0] == '-' {
        let d = s.drop_first();
        if d.len() > 0 && all_digits(d) {
            Some(-digits_value(d))
        } else {
            None
        }
    } else {
        unsigned_value(s)
    }
}

/// `s.parse::<u32>()`.
pub open spec fn parse_u32_spec(s: Seq<char>) -> Option<u32> {
    match unsigned_value(s) {
        Some(v) => if v <= u32::MAX {
            Some(v as u32)
        } else {
            None
        },
        None => None,
    }
}

/// `s.parse::<i32>()`.
pub open spec fn parse_i32_spec(s: Seq<char>) -> Option<i32> {
    match signed_value(s) {
        Some(v) => if i32::MIN <= v <= i32::MAX {
            Some(v as i32)
        } else {
            None
        },
        None => None,
    }
}

/// A string of digits has a non-negative value.
pub proof fn lemma_digits_value_nonneg(s: Seq<char>)
    requires
        all_digits(s),
    ensures
        digits_value(s) >= 0,
    decreases s.len(),
{
    if s.len() > 0 {
        lemma_digits_value_nonneg(s.drop_last());
    }
}

/// A prefix of a string of digits has no greater value.
pub proof fn lemma_digits_value_prefix(s: Seq<char>, k: int)
    requires
        all_digits(s),
        0 <= k <= s.len(),
    ensures
        digits_value(s.take(k)) <= digits_value(s),
    decreases s.len(),
{
    if k < s.len() {
        assert(s.drop_last().take(k) =~= s.take(k));
        lemma_digits_value_prefix(s.drop_last(), k);
        lemma_digits_value_nonneg(s.drop_last());
    } else {
        assert(s.take(k) =~= s);
    }
}

/// The value of the digits in positions `start..` of `v`, when they are all
/// digits, there is at least one, and the value does not exceed `limit`.
fn digits_bounded(v: &Vec<char>, start: usize, limit: u64) -> (r: Option<u64>)
    requires
        start <= v.len(),
        limit <= 0x1_0000_0000,
    ensures
        ({
            let d = v@.subrange(start as int, v.len() as int);
            r == (if d.len() > 0 && all_digits(d) && digits_value(d) <= limit {
                Some(digits_value(d) as u64)
            } else {
                None
            })
        }),
        r matches Some(x) ==> x <= limit && x as int == digits_value(
            v@.subrange(start as int, v.len() as int),
        ),
{
    let ghost d = v@.subrange(start as int, v.len() as int);
    if start == v.len() {
        return None;
    }
    let mut i = start;
    while i < v.len()
        invariant
            start <= i <= v.len(),
            d == v@.subrange(start as int, v.len() as int),
            forall|k: int| start <= k < i ==> is_digit(v@[k]),
        decreases v.len() - i,
    {
        if !('0' <= v[i] && v[i] <= '9') {
            assert(d[i - start] == v@[i as int]);
            assert(!is_digit(d[i - start]));
            return None;
        }
        i += 1;
    }
    assert(all_digits(d));
    let mut acc: u64 = 0;
    let mut j = start;
    while j < v.len()
        invariant
            start <= j <= v.len(),
            all_digits(d),
            d == v@.subrange(start as int, v.len() as int),
            acc as int == digits_value(d.take(j - start)),
            acc <= limit,
            limit <= 0x1_0000_0000,
        decreases v.len() - j,
    {
        assert(d[j - start] == v@[j as int]);
        assert(is_digit(d[j - start]));
        let dig = (v[j] as u32 - 48) as u64;
        assert(d.take(j + 1 - start).drop_last() =~= d.take(j - start));
        assert(d.take(j + 1 - start).last() == v@[j as int]);
        let next = acc * 10 + dig;
        if next > limit {
            proof {
                lemma_digits_value_prefix(d, j + 1 - start);
            }
            return None;
        }
        acc = next;
        j += 1;
    }
    assert(d.take(j - start) =~= d);
    proof {
        lemma_digits_value_nonneg(d);
    }
    Some(acc)
}

/// `s.parse::<u32>()` over characters.
pub fn parse_u32_chars(v: &Vec<char>) -> (r: Option<u32>)
    ensures
        r == parse_u32_spec(v@),
{
    let start: usize = if v.len() > 0 && v[0] == '+' {
        1
    } else {
        0
    };
    assert(v@.subrange(start as int, v.len() as int) =~= (if v@.len() > 0 && v@[0] == '+' {
        v@.drop_first()
    } else {
        v@
    }));
    match digits_bounded(v, start, 0xFFFF_FFFF) {
        Some(x) => Some(x as u32),
        None => None,
    }
}

/// `s.parse::<i32>()` over characters.
pub fn parse_i32_chars(v: &Vec<char>) -> (r: Option<i32>)
    ensures
        r == parse_i32_spec(v@),
{
    if v.len() > 0 && v[0] == '-' {
        assert(v@.subrange(1, v.len() as int) =~= v@.drop_first());
        match digits_bounded(v, 1, 0x8000_0000) {
            Some(x) => {
                let r = (0i64 - x as i64) as i32;
                Some(r)
            },
            None => {
                proof {
                    let d = v@.drop_first();
                    if d.len() > 0 && all_digits(d) {
                        assert(digits_value(d) > 0x8000_0000);
                    }
                }
                None
            },
        }
    } else {
        let start: usize = if v.len() > 0 && v[0] == '+' {
            1
        } else {
            0
        };
        assert(v@.subrange(start as int, v.len() as int) =~= (if v@.len() > 0 && v@[0] == '+' {
            v@.drop_first()
        } else {
            v@
        }));
        match digits_bounded(v, start, 0x7FFF_FFFF) {
            Some(x) => Some(x as i32),
            None => None,
        }
    }
}

/// `s.parse::<u32>()` of std.
pub fn parse_u32_str(s: &str) -> (r: Option<u32>)
    ensures
        r == parse_u32_spec(s@),
{
    let v = chars_of(s);
    parse_u32_chars(&v)
}


// ---------------------------------------------------------------------------
// Lines, prefixes and suffixes
// ---------------------------------------------------------------------------

/// `l` without one trailing carriage return.
pub open spec fn strip_cr(l: Seq<char>) -> Seq<char> {
    if l.len() > 0 && l.last() == '\r' {
        l.drop_last()
    } else {
        l
    }
}

/// The lines of `s` as `str::lines` yields them: split after each `\n`, the
/// `\n` (and a `\r` just before it) removed, no empty line after a final `\n`.
pub open spec fn lines_of(s: Seq<char>) -> Seq<Seq<char>>
    decreases s.len(),
{
    match first_index(s, '\n') {
        None => if s.len() == 0 {
            seq![]
        } else {
            seq![s]
        },
        Some(i) => {
            proof {
                lemma_first_index(s, '\n');
            }
            seq![strip_cr(s.take(i))] + lines_of(s.skip(i + 1))
        },
    }
}

/// Position of the first `c` at or after `start`.
pub fn find_char_from(v: &Vec<char>, c: char, start: usize) -> (r: Option<usize>)
    requires
        start <= v.len(),
    ensures
        r matches Some(i) ==> start <= i < v.len() && first_index(v@.skip(start as int), c) == Some(
            i - start,
        ),
        r is None ==> first_index(v@.skip(start as int), c) is None,
{
    let ghost t = v@.skip(start as int);
    proof {
        lemma_first_index(t, c);
    }
    let mut i = start;
    while i < v.len()
        invariant
            start <= i <= v.len(),
            t == v@.skip(start as int),
            forall|k: int| start <= k < i ==> v@[k] != c,
        decreases v.len() - i,
    {
        if v[i] == c {
            proof {
                assert forall|k: int| 0 <= k < i - start implies t[k] != c by {
                    assert(t[k] == v@[k + start]);
                }
                assert(t[i - start] == v@[i as int]);
                lemma_first_index_unique(t, c, i - start);
            }
            return Some(i);
        }
        i += 1;
    }
    proof {
        if first_index(t, c) is Some {
            let j = first_index(t, c)->0;
            assert(t[j] == v@[j + start]);
        }
    }
    None
}

/// The lines of `v` (`str::lines`).
pub fn split_lines(v: &Vec<char>) -> (r: Vec<Vec<char>>)
    ensures
        views(r@) == lines_of(v@),
{
    let mut r: Vec<Vec<char>> = Vec::new();
    let mut start: usize = 0;
    assert(v@.skip(0) =~= v@);
    while start < v.len()
        invariant
            start <= v.len(),
            lines_of(v@) == views(r@) + lines_of(v@.skip(start as int)),
        decreases v.len() - start,
    {
        let ghost t = v@.skip(start as int);
        proof {
            lemma_first_index(t, '\n');
        }
        match find_char_from(v, '\n', start) {
            Some(i) => {
                let mut end = i;
                if end > start && v[end - 1] == '\r' {
                    end = end - 1;
                }
                let line = sub_chars(v, start, end);
                assert(line@ =~= strip_cr(t.take(i - start)));
                assert(t.skip(i - start + 1) =~= v@.skip(i + 1));
                let ghost before = r@;
                r.push(line);
                assert(views(r@) =~= views(before).push(line@));
                start = i + 1;
            },
            None => {
                let line = sub_chars(v, start, v.len());
                assert(line@ =~= t);
                let ghost before = r@;
                r.push(line);
                assert(views(r@) =~= views(before).push(line@));
                start = v.len();
                assert(v@.skip(start as int) =~= Seq::<char>::empty());
                assert(first_index(Seq::<char>::empty(), '\n') is None);
            },
        }
    }
    assert(v@.skip(start as int) =~= Seq::<char>::empty());
    assert(first_index(Seq::<char>::empty(), '\n') is None);
    assert(views(r@) + seq![] =~= views(r@));
    r
}

/// `s` without all trailing `c` (`str::trim_end_matches` with a character).
pub open spec fn trim_end_char(s: Seq<char>, c: char) -> Seq<char>
    decreases s.len(),
{
    if s.len() > 0 && s.last() == c {
        trim_end_char(s.drop_last(), c)
    } else {
        s
    }
}

/// Removes all trailing `c`.
pub fn trim_end_char_chars(v: &Vec<char>, c: char) -> (r: Vec<char>)
    ensures
        r@ == trim_end_char(v@, c),
{
    let mut j = v.len();
    assert(v@.subrange(0, j as int) =~= v@);
    while j > 0 && v[j - 1] == c
        invariant
            j <= v.len(),
            trim_end_char(v@, c) == trim_end_char(v@.subrange(0, j as int), c),
        decreases j,
    {
        assert(v@.subrange(0, j as int).drop_last() =~= v@.subrange(0, j - 1));
        j -= 1;
    }
    sub_chars(v, 0, j)
}

/// Whether `v` starts with the characters of `s`.
pub fn starts_with_str(v: &Vec<char>, s: &str) -> (r: bool)
    ensures
        r == (s@.len() <= v@.len() && v@.take(s@.len() as int) == s@),
{
    let p = chars_of(s);
    if p.len() > v.len() {
        return false;
    }
    let head = sub_chars(v, 0, p.len());
    assert(head@ =~= v@.take(p@.len() as int));
    chars_eq(&head, &p)
}

/// Whether `needle` occurs in `hay` as a contiguous run.
pub open spec fn contains_seq(hay: Seq<char>, needle: Seq<char>) -> bool {
    exists|i: int| 0 <= i && i + needle.len() <= hay.len() && #[trigger] hay.subrange(i, i + needle.len()) == needle
}

/// Whether `needle` occurs in `hay` (`str::contains` with a string).
pub fn contains_chars(hay: &Vec<char>, needle: &Vec<char>) -> (r: bool)
    ensures
        r == contains_seq(hay@, needle@),
{
    if needle.len() > hay.len() {
        return false;
    }
    let last = hay.len() - needle.len();
    let mut i: usize = 0;
    while i <= last
        invariant
            last == hay.len() - needle.len(),
            i <= last + 1,
            forall|k: int| 0 <= k < i ==> #[trigger] hay@.subrange(k, k + needle@.len()) != needle@,
        decreases last + 1 - i,
    {
        let piece = sub_chars(hay, i, i + needle.len());
        if chars_eq(&piece, needle) {
            return true;
        }
        if i == last {
            return false;
        }
        i += 1;
    }
    false
}


// ---------------------------------------------------------------------------
// UTF-8 length
// ---------------------------------------------------------------------------

/// Bytes of a string in UTF-8, as `str::len` returns them.
pub open spec fn utf8_len(s: Seq<char>) -> usize {
    vstd::utf8::encode_utf8(s).len() as usize
}


/// Whether two character sequences are equal ignoring ASCII case.
pub fn eq_ignore_ascii_case_chars(a: &Vec<char>, b: &Vec<char>) -> (r: bool)
    ensures
        r == eq_ignore_ascii_case(a@, b@),
{
    if a.len() != b.len() {
        return false;
    }
    let mut i: usize = 0;
    while i < a.len()
        invariant
            i <= a.len() == b.len(),
            forall|k: int| 0 <= k < i ==> ascii_lower(#[trigger] a@[k]) == ascii_lower(b@[k]),
        decreases a.len() - i,
    {
        if to_ascii_lower(a[i]) != to_ascii_lower(b[i]) {
            return false;
        }
        i += 1;
    }
    true
}

/// The pieces of `s` between occurrences of `c` (`str::split` with a character).
pub open spec fn split_on(s: Seq<char>, c: char) -> Seq<Seq<char>>
    decreases s.len(),
{
    match first_index(s, c) {
        None => seq![s],
        Some(i) => {
            proof {
                lemma_first_index(s, c);
            }
            seq![s.take(i)] + split_on(s.skip(i + 1), c)
        },
    }
}

/// Splits at every `c`.
pub fn split_char(v: &Vec<char>, c: char) -> (r: Vec<Vec<char>>)
    ensures
        views(r@) == split_on(v@, c),
{
    let mut r: Vec<Vec<char>> = Vec::new();
    let mut start: usize = 0;
    assert(v@.skip(0) =~= v@);
    loop
        invariant
            start <= v.len(),
            split_on(v@, c) == views(r@) + split_on(v@.skip(start as int), c),
        decreases v.len() - start,
    {
        let ghost t = v@.skip(start as int);
        proof {
            lemma_first_index(t, c);
        }
        match find_char_from(v, c, start) {
            Some(i) => {
                let piece = sub_chars(v, start, i);
                assert(piece@ =~= t.take(i - start));
                assert(t.skip(i - start + 1) =~= v@.skip(i + 1));
                let ghost before = r@;
                r.push(piece);
                assert(views(r@) =~= views(before).push(piece@));
                start = i + 1;
            },
            None => {
                let piece = sub_chars(v, start, v.len());
                assert(piece@ =~= t);
                let ghost before = r@;
                r.push(piece);
                assert(views(r@) =~= views(before).push(piece@));
                return r;
            },
        }
    }
}

} // verus!
