//! Character-level text utilities: decimal rendering, substring search,
//! lower-casing and whitespace-separated words.

use vstd::prelude::*;

verus! {

/// The character for a decimal digit.
pub open spec fn digit_char(d: nat) -> char {
    if d == 0 { '0' }
    else if d == 1 { '1' }
    else if d == 2 { '2' }
    else if d == 3 { '3' }
    else if d == 4 { '4' }
    else if d == 5 { '5' }
    else if d == 6 { '6' }
    else if d == 7 { '7' }
    else if d == 8 { '8' }
    else { '9' }
}

/// The decimal rendering of a natural number, without leading zeros.
pub open spec fn decimal(n: nat) -> Seq<char>
    decreases n,
{
    if n < 10 {
        seq![digit_char(n)]
    } else {
        decimal(n / 10).push(digit_char(n % 10))
    }
}

proof fn lemma_decimal_nonempty(n: nat)
    ensures
        decimal(n).len() >= 1,
        n >= 10 ==> decimal(n).len() >= 2,
    decreases n,
{
    if n >= 10 {
        lemma_decimal_nonempty(n / 10);
    }
}

/// Different numbers have different decimal renderings.
pub proof fn lemma_decimal_injective(n: nat, m: nat)
    requires
        decimal(n) == decimal(m),
    ensures
        n == m,
    decreases n,
{
    lemma_decimal_nonempty(n);
    lemma_decimal_nonempty(m);
    if n < 10 && m < 10 {
        assert(decimal(n)[0] == digit_char(n));
        assert(decimal(m)[0] == digit_char(m));
    } else if n >= 10 && m >= 10 {
        let dn = decimal(n);
        let dm = decimal(m);
        assert(dn.last() == digit_char(n % 10));
        assert(dm.last() == digit_char(m % 10));
        assert(dn.drop_last() =~= decimal(n / 10));
        assert(dm.drop_last() =~= decimal(m / 10));
        lemma_decimal_injective(n / 10, m / 10);
    }
}

/// A prefix followed by a number's decimal rendering names the number: two
/// such strings with the same prefix differ when the numbers do.
pub proof fn lemma_numbered_injective(prefix: Seq<char>, n: nat, m: nat)
    requires
        n != m,
    ensures
        prefix + decimal(n) != prefix + decimal(m),
{
    if prefix + decimal(n) == prefix + decimal(m) {
        assert((prefix + decimal(n)).skip(prefix.len() as int) =~= decimal(n));
        assert((prefix + decimal(m)).skip(prefix.len() as int) =~= decimal(m));
        lemma_decimal_injective(n, m);
    }
}

fn digit_str(d: u64) -> (s: &'static str)
    requires
        d < 10,
    ensures
        s@ == seq![digit_char(d as nat)],
{
    if d == 0 {
        proof { reveal_strlit("0"); }
        "0"
    } else if d == 1 {
        proof { reveal_strlit("1"); }
        "1"
    } else if d == 2 {
        proof { reveal_strlit("2"); }
        "2"
    } else if d == 3 {
        proof { reveal_strlit("3"); }
        "3"
    } else if d == 4 {
        proof { reveal_strlit("4"); }
        "4"
    } else if d == 5 {
        proof { reveal_strlit("5"); }
        "5"
    } else if d == 6 {
        proof { reveal_strlit("6"); }
        "6"
    } else if d == 7 {
        proof { reveal_strlit("7"); }
        "7"
    } else if d == 8 {
        proof { reveal_strlit("8"); }
        "8"
    } else {
        proof { reveal_strlit("9"); }
        "9"
    }
}

/// Renders `n` in decimal, as `format!("{}", n)` does.
pub fn u64_to_decimal(n: u64) -> (s: String)
    ensures
        s@ == decimal(n as nat),
    decreases n,
{
    if n < 10 {
        String::from_str(digit_str(n))
    } else {
        let mut s = u64_to_decimal(n / 10);
        s.append(digit_str(n % 10));
        s
    }
}


/// `needle` occurs in `hay` starting at position `i`.
pub open spec fn occurs_at(hay: Seq<char>, needle: Seq<char>, i: int) -> bool {
    &&& 0 <= i
    &&& i + needle.len() <= hay.len()
    &&& hay.subrange(i, i + needle.len()) == needle
}

/// `needle` is a contiguous part of `hay` (the empty sequence is part of every sequence).
pub open spec fn contains_seq(hay: Seq<char>, needle: Seq<char>) -> bool {
    exists|i: int| occurs_at(hay, needle, i)
}

/// Whether two strings hold the same characters.
pub fn str_eq(a: &str, b: &str) -> (r: bool)
    ensures
        r == (a@ == b@),
{
    String::from_str(a) == String::from_str(b)
}

/// The characters of `s`, in order.
pub fn chars_of(s: &str) -> (v: Vec<char>)
    ensures
        v@ == s@,
{
    let n = s.unicode_len();
    let mut v: Vec<char> = Vec::new();
    let mut i: usize = 0;
    while i < n
        invariant
            n == s@.len(),
            i <= n,
            v@ == s@.subrange(0, i as int),
        decreases n - i,
    {
        let c = s.get_char(i);
        v.push(c);
        i = i + 1;
        assert(v@ =~= s@.subrange(0, i as int));
    }
    assert(v@ =~= s@);
    v
}

fn occurs_at_exec(hay: &Vec<char>, needle: &Vec<char>, i: usize) -> (r: bool)
    requires
        i + needle@.len() <= hay@.len(),
    ensures
        r == occurs_at(hay@, needle@, i as int),
{
    let m = needle.len();
    let n = hay.len();
    let mut j: usize = 0;
    while j < m
        invariant
            m == needle@.len(),
            n == hay@.len(),
            i + m <= hay@.len(),
            j <= m,
            forall|k: int| 0 <= k < j ==> hay@[i + k] == needle@[k],
        decreases m - j,
    {
        if hay[i + j] != needle[j] {
            assert(hay@.subrange(i as int, i + m)[j as int] != needle@[j as int]);
            return false;
        }
        j = j + 1;
    }
    assert(hay@.subrange(i as int, i + m) =~= needle@);
    true
}

/// Whether `needle` occurs in `hay`, as `str::contains` with a string pattern.
pub fn contains_chars(hay: &Vec<char>, needle: &Vec<char>) -> (r: bool)
    ensures
        r == contains_seq(hay@, needle@),
{
    let n = hay.len();
    let m = needle.len();
    if m > n {
        assert forall|i: int| !occurs_at(hay@, needle@, i) by {}
        return false;
    }
    if m == 0 {
        assert(hay@.subrange(0, 0) =~= needle@);
        assert(occurs_at(hay@, needle@, 0));
        return true;
    }
    let mut i: usize = 0;
    while i <= n - m
        invariant
            n == hay@.len(),
            m == needle@.len(),
            0 < m <= n,
            i <= n - m + 1,
            forall|k: int| 0 <= k < i ==> !occurs_at(hay@, needle@, k),
        decreases n - m + 1 - i,
    {
        if occurs_at_exec(hay, needle, i) {
            return true;
        }
        i = i + 1;
    }
    assert forall|k: int| !occurs_at(hay@, needle@, k) by {
        if 0 <= k < i {
        }
    }
    false
}


/// What `str::to_lowercase` returns for a string with these characters.
pub uninterp spec fn lowercase(s: Seq<char>) -> Seq<char>;

/// Calls `str::to_lowercase`. The contract claims only that the result is a
/// function of the input's characters alone (named `lowercase`); the Unicode
/// case mapping itself is left unstated.
#[verifier::external_body]
pub(crate) fn to_lowercase(s: &str) -> (r: String)
    ensures
        r@ == lowercase(s@),
{
    s.to_lowercase()
}

/// Whether a character has the Unicode White_Space property, which
/// `char::is_whitespace` tests: tab to carriage return, space, next line,
/// no-break space, ogham space mark, en quad to hair space, line and paragraph
/// separators, narrow no-break space, medium mathematical space and
/// ideographic space.
pub open spec fn white_space(c: char) -> bool {
    let u = c as int;
    ||| 0x09 <= u <= 0x0D
    ||| u == 0x20
    ||| u == 0x85
    ||| u == 0xA0
    ||| u == 0x1680
    ||| 0x2000 <= u <= 0x200A
    ||| u == 0x2028
    ||| u == 0x2029
    ||| u == 0x202F
    ||| u == 0x205F
    ||| u == 0x3000
}

/// Whether a character has the Unicode White_Space property.
pub fn is_whitespace(c: char) -> (b: bool)
    ensures
        b == white_space(c),
{
    let u = c as u32;
    (0x09 <= u && u <= 0x0D) || u == 0x20 || u == 0x85 || u == 0xA0 || u == 0x1680 || (0x2000
        <= u && u <= 0x200A) || u == 0x2028 || u == 0x2029 || u == 0x202F || u == 0x205F || u
        == 0x3000
}

/// The number of bytes of a character in UTF-8, as `char::len_utf8` gives it.
pub open spec fn utf8_width(c: char) -> nat {
    let v = c as u32;
    if v < 0x80 {
        1
    } else if v < 0x800 {
        2
    } else if v < 0x10000 {
        3
    } else {
        4
    }
}

/// The number of bytes of a character sequence in UTF-8 (what `str::len` returns).
pub open spec fn utf8_len(s: Seq<char>) -> nat
    decreases s.len(),
{
    if s.len() == 0 {
        0
    } else {
        utf8_len(s.drop_last()) + utf8_width(s.last())
    }
}

fn utf8_width_exec(c: char) -> (w: usize)
    ensures
        w == utf8_width(c),
{
    let v = c as u32;
    if v < 0x80 {
        1
    } else if v < 0x800 {
        2
    } else if v < 0x10000 {
        3
    } else {
        4
    }
}

/// `s[a..b]` is one of the words that `str::split_whitespace` yields:
/// a non-empty maximal run of characters that are not whitespace.
pub open spec fn is_word(s: Seq<char>, a: int, b: int) -> bool {
    &&& 0 <= a < b <= s.len()
    &&& (a == 0 || white_space(s[a - 1]))
    &&& (b == s.len() || white_space(s[b]))
    &&& forall|k: int| a <= k < b ==> !white_space(#[trigger] s[k])
}

/// Some word of `text` that is longer than three bytes occurs in `answer`.
pub open spec fn mentions_long_word(answer: Seq<char>, text: Seq<char>) -> bool {
    exists|a: int, b: int|
        #![trigger is_word(text, a, b)]
        is_word(text, a, b) && utf8_len(text.subrange(a, b)) > 3 && contains_seq(
            answer,
            text.subrange(a, b),
        )
}

/// Position `i` of `s` does not cut a word in two.
pub open spec fn at_boundary(s: Seq<char>, i: int) -> bool {
    i == 0 || i == s.len() || white_space(s[i - 1]) || white_space(s[i])
}

proof fn lemma_next_word(s: Seq<char>, from: int, start: int, end: int, a: int, b: int)
    requires
        0 <= from <= start <= end <= s.len(),
        at_boundary(s, from),
        forall|k: int| from <= k < start ==> white_space(#[trigger] s[k]),
        forall|k: int| start <= k < end ==> !white_space(#[trigger] s[k]),
        end == s.len() || white_space(s[end]),
        is_word(s, a, b),
        from < b <= end,
    ensures
        a == start,
        b == end,
        start < end,
{
    assert(!white_space(s[b - 1]));
    if b < end {
        assert(!white_space(s[b]));
    }
    if a < start {
        if start - 1 >= from {
            assert(white_space(s[start - 1]));
            assert(!white_space(s[start - 1]));
        } else {
            assert(!white_space(s[from]));
            assert(!white_space(s[from - 1]));
        }
    }
    if a > start {
        assert(!white_space(s[a - 1]));
    }
}

proof fn lemma_utf8_len_push(s: Seq<char>, c: char)
    ensures
        utf8_len(s.push(c)) == utf8_len(s) + utf8_width(c),
{
    assert(s.push(c).drop_last() =~= s);
}

/// Whether some word of `text` longer than three bytes occurs in `answer`, as
/// `text.split_whitespace().filter(|w| w.len() > 3).any(|w| answer.contains(w))`.
pub fn mentions_long_word_exec(answer: &Vec<char>, text: &Vec<char>) -> (r: bool)
    ensures
        r == mentions_long_word(answer@, text@),
{
    let n = text.len();
    let mut i: usize = 0;
    while i < n
        invariant
            n == text@.len(),
            i <= n,
            at_boundary(text@, i as int),
            forall|a: int, b: int|
                #![trigger is_word(text@, a, b)]
                is_word(text@, a, b) && b <= i ==> !(utf8_len(text@.subrange(a, b)) > 3
                    && contains_seq(answer@, text@.subrange(a, b))),
        decreases n - i,
    {
        let from = i;
        while i < n && is_whitespace(text[i])
            invariant
                n == text@.len(),
                from <= i <= n,
                forall|k: int| from <= k < i ==> white_space(#[trigger] text@[k]),
            decreases n - i,
        {
            i = i + 1;
        }
        let start = i;
        let mut word: Vec<char> = Vec::new();
        let mut bytes: usize = 0;
        while i < n && !is_whitespace(text[i])
            invariant
                n == text@.len(),
                start <= i <= n,
                forall|k: int| start <= k < i ==> !white_space(#[trigger] text@[k]),
                word@ == text@.subrange(start as int, i as int),
                bytes == if utf8_len(word@) > 4 { 4 } else { utf8_len(word@) },
            decreases n - i,
        {
            let c = text[i];
            proof {
                lemma_utf8_len_push(word@, c);
            }
            word.push(c);
            let w = utf8_width_exec(c);
            bytes = if bytes + w > 4 { 4 } else { bytes + w };
            i = i + 1;
            assert(word@ =~= text@.subrange(start as int, i as int));
        }
        let found = start < i && bytes > 3 && contains_chars(answer, &word);
        assert forall|a: int, b: int|
            #![trigger is_word(text@, a, b)]
            is_word(text@, a, b) && from < b <= i implies a == start && b == i && start < i by {
            lemma_next_word(text@, from as int, start as int, i as int, a, b);
        }
        if found {
            assert(is_word(text@, start as int, i as int));
            return true;
        }
    }
    false
}

} // verus!
