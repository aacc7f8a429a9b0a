//! Text building blocks shared by the rules: decimal rendering, joining,
//! comparison, cutting at a separator, trimming and lower-casing.
//!
//! Texts are modelled as `Seq<char>`; lengths are byte lengths of the UTF-8
//! encoding, as `str::len` reports them.

use vstd::prelude::*;
use vstd::string::*;
use vstd::utf8::*;

verus! {

/// Length of `s` in bytes once encoded as UTF-8.
pub open spec fn byte_len(s: Seq<char>) -> nat {
    encode_utf8(s).len()
}

/// The character for a single decimal digit.
pub open spec fn digit(d: nat) -> char
    recommends
        d < 10,
{
    if d == 0 {
        '0'
    } else if d == 1 {
        '1'
    } else if d == 2 {
        '2'
    } else if d == 3 {
        '3'
    } else if d == 4 {
        '4'
    } else if d == 5 {
        '5'
    } else if d == 6 {
        '6'
    } else if d == 7 {
        '7'
    } else if d == 8 {
        '8'
    } else {
        '9'
    }
}

/// Decimal notation of `n`: no sign, no leading zeros, `"0"` for zero.
pub open spec fn decimal(n: nat) -> Seq<char>
    decreases n,
{
    if n < 10 {
        seq![digit(n)]
    } else {
        decimal(n / 10).push(digit(n % 10))
    }
}

/// `parts` written one after another with `sep` between neighbours.
pub open spec fn joined(parts: Seq<Seq<char>>, sep: Seq<char>) -> Seq<char>
    decreases parts.len(),
{
    if parts.len() == 0 {
        Seq::empty()
    } else if parts.len() == 1 {
        parts[0]
    } else {
        joined(parts.drop_last(), sep) + sep + parts.last()
    }
}

/// The views of a list of owned strings.
pub open spec fn texts(items: Seq<String>) -> Seq<Seq<char>> {
    items.map_values(|s: String| s@)
}

/// Trusted, not proved: `String::push` of the standard library appends the
/// given character to the end of the string and changes nothing else.
pub assume_specification[ String::push ](s: &mut String, ch: char)
    ensures
        final(s)@ == old(s)@.push(ch),
;

fn digit_char(d: u64) -> (c: char)
    requires
        d < 10,
    ensures
        c == digit(d as nat),
{
    if d == 0 {
        '0'
    } else if d == 1 {
        '1'
    } else if d == 2 {
        '2'
    } else if d == 3 {
        '3'
    } else if d == 4 {
        '4'
    } else if d == 5 {
        '5'
    } else if d == 6 {
        '6'
    } else if d == 7 {
        '7'
    } else if d == 8 {
        '8'
    } else {
        '9'
    }
}

/// Renders `n` in decimal notation.
pub fn decimal_string(n: u64) -> (r: String)
    ensures
        r@ == decimal(n as nat),
    decreases n,
{
    let mut r = if n < 10 {
        String::new()
    } else {
        decimal_string(n / 10)
    };
    r.push(digit_char(n % 10));
    r
}

/// Joins `parts` with `sep` between neighbours.
pub fn join(parts: &Vec<String>, sep: &str) -> (r: String)
    ensures
        r@ == joined(texts(parts@), sep@),
{
    let mut r = String::new();
    let mut i: usize = 0;
    while i < parts.len()
        invariant
            i <= parts.len(),
            r@ == joined(texts(parts@.take(i as int)), sep@),
        decreases parts.len() - i,
    {
        proof {
            let before = texts(parts@.take(i as int));
            let after = texts(parts@.take(i + 1));
            assert(after.drop_last() =~= before);
        }
        if i > 0 {
            r.append(sep);
        }
        r.append(parts[i].as_str());
        i += 1;
    }
    assert(parts@.take(i as int) =~= parts@);
    r
}

/// Whether two texts hold the same characters.
pub fn same_text(a: &str, b: &str) -> (r: bool)
    ensures
        r == (a@ == b@),
{
    let x = a.as_bytes();
    let y = b.as_bytes();
    proof {
        encode_utf8_decode_utf8(a@);
        encode_utf8_decode_utf8(b@);
    }
    if x.len() != y.len() {
        return false;
    }
    let mut i: usize = 0;
    while i < x.len()
        invariant
            i <= x.len(),
            x.len() == y.len(),
            x@ == encode_utf8(a@),
            y@ == encode_utf8(b@),
            forall|j: int| 0 <= j < i ==> x@[j] == y@[j],
        decreases x.len() - i,
    {
        if x[i] != y[i] {
            return false;
        }
        i += 1;
    }
    assert(x@ =~= y@);
    true
}

/// Whether `needle` is among `items`, compared character by character.
pub fn contains_text(items: &Vec<String>, needle: &str) -> (found: bool)
    ensures
        found == texts(items@).contains(needle@),
{
    let mut i: usize = 0;
    while i < items.len()
        invariant
            i <= items.len(),
            forall|j: int| 0 <= j < i ==> texts(items@)[j] != needle@,
        decreases items.len() - i,
    {
        if same_text(items[i].as_str(), needle) {
            assert(texts(items@)[i as int] == needle@);
            return true;
        }
        i += 1;
    }
    false
}

/// Every character takes at least one byte.
pub proof fn lemma_byte_len_covers_chars(s: Seq<char>)
    ensures
        s.len() <= byte_len(s),
    decreases s.len(),
{
    if s.len() > 0 {
        lemma_byte_len_covers_chars(s.drop_first());
    }
}

/// Length of `s` in bytes.
pub fn byte_length(s: &str) -> (n: usize)
    ensures
        n == byte_len(s@),
        s@.len() <= n,
{
    proof {
        lemma_byte_len_covers_chars(s@);
    }
    s.as_bytes().len()
}

/// Position of the first `c` in `s`; the length of `s` where it holds none.
pub open spec fn first_index(s: Seq<char>, c: char) -> int
    decreases s.len(),
{
    if s.len() == 0 || s[0] == c {
        0
    } else {
        1 + first_index(s.drop_first(), c)
    }
}

/// The part of `s` that precedes its first `c`; all of `s` where it holds none.
pub open spec fn before_first(s: Seq<char>, c: char) -> Seq<char> {
    s.take(first_index(s, c))
}

/// `first_index` is the one position that no `c` precedes and that holds a
/// `c` unless it is the end.
pub proof fn lemma_first_index(s: Seq<char>, c: char, i: int)
    requires
        0 <= i <= s.len(),
        forall|j: int| 0 <= j < i ==> s[j] != c,
        i < s.len() ==> s[i] == c,
    ensures
        first_index(s, c) == i,
    decreases i,
{
    if i > 0 {
        lemma_first_index(s.drop_first(), c, i - 1);
    }
}

/// Cuts `s` off at its first `c`.
pub fn cut_before<'a>(s: &'a str, c: char) -> (r: &'a str)
    ensures
        r@ == before_first(s@, c),
{
    let n = byte_length(s);
    let mut i: usize = 0;
    for ch in it: s.chars()
        invariant
            it.seq() == s@,
            i == it.index(),
            s@.len() <= n,
            forall|j: int| 0 <= j < i ==> s@[j] != c,
    {
        if ch == c {
            proof {
                lemma_first_index(s@, c, i as int);
            }
            return s.substring_char(0, i);
        }
        i += 1;
    }
    proof {
        lemma_first_index(s@, c, i as int);
    }
    s.substring_char(0, i)
}

/// Whether `c` is white space: what `char::is_whitespace` answers for it.
pub uninterp spec fn white_space(c: char) -> bool;

/// Trusted, not proved: `char::is_whitespace` of the standard library
/// answers by the character alone, whether it has Unicode's `White_Space`
/// property. Its answer is what [`white_space`] means.
pub assume_specification[ char::is_whitespace ](c: char) -> (b: bool)
    ensures
        b == white_space(c),
;

/// The lower-case form of `s`: what `str::to_lowercase` returns.
pub uninterp spec fn lower_case(s: Seq<char>) -> Seq<char>;

/// Trusted, not proved: `str::to_lowercase` of the standard library returns
/// the lower-case equivalent of its argument as a new string, by Unicode's
/// rules and from the argument alone. Its result is what [`lower_case`]
/// means.
pub assume_specification[ str::to_lowercase ](s: &str) -> (r: String)
    ensures
        r@ == lower_case(s@),
;

/// `s` without its leading white space.
pub open spec fn trimmed_start(s: Seq<char>) -> Seq<char>
    decreases s.len(),
{
    if s.len() > 0 && white_space(s[0]) {
        trimmed_start(s.drop_first())
    } else {
        s
    }
}

/// `s` without its trailing white space.
pub open spec fn trimmed_end(s: Seq<char>) -> Seq<char>
    decreases s.len(),
{
    if s.len() > 0 && white_space(s.last()) {
        trimmed_end(s.drop_last())
    } else {
        s
    }
}

/// `s` without leading and trailing white space.
pub open spec fn trimmed(s: Seq<char>) -> Seq<char> {
    trimmed_end(trimmed_start(s))
}

/// Leading white space ends at the first character that is none.
pub proof fn lemma_trimmed_start(s: Seq<char>, from: int)
    requires
        0 <= from <= s.len(),
        forall|j: int| 0 <= j < from ==> white_space(s[j]),
        from < s.len() ==> !white_space(s[from]),
    ensures
        trimmed_start(s) == s.subrange(from, s.len() as int),
    decreases from,
{
    if from > 0 {
        lemma_trimmed_start(s.drop_first(), from - 1);
    }
}

/// Trailing white space begins behind the last character that is none.
pub proof fn lemma_trimmed_end(s: Seq<char>, to: int)
    requires
        0 <= to <= s.len(),
        forall|j: int| to <= j < s.len() ==> white_space(s[j]),
        0 < to ==> !white_space(s[to - 1]),
    ensures
        trimmed_end(s) == s.subrange(0, to),
    decreases s.len() - to,
{
    if to < s.len() {
        lemma_trimmed_end(s.drop_last(), to);
    }
}

/// What is left of `s` lies between its first and behind its last character
/// that is no white space; nothing is left where all of it is white space.
pub proof fn lemma_trimmed(s: Seq<char>, from: int, to: int)
    requires
        0 <= from <= to <= s.len(),
        forall|j: int| 0 <= j < from ==> white_space(s[j]),
        forall|j: int| to <= j < s.len() ==> white_space(s[j]),
        from < to ==> !white_space(s[from]) && !white_space(s[to - 1]),
    ensures
        trimmed(s) == s.subrange(from, to),
{
    if from == to {
        lemma_trimmed_start(s, s.len() as int);
        assert(s.subrange(s.len() as int, s.len() as int) =~= s.subrange(from, to));
    } else {
        let tail = s.subrange(from, s.len() as int);
        lemma_trimmed_start(s, from);
        assert forall|j: int| to - from <= j < tail.len() implies white_space(tail[j]) by {
            assert(tail[j] == s[j + from]);
        }
        lemma_trimmed_end(tail, to - from);
        assert(tail.subrange(0, to - from) =~= s.subrange(from, to));
    }
}

/// Removes leading and trailing white space.
pub fn trim<'a>(s: &'a str) -> (r: &'a str)
    ensures
        r@ == trimmed(s@),
{
    let n = byte_length(s);
    let mut i: usize = 0;
    let mut from: usize = 0;
    let mut to: usize = 0;
    for ch in it: s.chars()
        invariant
            it.seq() == s@,
            i == it.index(),
            s@.len() <= n,
            from <= to <= i,
            forall|j: int| 0 <= j < from ==> white_space(s@[j]),
            forall|j: int| to <= j < i ==> white_space(s@[j]),
            from < to ==> !white_space(s@[from as int]) && !white_space(s@[to - 1]),
            from == to ==> from == i,
    {
        if ch.is_whitespace() {
            if from == to {
                from = i + 1;
                to = i + 1;
            }
        } else {
            to = i + 1;
        }
        i += 1;
    }
    proof {
        lemma_trimmed(s@, from as int, to as int);
    }
    s.substring_char(from, to)
}

} // verus!
