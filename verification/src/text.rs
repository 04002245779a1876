use vstd::prelude::*;
use vstd::std_specs::iter::IteratorSpec;

verus! {

/// The characters of a string, in order.
pub fn chars_of(s: &str) -> (v: Vec<char>)
    ensures
        v@ == s@,
{
    broadcast use vstd::string::group_string_axioms;

    let mut it = s.chars();
    let mut v: Vec<char> = Vec::new();
    loop
        invariant
            v@ + it.remaining() == s@,
            it.decrease() is Some,
        ensures
            v@ == s@,
        decreases it.decrease()->0,
    {
        match it.next() {
            Some(c) => {
                v.push(c);
            },
            None => {
                assert(v@ =~= s@);
                break;
            },
        }
    }
    v
}

/// Calls `String::push`: appends one character.
#[verifier::external_body]
pub(crate) fn push_char(s: &mut String, c: char)
    ensures
        final(s)@ == old(s)@.push(c),
{
    s.push(c);
}

/// A new string holding `v[from..to]`.
pub fn string_of(v: &Vec<char>, from: usize, to: usize) -> (s: String)
    requires
        from <= to <= v.len(),
    ensures
        s@ == v@.subrange(from as int, to as int),
{
    let mut s = String::new();
    let mut i = from;
    while i < to
        invariant
            from <= i <= to <= v.len(),
            s@ == v@.subrange(from as int, i as int),
        decreases to - i,
    {
        push_char(&mut s, v[i]);
        assert(v@.subrange(from as int, i + 1) =~= v@.subrange(from as int, i as int).push(
            v@[i as int],
        ));
        i += 1;
    }
    s
}

/// A new string holding all of `v`.
pub fn string_from(v: &Vec<char>) -> (s: String)
    ensures
        s@ == v@,
{
    let s = string_of(v, 0, v.len());
    assert(v@.subrange(0, v@.len() as int) =~= v@);
    s
}

/// Appends the characters of `t` to `s`.
pub fn push_str(s: &mut String, t: &str)
    ensures
        final(s)@ == old(s)@ + t@,
{
    let v = chars_of(t);
    let mut i: usize = 0;
    while i < v.len()
        invariant
            i <= v.len(),
            v@ == t@,
            s@ == old(s)@ + v@.subrange(0, i as int),
        decreases v.len() - i,
    {
        push_char(s, v[i]);
        assert(v@.subrange(0, i + 1) =~= v@.subrange(0, i as int).push(v@[i as int]));
        i += 1;
    }
    assert(v@.subrange(0, v@.len() as int) =~= v@);
}

/// Whether a character has the Unicode `White_Space` property, the fixed
/// list of code points that `char::is_whitespace` decides by: U+0009 to
/// U+000D, U+0020, U+0085, U+00A0, U+1680, U+2000 to U+200A, U+2028,
/// U+2029, U+202F, U+205F and U+3000.
pub open spec fn unicode_whitespace(c: char) -> bool {
    let u = c as u32;
    ||| 0x09 <= u <= 0x0D
    ||| u == 0x20
    ||| u == 0x85
    ||| u == 0xA0
    ||| u == 0x1680
    ||| 0x2000 <= u <= 0x200A
    ||| u == 0x2028
    ||| u == 0x2029
    ||| u == 0x202F
    ||| u == 0x205F
    ||| u == 0x3000
}

/// Calls `char::is_whitespace`: whether the character has the Unicode
/// `White_Space` property.
#[verifier::external_body]
pub(crate) fn is_whitespace(c: char) -> (b: bool)
    ensures
        b == unicode_whitespace(c),
{
    c.is_whitespace()
}

/// `s` without its leading whitespace.
pub open spec fn trim_start_seq(s: Seq<char>) -> Seq<char>
    decreases s.len(),
{
    if s.len() > 0 && unicode_whitespace(s[0]) {
        trim_start_seq(s.drop_first())
    } else {
        s
    }
}

/// `s` without its trailing whitespace.
pub open spec fn trim_end_seq(s: Seq<char>) -> Seq<char>
    decreases s.len(),
{
    if s.len() > 0 && unicode_whitespace(s.last()) {
        trim_end_seq(s.drop_last())
    } else {
        s
    }
}

/// `s` without leading and trailing whitespace, as `str::trim` gives it.
pub open spec fn trim_seq(s: Seq<char>) -> Seq<char> {
    trim_end_seq(trim_start_seq(s))
}

proof fn lemma_trim_start_step(s: Seq<char>, lo: int)
    requires
        0 <= lo < s.len(),
        unicode_whitespace(s[lo]),
    ensures
        trim_start_seq(s.subrange(lo, s.len() as int)) == trim_start_seq(
            s.subrange(lo + 1, s.len() as int),
        ),
{
    assert(s.subrange(lo, s.len() as int).drop_first() =~= s.subrange(lo + 1, s.len() as int));
}

proof fn lemma_trim_end_step(s: Seq<char>, hi: int)
    requires
        0 < hi <= s.len(),
        unicode_whitespace(s[hi - 1]),
    ensures
        trim_end_seq(s.subrange(0, hi)) == trim_end_seq(s.subrange(0, hi - 1)),
{
    assert(s.subrange(0, hi).drop_last() =~= s.subrange(0, hi - 1));
}

/// The bounds `(lo, hi)` such that `v[lo..hi]` is `v` with leading and
/// trailing whitespace removed.
pub fn trim_bounds(v: &Vec<char>) -> (r: (usize, usize))
    ensures
        r.0 <= r.1 <= v.len(),
        v@.subrange(r.0 as int, r.1 as int) == trim_seq(v@),
{
    let n = v.len();
    let mut lo: usize = 0;
    assert(v@.subrange(0, n as int) =~= v@);
    while lo < n && is_whitespace(v[lo])
        invariant
            lo <= n == v.len(),
            trim_start_seq(v@.subrange(lo as int, n as int)) == trim_start_seq(v@),
        decreases n - lo,
    {
        proof {
            lemma_trim_start_step(v@, lo as int);
        }
        lo += 1;
    }
    let ghost rest = v@.subrange(lo as int, n as int);
    assert(trim_start_seq(rest) == rest);
    let mut hi: usize = n;
    assert(rest.subrange(0, (n - lo) as int) =~= rest);
    while hi > lo && is_whitespace(v[hi - 1])
        invariant
            lo <= hi <= n == v.len(),
            rest == v@.subrange(lo as int, n as int),
            trim_end_seq(rest.subrange(0, hi - lo)) == trim_end_seq(rest),
        decreases hi - lo,
    {
        proof {
            lemma_trim_end_step(rest, hi - lo);
        }
        hi -= 1;
    }
    assert(rest.subrange(0, hi - lo) =~= v@.subrange(lo as int, hi as int));
    (lo, hi)
}

/// `v` with leading and trailing whitespace removed.
pub fn trim_chars(v: &Vec<char>) -> (t: Vec<char>)
    ensures
        t@ == trim_seq(v@),
{
    let (lo, hi) = trim_bounds(v);
    slice_chars(v, lo, hi)
}

/// A new vector holding `v[from..to]`.
pub fn slice_chars(v: &Vec<char>, from: usize, to: usize) -> (t: Vec<char>)
    requires
        from <= to <= v.len(),
    ensures
        t@ == v@.subrange(from as int, to as int),
{
    let mut t: Vec<char> = Vec::new();
    let mut i = from;
    while i < to
        invariant
            from <= i <= to <= v.len(),
            t@ == v@.subrange(from as int, i as int),
        decreases to - i,
    {
        t.push(v[i]);
        assert(v@.subrange(from as int, i + 1) =~= v@.subrange(from as int, i as int).push(
            v@[i as int],
        ));
        i += 1;
    }
    t
}

/// Whether `v` equals the characters of `w`.
pub fn chars_equal(v: &Vec<char>, w: &str) -> (b: bool)
    ensures
        b == (v@ == w@),
{
    let u = chars_of(w);
    if u.len() != v.len() {
        assert(v@.len() != w@.len());
        return false;
    }
    let mut i: usize = 0;
    while i < v.len()
        invariant
            i <= v.len() == u.len(),
            u@ == w@,
            forall|j: int| 0 <= j < i ==> v@[j] == u@[j],
        decreases v.len() - i,
    {
        if v[i] != u[i] {
            return false;
        }
        i += 1;
    }
    assert(v@ =~= u@);
    true
}

/// Whether `w` is a prefix of `v`.
pub fn starts_with(v: &Vec<char>, w: &str) -> (b: bool)
    ensures
        b == (w@.len() <= v@.len() && v@.subrange(0, w@.len() as int) == w@),
{
    let u = chars_of(w);
    if u.len() > v.len() {
        return false;
    }
    let mut i: usize = 0;
    while i < u.len()
        invariant
            i <= u.len() <= v.len(),
            u@ == w@,
            forall|j: int| 0 <= j < i ==> v@[j] == u@[j],
        decreases u.len() - i,
    {
        if v[i] != u[i] {
            assert(v@.subrange(0, w@.len() as int)[i as int] != w@[i as int]);
            return false;
        }
        i += 1;
    }
    assert(v@.subrange(0, w@.len() as int) =~= w@);
    true
}

/// Whether `w` is a suffix of `v`.
pub fn ends_with(v: &Vec<char>, w: &str) -> (b: bool)
    ensures
        b == (w@.len() <= v@.len() && v@.subrange(v@.len() - w@.len(), v@.len() as int) == w@),
{
    let u = chars_of(w);
    if u.len() > v.len() {
        return false;
    }
    let off = v.len() - u.len();
    let mut i: usize = 0;
    while i < u.len()
        invariant
            i <= u.len() <= v.len(),
            off == v.len() - u.len(),
            u@ == w@,
            forall|j: int| 0 <= j < i ==> v@[off + j] == u@[j],
        decreases u.len() - i,
    {
        if v[off + i] != u[i] {
            assert(v@.subrange(off as int, v@.len() as int)[i as int] != w@[i as int]);
            return false;
        }
        i += 1;
    }
    assert(v@.subrange(off as int, v@.len() as int) =~= w@);
    true
}

/// An ASCII digit `0`-`9`.
pub open spec fn is_dec_digit(c: char) -> bool {
    '0' <= c <= '9'
}

/// An ASCII hexadecimal digit `0`-`9`, `a`-`f`, `A`-`F`.
pub open spec fn is_hex_digit(c: char) -> bool {
    ('0' <= c <= '9') || ('a' <= c <= 'f') || ('A' <= c <= 'F')
}

/// The value of a hexadecimal digit.
pub open spec fn hex_value(c: char) -> int {
    if '0' <= c <= '9' {
        c as int - '0' as int
    } else if 'a' <= c <= 'f' {
        c as int - 'a' as int + 10
    } else {
        c as int - 'A' as int + 10
    }
}

/// What `u8::from_str_radix(s, 16)` gives for a string of at most two
/// characters: an optional `+` followed by one or two hexadecimal digits.
pub open spec fn hex_u8_spec(s: Seq<char>) -> Option<u8> {
    if s.len() == 1 {
        if is_hex_digit(s[0]) {
            Some(hex_value(s[0]) as u8)
        } else {
            None
        }
    } else if s.len() == 2 {
        if s[0] == '+' {
            if is_hex_digit(s[1]) {
                Some(hex_value(s[1]) as u8)
            } else {
                None
            }
        } else if is_hex_digit(s[0]) && is_hex_digit(s[1]) {
            Some((16 * hex_value(s[0]) + hex_value(s[1])) as u8)
        } else {
            None
        }
    } else {
        None
    }
}

/// Calls `u8::from_str_radix` with radix 16 on a string of at most two
/// characters. Its documentation: an optional `+` sign followed by digits
/// of the radix (`0`-`9`, `a`-`f`, `A`-`F`); anything else, an empty string
/// or a lone sign is an error. Two hexadecimal digits cannot overflow a `u8`.
#[verifier::external_body]
pub(crate) fn parse_hex_u8(digits: &Vec<char>) -> (r: Option<u8>)
    requires
        digits@.len() <= 2,
    ensures
        r == hex_u8_spec(digits@),
{
    let s: String = digits.iter().collect();
    u8::from_str_radix(&s, 16).ok()
}

/// The value of a string of decimal digits.
pub open spec fn decimal_value(s: Seq<char>) -> nat
    decreases s.len(),
{
    if s.len() == 0 {
        0
    } else {
        decimal_value(s.drop_last()) * 10 + (s.last() as int - '0' as int) as nat
    }
}

/// The digits after an optional leading `+`.
pub open spec fn unsigned_digits(s: Seq<char>) -> Seq<char> {
    if s.len() > 0 && s[0] == '+' {
        s.drop_first()
    } else {
        s
    }
}

/// What `str::parse::<u8>` gives: an optional `+` followed by at least one
/// decimal digit, with a value of at most 255.
pub open spec fn u8_decimal_spec(s: Seq<char>) -> Option<u8> {
    let d = unsigned_digits(s);
    if d.len() > 0 && (forall|i: int| 0 <= i < d.len() ==> is_dec_digit(#[trigger] d[i]))
        && decimal_value(d) <= 255 {
        Some(decimal_value(d) as u8)
    } else {
        None
    }
}

/// Calls `str::parse::<u8>` (`u8::from_str`). Its documentation: an
/// optional `+` sign followed by decimal digits; other characters, an empty
/// digit string and values above `u8::MAX` are errors.
#[verifier::external_body]
pub(crate) fn parse_u8_decimal(digits: &Vec<char>) -> (r: Option<u8>)
    ensures
        r == u8_decimal_spec(digits@),
{
    let s: String = digits.iter().collect();
    s.parse::<u8>().ok()
}

/// The text that `String::from_utf8_lossy` makes of a byte sequence.
pub uninterp spec fn utf8_lossy(b: Seq<u8>) -> Seq<char>;

/// Calls `String::from_utf8_lossy`. Its documentation: valid UTF-8 is
/// decoded as it stands; invalid sequences become U+FFFD. The contract names
/// the result and states the first part.
#[verifier::external_body]
pub(crate) fn string_from_utf8_lossy(bytes: &Vec<u8>) -> (s: String)
    ensures
        s@ == utf8_lossy(bytes@),
        vstd::utf8::valid_utf8(bytes@) ==> s@ == vstd::utf8::decode_utf8(bytes@),
{
    String::from_utf8_lossy(bytes.as_slice()).into_owned()
}

/// Text read from bytes as `String::from_utf8_lossy` reads it: valid UTF-8
/// decoded as it stands, other byte sequences with replacement characters.
pub open spec fn lossy_text(b: Seq<u8>) -> Seq<char> {
    if vstd::utf8::valid_utf8(b) {
        vstd::utf8::decode_utf8(b)
    } else {
        utf8_lossy(b)
    }
}

/// ASCII lowercase of a character.
pub open spec fn ascii_lower(c: char) -> char {
    if 'A' <= c <= 'Z' {
        ((c as u32) + 32) as char
    } else {
        c
    }
}

/// The text that `str::to_lowercase` makes of a string.
pub uninterp spec fn unicode_lowercase(s: Seq<char>) -> Seq<char>;

/// Calls `str::to_lowercase`. Its documentation: each character is mapped
/// by the Unicode `Lowercase` mapping. The contract names the result and
/// states it for ASCII text, where only `A`-`Z` change, to `a`-`z`.
#[verifier::external_body]
pub(crate) fn lowercase(s: &str) -> (r: String)
    ensures
        r@ == unicode_lowercase(s@),
        vstd::utf8::is_ascii_chars(s@) ==> r@ == s@.map_values(|c: char| ascii_lower(c)),
{
    s.to_lowercase()
}

/// The texts of a list of character vectors.
pub open spec fn texts(parts: Seq<Vec<char>>) -> Seq<Seq<char>> {
    parts.map_values(|p: Vec<char>| p@)
}

/// The pieces of `s` between occurrences of `sep`, as `str::split` gives
/// them: one more piece than there are separators, empty pieces kept.
pub open spec fn split_seq(s: Seq<char>, sep: char) -> Seq<Seq<char>>
    decreases s.len(),
{
    if s.len() == 0 {
        seq![Seq::<char>::empty()]
    } else {
        let init = split_seq(s.drop_last(), sep);
        if s.last() == sep {
            init.push(Seq::<char>::empty())
        } else {
            init.update(init.len() - 1, init.last().push(s.last()))
        }
    }
}

proof fn lemma_split_nonempty(s: Seq<char>, sep: char)
    ensures
        split_seq(s, sep).len() >= 1,
    decreases s.len(),
{
    if s.len() > 0 {
        lemma_split_nonempty(s.drop_last(), sep);
    }
}

/// Split `v` at every occurrence of `sep`.
pub fn split_chars(v: &Vec<char>, sep: char) -> (parts: Vec<Vec<char>>)
    ensures
        texts(parts@) == split_seq(v@, sep),
{
    let mut parts: Vec<Vec<char>> = Vec::new();
    let mut cur: Vec<char> = Vec::new();
    let mut i: usize = 0;
    assert(v@.subrange(0, 0) =~= Seq::<char>::empty());
    assert(texts(parts@).push(cur@) =~= split_seq(v@.subrange(0, 0), sep));
    while i < v.len()
        invariant
            i <= v.len(),
            texts(parts@).push(cur@) == split_seq(v@.subrange(0, i as int), sep),
        decreases v.len() - i,
    {
        let ghost pre = v@.subrange(0, i as int);
        let ghost next = v@.subrange(0, i + 1);
        assert(next.drop_last() =~= pre);
        proof {
            lemma_split_nonempty(pre, sep);
        }
        if v[i] == sep {
            let done = cur;
            parts.push(done);
            cur = Vec::new();
            assert(texts(parts@).push(cur@) =~= split_seq(next, sep));
        } else {
            let ghost old_parts = parts@;
            cur.push(v[i]);
            assert(texts(parts@) == texts(old_parts));
            assert(texts(parts@).push(cur@) =~= split_seq(next, sep));
        }
        i += 1;
    }
    parts.push(cur);
    assert(v@.subrange(0, v@.len() as int) =~= v@);
    assert(texts(parts@) =~= split_seq(v@, sep));
    parts
}

} // verus!
