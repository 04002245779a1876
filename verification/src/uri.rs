use vstd::prelude::*;
use vstd::utf8::{decode_utf8, encode_utf8, is_ascii_chars, valid_utf8};
use crate::text::{
    chars_of, hex_u8_spec, parse_hex_u8, push_char, slice_chars, split_chars, split_seq,
    starts_with, string_from, lossy_text, string_from_utf8_lossy, texts, trim_chars, trim_seq,
};

verus! {

/// A byte that a `file://` URI path carries as it stands: RFC 3986
/// unreserved characters plus `/` and `:`.
pub open spec fn is_plain_uri_byte(b: u8) -> bool {
    ('A' as u8 <= b <= 'Z' as u8) || ('a' as u8 <= b <= 'z' as u8) || ('0' as u8 <= b <= '9' as u8)
        || b == '-' as u8 || b == '.' as u8 || b == '_' as u8 || b == '~' as u8 || b == '/' as u8
        || b == ':' as u8
}

/// The uppercase hexadecimal digit of a value below 16.
pub open spec fn upper_hex(d: int) -> char {
    if d < 10 {
        ('0' as int + d) as char
    } else {
        ('A' as int + d - 10) as char
    }
}

/// The text that stands for one byte of a path in a URI.
pub open spec fn uri_piece(b: u8) -> Seq<char> {
    if is_plain_uri_byte(b) {
        seq![b as char]
    } else {
        seq!['%', upper_hex(b as int / 16), upper_hex(b as int % 16)]
    }
}

/// A path's bytes percent-encoded for a `file://` URI.
pub open spec fn uri_encode(b: Seq<u8>) -> Seq<char>
    decreases b.len(),
{
    if b.len() == 0 {
        Seq::empty()
    } else {
        uri_piece(b[0]) + uri_encode(b.drop_first())
    }
}

/// The bytes that percent-decoding gives: `%` followed by two characters
/// that `u8::from_str_radix` reads as hexadecimal becomes that byte; any
/// other `%` is kept as it stands, and decoding goes on with the byte after
/// it, so nothing is dropped.
pub open spec fn uri_decode_bytes(b: Seq<u8>) -> Seq<u8>
    decreases b.len(),
{
    if b.len() == 0 {
        Seq::empty()
    } else if b[0] == '%' as u8 && b.len() >= 3 && hex_u8_spec(seq![b[1] as char, b[2] as char]) is Some {
        seq![hex_u8_spec(seq![b[1] as char, b[2] as char])->0] + uri_decode_bytes(
            b.subrange(3, b.len() as int),
        )
    } else {
        seq![b[0]] + uri_decode_bytes(b.drop_first())
    }
}

fn upper_hex_digit(d: u8) -> (c: char)
    requires
        d < 16,
    ensures
        c == upper_hex(d as int),
{
    if d < 10 {
        (('0' as u8) + d) as char
    } else {
        (('A' as u8) + d - 10) as char
    }
}

/// Encode a path for use in a `file://` URI: the bytes of its UTF-8 text
/// that are not unreserved characters, `/` or `:` become `%XX` (uppercase).
pub fn encode_uri_path(path: &str) -> (r: String)
    ensures
        r@ == uri_encode(encode_utf8(path@)),
{
    let bytes = path.as_bytes();
    let n = bytes.len();
    let mut out = String::new();
    let mut i: usize = 0;
    assert(bytes@.subrange(0, n as int) =~= bytes@);
    while i < n
        invariant
            i <= n == bytes@.len(),
            bytes@ == encode_utf8(path@),
            out@ + uri_encode(bytes@.subrange(i as int, n as int)) == uri_encode(bytes@),
        decreases n - i,
    {
        let b = bytes[i];
        let ghost rest = bytes@.subrange(i as int, n as int);
        assert(rest.drop_first() =~= bytes@.subrange(i + 1, n as int));
        let ghost before = out@;
        if (('A' as u8) <= b && b <= ('Z' as u8)) || (('a' as u8) <= b && b <= ('z' as u8)) || (('0' as u8) <= b && b <= ('9' as u8))
            || b == ('-' as u8) || b == ('.' as u8) || b == ('_' as u8) || b == ('~' as u8) || b == ('/' as u8) || b == (':' as u8) {
            push_char(&mut out, b as char);
        } else {
            push_char(&mut out, '%');
            push_char(&mut out, upper_hex_digit(b / 16));
            push_char(&mut out, upper_hex_digit(b % 16));
        }
        assert(out@ =~= before + uri_piece(b));
        i += 1;
    }
    out
}

/// Decode a percent-encoded URI path: decoded bytes are read as UTF-8,
/// invalid sequences replaced as `String::from_utf8_lossy` does.
pub fn decode_uri_path(encoded: &str) -> (r: String)
    ensures
        r@ == lossy_text(uri_decode_bytes(encode_utf8(encoded@))),
{
    let bytes = encoded.as_bytes();
    let n = bytes.len();
    let mut out: Vec<u8> = Vec::new();
    let mut i: usize = 0;
    assert(bytes@.subrange(0, n as int) =~= bytes@);
    while i < n
        invariant
            i <= n == bytes@.len(),
            bytes@ == encode_utf8(encoded@),
            out@ + uri_decode_bytes(bytes@.subrange(i as int, n as int)) == uri_decode_bytes(
                bytes@,
            ),
        decreases n - i,
    {
        let b = bytes[i];
        let ghost rest = bytes@.subrange(i as int, n as int);
        let ghost before = out@;
        let mut decoded: Option<u8> = None;
        if b == ('%' as u8) && n - i > 2 {
            let mut pair: Vec<char> = Vec::new();
            pair.push(bytes[i + 1] as char);
            pair.push(bytes[i + 2] as char);
            assert(pair@ =~= seq![rest[1] as char, rest[2] as char]);
            decoded = parse_hex_u8(&pair);
        }
        match decoded {
            Some(v) => {
                out.push(v);
                assert(rest.subrange(3, rest.len() as int) =~= bytes@.subrange(i + 3, n as int));
                assert(out@ + uri_decode_bytes(bytes@.subrange(i + 3, n as int))
                    =~= before + uri_decode_bytes(rest));
                i += 3;
            },
            None => {
                out.push(b);
                assert(rest.drop_first() =~= bytes@.subrange(i + 1, n as int));
                assert(out@ + uri_decode_bytes(bytes@.subrange(i + 1, n as int))
                    =~= before + uri_decode_bytes(rest));
                i += 1;
            },
        }
    }
    assert(bytes@.subrange(n as int, n as int) =~= Seq::<u8>::empty());
    assert(out@ =~= uri_decode_bytes(bytes@));
    string_from_utf8_lossy(&out)
}

/// The single-byte encoding of ASCII text.
pub open spec fn ascii_bytes(s: Seq<char>) -> Seq<u8> {
    s.map_values(|c: char| c as u8)
}

proof fn lemma_uri_encode_ascii(b: Seq<u8>)
    ensures
        is_ascii_chars(uri_encode(b)),
    decreases b.len(),
{
    if b.len() > 0 {
        lemma_uri_encode_ascii(b.drop_first());
        let p = uri_piece(b[0]);
        let r = uri_encode(b.drop_first());
        assert forall|i: int| 0 <= i < (p + r).len() implies ((p + r)[i] as u32) < 128 by {
            if i >= p.len() {
                assert((p + r)[i] == r[i - p.len()]);
            }
        }
    }
}

proof fn lemma_decode_encoded(b: Seq<u8>)
    ensures
        uri_decode_bytes(ascii_bytes(uri_encode(b))) == b,
    decreases b.len(),
{
    if b.len() > 0 {
        lemma_decode_encoded(b.drop_first());
        let p = uri_piece(b[0]);
        let r = uri_encode(b.drop_first());
        let bytes = ascii_bytes(p + r);
        assert(ascii_bytes(p + r) =~= ascii_bytes(p) + ascii_bytes(r));
        if is_plain_uri_byte(b[0]) {
            assert(bytes.drop_first() =~= ascii_bytes(r));
            assert(bytes[0] == b[0]);
        } else {
            let hi = b[0] as int / 16;
            let lo = b[0] as int % 16;
            assert(bytes.subrange(3, bytes.len() as int) =~= ascii_bytes(r));
            assert(bytes[0] == '%' as u8);
            assert(seq![bytes[1] as char, bytes[2] as char] =~= seq![upper_hex(hi), upper_hex(lo)]);
            assert(hex_u8_spec(seq![upper_hex(hi), upper_hex(lo)]) == Some(b[0]));
        }
        assert(seq![b[0]] + b.drop_first() =~= b);
    }
}

/// Decoding an encoded path gives the path back.
pub proof fn law_decode_inverts_encode(path: Seq<char>)
    ensures
        lossy_text(uri_decode_bytes(encode_utf8(uri_encode(encode_utf8(path))))) == path,
{
    broadcast use vstd::utf8::encode_utf8_valid_utf8, vstd::utf8::encode_utf8_decode_utf8;

    let bytes = encode_utf8(path);
    let e = uri_encode(bytes);
    lemma_uri_encode_ascii(bytes);
    vstd::utf8::is_ascii_chars_encode_utf8(e);
    assert(encode_utf8(e) =~= ascii_bytes(e));
    lemma_decode_encoded(bytes);
    assert(valid_utf8(bytes));
    assert(decode_utf8(bytes) == path);
}

/// Percent-decoding of a path taken from a URI: escapes become bytes, the
/// bytes are read as UTF-8 (invalid sequences replaced as
/// `String::from_utf8_lossy` does), and invalid escapes stay as they are.
pub open spec fn url_decode_text(s: Seq<char>) -> Seq<char> {
    lossy_text(uri_decode_bytes(encode_utf8(s)))
}

/// URL decoding for file paths: each `%XX` with hexadecimal `XX` becomes
/// the byte `XX`, the bytes are read as UTF-8, and an invalid escape is
/// kept as it stands.
pub fn urlencoded_decode(s: &str) -> (r: String)
    ensures
        r@ == url_decode_text(s@),
{
    decode_uri_path(s)
}

/// The texts of a list of strings.
pub open spec fn string_texts(v: Seq<String>) -> Seq<Seq<char>> {
    v.map_values(|s: String| s@)
}

/// The local path that one line of a `text/uri-list` names: lines are
/// trimmed; empty lines and comments (`#`) name nothing, nor do URIs other
/// than `file://` ones, whose remainder is percent-decoded.
pub open spec fn line_path(line: Seq<char>) -> Option<Seq<char>> {
    let l = trim_seq(line);
    if l.len() == 0 || l[0] == '#' {
        None
    } else if l.len() >= 7 && l.subrange(0, 7) == "file://"@ {
        Some(url_decode_text(l.subrange(7, l.len() as int)))
    } else {
        None
    }
}

/// The paths that a list of lines names, in order.
pub open spec fn paths_of_lines(lines: Seq<Seq<char>>) -> Seq<Seq<char>>
    decreases lines.len(),
{
    if lines.len() == 0 {
        Seq::empty()
    } else {
        let init = paths_of_lines(lines.drop_last());
        match line_path(lines.last()) {
            Some(p) => init.push(p),
            None => init,
        }
    }
}

/// The paths named by dropped `text/uri-list` data; data that is not UTF-8
/// names none.
pub open spec fn drop_paths_spec(data: Seq<u8>) -> Seq<Seq<char>> {
    if valid_utf8(data) {
        paths_of_lines(split_seq(decode_utf8(data), '\n'))
    } else {
        Seq::empty()
    }
}

/// Calls `std::str::from_utf8`: text when the bytes are valid UTF-8.
#[verifier::external_body]
pub(crate) fn utf8_text(bytes: &Vec<u8>) -> (r: Option<String>)
    ensures
        r is Some <==> valid_utf8(bytes@),
        r matches Some(s) ==> s@ == decode_utf8(bytes@),
{
    match std::str::from_utf8(bytes.as_slice()) {
        Ok(s) => Some(s.to_string()),
        Err(_) => None,
    }
}

/// The path named by one line.
fn line_to_path(line: &Vec<char>) -> (r: Option<String>)
    ensures
        match line_path(line@) {
            Some(p) => r matches Some(s) && s@ == p,
            None => r is None,
        },
{
    proof {
        reveal_strlit("file://");
    }
    let l = trim_chars(line);
    if l.len() == 0 || l[0] == '#' {
        return None;
    }
    if l.len() >= 7 && starts_with(&l, "file://") {
        let rest = string_from(&slice_chars(&l, 7, l.len()));
        Some(decode_uri_path(rest.as_str()))
    } else {
        None
    }
}

/// The local paths named by dropped `text/uri-list` data (one URI per
/// line, `file://` URIs only, percent-decoded).
pub fn drop_paths(data: &Vec<u8>) -> (r: Vec<String>)
    ensures
        string_texts(r@) == drop_paths_spec(data@),
{
    let mut paths: Vec<String> = Vec::new();
    let text = match utf8_text(data) {
        Some(t) => t,
        None => {
            assert(string_texts(paths@) =~= Seq::<Seq<char>>::empty());
            return paths;
        },
    };
    let chars = chars_of(text.as_str());
    let lines = split_chars(&chars, '\n');
    let ghost all = texts(lines@);
    let mut i: usize = 0;
    assert(all.subrange(0, 0) =~= Seq::<Seq<char>>::empty());
    assert(string_texts(paths@) =~= Seq::<Seq<char>>::empty());
    while i < lines.len()
        invariant
            i <= lines.len(),
            all == texts(lines@),
            string_texts(paths@) == paths_of_lines(all.subrange(0, i as int)),
        decreases lines.len() - i,
    {
        assert(all.subrange(0, i + 1).drop_last() =~= all.subrange(0, i as int));
        let ghost before = paths@;
        match line_to_path(&lines[i]) {
            Some(p) => {
                paths.push(p);
                assert(string_texts(paths@) =~= string_texts(before).push(p@));
            },
            None => {},
        }
        i += 1;
    }
    assert(all.subrange(0, all.len() as int) =~= all);
    paths
}

} // verus!
