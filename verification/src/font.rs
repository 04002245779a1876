use vstd::prelude::*;
use crate::clipboard::join_seq;
use crate::text::{
    chars_of, is_whitespace, slice_chars, string_from, trim_chars, trim_seq, unicode_whitespace,
};
use crate::uri::string_texts;

verus! {

/// Text alignment.
#[derive(Debug, Clone, Copy, PartialEq, Eq, Structural)]
pub enum TextAlign {
    Left,
    Center,
    Right,
}

impl Default for TextAlign {
    fn default() -> (a: Self)
        ensures
            a == TextAlign::Left,
    {
        TextAlign::Left
    }
}

/// `pat` occurs in `s` at index `i`.
pub open spec fn occurs_at(s: Seq<char>, i: int, pat: Seq<char>) -> bool {
    0 <= i && i + pat.len() <= s.len() && s.subrange(i, i + pat.len()) == pat
}

/// The pieces of `s` between whitespace characters, empty pieces kept.
pub open spec fn ws_split(s: Seq<char>) -> Seq<Seq<char>>
    decreases s.len(),
{
    if s.len() == 0 {
        seq![Seq::<char>::empty()]
    } else {
        let init = ws_split(s.drop_last());
        if unicode_whitespace(s.last()) {
            init.push(Seq::<char>::empty())
        } else {
            init.update(init.len() - 1, init.last().push(s.last()))
        }
    }
}

proof fn lemma_ws_split_nonempty(s: Seq<char>)
    ensures
        ws_split(s).len() >= 1,
    decreases s.len(),
{
    if s.len() > 0 {
        lemma_ws_split_nonempty(s.drop_last());
    }
}

/// The whitespace-separated words of `s`, as `str::split_whitespace` gives
/// them.
pub open spec fn words_of(s: Seq<char>) -> Seq<Seq<char>> {
    ws_split(s).filter(|w: Seq<char>| w.len() > 0)
}

/// The shape of a font specification.
#[derive(Debug, Clone, PartialEq, Eq)]
pub enum FontSpecShape {
    /// `Family:size=N`: the trimmed family and the size text after `:size=`
    Polybar { family: String, size_text: String },
    /// `Family Words Size`: all words but the last joined by single spaces,
    /// and the last word
    Pango { family: String, size_text: String },
    /// No words at all
    Empty,
}

/// Position of the first occurrence of `pat` in `v`.
fn find_chars(v: &Vec<char>, pat: &Vec<char>) -> (r: Option<usize>)
    ensures
        match r {
            Some(i) => occurs_at(v@, i as int, pat@) && forall|j: int| 0 <= j < i ==> !occurs_at(v@, j, pat@),
            None => forall|j: int| !occurs_at(v@, j, pat@),
        },
{
    if pat.len() > v.len() {
        return None;
    }
    let last = v.len() - pat.len();
    let mut i: usize = 0;
    while i <= last
        invariant
            last == v.len() - pat.len(),
            pat.len() <= v.len(),
            i <= last,
            forall|j: int| 0 <= j < i ==> !occurs_at(v@, j, pat@),
        ensures
            forall|j: int| 0 <= j <= last ==> !occurs_at(v@, j, pat@),
        decreases last + 1 - i,
    {
        let mut k: usize = 0;
        let mut same = true;
        while k < pat.len()
            invariant
                i <= last,
                last == v.len() - pat.len(),
                k <= pat.len(),
                same == (forall|m: int| 0 <= m < k ==> v@[i + m] == pat@[m]),
            decreases pat.len() - k,
        {
            if v[i + k] != pat[k] {
                same = false;
            }
            k += 1;
        }
        if same {
            assert(v@.subrange(i as int, i + pat@.len()) =~= pat@);
            return Some(i);
        }
        assert(!occurs_at(v@, i as int, pat@)) by {
            let m = choose|m: int| 0 <= m < pat.len() && v@[i + m] != pat@[m];
            assert(v@.subrange(i as int, i + pat@.len())[m] == v@[i + m]);
        }
        if i == last {
            break;
        }
        i += 1;
    }
    assert forall|j: int| !occurs_at(v@, j, pat@) by {
        if 0 <= j <= last {
        }
    }
    None
}

/// The whitespace-separated words of `v`.
fn words(v: &Vec<char>) -> (r: Vec<String>)
    ensures
        string_texts(r@) == words_of(v@),
{
    let mut pieces: Vec<Vec<char>> = Vec::new();
    let mut cur: Vec<char> = Vec::new();
    let mut i: usize = 0;
    assert(v@.subrange(0, 0) =~= Seq::<char>::empty());
    assert(crate::text::texts(pieces@).push(cur@) =~= ws_split(v@.subrange(0, 0)));
    while i < v.len()
        invariant
            i <= v.len(),
            crate::text::texts(pieces@).push(cur@) == ws_split(v@.subrange(0, i as int)),
        decreases v.len() - i,
    {
        let ghost pre = v@.subrange(0, i as int);
        let ghost next = v@.subrange(0, i + 1);
        assert(next.drop_last() =~= pre);
        proof {
            lemma_ws_split_nonempty(pre);
        }
        if is_whitespace(v[i]) {
            let done = cur;
            pieces.push(done);
            cur = Vec::new();
            assert(crate::text::texts(pieces@).push(cur@) =~= ws_split(next));
        } else {
            let ghost old_pieces = pieces@;
            cur.push(v[i]);
            assert(crate::text::texts(pieces@) == crate::text::texts(old_pieces));
            assert(crate::text::texts(pieces@).push(cur@) =~= ws_split(next));
        }
        i += 1;
    }
    pieces.push(cur);
    assert(v@.subrange(0, v@.len() as int) =~= v@);
    let ghost all = crate::text::texts(pieces@);
    assert(all =~= ws_split(v@));
    let mut out: Vec<String> = Vec::new();
    let mut j: usize = 0;
    assert(all.subrange(0, 0) =~= Seq::<Seq<char>>::empty());
    assert(string_texts(out@) =~= all.subrange(0, 0).filter(|w: Seq<char>| w.len() > 0)) by {
        reveal(Seq::filter);
    }
    while j < pieces.len()
        invariant
            j <= pieces.len(),
            all == crate::text::texts(pieces@),
            string_texts(out@) == all.subrange(0, j as int).filter(|w: Seq<char>| w.len() > 0),
        decreases pieces.len() - j,
    {
        reveal(Seq::filter);
        assert(all.subrange(0, j + 1).drop_last() =~= all.subrange(0, j as int));
        if pieces[j].len() > 0 {
            let ghost before = out@;
            out.push(string_from(&pieces[j]));
            assert(string_texts(out@) =~= string_texts(before).push(pieces@[j as int]@));
        }
        j += 1;
    }
    assert(all.subrange(0, all.len() as int) =~= all);
    out
}

/// Join `words[0..n]` with single spaces.
fn join_words(words: &Vec<String>, n: usize) -> (r: String)
    requires
        n <= words.len(),
    ensures
        r@ == join_seq(string_texts(words@).subrange(0, n as int), " "@),
{
    let mut out = String::new();
    let ghost all = string_texts(words@);
    let mut i: usize = 0;
    assert(all.subrange(0, 0) =~= Seq::<Seq<char>>::empty());
    while i < n
        invariant
            i <= n <= words.len(),
            all == string_texts(words@),
            out@ == join_seq(all.subrange(0, i as int), " "@),
        decreases n - i,
    {
        assert(all.subrange(0, i + 1).drop_last() =~= all.subrange(0, i as int));
        if i > 0 {
            crate::text::push_str(&mut out, " ");
        } else {
            assert(out@ =~= Seq::<char>::empty());
        }
        crate::text::push_str(&mut out, words[i].as_str());
        assert(out@ =~= join_seq(all.subrange(0, i + 1), " "@));
        i += 1;
    }
    out
}

/// The shape of a font specification: polybar style `Family:size=N` (at
/// the first `:size=`), or Pango style words whose last one is taken as
/// the size, or nothing.
pub fn font_spec_shape(spec: &str) -> (r: FontSpecShape)
    ensures
        (exists|i: int| occurs_at(spec@, i, ":size="@)) ==> (r matches FontSpecShape::Polybar {
            family,
            size_text,
        } && exists|i: int|
            occurs_at(spec@, i, ":size="@) && (forall|j: int| 0 <= j < i ==> !occurs_at(spec@, j, ":size="@))
                && family@ == trim_seq(spec@.subrange(0, i)) && size_text@ == spec@.subrange(
                i + 6,
                spec@.len() as int,
            )),
        !(exists|i: int| occurs_at(spec@, i, ":size="@)) ==> (if words_of(spec@).len() == 0 {
            r is Empty
        } else {
            r matches FontSpecShape::Pango { family, size_text } && family@ == join_seq(
                words_of(spec@).drop_last(),
                " "@,
            ) && size_text@ == words_of(spec@).last()
        }),
{
    proof {
        reveal_strlit(":size=");
    }
    let v = chars_of(spec);
    let pat = chars_of(":size=");
    match find_chars(&v, &pat) {
        Some(i) => {
            let head = slice_chars(&v, 0, i);
            let family = string_from(&trim_chars(&head));
            let size_text = string_from(&slice_chars(&v, i + 6, v.len()));
            FontSpecShape::Polybar { family, size_text }
        },
        None => {
            let ws = words(&v);
            if ws.len() == 0 {
                FontSpecShape::Empty
            } else {
                let n = ws.len() - 1;
                let family = join_words(&ws, n);
                let size_text = string_from(&chars_of(ws[n].as_str()));
                assert(string_texts(ws@).subrange(0, n as int) =~= string_texts(ws@).drop_last());
                FontSpecShape::Pango { family, size_text }
            }
        },
    }
}

} // verus!
