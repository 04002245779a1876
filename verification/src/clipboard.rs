use vstd::prelude::*;
use crate::atoms::Atoms;
use crate::event::SelectionRequestEvent;
use crate::text::{chars_of, push_str, slice_chars, starts_with, string_from};
use crate::uri::{
    decode_uri_path, encode_uri_path, law_decode_inverts_encode, string_texts, uri_decode_bytes,
    uri_encode,
};
use crate::text::lossy_text;
use vstd::utf8::encode_utf8;

verus! {

/// Content stored in the clipboard.
#[derive(Debug, Clone, PartialEq, Eq)]
pub struct ClipboardContent {
    /// File URIs (file:///path/to/file)
    pub uris: Vec<String>,
    /// Whether this is a cut operation
    pub is_cut: bool,
}

/// `parts` joined with `sep` between consecutive parts.
pub open spec fn join_seq(parts: Seq<Seq<char>>, sep: Seq<char>) -> Seq<char>
    decreases parts.len(),
{
    if parts.len() == 0 {
        Seq::empty()
    } else if parts.len() == 1 {
        parts[0]
    } else {
        join_seq(parts.drop_last(), sep) + sep + parts.last()
    }
}

/// Each part followed by `end`.
pub open spec fn terminated_seq(parts: Seq<Seq<char>>, end: Seq<char>) -> Seq<char>
    decreases parts.len(),
{
    if parts.len() == 0 {
        Seq::empty()
    } else {
        terminated_seq(parts.drop_last(), end) + parts.last() + end
    }
}

/// The `file://` URI of a path.
pub open spec fn file_uri_spec(path: Seq<char>) -> Seq<char> {
    "file://"@ + uri_encode(encode_utf8(path))
}

/// The plain path of each `file://` URI (others left out), decoded.
pub open spec fn plain_paths(uris: Seq<Seq<char>>) -> Seq<Seq<char>>
    decreases uris.len(),
{
    if uris.len() == 0 {
        Seq::empty()
    } else {
        let init = plain_paths(uris.drop_last());
        let u = uris.last();
        if u.len() >= 7 && u.subrange(0, 7) == "file://"@ {
            init.push(lossy_text(uri_decode_bytes(encode_utf8(u.subrange(7, u.len() as int)))))
        } else {
            init
        }
    }
}

/// Join strings with a separator.
fn join_strings(parts: &Vec<String>, sep: &str) -> (r: String)
    ensures
        r@ == join_seq(string_texts(parts@), sep@),
{
    let mut out = String::new();
    let ghost all = string_texts(parts@);
    let mut i: usize = 0;
    assert(all.subrange(0, 0) =~= Seq::<Seq<char>>::empty());
    while i < parts.len()
        invariant
            i <= parts.len(),
            all == string_texts(parts@),
            out@ == join_seq(all.subrange(0, i as int), sep@),
        decreases parts.len() - i,
    {
        assert(all.subrange(0, i + 1).drop_last() =~= all.subrange(0, i as int));
        if i > 0 {
            push_str(&mut out, sep);
        } else {
            assert(out@ =~= Seq::<char>::empty());
        }
        push_str(&mut out, parts[i].as_str());
        assert(out@ =~= join_seq(all.subrange(0, i + 1), sep@));
        i += 1;
    }
    assert(all.subrange(0, all.len() as int) =~= all);
    out
}

/// The `file://` URI of a path, with the path percent-encoded.
pub fn file_uri(path: &str) -> (r: String)
    ensures
        r@ == file_uri_spec(path@),
{
    let mut s = String::new();
    push_str(&mut s, "file://");
    let enc = encode_uri_path(path);
    push_str(&mut s, enc.as_str());
    assert(s@ =~= file_uri_spec(path@));
    s
}

impl ClipboardContent {
    /// `text/uri-list`: each URI followed by CR LF.
    pub fn format_uri_list(&self) -> (r: String)
        ensures
            r@ == terminated_seq(string_texts(self.uris@), "\r\n"@),
    {
        let mut out = String::new();
        let ghost all = string_texts(self.uris@);
        let mut i: usize = 0;
        assert(all.subrange(0, 0) =~= Seq::<Seq<char>>::empty());
        while i < self.uris.len()
            invariant
                i <= self.uris.len(),
                all == string_texts(self.uris@),
                out@ == terminated_seq(all.subrange(0, i as int), "\r\n"@),
            decreases self.uris.len() - i,
        {
            assert(all.subrange(0, i + 1).drop_last() =~= all.subrange(0, i as int));
            push_str(&mut out, self.uris[i].as_str());
            push_str(&mut out, "\r\n");
            i += 1;
        }
        assert(all.subrange(0, all.len() as int) =~= all);
        out
    }

    /// `x-special/gnome-copied-files`: `copy` or `cut`, then the URIs, one
    /// per line, no trailing newline.
    pub fn format_gnome_copied_files(&self) -> (r: String)
        ensures
            r@ == join_seq(
                seq![if self.is_cut { "cut"@ } else { "copy"@ }] + string_texts(self.uris@),
                "\n"@,
            ),
    {
        let mut lines: Vec<String> = Vec::new();
        let action = if self.is_cut {
            string_from(&chars_of("cut"))
        } else {
            string_from(&chars_of("copy"))
        };
        lines.push(action);
        let mut i: usize = 0;
        while i < self.uris.len()
            invariant
                i <= self.uris.len(),
                string_texts(lines@) == seq![if self.is_cut { "cut"@ } else { "copy"@ }]
                    + string_texts(self.uris@).subrange(0, i as int),
            decreases self.uris.len() - i,
        {
            let u = string_from(&chars_of(self.uris[i].as_str()));
            let ghost before = lines@;
            lines.push(u);
            assert(string_texts(lines@) =~= string_texts(before).push(u@));
            assert(string_texts(self.uris@).subrange(0, i + 1) =~= string_texts(self.uris@).subrange(
                0,
                i as int,
            ).push(self.uris@[i as int]@));
            assert(string_texts(lines@) =~= seq![if self.is_cut { "cut"@ } else { "copy"@ }]
                + string_texts(self.uris@).subrange(0, i + 1));
            i += 1;
        }
        assert(string_texts(self.uris@).subrange(0, self.uris@.len() as int) =~= string_texts(
            self.uris@,
        ));
        join_strings(&lines, "\n")
    }

    /// Plain text: the decoded paths of the `file://` URIs, one per line.
    pub fn format_plain_text(&self) -> (r: String)
        ensures
            r@ == join_seq(plain_paths(string_texts(self.uris@)), "\n"@),
    {
        let mut paths: Vec<String> = Vec::new();
        let ghost all = string_texts(self.uris@);
        let mut i: usize = 0;
        assert(all.subrange(0, 0) =~= Seq::<Seq<char>>::empty());
        assert(string_texts(paths@) =~= Seq::<Seq<char>>::empty());
        while i < self.uris.len()
            invariant
                i <= self.uris.len(),
                all == string_texts(self.uris@),
                string_texts(paths@) == plain_paths(all.subrange(0, i as int)),
            decreases self.uris.len() - i,
        {
            assert(all.subrange(0, i + 1).drop_last() =~= all.subrange(0, i as int));
            proof {
                reveal_strlit("file://");
            }
            let u = chars_of(self.uris[i].as_str());
            assert(all.subrange(0, i + 1).last() == u@);
            let ghost before = paths@;
            if u.len() >= 7 && starts_with(&u, "file://") {
                let rest = string_from(&slice_chars(&u, 7, u.len()));
                let p = decode_uri_path(rest.as_str());
                paths.push(p);
                assert(string_texts(paths@) =~= string_texts(before).push(p@));
            }
            i += 1;
        }
        assert(all.subrange(0, all.len() as int) =~= all);
        join_strings(&paths, "\n")
    }

    /// The URIs one per line, no trailing newline.
    pub fn format_uri_list_plain(&self) -> (r: String)
        ensures
            r@ == join_seq(string_texts(self.uris@), "\n"@),
    {
        join_strings(&self.uris, "\n")
    }
}

/// How to answer a request for the clipboard selection.
#[derive(Debug, Clone, PartialEq, Eq)]
pub enum SelectionReply {
    /// Refuse: notify the requestor with property `None`
    Refuse,
    /// Store these atoms (type ATOM) in `property`, then notify
    Targets { property: u32, targets: Vec<u32> },
    /// Store this timestamp (type INTEGER) in `property`, then notify
    Timestamp { property: u32, time: u32 },
    /// Store the UTF-8 bytes of `text` with type `type_atom` in `property`,
    /// then notify
    Data { property: u32, type_atom: u32, text: String },
}

/// The targets offered for the clipboard, in the order Dolphin uses; the
/// KDE cut marker only for a cut.
pub open spec fn targets_spec(atoms: Atoms, is_cut: bool) -> Seq<u32> {
    seq![atoms.targets, atoms.timestamp, atoms.text_uri_list, atoms.gnome_copied_files] + (if is_cut {
        seq![atoms.kde_cut_selection]
    } else {
        Seq::<u32>::empty()
    }) + seq![atoms.utf8_string, atoms.text_plain_utf8, atoms.text_plain, atoms.text, atoms.string]
}

/// The property a reply is stored in: the requested one, or the target for
/// old clients that name none.
pub open spec fn reply_property(event: SelectionRequestEvent) -> u32 {
    if event.property == 0 {
        event.target
    } else {
        event.property
    }
}

/// Which format a request asks for.
pub enum RequestKind {
    Refuse,
    Targets,
    Timestamp,
    UriList,
    Gnome,
    KdeCut,
    Utf8,
    Text,
    LatinString,
}

/// What a clipboard request asks for, given whether content is held.
pub open spec fn request_kind(atoms: Atoms, has_content: bool, event: SelectionRequestEvent) -> RequestKind {
    let t = event.target;
    if event.selection != atoms.clipboard || !has_content {
        RequestKind::Refuse
    } else if t == atoms.targets {
        RequestKind::Targets
    } else if t == atoms.timestamp {
        RequestKind::Timestamp
    } else if t == atoms.text_uri_list || t == atoms.uri_list {
        RequestKind::UriList
    } else if t == atoms.gnome_copied_files {
        RequestKind::Gnome
    } else if t == atoms.kde_cut_selection {
        RequestKind::KdeCut
    } else if t == atoms.utf8_string || t == atoms.text_plain_utf8 {
        RequestKind::Utf8
    } else if t == atoms.text || t == atoms.text_plain {
        RequestKind::Text
    } else if t == atoms.string {
        RequestKind::LatinString
    } else {
        RequestKind::Refuse
    }
}

/// `r` answers `event` for a clipboard holding `content`, taken at
/// `selection_time`.
pub open spec fn is_reply_to(
    r: SelectionReply,
    content: Option<ClipboardContent>,
    selection_time: u32,
    atoms: Atoms,
    event: SelectionRequestEvent,
) -> bool {
    match request_kind(atoms, content is Some, event) {
        RequestKind::Refuse => r is Refuse,
        RequestKind::Targets => r == SelectionReply::Targets {
            property: reply_property(event),
            targets: r->targets,
        } && r->targets@ == targets_spec(atoms, content->0.is_cut),
        RequestKind::Timestamp => r == SelectionReply::Timestamp {
            property: reply_property(event),
            time: selection_time,
        },
        RequestKind::UriList => r matches SelectionReply::Data { property, type_atom, text }
            && property == reply_property(event) && type_atom == event.target && text@
            == terminated_seq(string_texts(content->0.uris@), "\r\n"@),
        RequestKind::Gnome => r matches SelectionReply::Data { property, type_atom, text }
            && property == reply_property(event) && type_atom == atoms.gnome_copied_files
            && text@ == join_seq(
            seq![if content->0.is_cut { "cut"@ } else { "copy"@ }] + string_texts(
                content->0.uris@,
            ),
            "\n"@,
        ),
        RequestKind::KdeCut => r matches SelectionReply::Data { property, type_atom, text }
            && property == reply_property(event) && type_atom == atoms.kde_cut_selection
            && text@ == (if content->0.is_cut { "1"@ } else { "0"@ }),
        RequestKind::Utf8 => r matches SelectionReply::Data { property, type_atom, text }
            && property == reply_property(event) && type_atom == atoms.utf8_string
            && text@ == join_seq(string_texts(content->0.uris@), "\n"@),
        RequestKind::Text => r matches SelectionReply::Data { property, type_atom, text }
            && property == reply_property(event) && type_atom == atoms.text && text@
            == join_seq(string_texts(content->0.uris@), "\n"@),
        RequestKind::LatinString => r matches SelectionReply::Data {
            property,
            type_atom,
            text,
        } && property == reply_property(event) && type_atom == atoms.string && text@
            == join_seq(string_texts(content->0.uris@), "\n"@),
    }
}

/// The clipboard's state apart from the connection: the window that owns
/// the selection, what it holds and when it was taken.
pub struct ClipboardState {
    /// Window that owns the selection
    pub window: u32,
    /// Current clipboard contents (if we own the selection)
    pub content: Option<ClipboardContent>,
    /// Timestamp when we acquired the selection
    pub selection_time: u32,
}

impl ClipboardState {
    /// An empty clipboard for `window`.
    pub fn new(window: u32) -> (s: Self)
        ensures
            s.window == window,
            s.content is None,
            s.selection_time == 0,
    {
        ClipboardState { window, content: None, selection_time: 0 }
    }

    /// Store file URIs taken at `time`. An empty list changes nothing; the
    /// result says whether the selection should now be claimed.
    pub fn store_files(&mut self, uris: Vec<String>, is_cut: bool, time: u32) -> (claim: bool)
        ensures
            claim == (uris.len() > 0),
            claim ==> final(self).content == Some(ClipboardContent { uris, is_cut }),
            claim ==> final(self).selection_time == time,
            !claim ==> final(self).content == old(self).content,
            !claim ==> final(self).selection_time == old(self).selection_time,
            final(self).window == old(self).window,
    {
        if uris.len() == 0 {
            return false;
        }
        self.content = Some(ClipboardContent { uris, is_cut });
        self.selection_time = time;
        true
    }

    /// After claiming the selection: the content stays only if `owner`, the
    /// selection's owner now, is our window.
    pub fn confirm_owner(&mut self, owner: u32)
        ensures
            owner == old(self).window ==> final(self).content == old(self).content,
            owner != old(self).window ==> final(self).content is None,
            final(self).window == old(self).window,
            final(self).selection_time == old(self).selection_time,
    {
        if owner != self.window {
            self.content = None;
        }
    }

    /// Clear clipboard contents.
    pub fn clear(&mut self)
        ensures
            final(self).content is None,
            final(self).window == old(self).window,
            final(self).selection_time == old(self).selection_time,
    {
        self.content = None;
    }

    /// Check if we currently own the clipboard and have content.
    pub fn has_content(&self) -> (b: bool)
        ensures
            b == (self.content is Some),
    {
        self.content.is_some()
    }

    /// Check if current content is a cut operation.
    pub fn is_cut(&self) -> (b: bool)
        ensures
            b == (self.content matches Some(c) && c.is_cut),
    {
        match &self.content {
            Some(c) => c.is_cut,
            None => false,
        }
    }

    /// We lost the selection: forget the content.
    pub fn handle_selection_clear(&mut self)
        ensures
            final(self).content is None,
            final(self).window == old(self).window,
            final(self).selection_time == old(self).selection_time,
    {
        self.clear();
    }

    /// The list of supported targets.
    pub fn targets(&self, atoms: &Atoms) -> (t: Vec<u32>)
        ensures
            t@ == targets_spec(*atoms, self.content matches Some(c) && c.is_cut),
    {
        let mut t: Vec<u32> = Vec::new();
        t.push(atoms.targets);
        t.push(atoms.timestamp);
        t.push(atoms.text_uri_list);
        t.push(atoms.gnome_copied_files);
        if self.is_cut() {
            t.push(atoms.kde_cut_selection);
        }
        t.push(atoms.utf8_string);
        t.push(atoms.text_plain_utf8);
        t.push(atoms.text_plain);
        t.push(atoms.text);
        t.push(atoms.string);
        assert(t@ =~= targets_spec(*atoms, self.content matches Some(c) && c.is_cut));
        t
    }

    /// How to answer another client's request for a selection.
    pub fn selection_reply(&self, atoms: &Atoms, event: &SelectionRequestEvent) -> (r: SelectionReply)
        ensures
            is_reply_to(r, self.content, self.selection_time, *atoms, *event),
    {
        let target = event.target;
        let property = if event.property == 0 {
            target
        } else {
            event.property
        };
        if event.selection != atoms.clipboard {
            return SelectionReply::Refuse;
        }
        let content = match &self.content {
            Some(c) => c,
            None => {
                return SelectionReply::Refuse;
            },
        };
        if target == atoms.targets {
            SelectionReply::Targets { property, targets: self.targets(atoms) }
        } else if target == atoms.timestamp {
            SelectionReply::Timestamp { property, time: self.selection_time }
        } else if target == atoms.text_uri_list || target == atoms.uri_list {
            SelectionReply::Data { property, type_atom: target, text: content.format_uri_list() }
        } else if target == atoms.gnome_copied_files {
            SelectionReply::Data {
                property,
                type_atom: atoms.gnome_copied_files,
                text: content.format_gnome_copied_files(),
            }
        } else if target == atoms.kde_cut_selection {
            let text = if content.is_cut {
                string_from(&chars_of("1"))
            } else {
                string_from(&chars_of("0"))
            };
            SelectionReply::Data { property, type_atom: atoms.kde_cut_selection, text }
        } else if target == atoms.utf8_string || target == atoms.text_plain_utf8 {
            SelectionReply::Data {
                property,
                type_atom: atoms.utf8_string,
                text: content.format_uri_list_plain(),
            }
        } else if target == atoms.text || target == atoms.text_plain {
            SelectionReply::Data {
                property,
                type_atom: atoms.text,
                text: content.format_uri_list_plain(),
            }
        } else if target == atoms.string {
            SelectionReply::Data {
                property,
                type_atom: atoms.string,
                text: content.format_uri_list_plain(),
            }
        } else {
            SelectionReply::Refuse
        }
    }
}

/// Every target that TARGETS offers is answered with data, never refused,
/// while content is held.
pub proof fn law_offered_targets_are_served(
    atoms: Atoms,
    is_cut: bool,
    event: SelectionRequestEvent,
)
    requires
        event.selection == atoms.clipboard,
        targets_spec(atoms, is_cut).contains(event.target),
    ensures
        !(request_kind(atoms, true, event) is Refuse),
{
    let t = targets_spec(atoms, is_cut);
    let i = choose|i: int| 0 <= i < t.len() && t[i] == event.target;
    if is_cut {
        assert(t =~= seq![atoms.targets, atoms.timestamp, atoms.text_uri_list, atoms.gnome_copied_files,
            atoms.kde_cut_selection, atoms.utf8_string, atoms.text_plain_utf8, atoms.text_plain,
            atoms.text, atoms.string]);
    } else {
        assert(t =~= seq![atoms.targets, atoms.timestamp, atoms.text_uri_list, atoms.gnome_copied_files,
            atoms.utf8_string, atoms.text_plain_utf8, atoms.text_plain, atoms.text, atoms.string]);
    }
}

proof fn lemma_file_uri_decodes(path: Seq<char>)
    ensures
        ({
            let u = file_uri_spec(path);
            &&& u.len() >= 7
            &&& u.subrange(0, 7) == "file://"@
            &&& lossy_text(uri_decode_bytes(encode_utf8(u.subrange(7, u.len() as int)))) == path
        }),
{
    reveal_strlit("file://");
    let u = file_uri_spec(path);
    let e = uri_encode(encode_utf8(path));
    assert(u.subrange(0, 7) =~= "file://"@);
    assert(u.subrange(7, u.len() as int) =~= e);
    law_decode_inverts_encode(path);
}

/// Files stored as their `file://` URIs come back as the same paths, in
/// the same order, in the plain-text format.
pub proof fn law_plain_text_recovers_paths(paths: Seq<Seq<char>>)
    ensures
        plain_paths(paths.map_values(|p: Seq<char>| file_uri_spec(p))) == paths,
    decreases paths.len(),
{
    let uris = paths.map_values(|p: Seq<char>| file_uri_spec(p));
    if paths.len() > 0 {
        law_plain_text_recovers_paths(paths.drop_last());
        assert(uris.drop_last() =~= paths.drop_last().map_values(|p: Seq<char>| file_uri_spec(p)));
        lemma_file_uri_decodes(paths.last());
        assert(uris.last() == file_uri_spec(paths.last()));
        assert(plain_paths(uris) =~= paths.drop_last().push(paths.last()));
        assert(paths.drop_last().push(paths.last()) =~= paths);
    } else {
        assert(uris =~= Seq::<Seq<char>>::empty());
    }
}

/// The atoms of the clipboard targets, as interned for their distinct names.
pub open spec fn target_atoms(atoms: Atoms) -> Seq<u32> {
    seq![
        atoms.targets,
        atoms.timestamp,
        atoms.text_uri_list,
        atoms.uri_list,
        atoms.gnome_copied_files,
        atoms.kde_cut_selection,
        atoms.utf8_string,
        atoms.text_plain_utf8,
        atoms.text,
        atoms.text_plain,
        atoms.string,
    ]
}

/// While files are held, a request on the clipboard is answered in the
/// format its target names, stored in the requested property (or the
/// target, for clients that name none):
/// - `text/uri-list` and `x-special/URI`: data of the requested type, every
///   URI followed by CR LF;
/// - `x-special/gnome-copied-files`: `copy` or `cut`, then the URIs, one
///   per line;
/// - the KDE cut marker: `1` for a cut, `0` for a copy;
/// - `UTF8_STRING` and `text/plain;charset=utf-8`: the URIs one per line,
///   typed `UTF8_STRING`; `TEXT` and `text/plain` the same typed `TEXT`;
///   `STRING` the same typed `STRING`;
/// - `TIMESTAMP`: the time the files were taken.
pub proof fn law_formats_answered(
    r: SelectionReply,
    content: Option<ClipboardContent>,
    selection_time: u32,
    atoms: Atoms,
    event: SelectionRequestEvent,
)
    requires
        is_reply_to(r, content, selection_time, atoms, event),
        content is Some,
        event.selection == atoms.clipboard,
        target_atoms(atoms).no_duplicates(),
    ensures
        ({
            let t = event.target;
            let property = if event.property == 0 {
                event.target
            } else {
                event.property
            };
            let uris = string_texts(content->0.uris@);
            let lines = join_seq(uris, "\n"@);
            &&& (t == atoms.text_uri_list || t == atoms.uri_list) ==> r == SelectionReply::Data {
                property,
                type_atom: t,
                text: r->text,
            } && r->text@ == terminated_seq(uris, "\r\n"@)
            &&& t == atoms.gnome_copied_files ==> r == SelectionReply::Data {
                property,
                type_atom: atoms.gnome_copied_files,
                text: r->text,
            } && r->text@ == join_seq(
                seq![if content->0.is_cut { "cut"@ } else { "copy"@ }] + uris,
                "\n"@,
            )
            &&& t == atoms.kde_cut_selection ==> r == SelectionReply::Data {
                property,
                type_atom: atoms.kde_cut_selection,
                text: r->text,
            } && r->text@ == (if content->0.is_cut { "1"@ } else { "0"@ })
            &&& (t == atoms.utf8_string || t == atoms.text_plain_utf8) ==> r == SelectionReply::Data {
                property,
                type_atom: atoms.utf8_string,
                text: r->text,
            } && r->text@ == lines
            &&& (t == atoms.text || t == atoms.text_plain) ==> r == SelectionReply::Data {
                property,
                type_atom: atoms.text,
                text: r->text,
            } && r->text@ == lines
            &&& t == atoms.string ==> r == SelectionReply::Data {
                property,
                type_atom: atoms.string,
                text: r->text,
            } && r->text@ == lines
            &&& t == atoms.timestamp ==> r == SelectionReply::Timestamp { property, time: selection_time }
        }),
{
    let s = target_atoms(atoms);
    assert forall|i: int, j: int| 0 <= i < s.len() && 0 <= j < s.len() && i != j implies s[i] != s[j] by {
    }
    assert(s[0] == atoms.targets && s[1] == atoms.timestamp && s[2] == atoms.text_uri_list
        && s[3] == atoms.uri_list && s[4] == atoms.gnome_copied_files && s[5]
        == atoms.kde_cut_selection && s[6] == atoms.utf8_string && s[7] == atoms.text_plain_utf8
        && s[8] == atoms.text && s[9] == atoms.text_plain && s[10] == atoms.string);
}

} // verus!
