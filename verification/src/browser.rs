//! The in-VR file browser's state and listing rules.
//!
//! The platform layer reads a directory and hands over the raw entries;
//! this module filters them (hidden names are skipped; plain files are
//! kept only with a video extension), sorts directories and video files
//! separately by case-folded name, and keeps the selection, navigation
//! and take-once hand-off of the chosen file. Paths are kept as
//! component lists, so navigation is pure list manipulation; the
//! platform layer joins components with its separator.

use vstd::prelude::*;
use vstd::string::StringExecFns;
use vstd::utf8::encode_utf8;
use vstd::utf8::is_ascii_chars;

verus! {

/// How many components the fixed starting directory has (the shared
/// storage root the browser opens in, `/storage/emulated/0`).
pub const ROOT_DEPTH: usize = 3;

/// One entry of the listing.
pub struct FileEntry {
    /// File or directory name (one path component; `..` stands for the
    /// parent directory).
    pub name: String,
    pub is_dir: bool,
}

/// ASCII case folding of one byte.
pub open spec fn lower_byte(b: u8) -> u8 {
    if 65 <= b <= 90 {
        (b + 32) as u8
    } else {
        b
    }
}

/// ASCII case folding of a byte string.
pub open spec fn lower_bytes(s: Seq<u8>) -> Seq<u8> {
    Seq::new(s.len(), |i: int| lower_byte(s[i]))
}

/// Lexicographic order on byte strings.
pub open spec fn lex_le(a: Seq<u8>, b: Seq<u8>) -> bool
    decreases a.len(),
{
    if a.len() == 0 {
        true
    } else if b.len() == 0 {
        false
    } else if a[0] < b[0] {
        true
    } else if a[0] > b[0] {
        false
    } else {
        lex_le(a.drop_first(), b.drop_first())
    }
}

/// The listing order: case-folded lexicographic comparison of names.
pub open spec fn entry_le(a: FileEntry, b: FileEntry) -> bool {
    lex_le(lower_bytes(encode_utf8(a.name@)), lower_bytes(encode_utf8(b.name@)))
}

/// A run of entries in listing order.
pub open spec fn entries_sorted(s: Seq<FileEntry>) -> bool {
    forall|i: int, j: int| 0 <= i < j < s.len() ==> entry_le(#[trigger] s[i], #[trigger] s[j])
}

/// Lexicographic order is total.
proof fn lemma_lex_le_total(a: Seq<u8>, b: Seq<u8>)
    ensures
        lex_le(a, b) || lex_le(b, a),
    decreases a.len(),
{
    if a.len() > 0 && b.len() > 0 && a[0] == b[0] {
        lemma_lex_le_total(a.drop_first(), b.drop_first());
    }
}

/// Lexicographic order is transitive.
proof fn lemma_lex_le_transitive(a: Seq<u8>, b: Seq<u8>, c: Seq<u8>)
    requires
        lex_le(a, b),
        lex_le(b, c),
    ensures
        lex_le(a, c),
    decreases a.len(),
{
    if a.len() > 0 && b.len() > 0 && c.len() > 0 && a[0] == b[0] && b[0] == c[0] {
        lemma_lex_le_transitive(a.drop_first(), b.drop_first(), c.drop_first());
    }
}

/// Compare two names in listing order (case-folded lexicographic).
fn name_le(a: &String, b: &String) -> (r: bool)
    ensures
        r == lex_le(lower_bytes(encode_utf8(a@)), lower_bytes(encode_utf8(b@))),
{
    let ab: &[u8] = a.as_str().as_bytes();
    let bb: &[u8] = b.as_str().as_bytes();
    let ghost la = lower_bytes(ab@);
    let ghost lb = lower_bytes(bb@);
    let mut i: usize = 0;
    proof {
        assert(la.skip(0) =~= la);
        assert(lb.skip(0) =~= lb);
    }
    loop
        invariant
            i <= ab@.len(),
            i <= bb@.len(),
            la == lower_bytes(encode_utf8(a@)),
            lb == lower_bytes(encode_utf8(b@)),
            ab@ == encode_utf8(a@),
            bb@ == encode_utf8(b@),
            lex_le(la, lb) == lex_le(la.skip(i as int), lb.skip(i as int)),
        decreases ab@.len() - i,
    {
        if i >= ab.len() {
            proof {
                assert(la.skip(i as int).len() == 0);
            }
            return true;
        }
        if i >= bb.len() {
            proof {
                assert(lb.skip(i as int).len() == 0);
                assert(la.skip(i as int).len() > 0);
            }
            return false;
        }
        let ca: u8 = ab[i];
        let cb: u8 = bb[i];
        let fa: u8 = if 65 <= ca && ca <= 90 {
            ca + 32
        } else {
            ca
        };
        let fb: u8 = if 65 <= cb && cb <= 90 {
            cb + 32
        } else {
            cb
        };
        proof {
            assert(la.skip(i as int)[0] == fa);
            assert(lb.skip(i as int)[0] == fb);
        }
        if fa < fb {
            return true;
        }
        if fa > fb {
            return false;
        }
        proof {
            assert(la.skip(i as int).drop_first() =~= la.skip(i + 1));
            assert(lb.skip(i as int).drop_first() =~= lb.skip(i + 1));
        }
        i = i + 1;
    }
}

/// Whether one listing entry sorts at or before another.
fn entry_le_exec(a: &FileEntry, b: &FileEntry) -> (r: bool)
    ensures
        r == entry_le(*a, *b),
{
    name_le(&a.name, &b.name)
}

/// Insert an entry into a sorted run, keeping it sorted; the run's
/// contents grow by exactly that entry.
fn insert_sorted(v: &mut Vec<FileEntry>, e: FileEntry)
    requires
        entries_sorted(old(v)@),
    ensures
        entries_sorted(final(v)@),
        final(v)@.to_multiset() == old(v)@.to_multiset().insert(e),
        final(v)@.len() == old(v)@.len() + 1,
{
    let mut p: usize = 0;
    while p < v.len() && entry_le_exec(&v[p], &e)
        invariant
            p <= v@.len(),
            v@ == old(v)@,
            entries_sorted(v@),
            forall|i: int| 0 <= i < p ==> entry_le(#[trigger] v@[i], e),
        decreases v@.len() - p,
    {
        p = p + 1;
    }
    proof {
        if (p as int) < v@.len() {
            lemma_lex_le_total(
                lower_bytes(encode_utf8(v@[p as int].name@)),
                lower_bytes(encode_utf8(e.name@)),
            );
            assert forall|i: int| p <= i < v@.len() implies entry_le(e, #[trigger] v@[i]) by {
                if i > p {
                    assert(entry_le(v@[p as int], v@[i]));
                    lemma_lex_le_transitive(
                        lower_bytes(encode_utf8(e.name@)),
                        lower_bytes(encode_utf8(v@[p as int].name@)),
                        lower_bytes(encode_utf8(v@[i].name@)),
                    );
                }
            }
        }
        v@.insert_ensures(p as int, e);
        vstd::seq_lib::to_multiset_insert(v@, p as int, e);
    }
    v.insert(p, e);
    proof {
        assert forall|i: int, j: int| 0 <= i < j < v@.len() implies entry_le(
            #[trigger] v@[i],
            #[trigger] v@[j],
        ) by {
            if j < p {
                assert(entry_le(old(v)@[i], old(v)@[j]));
            } else if i > p {
                assert(entry_le(old(v)@[i - 1], old(v)@[j - 1]));
            } else if i == p && j > p {
                assert(entry_le(e, old(v)@[j - 1]));
            } else if j == p && i < p {
                assert(entry_le(old(v)@[i], e));
            } else if i < p && j > p {
                assert(entry_le(old(v)@[i], e));
                assert(entry_le(e, old(v)@[j - 1]));
                lemma_lex_le_transitive(
                    lower_bytes(encode_utf8(old(v)@[i].name@)),
                    lower_bytes(encode_utf8(e.name@)),
                    lower_bytes(encode_utf8(old(v)@[j - 1].name@)),
                );
            }
        }
    }
}

/// Index of the last `.` in a byte string, or -1 when there is none.
pub open spec fn spec_last_dot(b: Seq<u8>) -> int
    decreases b.len(),
{
    if b.len() == 0 {
        -1
    } else if b[b.len() - 1] == 46 {
        b.len() - 1
    } else {
        spec_last_dot(b.take(b.len() - 1))
    }
}

/// The case-folded extension a name carries: the bytes after the last
/// dot, or the whole name when it has no dot (as splitting from the
/// right yields).
pub open spec fn spec_extension(b: Seq<u8>) -> Seq<u8> {
    lower_bytes(b.skip(spec_last_dot(b) + 1))
}

/// The video container extensions the browser lists.
pub open spec fn spec_is_video_ext(e: Seq<u8>) -> bool {
    ||| e =~= seq![109u8, 112u8, 52u8]  // mp4
    ||| e =~= seq![109u8, 107u8, 118u8]  // mkv
    ||| e =~= seq![97u8, 118u8, 105u8]  // avi
    ||| e =~= seq![119u8, 101u8, 98u8, 109u8]  // webm
    ||| e =~= seq![109u8, 111u8, 118u8]  // mov
    ||| e =~= seq![109u8, 52u8, 118u8]  // m4v
    ||| e =~= seq![51u8, 103u8, 112u8]  // 3gp
}

/// Hidden names (leading dot) are skipped.
pub open spec fn spec_is_hidden(b: Seq<u8>) -> bool {
    b.len() > 0 && b[0] == 46
}

/// A raw entry the listing keeps as a directory.
pub open spec fn spec_keep_dir(e: FileEntry) -> bool {
    !spec_is_hidden(encode_utf8(e.name@)) && e.is_dir
}

/// A raw entry the listing keeps as a playable file.
pub open spec fn spec_keep_file(e: FileEntry) -> bool {
    &&& !spec_is_hidden(encode_utf8(e.name@))
    &&& !e.is_dir
    &&& spec_is_video_ext(spec_extension(encode_utf8(e.name@)))
}

/// Whether a name has a video extension after the last dot.
fn has_video_extension(name: &String) -> (r: bool)
    ensures
        r == spec_is_video_ext(spec_extension(encode_utf8(name@))),
{
    let b: &[u8] = name.as_str().as_bytes();
    let n: usize = b.len();
    // Find the last dot.
    let mut j: usize = n;
    proof {
        assert(b@.take(n as int) =~= b@);
    }
    while j > 0 && b[j - 1] != 46
        invariant
            j <= n,
            b@ == encode_utf8(name@),
            n == b@.len(),
            spec_last_dot(b@) == spec_last_dot(b@.take(j as int)),
            forall|k: int| j <= k < n ==> b@[k] != 46,
        decreases j,
    {
        proof {
            assert(b@.take(j as int).take(j - 1) =~= b@.take(j - 1));
        }
        j = j - 1;
    }
    proof {
        if j > 0 {
            assert(b@.take(j as int)[j - 1] == 46);
            assert(spec_last_dot(b@) == j - 1);
        } else {
            assert(b@.take(0).len() == 0);
            assert(spec_last_dot(b@) == -1);
        }
    }
    // `j` is now one past the last dot, or 0 when there is none; either
    // way the candidate extension starts at `j`.
    let mut ext: Vec<u8> = Vec::new();
    let mut k: usize = j;
    while k < n
        invariant
            j <= k <= n,
            b@ == encode_utf8(name@),
            n == b@.len(),
            spec_last_dot(b@) == j - 1,
            ext@ == lower_bytes(b@.skip(j as int)).take(k - j),
        decreases n - k,
    {
        let c: u8 = b[k];
        let f: u8 = if 65 <= c && c <= 90 {
            c + 32
        } else {
            c
        };
        ext.push(f);
        proof {
            assert(ext@ =~= lower_bytes(b@.skip(j as int)).take(k + 1 - j));
        }
        k = k + 1;
    }
    proof {
        assert(ext@ =~= lower_bytes(b@.skip(j as int)));
        assert(ext@ =~= spec_extension(b@));
    }
    (ext.len() == 3 && ext[0] == 109 && ext[1] == 112 && ext[2] == 52) || (ext.len() == 3 && ext[0]
        == 109 && ext[1] == 107 && ext[2] == 118) || (ext.len() == 3 && ext[0] == 97 && ext[1]
        == 118 && ext[2] == 105) || (ext.len() == 4 && ext[0] == 119 && ext[1] == 101 && ext[2]
        == 98 && ext[3] == 109) || (ext.len() == 3 && ext[0] == 109 && ext[1] == 111 && ext[2]
        == 118) || (ext.len() == 3 && ext[0] == 109 && ext[1] == 52 && ext[2] == 118) || (ext.len()
        == 3 && ext[0] == 51 && ext[1] == 103 && ext[2] == 112)
}

/// Whether a name starts with a dot.
fn is_hidden_name(name: &String) -> (r: bool)
    ensures
        r == spec_is_hidden(encode_utf8(name@)),
{
    let b: &[u8] = name.as_str().as_bytes();
    b.len() > 0 && b[0] == 46
}

/// Whether a name is the parent pseudo-entry `..`.
fn is_parent_name(name: &String) -> (r: bool)
    ensures
        r == (encode_utf8(name@) =~= seq![46u8, 46u8]),
{
    let b: &[u8] = name.as_str().as_bytes();
    if b.len() == 2 && b[0] == 46 && b[1] == 46 {
        proof {
            assert(b@ =~= seq![46u8, 46u8]);
        }
        true
    } else {
        proof {
            assert(!(b@ =~= seq![46u8, 46u8]));
        }
        false
    }
}

/// The in-VR file browser.
pub struct FileBrowser {
    pub visible: bool,
    /// Components of the directory shown, starting at the storage root.
    pub current_path: Vec<String>,
    pub entries: Vec<FileEntry>,
    pub selected_index: usize,
    /// Components of a chosen video file, taken once by the player.
    pub selected_file: Option<Vec<String>>,
    /// A message shown when the directory could not be read.
    pub error_msg: Option<String>,
    /// True when the platform layer should re-read the directory and
    /// call [`FileBrowser::apply_listing`].
    pub needs_refresh: bool,
}

/// The browser's state as mathematical values, over which its
/// transitions are specified.
pub struct BrowserModel {
    pub visible: bool,
    pub current_path: Seq<String>,
    pub entries: Seq<FileEntry>,
    pub selected_index: int,
    pub selected_file: Option<Seq<String>>,
    pub needs_refresh: bool,
}

/// Selection moved up one entry, stopping at the top.
pub open spec fn spec_move_up(m: BrowserModel) -> BrowserModel {
    if m.selected_index > 0 {
        BrowserModel { selected_index: m.selected_index - 1, ..m }
    } else {
        m
    }
}

/// Selection moved down one entry, stopping at the last.
pub open spec fn spec_move_down(m: BrowserModel) -> BrowserModel {
    if m.selected_index + 1 < m.entries.len() {
        BrowserModel { selected_index: m.selected_index + 1, ..m }
    } else {
        m
    }
}

/// The state after entering the selected entry: a directory becomes the
/// current path (the parent pseudo-entry pops a component instead, never
/// above the root) and asks for a fresh listing; a file closes the
/// browser and records its full component path; no entry, no change.
pub open spec fn spec_select_current(m: BrowserModel) -> BrowserModel {
    if m.selected_index < 0 || m.selected_index >= m.entries.len() {
        m
    } else {
        let e = m.entries[m.selected_index];
        if e.is_dir {
            if encode_utf8(e.name@) =~= seq![46u8, 46u8] {
                if m.current_path.len() > ROOT_DEPTH {
                    BrowserModel {
                        current_path: m.current_path.drop_last(),
                        needs_refresh: true,
                        ..m
                    }
                } else {
                    BrowserModel { needs_refresh: true, ..m }
                }
            } else {
                BrowserModel {
                    current_path: m.current_path.push(e.name),
                    needs_refresh: true,
                    ..m
                }
            }
        } else {
            BrowserModel {
                selected_file: Some(m.current_path.push(e.name)),
                visible: false,
                ..m
            }
        }
    }
}

/// The state after going up one directory, never above the root.
pub open spec fn spec_go_back(m: BrowserModel) -> BrowserModel {
    if m.current_path.len() > ROOT_DEPTH {
        BrowserModel { current_path: m.current_path.drop_last(), needs_refresh: true, ..m }
    } else {
        m
    }
}

/// The chosen file and the state after taking it (take-once).
pub open spec fn spec_take_selected(m: BrowserModel) -> (Option<Seq<String>>, BrowserModel) {
    (m.selected_file, BrowserModel { selected_file: None, ..m })
}

impl FileBrowser {
    /// The browser never climbs above its starting directory.
    pub open spec fn wf(self) -> bool {
        self.current_path@.len() >= ROOT_DEPTH
    }

    /// The browser's state as mathematical values.
    pub open spec fn model(self) -> BrowserModel {
        BrowserModel {
            visible: self.visible,
            current_path: self.current_path@,
            entries: self.entries@,
            selected_index: self.selected_index as int,
            selected_file: match self.selected_file {
                Some(f) => Some(f@),
                None => None,
            },
            needs_refresh: self.needs_refresh,
        }
    }

    /// A hidden browser at the storage root, waiting for its first
    /// directory listing.
    pub fn new() -> (b: FileBrowser)
        ensures
            b.wf(),
            b.visible == false,
            b.current_path@.len() == ROOT_DEPTH,
            b.entries@.len() == 0,
            b.selected_index == 0,
            b.selected_file is None,
            b.error_msg is None,
            b.needs_refresh == true,
    {
        let mut path: Vec<String> = Vec::new();
        path.push(storage_component());
        path.push(emulated_component());
        path.push(zero_component());
        FileBrowser {
            visible: false,
            current_path: path,
            entries: Vec::new(),
            selected_index: 0,
            selected_file: None,
            error_msg: None,
            needs_refresh: true,
        }
    }

    /// Replace the listing with a fresh directory read: hidden names
    /// are dropped, directories and video files are kept and sorted
    /// separately by case-folded name (directories first), and a parent
    /// pseudo-entry leads the list whenever the browser is below its
    /// starting directory. The selection returns to the top.
    pub fn apply_listing(&mut self, raw: Vec<FileEntry>)
        requires
            old(self).wf(),
        ensures
            final(self).wf(),
            final(self).visible == old(self).visible,
            final(self).current_path == old(self).current_path,
            final(self).selected_file == old(self).selected_file,
            final(self).selected_index == 0,
            final(self).error_msg is None,
            final(self).needs_refresh == false,
            ({
                let dirs = raw@.filter(|e: FileEntry| spec_keep_dir(e));
                let files = raw@.filter(|e: FileEntry| spec_keep_file(e));
                let above_root = old(self).current_path@.len() > ROOT_DEPTH;
                let head: int = if above_root {
                    1
                } else {
                    0
                };
                &&& final(self).entries@.len() == head + dirs.len() + files.len()
                &&& (above_root ==> encode_utf8(final(self).entries@[0].name@) =~= seq![
                    46u8,
                    46u8,
                ] && final(self).entries@[0].is_dir)
                &&& final(self).entries@.subrange(head, head + dirs.len()).to_multiset()
                    == dirs.to_multiset()
                &&& entries_sorted(final(self).entries@.subrange(head, head + dirs.len()))
                &&& final(self).entries@.subrange(
                    head + dirs.len(),
                    final(self).entries@.len() as int,
                ).to_multiset() == files.to_multiset()
                &&& entries_sorted(
                    final(self).entries@.subrange(
                        head + dirs.len(),
                        final(self).entries@.len() as int,
                    ),
                )
            }),
    {
        let mut dirs: Vec<FileEntry> = Vec::new();
        let mut files: Vec<FileEntry> = Vec::new();
        proof {
            reveal(Seq::filter);
            assert(raw@.take(0) =~= Seq::<FileEntry>::empty());
            assert(dirs@.to_multiset() =~= raw@.take(0).filter(
                |e: FileEntry| spec_keep_dir(e),
            ).to_multiset());
            assert(files@.to_multiset() =~= raw@.take(0).filter(
                |e: FileEntry| spec_keep_file(e),
            ).to_multiset());
        }
        let mut i: usize = 0;
        let n: usize = raw.len();
        let ghost raw0 = raw@;
        let mut raw = raw;
        // Consume the raw entries front to back, keeping the two sorted
        // runs up to date.
        while i < n
            invariant
                i <= n,
                n == raw0.len(),
                raw@ == raw0.skip(i as int),
                entries_sorted(dirs@),
                entries_sorted(files@),
                dirs@.to_multiset() == raw0.take(i as int).filter(
                    |e: FileEntry| spec_keep_dir(e),
                ).to_multiset(),
                files@.to_multiset() == raw0.take(i as int).filter(
                    |e: FileEntry| spec_keep_file(e),
                ).to_multiset(),
                dirs@.len() == raw0.take(i as int).filter(
                    |e: FileEntry| spec_keep_dir(e),
                ).len(),
                files@.len() == raw0.take(i as int).filter(
                    |e: FileEntry| spec_keep_file(e),
                ).len(),
            decreases n - i,
        {
            let e = raw.remove(0);
            proof {
                assert(e == raw0[i as int]);
                assert(raw@ =~= raw0.skip(i + 1));
                reveal(Seq::filter);
                assert(raw0.take(i + 1).drop_last() =~= raw0.take(i as int));
                assert(raw0.take(i + 1).last() == e);
                vstd::seq_lib::to_multiset_build(
                    raw0.take(i as int).filter(|x: FileEntry| spec_keep_dir(x)),
                    e,
                );
                vstd::seq_lib::to_multiset_build(
                    raw0.take(i as int).filter(|x: FileEntry| spec_keep_file(x)),
                    e,
                );
            }
            if !is_hidden_name(&e.name) {
                if e.is_dir {
                    insert_sorted(&mut dirs, e);
                } else if has_video_extension(&e.name) {
                    insert_sorted(&mut files, e);
                }
            }
            i = i + 1;
        }
        proof {
            assert(raw0.take(n as int) =~= raw0);
        }
        let mut entries: Vec<FileEntry> = Vec::new();
        if self.current_path.len() > ROOT_DEPTH {
            let parent = FileEntry { name: parent_component(), is_dir: true };
            entries.push(parent);
        }
        let ghost head_seq = entries@;
        let ghost dirs_seq = dirs@;
        let ghost files_seq = files@;
        entries.append(&mut dirs);
        entries.append(&mut files);
        proof {
            assert(entries@ =~= head_seq + dirs_seq + files_seq);
            assert(entries@.subrange(
                head_seq.len() as int,
                head_seq.len() + dirs_seq.len() as int,
            ) =~= dirs_seq);
            assert(entries@.subrange(
                head_seq.len() + dirs_seq.len() as int,
                entries@.len() as int,
            ) =~= files_seq);
        }
        self.entries = entries;
        self.selected_index = 0;
        self.error_msg = None;
        self.needs_refresh = false;
    }

    /// Record that the directory could not be read; the listing empties
    /// and the message is kept for display.
    pub fn set_error(&mut self, msg: String)
        ensures
            final(self).entries@.len() == 0,
            final(self).selected_index == 0,
            final(self).error_msg == Some(msg),
            final(self).needs_refresh == false,
            final(self).visible == old(self).visible,
            final(self).current_path == old(self).current_path,
            final(self).selected_file == old(self).selected_file,
    {
        self.entries = Vec::new();
        self.selected_index = 0;
        self.error_msg = Some(msg);
        self.needs_refresh = false;
    }

    /// Move the selection up one entry, stopping at the top.
    pub fn move_up(&mut self)
        ensures
            final(self).model() == spec_move_up(old(self).model()),
            final(self).error_msg == old(self).error_msg,
    {
        if self.selected_index > 0 {
            self.selected_index = self.selected_index - 1;
        }
    }

    /// Move the selection down one entry, stopping at the last.
    pub fn move_down(&mut self)
        ensures
            final(self).model() == spec_move_down(old(self).model()),
            final(self).error_msg == old(self).error_msg,
    {
        if self.entries.len() > 0 && self.selected_index < self.entries.len() - 1 {
            self.selected_index = self.selected_index + 1;
        }
    }

    /// Enter the selected entry: a directory becomes the current path
    /// (the parent pseudo-entry goes up instead) and asks for a fresh
    /// listing; a file becomes the chosen video, its full component
    /// path recorded, and the browser closes. With no entries, nothing
    /// happens.
    pub fn select_current(&mut self)
        requires
            old(self).wf(),
        ensures
            final(self).wf(),
            final(self).model() == spec_select_current(old(self).model()),
            final(self).error_msg == old(self).error_msg,
    {
        if self.selected_index >= self.entries.len() {
            return ;
        }
        let is_dir = self.entries[self.selected_index].is_dir;
        let name = self.entries[self.selected_index].name.clone();
        if is_dir {
            if is_parent_name(&name) {
                if self.current_path.len() > ROOT_DEPTH {
                    let _ = self.current_path.pop();
                }
            } else {
                self.current_path.push(name);
            }
            self.needs_refresh = true;
        } else {
            let mut full: Vec<String> = Vec::new();
            let mut k: usize = 0;
            while k < self.current_path.len()
                invariant
                    k <= self.current_path@.len(),
                    full@ == self.current_path@.take(k as int),
                decreases self.current_path@.len() - k,
            {
                full.push(self.current_path[k].clone());
                proof {
                    assert(full@ =~= self.current_path@.take(k + 1));
                }
                k = k + 1;
            }
            proof {
                assert(full@ =~= self.current_path@);
            }
            full.push(name);
            self.selected_file = Some(full);
            self.visible = false;
        }
    }

    /// Go up to the parent directory, never above the starting root;
    /// moving asks for a fresh listing.
    pub fn go_back(&mut self)
        requires
            old(self).wf(),
        ensures
            final(self).wf(),
            final(self).model() == spec_go_back(old(self).model()),
            final(self).error_msg == old(self).error_msg,
    {
        if self.current_path.len() > ROOT_DEPTH {
            let _ = self.current_path.pop();
            self.needs_refresh = true;
        }
    }

    /// Take the chosen video's path components, once: a second call
    /// without a new selection yields nothing.
    pub fn take_selected_file(&mut self) -> (taken: Option<Vec<String>>)
        ensures
            (match taken {
                Some(f) => Some(f@) == spec_take_selected(old(self).model()).0,
                None => spec_take_selected(old(self).model()).0 is None,
            }),
            final(self).model() == spec_take_selected(old(self).model()).1,
            final(self).error_msg == old(self).error_msg,
    {
        let taken = self.selected_file.take();
        taken
    }
}

/// First component of the starting directory.
fn storage_component() -> (s: String) {
    String::from_str("storage")
}

/// Second component of the starting directory.
fn emulated_component() -> (s: String) {
    String::from_str("emulated")
}

/// Third component of the starting directory.
fn zero_component() -> (s: String) {
    String::from_str("0")
}

/// The parent pseudo-entry's name.
fn parent_component() -> (s: String)
    ensures
        encode_utf8(s@) =~= seq![46u8, 46u8],
{
    let s = String::from_str("..");
    proof {
        reveal_strlit("..");
        assert(is_ascii_chars(s@));
        vstd::utf8::is_ascii_chars_encode_utf8(s@);
        assert(encode_utf8(s@) =~= seq![46u8, 46u8]);
    }
    s
}

} // verus!
