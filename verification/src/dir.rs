//! The entry listing: the subdirectories and files of one directory, each
//! sorted by name, with one selected entry.

use crate::cursor::Cursor;
use vstd::prelude::*;
use vstd::utf8::encode_utf8;

verus! {

/// What an entry of a directory is known by.
pub struct EntryView {
    pub name: Seq<char>,
    pub path: Seq<char>,
    pub is_dir: bool,
}

/// One child of a directory: its file name, its full path, and whether it is
/// itself a directory.
pub struct Entry {
    pub name: String,
    pub path: String,
    pub is_dir: bool,
}

impl View for Entry {
    type V = EntryView;

    open spec fn view(&self) -> EntryView {
        EntryView { name: self.name@, path: self.path@, is_dir: self.is_dir }
    }
}

impl Entry {
    /// A copy of the entry.
    pub fn copy(&self) -> (e: Entry)
        ensures
            e@ == self@,
    {
        Entry { name: self.name.clone(), path: self.path.clone(), is_dir: self.is_dir }
    }
}

/// The characters of a path that may be absent.
pub open spec fn opt_view(o: Option<String>) -> Option<Seq<char>> {
    match o {
        Some(p) => Some(p@),
        None => None,
    }
}

/// What each entry of a vector of entries is known by.
pub open spec fn entries_view(v: Seq<Entry>) -> Seq<EntryView> {
    Seq::new(v.len(), |i: int| v[i]@)
}

/// Whether the bytes of `a` from `i` on come no later than those of `b` in
/// lexicographic order, given that the two agree before `i`.
pub open spec fn bytes_le(a: Seq<u8>, b: Seq<u8>, i: int) -> bool
    decreases a.len() - i,
{
    if i < 0 || i >= a.len() {
        true
    } else if i >= b.len() {
        false
    } else if a[i] != b[i] {
        a[i] < b[i]
    } else {
        bytes_le(a, b, i + 1)
    }
}

/// The order of names: case-sensitive byte order of their UTF-8 encodings.
pub open spec fn name_le(a: Seq<char>, b: Seq<char>) -> bool {
    bytes_le(encode_utf8(a), encode_utf8(b), 0)
}

/// Of two byte strings that agree before `i`, one comes no later than the
/// other.
pub proof fn lemma_bytes_le_total(a: Seq<u8>, b: Seq<u8>, i: int)
    requires
        0 <= i,
    ensures
        bytes_le(a, b, i) || bytes_le(b, a, i),
    decreases a.len() - i,
{
    if i < a.len() && i < b.len() && a[i] == b[i] {
        lemma_bytes_le_total(a, b, i + 1);
    }
}

/// Byte order is transitive.
pub proof fn lemma_bytes_le_trans(a: Seq<u8>, b: Seq<u8>, c: Seq<u8>, i: int)
    requires
        0 <= i,
        bytes_le(a, b, i),
        bytes_le(b, c, i),
    ensures
        bytes_le(a, c, i),
    decreases a.len() - i,
{
    if i < a.len() && i < b.len() && i < c.len() && a[i] == b[i] && b[i] == c[i] {
        lemma_bytes_le_trans(a, b, c, i + 1);
    }
}

/// Whether the entries stand in the order of their names.
pub open spec fn sorted(s: Seq<EntryView>) -> bool {
    forall|i: int, j: int|
        0 <= i < j < s.len() ==> name_le(#[trigger] s[i].name, #[trigger] s[j].name)
}

/// A sorted sequence with one more entry: the entry goes after every entry
/// whose name comes no later than its own, so entries of one name keep the
/// order in which they came.
pub open spec fn placed(s: Seq<EntryView>, e: EntryView) -> Seq<EntryView>
    decreases s.len(),
{
    if s.len() == 0 {
        seq![e]
    } else if name_le(s.last().name, e.name) {
        s.push(e)
    } else {
        placed(s.drop_last(), e).push(s.last())
    }
}

/// The entries in the order of their names, stably.
pub open spec fn by_name(s: Seq<EntryView>) -> Seq<EntryView>
    decreases s.len(),
{
    if s.len() == 0 {
        s
    } else {
        placed(by_name(s.drop_last()), s.last())
    }
}

/// The subdirectories among the children, in the order given.
pub open spec fn dirs_of(s: Seq<EntryView>) -> Seq<EntryView> {
    s.filter(|e: EntryView| e.is_dir)
}

/// The files among the children, in the order given.
pub open spec fn files_of(s: Seq<EntryView>) -> Seq<EntryView> {
    s.filter(|e: EntryView| !e.is_dir)
}

/// One more child goes to the subdirectories or to the files, at the end.
pub proof fn lemma_partition_push(s: Seq<EntryView>, e: EntryView)
    ensures
        dirs_of(s.push(e)) == if e.is_dir {
            dirs_of(s).push(e)
        } else {
            dirs_of(s)
        },
        files_of(s.push(e)) == if e.is_dir {
            files_of(s)
        } else {
            files_of(s).push(e)
        },
        by_name(dirs_of(s.push(e))) == if e.is_dir {
            placed(by_name(dirs_of(s)), e)
        } else {
            by_name(dirs_of(s))
        },
        by_name(files_of(s.push(e))) == if e.is_dir {
            by_name(files_of(s))
        } else {
            placed(by_name(files_of(s)), e)
        },
{
    reveal_with_fuel(Seq::filter, 2);
    assert(s.push(e).drop_last() =~= s);
    if e.is_dir {
        assert(dirs_of(s).push(e).drop_last() =~= dirs_of(s));
    } else {
        assert(files_of(s).push(e).drop_last() =~= files_of(s));
    }
}

/// Every child is either among the subdirectories or among the files.
pub proof fn lemma_partition_len(s: Seq<EntryView>)
    ensures
        dirs_of(s).len() + files_of(s).len() == s.len(),
    decreases s.len(),
{
    if s.len() > 0 {
        lemma_partition_len(s.drop_last());
        lemma_partition_push(s.drop_last(), s.last());
        assert(s =~= s.drop_last().push(s.last()));
    }
}

/// Placing an entry keeps a sorted sequence sorted, keeps what it held and
/// adds the entry.
pub proof fn lemma_placed(s: Seq<EntryView>, e: EntryView)
    requires
        sorted(s),
    ensures
        sorted(placed(s, e)),
        placed(s, e).len() == s.len() + 1,
        placed(s, e).to_multiset() == s.to_multiset().insert(e),
        forall|x: EntryView| #[trigger] placed(s, e).contains(x) ==> x == e || s.contains(x),
    decreases s.len(),
{
    broadcast use vstd::seq_lib::group_to_multiset_ensures;

    let r = placed(s, e);
    if s.len() > 0 {
        if name_le(s.last().name, e.name) {
            assert forall|i: int, j: int| 0 <= i < j < r.len() implies name_le(
                #[trigger] r[i].name,
                #[trigger] r[j].name,
            ) by {
                if j == s.len() && i < s.len() - 1 {
                    lemma_bytes_le_trans(
                        encode_utf8(s[i].name),
                        encode_utf8(s.last().name),
                        encode_utf8(e.name),
                        0,
                    );
                }
            }
        } else {
            let t = s.drop_last();
            lemma_placed(t, e);
            let p = placed(t, e);
            lemma_bytes_le_total(encode_utf8(s.last().name), encode_utf8(e.name), 0);
            assert forall|i: int, j: int| 0 <= i < j < r.len() implies name_le(
                #[trigger] r[i].name,
                #[trigger] r[j].name,
            ) by {
                if j == p.len() {
                    assert(p.contains(p[i]));
                }
            }
            assert(s =~= t.push(s.last()));
            assert forall|x: EntryView| #[trigger] r.contains(x) implies x == e || s.contains(
                x,
            ) by {
                let k = choose|k: int| 0 <= k < r.len() && r[k] == x;
                if k < p.len() {
                    assert(p.contains(x));
                }
            }
        }
    }
}

/// Sorting by name gives a sorted sequence of the same entries.
pub proof fn lemma_by_name(s: Seq<EntryView>)
    ensures
        sorted(by_name(s)),
        by_name(s).len() == s.len(),
        by_name(s).to_multiset() == s.to_multiset(),
        forall|x: EntryView| #[trigger] by_name(s).contains(x) ==> s.contains(x),
    decreases s.len(),
{
    broadcast use vstd::seq_lib::group_to_multiset_ensures;

    if s.len() > 0 {
        let t = s.drop_last();
        lemma_by_name(t);
        lemma_placed(by_name(t), s.last());
        assert(s =~= t.push(s.last()));
    }
}

/// Whether the name `a` comes no later than the name `b`.
pub fn name_before(a: &str, b: &str) -> (r: bool)
    ensures
        r == name_le(a@, b@),
{
    let x = a.as_bytes();
    let y = b.as_bytes();
    let mut i: usize = 0;
    loop
        invariant
            x@ == encode_utf8(a@),
            y@ == encode_utf8(b@),
            i <= x@.len(),
            i <= y@.len(),
            bytes_le(x@, y@, 0) == bytes_le(x@, y@, i as int),
        decreases x@.len() - i,
    {
        if i >= x.len() {
            return true;
        }
        if i >= y.len() {
            return false;
        }
        if x[i] != y[i] {
            return x[i] < y[i];
        }
        i += 1;
    }
}

/// Puts `e` into the sorted vector `v` after every entry whose name comes no
/// later than its own.
pub fn place(v: &mut Vec<Entry>, e: Entry)
    ensures
        entries_view(final(v)@) == placed(entries_view(old(v)@), e@),
{
    let ghost s = entries_view(v@);
    let mut j: usize = v.len();
    proof {
        assert(s.take(j as int) =~= s);
    }
    while j > 0 && !name_before(v[j - 1].name.as_str(), e.name.as_str())
        invariant
            j <= v.len(),
            s == entries_view(v@),
            placed(s, e@) == placed(s.take(j as int), e@) + s.skip(j as int),
        decreases j,
    {
        proof {
            let t = s.take(j as int);
            assert(t.drop_last() =~= s.take(j - 1));
        }
        j -= 1;
    }
    v.insert(j, e);
}

/// The subdirectories and the files among `children`, each sorted by name.
pub fn partition(children: &Vec<Entry>) -> (r: (Vec<Entry>, Vec<Entry>))
    ensures
        entries_view(r.0@) == by_name(dirs_of(entries_view(children@))),
        entries_view(r.1@) == by_name(files_of(entries_view(children@))),
{
    let ghost s = entries_view(children@);
    let mut dirs: Vec<Entry> = Vec::new();
    let mut files: Vec<Entry> = Vec::new();
    let mut i: usize = 0;
    while i < children.len()
        invariant
            i <= children.len(),
            s == entries_view(children@),
            entries_view(dirs@) == by_name(dirs_of(s.take(i as int))),
            entries_view(files@) == by_name(files_of(s.take(i as int))),
        decreases children.len() - i,
    {
        let e = children[i].copy();
        proof {
            assert(s.take(i + 1) =~= s.take(i as int).push(e@));
            lemma_partition_push(s.take(i as int), e@);
        }
        if e.is_dir {
            place(&mut dirs, e);
        } else {
            place(&mut files, e);
        }
        i += 1;
    }
    proof {
        assert(s.take(children.len() as int) =~= s);
    }
    (dirs, files)
}

/// What a listing holds.
pub struct DirView {
    /// The path of the file being edited; empty while there is none.
    pub path: Seq<char>,
    /// The path of the directory that is listed.
    pub dir_path: Seq<char>,
    /// The path of its parent directory, where it has one.
    pub parent: Option<Seq<char>>,
    /// Its subdirectories, by name.
    pub dirs: Seq<EntryView>,
    /// Its files, by name.
    pub files: Seq<EntryView>,
    /// The selected entry of the combined listing.
    pub selection: usize,
}

impl DirView {
    /// The number of entries that can be selected besides the parent.
    pub open spec fn count(self) -> nat {
        self.dirs.len() + self.files.len()
    }

    /// The listing is in order: subdirectories and files each sorted by
    /// name, each in its own part, and the selection within the combined
    /// listing.
    pub open spec fn valid(self) -> bool {
        &&& sorted(self.dirs)
        &&& sorted(self.files)
        &&& forall|i: int| 0 <= i < self.dirs.len() ==> (#[trigger] self.dirs[i]).is_dir
        &&& forall|i: int| 0 <= i < self.files.len() ==> !(#[trigger] self.files[i]).is_dir
        &&& self.selection <= self.count() <= usize::MAX
    }

    /// The names of the combined listing: the parent entry first, then the
    /// subdirectories, then the files.
    pub open spec fn names(self) -> Seq<Seq<char>> {
        seq![seq!['.', '.']] + Seq::new(self.dirs.len(), |i: int| self.dirs[i].name) + Seq::new(
            self.files.len(),
            |i: int| self.files[i].name,
        )
    }

    /// What the selection stands for.
    pub open spec fn selected(self) -> SelectedView {
        if self.selection == 0 {
            match self.parent {
                Some(p) => SelectedView::Parent(p),
                None => SelectedView::Stay,
            }
        } else if self.selection <= self.dirs.len() {
            SelectedView::Directory(self.dirs[self.selection - 1].path)
        } else {
            SelectedView::File(self.files[self.selection - 1 - self.dirs.len()].path)
        }
    }

    /// The listing of `children` at `dir_path` while no file is edited, the
    /// selection on the parent entry.
    pub open spec fn initial(
        dir_path: Seq<char>,
        parent: Option<Seq<char>>,
        children: Seq<EntryView>,
    ) -> DirView {
        DirView {
            path: Seq::<char>::empty(),
            dir_path,
            parent,
            dirs: by_name(dirs_of(children)),
            files: by_name(files_of(children)),
            selection: 0,
        }
    }

    /// The listing with the selection one entry up, unless it is on the
    /// parent entry.
    pub open spec fn up(self) -> DirView {
        DirView {
            selection: if self.selection > 0 {
                (self.selection - 1) as usize
            } else {
                0
            },
            ..self
        }
    }

    /// The listing with the selection one entry down, unless it is on the
    /// last entry.
    pub open spec fn down(self) -> DirView {
        DirView {
            selection: if self.selection < self.count() {
                (self.selection + 1) as usize
            } else {
                self.selection
            },
            ..self
        }
    }

    /// The listing of `children` at `dir_path`, the selection on the parent
    /// entry.
    pub open spec fn listed(
        self,
        dir_path: Seq<char>,
        parent: Option<Seq<char>>,
        children: Seq<EntryView>,
    ) -> DirView {
        DirView {
            path: self.path,
            dir_path,
            parent,
            dirs: by_name(dirs_of(children)),
            files: by_name(files_of(children)),
            selection: 0,
        }
    }
}

/// What a selection stands for, as plain values.
pub enum SelectedView {
    Parent(Seq<char>),
    Stay,
    Directory(Seq<char>),
    File(Seq<char>),
}

/// What selecting the current entry asks for.
pub enum Selected {
    /// The parent entry is selected: list the parent directory, whose path
    /// this is.
    Parent(String),
    /// The parent entry is selected and the directory has no parent.
    Stay,
    /// A subdirectory is selected: list it.
    Directory(String),
    /// A file is selected: this is its path.
    File(String),
}

impl View for Selected {
    type V = SelectedView;

    open spec fn view(&self) -> SelectedView {
        match self {
            Selected::Parent(p) => SelectedView::Parent(p@),
            Selected::Stay => SelectedView::Stay,
            Selected::Directory(p) => SelectedView::Directory(p@),
            Selected::File(p) => SelectedView::File(p@),
        }
    }
}

/// What one row of a drawn listing shows.
pub struct DirRowView {
    pub name: Seq<char>,
    pub is_dir: bool,
    pub underline: bool,
}

/// One row of a drawn listing: the name to print, whether it is printed as a
/// directory, and whether it is underlined as the selected entry.
pub struct DirRow {
    pub name: String,
    pub is_dir: bool,
    pub underline: bool,
}

impl View for DirRow {
    type V = DirRowView;

    open spec fn view(&self) -> DirRowView {
        DirRowView { name: self.name@, is_dir: self.is_dir, underline: self.underline }
    }
}

/// What each row of a vector of rows shows.
pub open spec fn dir_rows_view(v: Seq<DirRow>) -> Seq<DirRowView> {
    Seq::new(v.len(), |i: int| v[i]@)
}

/// The rows of a drawn listing: one for each name of the combined listing,
/// the parent entry and the subdirectories printed as directories, and the
/// selected row underlined where the selection is shown.
pub open spec fn dir_rows(v: DirView, show_cursor: bool) -> Seq<DirRowView> {
    Seq::new(
        v.names().len(),
        |i: int|
            DirRowView {
                name: v.names()[i],
                is_dir: i <= v.dirs.len(),
                underline: show_cursor && i == v.selection,
            },
    )
}

/// In a listing that is in order, the parent entry is first, the
/// subdirectories follow in the order of their names, and the files come
/// after them in the order of theirs.
pub proof fn lemma_names_order(v: DirView)
    requires
        v.valid(),
    ensures
        v.names().len() == v.count() + 1,
        v.names()[0] == seq!['.', '.'],
        forall|i: int| 0 <= i < v.dirs.len() ==> v.names()[i + 1] == v.dirs[i].name,
        forall|i: int|
            0 <= i < v.files.len() ==> v.names()[i + 1 + v.dirs.len()] == v.files[i].name,
        forall|i: int, j: int|
            1 <= i < j <= v.dirs.len() ==> name_le(v.names()[i], v.names()[j]),
        forall|i: int, j: int|
            v.dirs.len() < i < j <= v.count() ==> name_le(v.names()[i], v.names()[j]),
{
}

/// A listing made from any children is in order.
pub proof fn lemma_listed_valid(
    v: DirView,
    dir_path: Seq<char>,
    parent: Option<Seq<char>>,
    children: Seq<EntryView>,
)
    requires
        children.len() <= usize::MAX,
    ensures
        v.listed(dir_path, parent, children).valid(),
{
    let d = dirs_of(children);
    let f = files_of(children);
    lemma_by_name(d);
    lemma_by_name(f);
    lemma_partition_len(children);
    let r = v.listed(dir_path, parent, children);
    assert forall|i: int| 0 <= i < r.dirs.len() implies (#[trigger] r.dirs[i]).is_dir by {
        assert(by_name(d).contains(r.dirs[i]));
    }
    assert forall|i: int| 0 <= i < r.files.len() implies !(#[trigger] r.files[i]).is_dir by {
        assert(by_name(f).contains(r.files[i]));
    }
}

/// The entry listing.
pub struct Dir {
    path: String,
    dir_path: String,
    parent: Option<String>,
    dirs: Vec<Entry>,
    files: Vec<Entry>,
    cursor: Cursor,
}

impl View for Dir {
    type V = DirView;

    closed spec fn view(&self) -> DirView {
        DirView {
            path: self.path@,
            dir_path: self.dir_path@,
            parent: opt_view(self.parent),
            dirs: entries_view(self.dirs@),
            files: entries_view(self.files@),
            selection: self.cursor.y,
        }
    }
}

impl Dir {
    /// Every listing is in order.
    #[verifier::type_invariant]
    pub open spec fn inv(self) -> bool {
        self@.valid()
    }

    /// The listing of `children` at `dir_path`, with no file being edited
    /// and the selection on the parent entry.
    pub fn new(dir_path: String, parent: Option<String>, children: Vec<Entry>) -> (d: Dir)
        ensures
            d@.valid(),
            d@ == DirView::initial(dir_path@, opt_view(parent), entries_view(children@)),
    {
        let (dirs, files) = partition(&children);
        let ghost blank = DirView {
            path: Seq::<char>::empty(),
            dir_path: dir_path@,
            parent: None,
            dirs: Seq::<EntryView>::empty(),
            files: Seq::<EntryView>::empty(),
            selection: 0,
        };
        proof {
            assert(entries_view(children@).len() == children.len());
            lemma_listed_valid(
                blank,
                dir_path@,
                opt_view(parent),
                entries_view(children@),
            );
        }
        Dir { path: String::new(), dir_path, parent, dirs, files, cursor: Cursor { x: 0, y: 0 } }
    }

    /// Lists `children` at `dir_path` and puts the selection on the parent
    /// entry. The path of the file being edited stays.
    pub fn set(&mut self, dir_path: String, parent: Option<String>, children: Vec<Entry>)
        ensures
            final(self)@ == old(self)@.listed(
                dir_path@,
                opt_view(parent),
                entries_view(children@),
            ),
            final(self)@.valid(),
    {
        let (dirs, files) = partition(&children);
        proof {
            assert(entries_view(children@).len() == children.len());
            lemma_listed_valid(
                self@,
                dir_path@,
                opt_view(parent),
                entries_view(children@),
            );
        }
        let path = self.path.clone();
        *self = Dir { path, dir_path, parent, dirs, files, cursor: Cursor { x: 0, y: 0 } };
    }

    /// Records `path` as the path of the file being edited.
    pub fn set_path(&mut self, path: String)
        ensures
            final(self)@ == (DirView { path: path@, ..old(self)@ }),
            final(self)@.valid(),
    {
        proof {
            use_type_invariant(&*self);
        }
        self.path = path;
    }

    /// The path of the file being edited; empty while there is none.
    pub fn path(&self) -> (p: &String)
        ensures
            p@ == self@.path,
    {
        &self.path
    }

    /// The path of the directory that is listed.
    pub fn dir_path(&self) -> (p: &String)
        ensures
            p@ == self@.dir_path,
    {
        &self.dir_path
    }

    /// The selected entry of the combined listing: zero is the parent entry.
    pub fn selection(&self) -> (s: usize)
        ensures
            s == self@.selection,
            s <= self@.count(),
    {
        proof {
            use_type_invariant(self);
        }
        self.cursor.y
    }

    /// The number of subdirectories.
    pub fn dir_count(&self) -> (n: usize)
        ensures
            n == self@.dirs.len(),
    {
        self.dirs.len()
    }

    /// The number of files.
    pub fn file_count(&self) -> (n: usize)
        ensures
            n == self@.files.len(),
    {
        self.files.len()
    }

    /// Moves the selection one entry up, unless it is on the parent entry.
    pub fn up(&mut self)
        ensures
            final(self)@ == old(self)@.up(),
            final(self)@.valid(),
    {
        proof {
            use_type_invariant(&*self);
        }
        if 0 < self.cursor.y {
            self.cursor = Cursor { x: self.cursor.x, y: self.cursor.y - 1 };
        }
    }

    /// Moves the selection one entry down, unless it is on the last entry.
    pub fn down(&mut self)
        ensures
            final(self)@ == old(self)@.down(),
            final(self)@.valid(),
    {
        proof {
            use_type_invariant(&*self);
        }
        let dirs = self.dirs.len();
        let files = self.files.len();
        if self.cursor.y < dirs || self.cursor.y - dirs < files {
            self.cursor = Cursor { x: self.cursor.x, y: self.cursor.y + 1 };
        }
    }

    /// What the selection stands for: the parent directory for selection
    /// zero, the subdirectory for a selection among the subdirectories, and
    /// the file otherwise.
    pub fn selected(&self) -> (s: Selected)
        ensures
            s@ == self@.selected(),
    {
        proof {
            use_type_invariant(self);
        }
        let y = self.cursor.y;
        let l = self.dirs.len();
        if y == 0 {
            match &self.parent {
                Some(p) => Selected::Parent(p.clone()),
                None => Selected::Stay,
            }
        } else if y - 1 < l {
            Selected::Directory(self.dirs[y - 1].path.clone())
        } else {
            Selected::File(self.files[y - 1 - l].path.clone())
        }
    }

    /// The rows to draw for the listing, from the top.
    pub fn output(&self, show_cursor: bool) -> (rows: Vec<DirRow>)
        ensures
            dir_rows_view(rows@) == dir_rows(self@, show_cursor),
    {
        proof {
            use_type_invariant(self);
        }
        let y = self.cursor.y;
        let mut rows: Vec<DirRow> = Vec::new();
        let mut dots = String::new();
        dots.push('.');
        dots.push('.');
        proof {
            assert(dots@ =~= seq!['.', '.']);
        }
        rows.push(DirRow { name: dots, is_dir: true, underline: show_cursor && y == 0 });
        let ghost want = dir_rows(self@, show_cursor);
        let mut i: usize = 0;
        while i < self.dirs.len()
            invariant
                i <= self.dirs.len(),
                self@.valid(),
                y == self.cursor.y,
                want == dir_rows(self@, show_cursor),
                dir_rows_view(rows@) == want.take(i + 1),
            decreases self.dirs.len() - i,
        {
            let row = DirRow {
                name: self.dirs[i].name.clone(),
                is_dir: true,
                underline: show_cursor && y == i + 1,
            };
            proof {
                assert(want.take(i + 2) =~= want.take(i + 1).push(want[i + 1]));
            }
            rows.push(row);
            i += 1;
        }
        let n = self.dirs.len();
        let mut k: usize = 0;
        while k < self.files.len()
            invariant
                k <= self.files.len(),
                n == self.dirs.len(),
                self@.valid(),
                y == self.cursor.y,
                want == dir_rows(self@, show_cursor),
                dir_rows_view(rows@) == want.take(n + k + 1),
            decreases self.files.len() - k,
        {
            let row = DirRow {
                name: self.files[k].name.clone(),
                is_dir: false,
                underline: show_cursor && y > n && y - n == k + 1,
            };
            proof {
                assert(want.take(n + k + 2) =~= want.take(n + k + 1).push(want[n + k + 1]));
            }
            rows.push(row);
            k += 1;
        }
        rows
    }
}

} // verus!
