//! The recursive archive codec: packaging a directory tree into an
//! in-memory zip container and reading a container back into entries.
//!
//! The tree to package is handed in as a flat, walk-ordered list of entries
//! with `/`-separated paths relative to the walk root (parents before
//! children).  The encoder skips the entry that is the destination archive
//! itself, writes an explicit directory entry for every directory, stores
//! files deflate-compressed under fixed `0o755` permission bits, and fails
//! with a path-encoding error when an included entry's name could not be
//! decoded as text.  The byte-level zip layout is delegated to the `zip`
//! crate behind trusted wrappers; everything else is verified.

use vstd::prelude::*;

use crate::error::Error;
use crate::text::{final_component, last_component, str_eq};

verus! {

/// The abstract content of one archive entry: its stored name and its
/// (uncompressed) data.  A name with a trailing `/` denotes a directory.
#[verifier::ext_equal]
pub struct EntryV {
    pub name: Seq<char>,
    pub data: Seq<u8>,
}

/// One entry read back from an archive: the stored name, the inflated
/// content, and the unix mode recorded in the entry's attributes, if any.
#[derive(Debug, Clone)]
pub struct ArchiveEntry {
    pub name: String,
    pub data: Vec<u8>,
    pub mode: Option<u32>,
}

impl View for ArchiveEntry {
    type V = EntryV;

    open spec fn view(&self) -> EntryV {
        EntryV { name: self.name@, data: self.data@ }
    }
}

pub open spec fn entries_view(v: Seq<ArchiveEntry>) -> Seq<EntryV> {
    v.map_values(|e: ArchiveEntry| e@)
}

/// The bytes of the zip container holding exactly `entries`, in order, as
/// produced by the archive backend.
pub uninterp spec fn zip_bytes_of(entries: Seq<EntryV>) -> Seq<u8>;

/// An open archive writer over an in-memory buffer.  The backend writer's
/// generic parameter carries trait bounds Verus cannot declare, so the
/// writer is held in an opaque struct instead of a declared outside type.
#[verifier::external_body]
pub struct ArchiveWriter {
    inner: zip::ZipWriter<std::io::Cursor<Vec<u8>>>,
}

/// The entries written to an open archive writer so far, in order.
pub uninterp spec fn zip_written(w: ArchiveWriter) -> Seq<EntryV>;

/// The entries stored in an opened archive, in stored order.
pub uninterp spec fn zip_archive_entries(a: zip::ZipArchive<std::io::Cursor<Vec<u8>>>) -> Seq<
    EntryV,
>;

#[verifier::external_type_specification]
#[verifier::external_body]
#[verifier::reject_recursive_types(T)]
pub struct ExCursor<T>(std::io::Cursor<T>);

#[verifier::external_type_specification]
#[verifier::external_body]
#[verifier::reject_recursive_types(R)]
pub struct ExZipArchive<R>(zip::ZipArchive<R>);

/// Relies on `zip::ZipWriter::new`: a writer over a fresh in-memory buffer
/// holds no entries.
#[verifier::external_body]
fn zip_writer_new() -> (w: ArchiveWriter)
    ensures
        zip_written(w) == Seq::<EntryV>::empty(),
{
    ArchiveWriter { inner: zip::ZipWriter::new(std::io::Cursor::new(Vec::new())) }
}

/// Relies on `zip::ZipWriter::start_file` and the writer's `Write` impl:
/// they append one entry, stored under the given name (which must be fresh
/// and must not denote a directory), deflate-compressed, with unix
/// permission bits fixed at `0o755`, holding exactly `data`.
#[verifier::external_body]
fn zip_add_file(w: &mut ArchiveWriter, name: &String, data: &Vec<u8>) -> (r: Result<
    (),
    Error,
>)
    requires
        name@.len() > 0,
        name@.last() != '/',
        name@.last() != '\\',
        forall|k: int|
            0 <= k < zip_written(*old(w)).len() ==> (#[trigger] zip_written(*old(w))[k]).name
                != name@,
    ensures
        r is Ok ==> zip_written(*final(w)) == zip_written(*old(w)).push(
            EntryV { name: name@, data: data@ },
        ),
        r is Err ==> r->Err_0 == Error::Filesystem,
{
    let opts = zip::write::SimpleFileOptions::default().compression_method(
        zip::CompressionMethod::Deflated,
    ).unix_permissions(0o755);
    if w.inner.start_file(name.as_str(), opts).is_err() {
        return Err(Error::Filesystem);
    }
    if std::io::Write::write_all(&mut w.inner, data.as_slice()).is_err() {
        return Err(Error::Filesystem);
    }
    Ok(())
}

/// Relies on `zip::ZipWriter::add_directory`: it appends one contentless
/// entry stored under the given name with a `/` appended (the name itself
/// must not already end in a separator); the backend stores directory
/// entries uncompressed with the directory flag set.
#[verifier::external_body]
fn zip_add_dir(w: &mut ArchiveWriter, name: &String) -> (r: Result<
    (),
    Error,
>)
    requires
        name@.len() > 0,
        name@.last() != '/',
        name@.last() != '\\',
        forall|k: int|
            0 <= k < zip_written(*old(w)).len() ==> (#[trigger] zip_written(*old(w))[k]).name
                != name@ + seq!['/'],
    ensures
        r is Ok ==> zip_written(*final(w)) == zip_written(*old(w)).push(
            EntryV { name: name@ + seq!['/'], data: Seq::<u8>::empty() },
        ),
        r is Err ==> r->Err_0 == Error::Filesystem,
{
    let opts = zip::write::SimpleFileOptions::default().compression_method(
        zip::CompressionMethod::Deflated,
    ).unix_permissions(0o755);
    if w.inner.add_directory(name.as_str(), opts).is_err() {
        return Err(Error::Filesystem);
    }
    Ok(())
}

/// Relies on `zip::ZipWriter::finish`: the returned buffer is the byte
/// encoding of exactly the entries written, in order.
#[verifier::external_body]
fn zip_finish(w: ArchiveWriter) -> (r: Result<Vec<u8>, Error>)
    ensures
        r is Ok ==> r->Ok_0@ == zip_bytes_of(zip_written(w)),
        r is Err ==> r->Err_0 == Error::Filesystem,
{
    match w.inner.finish() {
        Ok(cursor) => Ok(cursor.into_inner()),
        Err(_) => Err(Error::Filesystem),
    }
}

/// Relies on `zip::ZipArchive::new`: opening bytes that the writer
/// produced succeeds and yields exactly the entries that were written, in
/// order.
#[verifier::external_body]
fn zip_open(bytes: &Vec<u8>) -> (r: Result<zip::ZipArchive<std::io::Cursor<Vec<u8>>>, Error>)
    ensures
        forall|es: Seq<EntryV>|
            bytes@ == #[trigger] zip_bytes_of(es) ==> r is Ok && zip_archive_entries(r->Ok_0)
                == es,
        r is Err ==> r->Err_0 == Error::Filesystem,
{
    match zip::ZipArchive::new(std::io::Cursor::new(bytes.clone())) {
        Ok(a) => Ok(a),
        Err(_) => Err(Error::Filesystem),
    }
}

/// Relies on `zip::ZipArchive::len`: the number of stored entries.
#[verifier::external_body]
fn zip_len(a: &zip::ZipArchive<std::io::Cursor<Vec<u8>>>) -> (r: usize)
    ensures
        r as int == zip_archive_entries(*a).len(),
{
    a.len()
}

/// Relies on `zip::ZipArchive::by_index`, the entry's `Read` impl and
/// `unix_mode` accessor: the entry at `i` is returned with its stored name
/// and inflated content; reading does not change the archive's contents.
/// The recorded unix mode is whatever the entry's attributes hold.
#[verifier::external_body]
fn zip_entry_at(a: &mut zip::ZipArchive<std::io::Cursor<Vec<u8>>>, i: usize) -> (r: Result<
    ArchiveEntry,
    Error,
>)
    requires
        i < zip_archive_entries(*old(a)).len(),
    ensures
        zip_archive_entries(*final(a)) == zip_archive_entries(*old(a)),
        r is Ok ==> r->Ok_0@ == zip_archive_entries(*old(a))[i as int],
        r is Err ==> r->Err_0 == Error::Filesystem,
{
    let mut f = match a.by_index(i) {
        Ok(f) => f,
        Err(_) => return Err(Error::Filesystem),
    };
    let name = f.name().to_string();
    let mode = f.unix_mode();
    let mut data = Vec::new();
    if std::io::Read::read_to_end(&mut f, &mut data).is_err() {
        return Err(Error::Filesystem);
    }
    Ok(ArchiveEntry { name, data, mode })
}

/// One entry of a directory tree handed to the encoder: a `/`-separated
/// path relative to the walk root, whether it is a directory, whether the
/// OS path decoded to text, and the file content (empty for directories).
#[derive(Debug, Clone)]
pub struct FsEntry {
    pub rel_path: String,
    pub is_dir: bool,
    pub path_ok: bool,
    pub data: Vec<u8>,
}

/// The abstract value of one tree entry.
#[verifier::ext_equal]
pub struct FsEntryV {
    pub rel_path: Seq<char>,
    pub is_dir: bool,
    pub path_ok: bool,
    pub data: Seq<u8>,
}

impl View for FsEntry {
    type V = FsEntryV;

    open spec fn view(&self) -> FsEntryV {
        FsEntryV {
            rel_path: self.rel_path@,
            is_dir: self.is_dir,
            path_ok: self.path_ok,
            data: self.data@,
        }
    }
}

pub open spec fn tree_view(t: Seq<FsEntry>) -> Seq<FsEntryV> {
    t.map_values(|e: FsEntry| e@)
}

/// A relative path with no `'/'` at all sits directly in the walk root.
pub open spec fn top_level(p: Seq<char>) -> bool {
    forall|k: int| 0 <= k < p.len() ==> p[k] != '/'
}

/// A name is safe when it is non-empty, relative, and never walks upward.
pub open spec fn safe_name(s: Seq<char>) -> bool {
    &&& s.len() > 0
    &&& s[0] != '/'
    &&& !has_dotdot(s)
}

/// A full path component `".."` sits at position `i`.
pub open spec fn dotdot_at(s: Seq<char>, i: int) -> bool {
    0 <= i && i + 2 <= s.len() && s[i] == '.' && s[i + 1] == '.' && (i == 0 || s[i - 1] == '/') && (
    i + 2 == s.len() || s[i + 2] == '/')
}

/// Some full path component of `s` is `".."`.
pub open spec fn has_dotdot(s: Seq<char>) -> bool {
    exists|i: int| #[trigger] dotdot_at(s, i)
}

/// A well-formed tree: every path is safe, has no trailing separator, is
/// distinct from every other, and directories carry no data.
pub open spec fn tree_wf(t: Seq<FsEntryV>) -> bool {
    &&& forall|i: int|
        0 <= i < t.len() ==> safe_name((#[trigger] t[i]).rel_path) && t[i].rel_path.last() != '/'
            && t[i].rel_path.last() != '\\' && (t[i].is_dir ==> t[i].data.len() == 0)
    &&& forall|i: int, j: int|
        0 <= i < j < t.len() ==> (#[trigger] t[i]).rel_path != (#[trigger] t[j]).rel_path
}

/// Whether an entry is packaged: the destination archive itself is always
/// skipped, and a non-recursive walk keeps only top-level entries.
pub open spec fn included(e: FsEntryV, dest: Option<Seq<char>>, recursive: bool) -> bool {
    &&& match dest {
        Option::Some(d) => e.rel_path != d,
        Option::None => true,
    }
    &&& (recursive || top_level(e.rel_path))
}

/// The archive entry an included tree entry becomes.
pub open spec fn entry_of(e: FsEntryV) -> EntryV {
    if e.is_dir {
        EntryV { name: e.rel_path + seq!['/'], data: Seq::<u8>::empty() }
    } else {
        EntryV { name: e.rel_path, data: e.data }
    }
}

/// The archive entries a tree is packaged into, in walk order.
pub open spec fn archive_entries_of(
    t: Seq<FsEntryV>,
    dest: Option<Seq<char>>,
    recursive: bool,
) -> Seq<EntryV>
    decreases t.len(),
{
    if t.len() == 0 {
        Seq::<EntryV>::empty()
    } else {
        let rest = archive_entries_of(t.drop_last(), dest, recursive);
        if included(t.last(), dest, recursive) {
            rest.push(entry_of(t.last()))
        } else {
            rest
        }
    }
}

/// Some included entry's path failed to decode as text.
pub open spec fn has_bad_path(t: Seq<FsEntryV>, dest: Option<Seq<char>>, recursive: bool) -> bool {
    exists|i: int|
        0 <= i < t.len() && included(#[trigger] t[i], dest, recursive) && !t[i].path_ok
}

pub open spec fn dest_view(dest: Option<&str>) -> Option<Seq<char>> {
    match dest {
        Option::Some(d) => Option::Some(d@),
        Option::None => Option::None,
    }
}

/// No produced entry is stored under the name that a fresh tree entry
/// would take: path distinctness carries over to stored names.
proof fn lemma_written_names_fresh(
    t: Seq<FsEntryV>,
    dest: Option<Seq<char>>,
    recursive: bool,
    x: FsEntryV,
)
    requires
        forall|i: int|
            0 <= i < t.len() ==> (#[trigger] t[i]).rel_path.len() > 0 && t[i].rel_path.last()
                != '/' && t[i].rel_path != x.rel_path,
        x.rel_path.len() > 0,
        x.rel_path.last() != '/',
    ensures
        forall|k: int|
            0 <= k < archive_entries_of(t, dest, recursive).len() ==> (
            #[trigger] archive_entries_of(t, dest, recursive)[k]).name != entry_of(x).name,
    decreases t.len(),
{
    if t.len() > 0 {
        let prev = t.drop_last();
        assert(forall|i: int| 0 <= i < prev.len() ==> (#[trigger] prev[i]) == t[i]);
        lemma_written_names_fresh(prev, dest, recursive, x);
        lemma_entry_name_injective(t.last(), x);
        let es = archive_entries_of(t, dest, recursive);
        let rest = archive_entries_of(prev, dest, recursive);
        assert forall|k: int| 0 <= k < es.len() implies (#[trigger] es[k]).name != entry_of(
            x,
        ).name by {
            if k < rest.len() {
                assert(es[k] == rest[k]);
            }
        }
    }
}

/// Stored names are distinct for distinct well-formed tree entries.
proof fn lemma_entry_name_injective(a: FsEntryV, b: FsEntryV)
    requires
        a.rel_path.len() > 0,
        b.rel_path.len() > 0,
        a.rel_path.last() != '/',
        b.rel_path.last() != '/',
        a.rel_path != b.rel_path,
    ensures
        entry_of(a).name != entry_of(b).name,
{
    if a.is_dir && b.is_dir {
        if entry_of(a).name == entry_of(b).name {
            assert((a.rel_path + seq!['/']).drop_last() =~= a.rel_path);
            assert((b.rel_path + seq!['/']).drop_last() =~= b.rel_path);
        }
    } else if a.is_dir && !b.is_dir {
        assert(entry_of(a).name.last() == '/');
    } else if !a.is_dir && b.is_dir {
        assert(entry_of(b).name.last() == '/');
    }
}

/// Packages a directory tree into an in-memory zip container.
///
/// Walks the entries of `tree` in order.  An entry whose path equals
/// `dest` (the archive being produced) is skipped.  With `recursive` off,
/// only top-level entries are considered; directories still get their
/// explicit entry but their contents are left out.  A file entry is stored
/// deflate-compressed under its relative path; a directory entry is stored
/// with a trailing separator.  If any included entry's path failed to
/// decode as text, the whole operation aborts with
/// [`Error::PathEncoding`] and exactly then.
pub fn write_dir(tree: &Vec<FsEntry>, dest: Option<&str>, recursive: bool) -> (r: Result<
    Vec<u8>,
    Error,
>)
    requires
        tree_wf(tree_view(tree@)),
    ensures
        has_bad_path(tree_view(tree@), dest_view(dest), recursive) <==> (r is Err && r->Err_0
            == Error::PathEncoding),
        r is Ok ==> r->Ok_0@ == zip_bytes_of(
            archive_entries_of(tree_view(tree@), dest_view(dest), recursive),
        ),
        r is Err ==> r->Err_0 == Error::PathEncoding || r->Err_0 == Error::Filesystem,
{
    let ghost tv = tree_view(tree@);
    let ghost dv = dest_view(dest);
    let n = tree.len();

    // First pass: the whole operation fails on a non-decodable included
    // path, before anything is written.
    let mut i: usize = 0;
    while i < n
        invariant
            0 <= i <= n,
            n == tree@.len(),
            tv == tree_view(tree@),
            dv == dest_view(dest),
            forall|j: int| 0 <= j < i ==> !(included(#[trigger] tv[j], dv, recursive) && !tv[j].path_ok),
        decreases n - i,
    {
        let e = &tree[i];
        let keep = entry_included(e, dest, recursive);
        if keep && !e.path_ok {
            proof {
                assert(tv[i as int] == tree@[i as int]@);
                assert(included(tv[i as int], dv, recursive) && !tv[i as int].path_ok);
            }
            return Err(Error::PathEncoding);
        }
        i = i + 1;
    }

    let mut w = zip_writer_new();
    let mut i: usize = 0;
    while i < n
        invariant
            0 <= i <= n,
            n == tree@.len(),
            tv == tree_view(tree@),
            dv == dest_view(dest),
            tree_wf(tv),
            !has_bad_path(tv, dv, recursive),
            zip_written(w) == archive_entries_of(tv.subrange(0, i as int), dv, recursive),
        decreases n - i,
    {
        let e = &tree[i];
        let keep = entry_included(e, dest, recursive);
        proof {
            assert(tv[i as int] == tree@[i as int]@);
            assert(tv.subrange(0, i + 1 as int).drop_last() =~= tv.subrange(0, i as int));
            assert(tv.subrange(0, i + 1 as int).last() == tv[i as int]);
            let pre = tv.subrange(0, i as int);
            assert(forall|j: int| 0 <= j < pre.len() ==> (#[trigger] pre[j]) == tv[j]);
            lemma_written_names_fresh(pre, dv, recursive, tv[i as int]);
            assert(forall|k: int|
                0 <= k < zip_written(w).len() ==> (#[trigger] zip_written(w)[k]).name != entry_of(
                    tv[i as int],
                ).name);
        }
        if keep {
            if e.is_dir {
                match zip_add_dir(&mut w, &e.rel_path) {
                    Ok(()) => {},
                    Err(err) => {
                        return Err(err);
                    },
                }
                proof {
                    assert(entry_of(tv[i as int]) =~= EntryV {
                        name: tv[i as int].rel_path + seq!['/'],
                        data: Seq::<u8>::empty(),
                    });
                }
            } else {
                match zip_add_file(&mut w, &e.rel_path, &e.data) {
                    Ok(()) => {},
                    Err(err) => {
                        return Err(err);
                    },
                }
            }
        }
        i = i + 1;
    }
    proof {
        assert(tv.subrange(0, n as int) =~= tv);
    }
    zip_finish(w)
}

/// Whether this entry is packaged (see [`included`]).
fn entry_included(e: &FsEntry, dest: Option<&str>, recursive: bool) -> (r: bool)
    ensures
        r == included(e@, dest_view(dest), recursive),
{
    let not_dest = match dest {
        Some(d) => !str_eq(e.rel_path.as_str(), d),
        None => true,
    };
    if !not_dest {
        return false;
    }
    if recursive {
        return true;
    }
    is_top_level(e.rel_path.as_str())
}

/// Whether `p` holds no `'/'` at all.
fn is_top_level(p: &str) -> (r: bool)
    ensures
        r == top_level(p@),
{
    let n = p.unicode_len();
    let mut i: usize = 0;
    while i < n
        invariant
            0 <= i <= n,
            n == p@.len(),
            forall|k: int| 0 <= k < i ==> p@[k] != '/',
        decreases n - i,
    {
        if p.get_char(i) == '/' {
            return false;
        }
        i = i + 1;
    }
    true
}

/// Reads an archive back into its entries, in stored order.
///
/// Whenever reading succeeds on bytes the encoder produced, the result is
/// exactly the entries that were packaged, in order.
pub fn read_archive(bytes: &Vec<u8>) -> (r: Result<Vec<ArchiveEntry>, Error>)
    ensures
        r is Ok ==> forall|es: Seq<EntryV>|
            bytes@ == #[trigger] zip_bytes_of(es) ==> entries_view(r->Ok_0@) == es,
        r is Err ==> r->Err_0 == Error::Filesystem,
{
    let mut a = match zip_open(bytes) {
        Ok(a) => a,
        Err(err) => {
            return Err(err);
        },
    };
    let ghost stored = zip_archive_entries(a);
    let n = zip_len(&a);
    let mut out: Vec<ArchiveEntry> = Vec::new();
    let mut i: usize = 0;
    while i < n
        invariant
            0 <= i <= n,
            zip_archive_entries(a) == stored,
            n == stored.len(),
            entries_view(out@) =~= stored.subrange(0, i as int),
        decreases n - i,
    {
        let e = match zip_entry_at(&mut a, i) {
            Ok(e) => e,
            Err(err) => {
                return Err(err);
            },
        };
        proof {
            assert(entries_view(out@.push(e)) =~= entries_view(out@).push(e@));
            assert(stored.subrange(0, i + 1 as int) =~= stored.subrange(0, i as int).push(
                stored[i as int],
            ));
        }
        out.push(e);
        i = i + 1;
    }
    proof {
        assert(stored.subrange(0, n as int) =~= stored);
    }
    Ok(out)
}

/// One file-system action an extraction asks the shell to perform, with
/// paths relative to the extraction root.
#[derive(Debug, Clone)]
pub struct ExtractOp {
    pub make_dir: bool,
    pub path: String,
    pub data: Vec<u8>,
    pub mode: Option<u32>,
}

/// The abstract value of one extraction action.
#[verifier::ext_equal]
pub struct ExtractOpV {
    pub make_dir: bool,
    pub path: Seq<char>,
    pub data: Seq<u8>,
    pub mode: Option<u32>,
}

impl View for ExtractOp {
    type V = ExtractOpV;

    open spec fn view(&self) -> ExtractOpV {
        ExtractOpV {
            make_dir: self.make_dir,
            path: self.path@,
            data: self.data@,
            mode: self.mode,
        }
    }
}

pub open spec fn ops_view(v: Seq<ExtractOp>) -> Seq<ExtractOpV> {
    v.map_values(|o: ExtractOp| o@)
}

/// A stored name with a trailing separator denotes a directory.
pub open spec fn is_dir_name(s: Seq<char>) -> bool {
    s.len() > 0 && s.last() == '/'
}

/// The stored name without its trailing separator, if it has one.
pub open spec fn trim_slash(s: Seq<char>) -> Seq<char> {
    if is_dir_name(s) {
        s.drop_last()
    } else {
        s
    }
}

/// The flattening policy keeps a safe entry only when something is left
/// after discarding its directory part.
pub open spec fn flatten_keep(e: ArchiveEntry) -> bool {
    safe_name(e.name@) && final_component(trim_slash(e.name@)).len() > 0
}

/// Flattened extraction places an entry by its final path component only.
pub open spec fn flatten_op(e: ArchiveEntry) -> ExtractOpV {
    ExtractOpV {
        make_dir: is_dir_name(e.name@),
        path: final_component(trim_slash(e.name@)),
        data: e.data@,
        mode: e.mode,
    }
}

/// The actions of a flattened extraction, in stored order; unsafe names
/// are skipped.
pub open spec fn flatten_ops_spec(entries: Seq<ArchiveEntry>) -> Seq<ExtractOpV>
    decreases entries.len(),
{
    if entries.len() == 0 {
        Seq::<ExtractOpV>::empty()
    } else {
        let rest = flatten_ops_spec(entries.drop_last());
        if flatten_keep(entries.last()) {
            rest.push(flatten_op(entries.last()))
        } else {
            rest
        }
    }
}

/// Structure-preserving extraction keeps the whole relative path.
pub open spec fn preserve_op(e: ArchiveEntry) -> ExtractOpV {
    ExtractOpV {
        make_dir: is_dir_name(e.name@),
        path: trim_slash(e.name@),
        data: e.data@,
        mode: e.mode,
    }
}

/// The actions of a structure-preserving extraction, in stored order;
/// unsafe names are skipped.
pub open spec fn preserve_ops_spec(entries: Seq<ArchiveEntry>) -> Seq<ExtractOpV>
    decreases entries.len(),
{
    if entries.len() == 0 {
        Seq::<ExtractOpV>::empty()
    } else {
        let rest = preserve_ops_spec(entries.drop_last());
        if safe_name(entries.last().name@) {
            rest.push(preserve_op(entries.last()))
        } else {
            rest
        }
    }
}

/// Whether a stored name is safe to place under the extraction root.
pub fn safe_name_check(s: &str) -> (r: bool)
    ensures
        r == safe_name(s@),
{
    let n = s.unicode_len();
    if n == 0 {
        return false;
    }
    if s.get_char(0) == '/' {
        return false;
    }
    if n >= 2 {
        let mut i: usize = 0;
        while i <= n - 2
            invariant
                0 <= i,
                i <= n,
                n >= 2,
                n == s@.len(),
                forall|j: int| 0 <= j < i ==> !dotdot_at(s@, j),
            decreases n - i,
        {
            if s.get_char(i) == '.' && s.get_char(i + 1) == '.' && (i == 0 || s.get_char(i - 1)
                == '/') && (i + 2 == n || s.get_char(i + 2) == '/') {
                assert(dotdot_at(s@, i as int));
                return false;
            }
            i = i + 1;
        }
    }
    proof {
        assert(forall|j: int| !dotdot_at(s@, j));
    }
    true
}

/// Whether a stored name denotes a directory.
fn is_dir_name_exec(s: &str) -> (r: bool)
    ensures
        r == is_dir_name(s@),
{
    let n = s.unicode_len();
    n > 0 && s.get_char(n - 1) == '/'
}

/// Returns the name without its trailing separator, if it has one.
fn trim_slash_exec(s: &str) -> (r: String)
    ensures
        r@ == trim_slash(s@),
{
    let n = s.unicode_len();
    if is_dir_name_exec(s) {
        let t = s.substring_char(0, n - 1);
        proof {
            assert(s@.subrange(0, n - 1 as int) =~= s@.drop_last());
        }
        t.to_owned()
    } else {
        s.to_owned()
    }
}

/// Derives the flattened extraction actions for the entries of a
/// downloaded archive: directory entries become directories, file entries
/// are placed by their final path component only, and each entry carries
/// the unix mode recorded for it.  Entries with unsafe names, and entries
/// with nothing left after flattening, are skipped.
pub fn extract_flatten(entries: &Vec<ArchiveEntry>) -> (r: Vec<ExtractOp>)
    ensures
        ops_view(r@) == flatten_ops_spec(entries@),
{
    let n = entries.len();
    let mut out: Vec<ExtractOp> = Vec::new();
    let mut i: usize = 0;
    while i < n
        invariant
            0 <= i <= n,
            n == entries@.len(),
            ops_view(out@) =~= flatten_ops_spec(entries@.subrange(0, i as int)),
        decreases n - i,
    {
        let e = &entries[i];
        proof {
            assert(entries@.subrange(0, i + 1 as int).drop_last() =~= entries@.subrange(
                0,
                i as int,
            ));
            assert(entries@.subrange(0, i + 1 as int).last() == entries@[i as int]);
        }
        if safe_name_check(e.name.as_str()) {
            let trimmed = trim_slash_exec(e.name.as_str());
            let flat = last_component(trimmed.as_str());
            if flat.unicode_len() > 0 {
                let op = ExtractOp {
                    make_dir: is_dir_name_exec(e.name.as_str()),
                    path: flat,
                    data: e.data.clone(),
                    mode: e.mode,
                };
                proof {
                    assert(ops_view(out@.push(op)) =~= ops_view(out@).push(op@));
                    assert(op@ =~= flatten_op(entries@[i as int]));
                }
                out.push(op);
            }
        }
        i = i + 1;
    }
    proof {
        assert(entries@.subrange(0, n as int) =~= entries@);
    }
    out
}

/// Derives the structure-preserving extraction actions for the entries of
/// an archive: each entry keeps its whole relative path.  Entries with
/// unsafe names are skipped.
pub fn extract_preserve(entries: &Vec<ArchiveEntry>) -> (r: Vec<ExtractOp>)
    ensures
        ops_view(r@) == preserve_ops_spec(entries@),
{
    let n = entries.len();
    let mut out: Vec<ExtractOp> = Vec::new();
    let mut i: usize = 0;
    while i < n
        invariant
            0 <= i <= n,
            n == entries@.len(),
            ops_view(out@) =~= preserve_ops_spec(entries@.subrange(0, i as int)),
        decreases n - i,
    {
        let e = &entries[i];
        proof {
            assert(entries@.subrange(0, i + 1 as int).drop_last() =~= entries@.subrange(
                0,
                i as int,
            ));
            assert(entries@.subrange(0, i + 1 as int).last() == entries@[i as int]);
        }
        if safe_name_check(e.name.as_str()) {
            let op = ExtractOp {
                make_dir: is_dir_name_exec(e.name.as_str()),
                path: trim_slash_exec(e.name.as_str()),
                data: e.data.clone(),
                mode: e.mode,
            };
            proof {
                assert(ops_view(out@.push(op)) =~= ops_view(out@).push(op@));
                assert(op@ =~= preserve_op(entries@[i as int]));
            }
            out.push(op);
        }
        i = i + 1;
    }
    proof {
        assert(entries@.subrange(0, n as int) =~= entries@);
    }
    out
}

/// The relative path and content of every file entry of a tree, in order.
pub open spec fn tree_files(t: Seq<FsEntryV>) -> Seq<(Seq<char>, Seq<u8>)>
    decreases t.len(),
{
    if t.len() == 0 {
        Seq::<(Seq<char>, Seq<u8>)>::empty()
    } else {
        let rest = tree_files(t.drop_last());
        if !t.last().is_dir {
            rest.push((t.last().rel_path, t.last().data))
        } else {
            rest
        }
    }
}

/// The path and content of every file-writing extraction action, in order.
pub open spec fn file_ops(ops: Seq<ExtractOpV>) -> Seq<(Seq<char>, Seq<u8>)>
    decreases ops.len(),
{
    if ops.len() == 0 {
        Seq::<(Seq<char>, Seq<u8>)>::empty()
    } else {
        let rest = file_ops(ops.drop_last());
        if !ops.last().make_dir {
            rest.push((ops.last().path, ops.last().data))
        } else {
            rest
        }
    }
}

/// Appending the directory separator keeps a safe name safe.
proof fn lemma_safe_name_slash(p: Seq<char>)
    requires
        safe_name(p),
        p.last() != '/',
    ensures
        safe_name(p + seq!['/']),
{
    let s = p + seq!['/'];
    assert forall|i: int| !dotdot_at(s, i) by {
        if dotdot_at(s, i) {
            if i + 2 == s.len() {
                assert(s[i + 1] == '/');
            } else {
                assert(dotdot_at(p, i));
            }
        }
    }
}

/// Packaging a directory that already contains the destination archive
/// never includes that archive as an entry of itself: no produced entry is
/// stored under the destination's name, whatever the tree holds.
pub proof fn lemma_archive_excludes_destination(t: Seq<FsEntryV>, d: Seq<char>, recursive: bool)
    requires
        tree_wf(t),
        d.len() == 0 || d.last() != '/',
    ensures
        forall|k: int|
            0 <= k < archive_entries_of(t, Option::Some(d), recursive).len() ==> (
            #[trigger] archive_entries_of(t, Option::Some(d), recursive)[k]).name != d,
    decreases t.len(),
{
    if t.len() > 0 {
        let prev = t.drop_last();
        assert(forall|i: int| 0 <= i < prev.len() ==> (#[trigger] prev[i]) == t[i]);
        lemma_archive_excludes_destination(prev, d, recursive);
        let es = archive_entries_of(t, Option::Some(d), recursive);
        let rest = archive_entries_of(prev, Option::Some(d), recursive);
        if included(t.last(), Option::Some(d), recursive) && t.last().is_dir {
            assert(entry_of(t.last()).name.last() == '/');
        }
        assert forall|k: int| 0 <= k < es.len() implies (#[trigger] es[k]).name != d by {
            if k < rest.len() {
                assert(es[k] == rest[k]);
            }
        }
    }
}

/// The content round trip: packaging a tree that does not contain the
/// destination archive and extracting the result structure-preservingly
/// reproduces exactly the tree's file entries, with the same relative
/// paths and the same bytes, in walk order.  `got` stands for what
/// [`read_archive`] returned for the produced container.
pub proof fn lemma_extract_write_roundtrip(
    t: Seq<FsEntryV>,
    dest: Option<Seq<char>>,
    got: Seq<ArchiveEntry>,
)
    requires
        tree_wf(t),
        match dest {
            Option::Some(d) => forall|i: int| 0 <= i < t.len() ==> (#[trigger] t[i]).rel_path != d,
            Option::None => true,
        },
        entries_view(got) == archive_entries_of(t, dest, true),
    ensures
        file_ops(preserve_ops_spec(got)) == tree_files(t),
    decreases t.len(),
{
    assert(got.len() == entries_view(got).len());
    if t.len() == 0 {
        assert(got.len() == 0);
        assert(preserve_ops_spec(got) =~= Seq::<ExtractOpV>::empty());
    } else {
        let prev = t.drop_last();
        assert(included(t.last(), dest, true));
        assert(archive_entries_of(t, dest, true) == archive_entries_of(prev, dest, true).push(
            entry_of(t.last()),
        ));
        assert(got.len() >= 1);
        let gprev = got.drop_last();
        assert(entries_view(gprev) =~= entries_view(got).drop_last());
        assert(entries_view(gprev) =~= archive_entries_of(prev, dest, true));
        assert(forall|i: int| 0 <= i < prev.len() ==> (#[trigger] prev[i]) == t[i]);
        lemma_extract_write_roundtrip(prev, dest, gprev);
        let e = got.last();
        assert(entries_view(got)[got.len() - 1] == got[got.len() - 1]@);
        assert(e@ == entry_of(t.last()));
        assert(got.drop_last() == gprev && got.last() == e);
        if t.last().is_dir {
            lemma_safe_name_slash(t.last().rel_path);
            assert(e.name@ == t.last().rel_path + seq!['/']);
            assert(safe_name(e.name@));
            let ops = preserve_ops_spec(gprev).push(preserve_op(e));
            assert(preserve_ops_spec(got) =~= ops);
            assert(ops.drop_last() =~= preserve_ops_spec(gprev));
            assert(ops.last() == preserve_op(e));
            assert(preserve_op(e).make_dir);
            assert(file_ops(ops) =~= file_ops(preserve_ops_spec(gprev)));
            assert(tree_files(t) =~= tree_files(prev));
        } else {
            assert(e.name@ == t.last().rel_path);
            assert(safe_name(e.name@));
            assert(!is_dir_name(e.name@));
            assert(preserve_op(e).path == t.last().rel_path);
            assert(preserve_op(e).data == t.last().data);
            let ops = preserve_ops_spec(gprev).push(preserve_op(e));
            assert(preserve_ops_spec(got) =~= ops);
            assert(ops.drop_last() =~= preserve_ops_spec(gprev));
            assert(ops.last() == preserve_op(e));
            assert(file_ops(ops) =~= file_ops(preserve_ops_spec(gprev)).push(
                (t.last().rel_path, t.last().data),
            ));
            assert(tree_files(t) =~= tree_files(prev).push((t.last().rel_path, t.last().data)));
        }
    }
}


} // verus!
