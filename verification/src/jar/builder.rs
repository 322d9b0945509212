//! Fluent `JarBuilder`.
use vstd::prelude::*;
use crate::jar::error::Result;
use crate::jar::manifest::{dotted, manifest_bytes, set_spec, Manifest};
use crate::jar::crc32::crc32_spec;
use crate::jar::zip::{
    fault_is, finish_spec, lemma_archive_layout, lemma_write_appends, local_header, write_all, write_spec, EntryView, ZipFault,
    ZipWriter,
};
use vstd::utf8::encode_utf8;

verus! {

/// Path of the manifest entry that the JAR specification fixes.
pub const MANIFEST_PATH: &'static str = "META-INF/MANIFEST.MF";

#[derive(Debug, Clone)]
struct FileEntry {
    name: String,
    data: Vec<u8>,
}

/// High-level builder for JAR archives: a manifest and the file entries.
/// `build` writes the manifest first so that `JarInputStream` finds it
/// without scanning.
#[derive(Debug)]
pub struct JarBuilder {
    manifest: Manifest,
    entries: Vec<FileEntry>,
}


/// The archive of a manifest and files: the manifest entry, then each
/// file in order, then the central directory and the end record.
pub open spec fn jar_spec(manifest: Seq<(Seq<char>, Seq<char>)>, files: Seq<(Seq<char>, Seq<u8>)>) -> core::result::Result<Seq<u8>, ZipFault> {
    let all = seq![("META-INF/MANIFEST.MF"@, manifest_bytes(manifest))] + files;
    match write_all((Seq::empty(), Seq::empty()), all) {
        Err(f) => Err(f),
        Ok(w) => finish_spec(w),
    }
}

impl Clone for JarBuilder {
    /// A builder with the same manifest and the same files.
    fn clone(&self) -> (b: Self)
        ensures
            b.manifest_view() == self.manifest_view(),
            b.files() == self.files(),
    {
        let mut entries: Vec<FileEntry> = Vec::new();
        let mut i: usize = 0;
        while i < self.entries.len()
            invariant
                i <= self.entries@.len(),
                entries@.len() == i,
                forall|k: int| 0 <= k < i ==> (#[trigger] entries@[k]).name@ == self.entries@[k].name@ && entries@[k].data@ == self.entries@[k].data@,
            decreases self.entries@.len() - i,
        {
            entries.push(FileEntry { name: self.entries[i].name.clone(), data: self.entries[i].data.clone() });
            i += 1;
        }
        let b = JarBuilder { manifest: self.manifest.clone(), entries };
        assert(entry_files(b.entries@) =~= entry_files(self.entries@));
        b
    }
}

impl Default for JarBuilder {
    /// The builder of `new`.
    fn default() -> (b: Self)
        ensures
            b.manifest_view() == seq![("Manifest-Version"@, "1.0"@)],
            b.files().len() == 0,
    {
        Self::new()
    }
}

impl JarBuilder {
    pub closed spec fn manifest_view(&self) -> Seq<(Seq<char>, Seq<char>)> {
        self.manifest@
    }

    /// The files to store, with their archive names.
    pub closed spec fn files(&self) -> Seq<(Seq<char>, Seq<u8>)> {
        entry_files(self.entries@)
    }

    pub fn new() -> (b: Self)
        ensures
            b.manifest_view() == seq![("Manifest-Version"@, "1.0"@)],
            b.files().len() == 0,
    {
        let b = JarBuilder { manifest: Manifest::new(), entries: Vec::new() };
        assert(entry_files(b.entries@) =~= Seq::<(Seq<char>, Seq<u8>)>::empty());
        b
    }

    /// Replace the manifest in its entirety.
    pub fn manifest(self, manifest: Manifest) -> (b: Self)
        ensures
            b.manifest_view() == manifest@,
            b.files() == self.files(),
    {
        JarBuilder { manifest, entries: self.entries }
    }

    /// Shorthand for `.manifest(Manifest::new().main_class(name))`: the
    /// manifest is replaced by a fresh one whose `Main-Class` is `name`,
    /// slashes becoming dots.
    pub fn main_class(self, name: &str) -> (b: Self)
        ensures
            b.manifest_view() == set_spec(seq![("Manifest-Version"@, "1.0"@)], "Main-Class"@, dotted(name@)),
            b.files() == self.files(),
    {
        self.manifest(Manifest::new().main_class(name))
    }

    /// Set a main attribute of the manifest (overwriting an earlier value
    /// of the same attribute).
    pub fn manifest_attribute(self, name: &str, value: &str) -> (b: Self)
        ensures
            b.manifest_view() == set_spec(self.manifest_view(), name@, value@),
            b.files() == self.files(),
    {
        let mut b = self;
        b.manifest.set_attribute(name, value);
        b
    }

    /// Add one file at a forward-slash separated archive path. Names that
    /// would escape the archive root are refused by `build`.
    pub fn file(self, name: &str, data: Vec<u8>) -> (b: Self)
        ensures
            b.manifest_view() == self.manifest_view(),
            b.files() == self.files().push((name@, data@)),
    {
        let mut b = self;
        let ghost before = b.entries@;
        b.entries.push(FileEntry { name: name.to_owned(), data });
        assert(entry_files(b.entries@) =~= entry_files(before).push((name@, data@)));
        b
    }

    /// Build the JAR into bytes.
    pub fn build(self) -> (r: Result<Vec<u8>>)
        ensures
            match jar_spec(self.manifest_view(), self.files()) {
                Ok(bytes) => r matches Ok(v) && v@ == bytes,
                Err(f) => r matches Err(e) && fault_is(e, f),
            },
    {
        let mbytes = self.manifest.to_bytes();
        let mut zip = ZipWriter::with_capacity(capacity_hint(mbytes.len(), &self.entries));
        let ghost empty: (Seq<u8>, Seq<EntryView>) = (Seq::empty(), Seq::empty());
        let ghost head = ("META-INF/MANIFEST.MF"@, mbytes@);
        proof {
            assert(zip@ == empty);
            assert(MANIFEST_PATH@ == "META-INF/MANIFEST.MF"@);
            lemma_write_all_prepend(empty, head, self.files());
        }
        zip.write_stored(MANIFEST_PATH, mbytes.as_slice())?;
        write_entries(&mut zip, &self.entries)?;
        zip.finish()
    }
}

/// The archive files of the entries, with their names.
pub(crate) closed spec fn entry_files(es: Seq<FileEntry>) -> Seq<(Seq<char>, Seq<u8>)> {
    es.map_values(|e: FileEntry| (e.name@, e.data@))
}

/// Store each entry in order.
fn write_entries(zip: &mut ZipWriter, entries: &Vec<FileEntry>) -> (r: Result<()>)
    requires
        old(zip).wf(),
    ensures
        final(zip).wf(),
        match write_all(old(zip)@, entry_files(entries@)) {
            Ok(w) => r is Ok && final(zip)@ == w,
            Err(f) => r matches Err(e) && fault_is(e, f),
        },
{
    let ghost files = entry_files(entries@);
    let ghost w0 = zip@;
    let mut i: usize = 0;
    assert(files.take(0) =~= Seq::<(Seq<char>, Seq<u8>)>::empty());
    while i < entries.len()
        invariant
            i <= entries@.len(),
            files == entry_files(entries@),
            w0 == old(zip)@,
            zip.wf(),
            write_all(w0, files.take(i as int)) == Ok::<(Seq<u8>, Seq<EntryView>), ZipFault>(zip@),
        decreases entries@.len() - i,
    {
        proof {
            assert(files.take(i + 1).drop_last() =~= files.take(i as int));
            assert(files.take(i + 1).last() == files[i as int]);
        }
        let r = zip.write_stored(entries[i].name.as_str(), entries[i].data.as_slice());
        if let Err(e) = r {
            proof { lemma_write_all_err(w0, files, i + 1); }
            return Err(e);
        }
        i += 1;
    }
    assert(files.take(i as int) =~= files);
    Ok(())
}

/// Storing one file, then others, is storing them all in that order.
proof fn lemma_write_all_prepend(w: (Seq<u8>, Seq<EntryView>), first: (Seq<char>, Seq<u8>), rest: Seq<(Seq<char>, Seq<u8>)>)
    ensures
        write_all(w, seq![first] + rest) == match write_spec(w, first.0, first.1) {
            Err(f) => Err(f),
            Ok(w1) => write_all(w1, rest),
        },
    decreases rest.len(),
{
    let s = seq![first] + rest;
    if rest.len() == 0 {
        assert(s.drop_last() =~= Seq::<(Seq<char>, Seq<u8>)>::empty());
        assert(write_all(w, s.drop_last()) == Ok::<(Seq<u8>, Seq<EntryView>), ZipFault>(w));
        assert(s.last() == first);
        assert(rest =~= Seq::<(Seq<char>, Seq<u8>)>::empty());
    } else {
        lemma_write_all_prepend(w, first, rest.drop_last());
        assert(s.drop_last() =~= seq![first] + rest.drop_last());
        assert(s.last() == rest.last());
    }
}

/// The bytes that a hint reserves for `s`: each entry's data and 128 more.
spec fn entries_hint(s: Seq<FileEntry>) -> nat
    decreases s.len(),
{
    if s.len() == 0 {
        0
    } else {
        entries_hint(s.drop_last()) + s.last().data@.len() + 128
    }
}

/// `x`, or `usize::MAX` where `x` is larger.
spec fn saturated(x: int) -> int {
    if x > usize::MAX {
        usize::MAX as int
    } else {
        x
    }
}

/// Room for the manifest, the entries and their headers: a hint that
/// saturates rather than overflow.
fn capacity_hint(manifest_len: usize, entries: &Vec<FileEntry>) -> (r: usize)
    ensures
        r == saturated(manifest_len + 64 + entries_hint(entries@)),
{
    let mut total: usize = manifest_len.saturating_add(64);
    let mut i: usize = 0;
    assert(entries@.take(0) =~= Seq::<FileEntry>::empty());
    while i < entries.len()
        invariant
            i <= entries@.len(),
            total == saturated(manifest_len + 64 + entries_hint(entries@.take(i as int))),
        decreases entries@.len() - i,
    {
        assert(entries@.take(i as int + 1).drop_last() =~= entries@.take(i as int));
        total = total.saturating_add(entries[i].data.len().saturating_add(128));
        i += 1;
    }
    assert(entries@.take(entries@.len() as int) =~= entries@);
    total
}

proof fn lemma_write_all_err(w: (Seq<u8>, Seq<EntryView>), files: Seq<(Seq<char>, Seq<u8>)>, k: int)
    requires
        0 <= k <= files.len(),
        write_all(w, files.take(k)) is Err,
    ensures
        write_all(w, files) == write_all(w, files.take(k)),
    decreases files.len() - k,
{
    if k < files.len() {
        assert(files.take(k + 1).drop_last() =~= files.take(k));
        lemma_write_all_err(w, files, k + 1);
    } else {
        assert(files.take(k) =~= files);
    }
}

/// Storing files only appends to the bytes written so far.
proof fn lemma_write_all_prefix(w: (Seq<u8>, Seq<EntryView>), files: Seq<(Seq<char>, Seq<u8>)>)
    ensures
        write_all(w, files) matches Ok(w2) ==> w.0.len() <= w2.0.len() && w2.0.subrange(0, w.0.len() as int) == w.0,
    decreases files.len(),
{
    if files.len() > 0 {
        lemma_write_all_prefix(w, files.drop_last());
        if let Ok(w1) = write_all(w, files.drop_last()) {
            lemma_write_appends(w1, files.last().0, files.last().1);
            if let Ok(w2) = write_spec(w1, files.last().0, files.last().1) {
                assert(w2.0.subrange(0, w.0.len() as int) =~= w1.0.subrange(0, w.0.len() as int));
            }
        }
    }
}

/// The first file stored into an empty writer leads the finished archive:
/// the archive starts with its local header.
proof fn lemma_first_entry(first: (Seq<char>, Seq<u8>), files: Seq<(Seq<char>, Seq<u8>)>)
    ensures
        ({
            let empty: (Seq<u8>, Seq<EntryView>) = (Seq::empty(), Seq::empty());
            let nb = encode_utf8(first.0);
            match write_all(empty, seq![first] + files) {
                Ok(w) => finish_spec(w) matches Ok(b) ==> 30 + nb.len() <= b.len()
                    && b.subrange(0, 30 + nb.len() as int) == local_header(nb, crc32_spec(first.1), first.1.len() as u32),
                Err(_) => true,
            }
        }),
{
    let empty: (Seq<u8>, Seq<EntryView>) = (Seq::empty(), Seq::empty());
    let nb = encode_utf8(first.0);
    let k = 30 + nb.len() as int;
    lemma_write_all_prepend(empty, first, files);
    lemma_write_appends(empty, first.0, first.1);
    if let Ok(w1) = write_spec(empty, first.0, first.1) {
        lemma_write_all_prefix(w1, files);
        if let Ok(w2) = write_all(w1, files) {
            lemma_archive_layout(w2);
            if let Ok(b) = finish_spec(w2) {
                assert(b.subrange(0, k) =~= b.subrange(0, w2.0.len() as int).subrange(0, k));
                assert(w2.0.subrange(0, k) =~= w2.0.subrange(0, w1.0.len() as int).subrange(0, k));
            }
        }
    }
}

/// The manifest is the first entry of a built JAR: the archive starts with
/// the local header of `META-INF/MANIFEST.MF` and the manifest's bytes.
pub proof fn lemma_manifest_first(manifest: Seq<(Seq<char>, Seq<char>)>, files: Seq<(Seq<char>, Seq<u8>)>)
    ensures
        jar_spec(manifest, files) matches Ok(b) ==> {
            let nb = encode_utf8("META-INF/MANIFEST.MF"@);
            let mb = manifest_bytes(manifest);
            &&& 30 + nb.len() <= b.len()
            &&& b.subrange(0, 30 + nb.len() as int) == local_header(nb, crc32_spec(mb), mb.len() as u32)
        },
{
    lemma_first_entry(("META-INF/MANIFEST.MF"@, manifest_bytes(manifest)), files);
}

} // verus!
