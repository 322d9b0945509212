//! Minimal ZIP 2.0 writer (stored entries only, single disk, no ZIP64).
//!
//! Entries are written back to back, each after its local file header,
//! followed by a central directory and an end-of-central-directory record:
//! the subset of the format that `java.util.zip.ZipInputStream` and
//! `java.util.jar.JarFile` read.
use vstd::prelude::*;
use crate::jar::crc32::{crc32, crc32_spec};
use crate::jar::error::{Error, Result};
use crate::spec::text::chars_of;
use crate::spec::wire::{le16, le32, push_bytes, push_u16_le, push_u32_le};
use vstd::utf8::encode_utf8;

verus! {

pub const SIG_LOCAL_FILE_HEADER: u32 = 0x0403_4b50;
pub const SIG_CENTRAL_DIRECTORY: u32 = 0x0201_4b50;
pub const SIG_END_OF_CENTRAL_DIRECTORY: u32 = 0x0605_4b50;

/// Minimum reader version: 2.0 (`major * 10 + minor`).
pub const VERSION_NEEDED: u16 = 20;
/// Writer version; the upper byte 0 names MS-DOS/FAT as the host, as the
/// stock `jar` tool does.
pub const VERSION_MADE_BY: u16 = 20;
/// General purpose bit 11: the file name is UTF-8.
pub const FLAG_UTF8: u16 = 0x0800;
/// Compression method 0: stored.
pub const METHOD_STORED: u16 = 0;
/// MS-DOS date 1980-01-01, the smallest representable, for reproducible builds.
pub const DOS_DATE_EPOCH: u16 = 0x0021;
pub const DOS_TIME_EPOCH: u16 = 0x0000;

#[derive(Debug, Clone)]
struct DirEntry {
    name: String,
    crc32: u32,
    size: u32,
    local_offset: u32,
}

/// One entry of the central directory to come: the UTF-8 name, the CRC-32
/// and size of the data, and the offset of its local file header.
pub type EntryView = (Seq<u8>, u32, u32, u32);

/// Builds an in-memory ZIP archive of stored entries. `finish` consumes
/// the writer and gives the complete archive bytes.
#[derive(Debug)]
pub struct ZipWriter {
    out: Vec<u8>,
    entries: Vec<DirEntry>,
}

/// The fields shared by a local file header and its central directory
/// record: flags, method, time, date, CRC, both sizes, name length and a
/// zero extra field length.
pub open spec fn shared_fields(crc: u32, size: u32, name_len: u16) -> Seq<u8> {
    le16(FLAG_UTF8) + le16(METHOD_STORED) + le16(DOS_TIME_EPOCH) + le16(DOS_DATE_EPOCH) + le32(crc) + le32(size)
        + le32(size) + le16(name_len) + le16(0)
}

/// A local file header, its name included.
pub open spec fn local_header(name: Seq<u8>, crc: u32, size: u32) -> Seq<u8> {
    le32(SIG_LOCAL_FILE_HEADER) + le16(VERSION_NEEDED) + shared_fields(crc, size, name.len() as u16) + name
}

/// A central directory record: no comment, disk 0, no attributes.
pub open spec fn central_record(e: EntryView) -> Seq<u8> {
    le32(SIG_CENTRAL_DIRECTORY) + le16(VERSION_MADE_BY) + le16(VERSION_NEEDED) + shared_fields(e.1, e.2, e.0.len() as u16)
        + le16(0) + le16(0) + le16(0) + le32(0) + le32(e.3) + e.0
}

/// The central directory: one record per entry, in order.
pub open spec fn central_dir(es: Seq<EntryView>) -> Seq<u8>
    decreases es.len(),
{
    if es.len() == 0 {
        Seq::empty()
    } else {
        central_dir(es.drop_last()) + central_record(es.last())
    }
}

/// The end-of-central-directory record of a single-disk archive.
pub open spec fn end_record(n: u16, size: u32, offset: u32) -> Seq<u8> {
    le32(SIG_END_OF_CENTRAL_DIRECTORY) + le16(0) + le16(0) + le16(n) + le16(n) + le32(size) + le32(offset) + le16(0)
}

/// Why the writer refused, as a value.
pub enum ZipFault {
    NameTooLong(nat),
    EntryTooLarge(nat),
    TooManyEntries(nat),
    InvalidName(Seq<char>),
    ArchiveTooLarge,
}

pub open spec fn fault_is(e: Error, f: ZipFault) -> bool {
    match f {
        ZipFault::NameTooLong(n) => e == Error::NameTooLong(n as usize),
        ZipFault::EntryTooLarge(n) => e == Error::EntryTooLarge(n as usize),
        ZipFault::TooManyEntries(n) => e == Error::TooManyEntries(n as usize),
        ZipFault::InvalidName(s) => e matches Error::InvalidName(t) && t@ == s,
        ZipFault::ArchiveTooLarge => e == Error::ArchiveTooLarge,
    }
}

/// Whether `s` has a `..` segment between slashes (or the ends).
pub open spec fn has_parent_segment(s: Seq<char>) -> bool {
    exists|i: int|
        0 <= i && i + 2 <= s.len() && #[trigger] s[i] == '.' && s[i + 1] == '.' && (i == 0 || s[i - 1] == '/')
            && (i + 2 == s.len() || s[i + 2] == '/')
}

/// A name that may stand in an archive: not empty, not absolute, without
/// backslash or NUL, and without a `..` segment.
pub open spec fn name_ok(s: Seq<char>) -> bool {
    &&& s.len() > 0
    &&& s[0] != '/'
    &&& !s.contains('\\')
    &&& !s.contains('\0')
    &&& !has_parent_segment(s)
}

/// The writer after one more stored entry, or why it refuses the entry.
#[verifier::opaque]
pub open spec fn write_spec(w: (Seq<u8>, Seq<EntryView>), name: Seq<char>, data: Seq<u8>) -> core::result::Result<(Seq<u8>, Seq<EntryView>), ZipFault> {
    let nb = encode_utf8(name);
    if !name_ok(name) {
        Err(ZipFault::InvalidName(name))
    } else if nb.len() > u16::MAX {
        Err(ZipFault::NameTooLong(nb.len()))
    } else if data.len() > u32::MAX {
        Err(ZipFault::EntryTooLarge(data.len()))
    } else if w.0.len() > u32::MAX {
        Err(ZipFault::ArchiveTooLarge)
    } else {
        let crc = crc32_spec(data);
        let size = data.len() as u32;
        Ok((w.0 + local_header(nb, crc, size) + data, w.1.push((nb, crc, size, w.0.len() as u32))))
    }
}

/// The archive that the writer finishes into, or why it cannot.
pub open spec fn finish_spec(w: (Seq<u8>, Seq<EntryView>)) -> core::result::Result<Seq<u8>, ZipFault> {
    let cd = central_dir(w.1);
    if w.0.len() > u32::MAX {
        Err(ZipFault::ArchiveTooLarge)
    } else if w.1.len() > u16::MAX {
        Err(ZipFault::TooManyEntries(w.1.len()))
    } else if w.0.len() + cd.len() > u32::MAX {
        Err(ZipFault::ArchiveTooLarge)
    } else {
        Ok(w.0 + cd + end_record(w.1.len() as u16, cd.len() as u32, w.0.len() as u32))
    }
}

/// Every entry's name fits a `u16` length, and its local header sits at
/// its offset, followed by its data.
pub open spec fn entries_in_place(out: Seq<u8>, es: Seq<EntryView>) -> bool {
    forall|k: int| 0 <= k < es.len() ==> {
        let e = #[trigger] es[k];
        &&& e.0.len() <= u16::MAX
        &&& e.3 + local_header(e.0, e.1, e.2).len() + e.2 <= out.len()
        &&& out.subrange(e.3 as int, e.3 + local_header(e.0, e.1, e.2).len()) == local_header(e.0, e.1, e.2)
    }
}

impl View for ZipWriter {
    type V = (Seq<u8>, Seq<EntryView>);

    closed spec fn view(&self) -> (Seq<u8>, Seq<EntryView>) {
        (self.out@, self.entries@.map_values(|e: DirEntry| (encode_utf8(e.name@), e.crc32, e.size, e.local_offset)))
    }
}

impl ZipWriter {
    /// Every recorded entry is in place in the bytes written so far.
    pub open spec fn wf(&self) -> bool {
        entries_in_place(self@.0, self@.1)
    }

    pub fn new() -> (w: Self)
        ensures
            w@.0.len() == 0,
            w@.1.len() == 0,
            w.wf(),
    {
        let w = ZipWriter { out: Vec::new(), entries: Vec::new() };
        assert(w@.1 =~= Seq::<EntryView>::empty());
        w
    }

    /// An empty writer whose buffer has room for `cap` bytes.
    pub fn with_capacity(cap: usize) -> (w: Self)
        ensures
            w@.0.len() == 0,
            w@.1.len() == 0,
            w.wf(),
    {
        let w = ZipWriter { out: Vec::with_capacity(cap), entries: Vec::new() };
        assert(w@.1 =~= Seq::<EntryView>::empty());
        w
    }
}

impl Default for ZipWriter {
    /// The writer of `new`.
    fn default() -> (w: Self)
        ensures
            w@.0.len() == 0,
            w@.1.len() == 0,
            w.wf(),
    {
        Self::new()
    }
}

/// Appending keeps every entry in place.
proof fn lemma_in_place_extend(out: Seq<u8>, more: Seq<u8>, es: Seq<EntryView>)
    requires
        entries_in_place(out, es),
    ensures
        entries_in_place(out + more, es),
{
    assert forall|k: int| 0 <= k < es.len() implies {
        let e = #[trigger] es[k];
        &&& e.0.len() <= u16::MAX
        &&& e.3 + local_header(e.0, e.1, e.2).len() + e.2 <= (out + more).len()
        &&& (out + more).subrange(e.3 as int, e.3 + local_header(e.0, e.1, e.2).len()) == local_header(e.0, e.1, e.2)
    } by {
        let e = es[k];
        assert((out + more).subrange(e.3 as int, e.3 + local_header(e.0, e.1, e.2).len())
            =~= out.subrange(e.3 as int, e.3 + local_header(e.0, e.1, e.2).len()));
    }
}

/// Write the fields shared by a local file header and its central
/// directory record.
fn write_shared_header_fields(out: &mut Vec<u8>, crc: u32, size: u32, name_len: u16)
    ensures
        final(out)@ == old(out)@ + shared_fields(crc, size, name_len),
{
    push_u16_le(out, FLAG_UTF8);
    push_u16_le(out, METHOD_STORED);
    push_u16_le(out, DOS_TIME_EPOCH);
    push_u16_le(out, DOS_DATE_EPOCH);
    push_u32_le(out, crc);
    push_u32_le(out, size);
    push_u32_le(out, size);
    push_u16_le(out, name_len);
    push_u16_le(out, 0);
    assert(out@ =~= old(out)@ + shared_fields(crc, size, name_len));
}

/// Refuse names that are empty, absolute, hold a backslash or NUL, or
/// have a `..` segment.
fn validate_name(name: &str) -> (r: Result<()>)
    ensures
        r is Ok <==> name_ok(name@),
        r matches Err(e) ==> fault_is(e, ZipFault::InvalidName(name@)),
{
    let cs = chars_of(name);
    if cs.len() == 0 {
        let empty = String::new();
        assert(empty@ =~= name@);
        return Err(Error::InvalidName(empty));
    }
    if cs[0] == '/' {
        return Err(Error::InvalidName(name.to_owned()));
    }
    let n = cs.len();
    let mut i: usize = 0;
    while i < n
        invariant
            n == cs@.len(),
            cs@ == name@,
            i <= n,
            forall|k: int| 0 <= k < i ==> cs@[k] != '\\' && cs@[k] != '\0',
            forall|k: int|
                0 <= k < i ==> !(k + 2 <= n && #[trigger] cs@[k] == '.' && cs@[k + 1] == '.' && (k == 0 || cs@[k - 1] == '/')
                    && (k + 2 == n || cs@[k + 2] == '/')),
        decreases n - i,
    {
        let c = cs[i];
        if c == '\\' || c == '\0' {
            return Err(Error::InvalidName(name.to_owned()));
        }
        if c == '.' && i + 1 < n && cs[i + 1] == '.' && (i == 0 || cs[i - 1] == '/') && (i + 2 == n || cs[i + 2] == '/') {
            return Err(Error::InvalidName(name.to_owned()));
        }
        i += 1;
    }
    Ok(())
}

impl ZipWriter {
    /// Append a stored (uncompressed) entry at `name` with the given data.
    pub fn write_stored(&mut self, name: &str, data: &[u8]) -> (r: Result<()>)
        requires
            old(self).wf(),
        ensures
            final(self).wf(),
            match write_spec(old(self)@, name@, data@) {
                Ok(w) => r is Ok && final(self)@ == w,
                Err(f) => (r matches Err(e) && fault_is(e, f)) && final(self)@ == old(self)@,
            },
    {
        reveal(write_spec);
        validate_name(name)?;
        let name_bytes = name.as_bytes();
        if name_bytes.len() > 0xFFFF {
            return Err(Error::NameTooLong(name_bytes.len()));
        }
        let name_len = name_bytes.len() as u16;
        if data.len() > 0xFFFF_FFFF {
            return Err(Error::EntryTooLarge(data.len()));
        }
        let size = data.len() as u32;
        if self.out.len() > 0xFFFF_FFFF {
            return Err(Error::ArchiveTooLarge);
        }
        let local_offset = self.out.len() as u32;
        let crc = crc32(data);
        let mut buf: Vec<u8> = Vec::new();
        push_u32_le(&mut buf, SIG_LOCAL_FILE_HEADER);
        push_u16_le(&mut buf, VERSION_NEEDED);
        write_shared_header_fields(&mut buf, crc, size, name_len);
        push_bytes(&mut buf, name_bytes);
        let ghost header = buf@;
        assert(header =~= local_header(encode_utf8(name@), crc, size));
        push_bytes(&mut buf, data);
        let ghost out0 = self.out@;
        let ghost es0 = self@.1;
        proof { lemma_in_place_extend(out0, buf@, es0); }
        self.out.append(&mut buf);
        let entry = DirEntry { name: name.to_owned(), crc32: crc, size, local_offset };
        proof {
            let w = self@;
            assert(w.0 == out0 + header + data@);
            let es1 = es0.push((encode_utf8(name@), crc, size, local_offset));
            assert((out0 + header + data@).subrange(local_offset as int, local_offset + header.len()) =~= header);
            assert(entries_in_place(w.0, es1)) by {
                assert forall|k: int| 0 <= k < es1.len() implies {
                    let e = #[trigger] es1[k];
                    &&& e.0.len() <= u16::MAX
                    &&& e.3 + local_header(e.0, e.1, e.2).len() + e.2 <= w.0.len()
                    &&& w.0.subrange(e.3 as int, e.3 + local_header(e.0, e.1, e.2).len()) == local_header(e.0, e.1, e.2)
                } by {
                    if k < es0.len() {
                        assert(es1[k] == es0[k]);
                    }
                }
            }
        }
        self.entries.push(entry);
        proof {
            assert(self@.1 =~= es0.push((encode_utf8(name@), crc, size, local_offset)));
        }
        Ok(())
    }
}

/// Write the central directory record of one entry.
fn write_central_record(out: &mut Vec<u8>, name_bytes: &[u8], crc: u32, size: u32, local_offset: u32)
    requires
        name_bytes@.len() <= u16::MAX,
    ensures
        final(out)@ == old(out)@ + central_record((name_bytes@, crc, size, local_offset)),
{
    let name_len = name_bytes.len() as u16;
    push_u32_le(out, SIG_CENTRAL_DIRECTORY);
    push_u16_le(out, VERSION_MADE_BY);
    push_u16_le(out, VERSION_NEEDED);
    write_shared_header_fields(out, crc, size, name_len);
    push_u16_le(out, 0);
    push_u16_le(out, 0);
    push_u16_le(out, 0);
    push_u32_le(out, 0);
    push_u32_le(out, local_offset);
    push_bytes(out, name_bytes);
    assert(out@ =~= old(out)@ + central_record((name_bytes@, crc, size, local_offset)));
}

impl ZipWriter {
    /// Finish the archive: the central directory, then the end record.
    pub fn finish(self) -> (r: Result<Vec<u8>>)
        requires
            self.wf(),
        ensures
            match finish_spec(self@) {
                Ok(b) => r matches Ok(v) && v@ == b,
                Err(f) => r matches Err(e) && fault_is(e, f),
            },
    {
        let ghost w = self@;
        let ZipWriter { out, entries } = self;
        let mut out = out;
        if out.len() > 0xFFFF_FFFF {
            return Err(Error::ArchiveTooLarge);
        }
        let central_offset = out.len() as u32;
        if entries.len() > 0xFFFF {
            return Err(Error::TooManyEntries(entries.len()));
        }
        let total_entries = entries.len() as u16;
        let mut i: usize = 0;
        assert(w.1.take(0) =~= Seq::<EntryView>::empty());
        while i < entries.len()
            invariant
                i <= entries@.len(),
                w.1.len() == entries@.len(),
                forall|k: int| 0 <= k < entries@.len() ==> #[trigger] w.1[k] == (encode_utf8(entries@[k].name@), entries@[k].crc32, entries@[k].size, entries@[k].local_offset),
                entries_in_place(w.0, w.1),
                out@ == w.0 + central_dir(w.1.take(i as int)),
            decreases entries@.len() - i,
        {
            let e = &entries[i];
            let name_bytes = e.name.as_str().as_bytes();
            proof {
                assert(w.1[i as int].0.len() <= u16::MAX);
                assert(w.1.take(i + 1).drop_last() =~= w.1.take(i as int));
                assert(w.1.take(i + 1).last() == w.1[i as int]);
            }
            let ghost before = out@;
            write_central_record(&mut out, name_bytes, e.crc32, e.size, e.local_offset);
            i += 1;
        }
        assert(w.1.take(i as int) =~= w.1);
        if out.len() > 0xFFFF_FFFF {
            return Err(Error::ArchiveTooLarge);
        }
        let central_end = out.len() as u32;
        let central_size = central_end - central_offset;
        let ghost body = out@;
        push_u32_le(&mut out, SIG_END_OF_CENTRAL_DIRECTORY);
        push_u16_le(&mut out, 0);
        push_u16_le(&mut out, 0);
        push_u16_le(&mut out, total_entries);
        push_u16_le(&mut out, total_entries);
        push_u32_le(&mut out, central_size);
        push_u32_le(&mut out, central_offset);
        push_u16_le(&mut out, 0);
        assert(out@ =~= body + end_record(total_entries, central_size, central_offset));
        Ok(out)
    }
}

/// A finished archive is the entries as written, then the central
/// directory, then the end record as its last 22 bytes: the signature, the
/// entry count, and the size and offset of the directory.
pub proof fn lemma_archive_layout(w: (Seq<u8>, Seq<EntryView>))
    ensures
        finish_spec(w) matches Ok(b) ==> {
            &&& b.len() == w.0.len() + central_dir(w.1).len() + 22
            &&& b.subrange(0, w.0.len() as int) == w.0
            &&& b.subrange(w.0.len() as int, b.len() - 22) == central_dir(w.1)
            &&& b.subrange(b.len() - 22, b.len() - 18) == le32(SIG_END_OF_CENTRAL_DIRECTORY)
            &&& b.subrange(b.len() - 12, b.len() - 10) == le16(w.1.len() as u16)
            &&& b.subrange(b.len() - 10, b.len() - 6) == le32(central_dir(w.1).len() as u32)
            &&& b.subrange(b.len() - 6, b.len() - 2) == le32(w.0.len() as u32)
        },
{
    if let Ok(b) = finish_spec(w) {
        let cd = central_dir(w.1);
        let n = w.1.len() as u16;
        let e = end_record(n, cd.len() as u32, w.0.len() as u32);
        assert(b == w.0 + cd + e);
        assert(e.len() == 22);
        assert(b.subrange(0, w.0.len() as int) =~= w.0);
        assert(b.subrange(w.0.len() as int, b.len() - 22) =~= cd);
        assert(b.subrange(b.len() - 22, b.len() - 18) =~= le32(SIG_END_OF_CENTRAL_DIRECTORY));
        assert(b.subrange(b.len() - 12, b.len() - 10) =~= le16(n));
        assert(b.subrange(b.len() - 10, b.len() - 6) =~= le32(cd.len() as u32));
        assert(b.subrange(b.len() - 6, b.len() - 2) =~= le32(w.0.len() as u32));
    }
}

/// Storing an entry only appends: the bytes written so far stay, and the
/// entry's local header sits where they ended.
pub proof fn lemma_write_appends(w: (Seq<u8>, Seq<EntryView>), name: Seq<char>, data: Seq<u8>)
    ensures
        write_spec(w, name, data) matches Ok(w2) ==> {
            let nb = encode_utf8(name);
            &&& w.0.len() + 30 + nb.len() <= w2.0.len()
            &&& w2.0.subrange(0, w.0.len() as int) == w.0
            &&& w2.0.subrange(w.0.len() as int, (w.0.len() + 30 + nb.len()) as int) == local_header(nb, crc32_spec(data), data.len() as u32)
            &&& w2.1.len() == w.1.len() + 1
        },
{
    reveal(write_spec);
    if let Ok(w2) = write_spec(w, name, data) {
        let nb = encode_utf8(name);
        let h = local_header(nb, crc32_spec(data), data.len() as u32);
        assert(h.len() == 30 + nb.len());
        assert(w2.0.subrange(0, w.0.len() as int) =~= w.0);
        assert(w2.0.subrange(w.0.len() as int, (w.0.len() + 30 + nb.len()) as int) =~= h);
    }
}

/// The writer after storing each file of `files` in order, or the first refusal.
pub open spec fn write_all(w: (Seq<u8>, Seq<EntryView>), files: Seq<(Seq<char>, Seq<u8>)>) -> core::result::Result<(Seq<u8>, Seq<EntryView>), ZipFault>
    decreases files.len(),
{
    if files.len() == 0 {
        Ok(w)
    } else {
        match write_all(w, files.drop_last()) {
            Err(f) => Err(f),
            Ok(w1) => write_spec(w1, files.last().0, files.last().1),
        }
    }
}

/// The local records of `files`: each file's local header, then its data.
pub open spec fn local_records(files: Seq<(Seq<char>, Seq<u8>)>) -> Seq<u8>
    decreases files.len(),
{
    if files.len() == 0 {
        Seq::empty()
    } else {
        let f = files.last();
        local_records(files.drop_last()) + local_header(encode_utf8(f.0), crc32_spec(f.1), f.1.len() as u32) + f.1
    }
}

/// The directory entries of `files`: each name's bytes, the data's CRC-32
/// and size, and the offset of its local header, which is where the
/// records of the files before it end.
pub open spec fn entry_views(files: Seq<(Seq<char>, Seq<u8>)>) -> Seq<EntryView> {
    Seq::new(
        files.len(),
        |i: int|
            (
                encode_utf8(files[i].0),
                crc32_spec(files[i].1),
                files[i].1.len() as u32,
                local_records(files.take(i)).len() as u32,
            ),
    )
}

/// Bytes of the local records: 30, the name and the data per file.
pub open spec fn records_len(files: Seq<(Seq<char>, Seq<u8>)>) -> int
    decreases files.len(),
{
    if files.len() == 0 {
        0
    } else {
        records_len(files.drop_last()) + 30 + encode_utf8(files.last().0).len() + files.last().1.len()
    }
}

/// Bytes of the central directory: 46 and the name per file.
pub open spec fn directory_len(files: Seq<(Seq<char>, Seq<u8>)>) -> int
    decreases files.len(),
{
    if files.len() == 0 {
        0
    } else {
        directory_len(files.drop_last()) + 46 + encode_utf8(files.last().0).len()
    }
}

proof fn lemma_entry_views_drop_last(files: Seq<(Seq<char>, Seq<u8>)>)
    requires
        files.len() > 0,
    ensures
        entry_views(files).drop_last() == entry_views(files.drop_last()),
{
    let d = files.drop_last();
    assert forall|i: int| 0 <= i < d.len() implies files.take(i) == d.take(i) by {
        assert(files.take(i) =~= d.take(i));
    }
    assert(entry_views(files).drop_last() =~= entry_views(d));
}

proof fn lemma_directory_len(files: Seq<(Seq<char>, Seq<u8>)>)
    ensures
        central_dir(entry_views(files)).len() == directory_len(files),
    decreases files.len(),
{
    if files.len() > 0 {
        lemma_entry_views_drop_last(files);
        lemma_directory_len(files.drop_last());
        let e = entry_views(files).last();
        assert(central_record(e).len() == 46 + e.0.len());
    } else {
        assert(entry_views(files) =~= Seq::<EntryView>::empty());
    }
}

/// Storing files one after another from an empty writer: the bytes are
/// the files' local records in order, `records_len` long; each directory
/// entry holds the file's name, CRC-32 and size and the offset where the
/// records before it end; and the central directory is `directory_len`
/// bytes long. `lemma_archive_layout` then places the directory and the
/// end record after the records.
pub proof fn lemma_writes_layout(files: Seq<(Seq<char>, Seq<u8>)>)
    ensures
        write_all((Seq::empty(), Seq::empty()), files) matches Ok(w) ==> {
            &&& w.0 == local_records(files)
            &&& w.0.len() == records_len(files)
            &&& w.1 == entry_views(files)
            &&& central_dir(w.1).len() == directory_len(files)
        },
    decreases files.len(),
{
    lemma_directory_len(files);
    if files.len() == 0 {
        assert(entry_views(files) =~= Seq::<EntryView>::empty());
    } else {
        let d = files.drop_last();
        lemma_writes_layout(d);
        lemma_entry_views_drop_last(files);
        reveal(write_spec);
        if let Ok(w) = write_all((Seq::empty(), Seq::empty()), files) {
            let w1 = write_all((Seq::empty(), Seq::empty()), d)->Ok_0;
            let f = files.last();
            let nb = encode_utf8(f.0);
            assert(local_header(nb, crc32_spec(f.1), f.1.len() as u32).len() == 30 + nb.len());
            assert(files.take(files.len() - 1) =~= d);
            assert(w.1 =~= entry_views(files)) by {
                assert(w.1 == w1.1.push((nb, crc32_spec(f.1), f.1.len() as u32, w1.0.len() as u32)));
                assert forall|i: int| 0 <= i < files.len() implies w.1[i] == entry_views(files)[i] by {
                    if i < files.len() - 1 {
                        assert(entry_views(files)[i] == entry_views(files).drop_last()[i]);
                    }
                }
            }
        }
    }
}

/// An archive with no entries is only the end record: its signature and
/// eighteen zero bytes.
pub proof fn lemma_empty_archive()
    ensures
        finish_spec((Seq::empty(), Seq::empty())) == Ok::<Seq<u8>, ZipFault>(
            seq![0x50u8, 0x4bu8, 0x05u8, 0x06u8] + Seq::new(18, |i: int| 0u8),
        ),
{
    let b = finish_spec((Seq::empty(), Seq::empty()))->Ok_0;
    assert(central_dir(Seq::<EntryView>::empty()) =~= Seq::<u8>::empty());
    assert(le32(SIG_END_OF_CENTRAL_DIRECTORY) =~= seq![0x50u8, 0x4bu8, 0x05u8, 0x06u8]);
    assert(le16(0) =~= seq![0u8, 0u8]);
    assert(le32(0) =~= seq![0u8, 0u8, 0u8, 0u8]);
    assert(b =~= seq![0x50u8, 0x4bu8, 0x05u8, 0x06u8] + Seq::new(18, |i: int| 0u8));
}

} // verus!
