//! Inode types, directory entries, lookup results and the directory reader.
use vstd::prelude::*;
use vstd::utf8::*;
use vstd::string::*;
use vstd::slice::slice_to_vec;
use crate::wrapper::Ext4Result;

verus! {

/// The file-type byte of an ext4 directory entry for a regular file.
pub const EXT4_DE_REG_FILE: u8 = 1;
/// The file-type byte of an ext4 directory entry for a directory.
pub const EXT4_DE_DIR: u8 = 2;
/// The file-type byte of an ext4 directory entry for a symbolic link.
pub const EXT4_DE_SYMLINK: u8 = 7;

/// The type of an inode, as the layer's callers see it.
#[derive(Clone, Copy, Debug, PartialEq, Eq, Structural)]
pub enum InodeType {
    Unknown,
    Fifo,
    CharacterDevice,
    Directory,
    BlockDevice,
    RegularFile,
    Symlink,
    Socket,
}

/// The type of a file as the ext4 engine reports it in an inode's metadata.
#[derive(Clone, Copy, Debug, PartialEq, Eq, Structural)]
pub enum FileKind {
    Unknown,
    RegularFile,
    Directory,
    CharDevice,
    BlockDevice,
    Fifo,
    Socket,
    Symlink,
}

/// The inode type of a file kind, with every kind kept.
pub open spec fn spec_inode_type_of_kind(kind: FileKind) -> InodeType {
    match kind {
        FileKind::Directory => InodeType::Directory,
        FileKind::RegularFile => InodeType::RegularFile,
        FileKind::Symlink => InodeType::Symlink,
        FileKind::CharDevice => InodeType::CharacterDevice,
        FileKind::BlockDevice => InodeType::BlockDevice,
        FileKind::Fifo => InodeType::Fifo,
        FileKind::Socket => InodeType::Socket,
        FileKind::Unknown => InodeType::Unknown,
    }
}

/// The inode type that a lookup reports: directories, regular files and
/// symbolic links keep their type, every other kind is unknown.
pub open spec fn spec_lookup_type_of_kind(kind: FileKind) -> InodeType {
    match kind {
        FileKind::Directory => InodeType::Directory,
        FileKind::RegularFile => InodeType::RegularFile,
        FileKind::Symlink => InodeType::Symlink,
        _ => InodeType::Unknown,
    }
}

/// The directory-entry file-type byte that stands for an inode type; types
/// without one of their own get 0.
pub open spec fn spec_dirent_code(ty: InodeType) -> u8 {
    match ty {
        InodeType::Directory => EXT4_DE_DIR,
        InodeType::RegularFile => EXT4_DE_REG_FILE,
        InodeType::Symlink => EXT4_DE_SYMLINK,
        _ => 0,
    }
}

/// The inode type that a directory-entry file-type byte stands for.
pub open spec fn spec_inode_type_of_dirent(code: u8) -> InodeType {
    if code == EXT4_DE_DIR {
        InodeType::Directory
    } else if code == EXT4_DE_REG_FILE {
        InodeType::RegularFile
    } else if code == EXT4_DE_SYMLINK {
        InodeType::Symlink
    } else {
        InodeType::Unknown
    }
}

impl InodeType {
    /// The inode type of a file kind, with every kind kept.
    pub fn from_file_kind(kind: FileKind) -> (r: InodeType)
        ensures
            r == spec_inode_type_of_kind(kind),
    {
        match kind {
            FileKind::Directory => InodeType::Directory,
            FileKind::RegularFile => InodeType::RegularFile,
            FileKind::Symlink => InodeType::Symlink,
            FileKind::CharDevice => InodeType::CharacterDevice,
            FileKind::BlockDevice => InodeType::BlockDevice,
            FileKind::Fifo => InodeType::Fifo,
            FileKind::Socket => InodeType::Socket,
            FileKind::Unknown => InodeType::Unknown,
        }
    }

    /// The inode type that a lookup reports for a file kind.
    pub fn from_lookup_kind(kind: FileKind) -> (r: InodeType)
        ensures
            r == spec_lookup_type_of_kind(kind),
    {
        match kind {
            FileKind::Directory => InodeType::Directory,
            FileKind::RegularFile => InodeType::RegularFile,
            FileKind::Symlink => InodeType::Symlink,
            _ => InodeType::Unknown,
        }
    }

    /// The directory-entry file-type byte of this type.
    pub fn dirent_code(self) -> (r: u8)
        ensures
            r == spec_dirent_code(self),
    {
        match self {
            InodeType::Directory => EXT4_DE_DIR,
            InodeType::RegularFile => EXT4_DE_REG_FILE,
            InodeType::Symlink => EXT4_DE_SYMLINK,
            _ => 0,
        }
    }
}

/// The bytes that `String::from_utf8_lossy` makes of a byte string.
pub uninterp spec fn utf8_lossy(bytes: Seq<u8>) -> Seq<u8>;

/// Calls `String::from_utf8_lossy` and takes the bytes of the string it
/// gives. Its documentation says that valid UTF-8 comes back unchanged; what
/// it makes of other input is left to the name.
#[verifier::external_body]
fn utf8_lossy_bytes(bytes: &[u8]) -> (r: Vec<u8>)
    ensures
        r@ == utf8_lossy(bytes@),
        valid_utf8(bytes@) ==> r@ == bytes@,
{
    String::from_utf8_lossy(bytes).into_owned().into_bytes()
}

/// What a directory entry holds: an inode number, a name and a file-type byte.
pub struct DirEntryView {
    pub ino: u32,
    pub name: Seq<u8>,
    pub file_type: u8,
}

/// A directory entry as the ext4 engine lists it.
pub struct DirEntry {
    inode: u32,
    name: Vec<u8>,
    file_type: u8,
}

impl View for DirEntry {
    type V = DirEntryView;

    closed spec fn view(&self) -> DirEntryView {
        DirEntryView { ino: self.inode, name: self.name@, file_type: self.file_type }
    }
}

impl DirEntry {
    /// An entry for inode `inode`, named by the bytes `name`, with the
    /// file-type byte `file_type`.
    pub fn new(inode: u32, name: Vec<u8>, file_type: u8) -> (r: DirEntry)
        ensures
            r@ == (DirEntryView { ino: inode, name: name@, file_type }),
    {
        DirEntry { inode, name, file_type }
    }

    pub fn ino(&self) -> (r: u32)
        ensures
            r == self@.ino,
    {
        self.inode
    }

    pub fn name(&self) -> (r: &[u8])
        ensures
            r@ == self@.name,
    {
        self.name.as_slice()
    }

    /// The inode type that the entry's file-type byte stands for.
    pub fn inode_type(&self) -> (r: InodeType)
        ensures
            r == spec_inode_type_of_dirent(self@.file_type),
    {
        if self.file_type == EXT4_DE_DIR {
            InodeType::Directory
        } else if self.file_type == EXT4_DE_REG_FILE {
            InodeType::RegularFile
        } else if self.file_type == EXT4_DE_SYMLINK {
            InodeType::Symlink
        } else {
            InodeType::Unknown
        }
    }

    /// A copy of the entry.
    pub fn duplicate(&self) -> (r: DirEntry)
        ensures
            r@ == self@,
    {
        DirEntry { inode: self.inode, name: slice_to_vec(self.name.as_slice()), file_type: self.file_type }
    }
}

/// What a lookup result holds: the inode found, the name looked up and the
/// inode's type.
pub struct LookupResultView {
    pub ino: u32,
    pub name: Seq<u8>,
    pub inode_type: InodeType,
}

/// The result of looking a name up in a directory.
pub struct LookupResult {
    ino: u32,
    name: Vec<u8>,
    inode_type: InodeType,
}

impl View for LookupResult {
    type V = LookupResultView;

    closed spec fn view(&self) -> LookupResultView {
        LookupResultView { ino: self.ino, name: self.name@, inode_type: self.inode_type }
    }
}

impl LookupResult {
    /// The result of finding `name` as inode `ino`, whose metadata gives the
    /// file kind `kind`.
    pub fn new(ino: u32, name: &str, kind: FileKind) -> (r: LookupResult)
        ensures
            r@ == spec_lookup_result(ino, name, kind),
    {
        LookupResult {
            ino,
            name: slice_to_vec(name.as_bytes()),
            inode_type: InodeType::from_lookup_kind(kind),
        }
    }

    /// The directory entry of the inode found.
    pub fn entry(&self) -> (r: DirEntry)
        ensures
            r@ == spec_lookup_entry(self@),
    {
        DirEntry {
            inode: self.ino,
            name: utf8_lossy_bytes(self.name.as_slice()),
            file_type: self.inode_type.dirent_code(),
        }
    }
}

/// The lookup result for `name` found as inode `ino` of file kind `kind`.
pub open spec fn spec_lookup_result(ino: u32, name: &str, kind: FileKind) -> LookupResultView {
    LookupResultView { ino, name: name.spec_bytes(), inode_type: spec_lookup_type_of_kind(kind) }
}

/// The directory entry of a lookup result: the inode's number, the name's
/// bytes read as UTF-8 (unchanged when they are valid UTF-8), and the
/// file-type byte of the inode's type.
pub open spec fn spec_lookup_entry(lr: LookupResultView) -> DirEntryView {
    DirEntryView {
        ino: lr.ino,
        name: if valid_utf8(lr.name) { lr.name } else { utf8_lossy(lr.name) },
        file_type: spec_dirent_code(lr.inode_type),
    }
}

/// A directory's file-type byte gives back the inode type it was made from,
/// for directories, regular files and symbolic links; every other type comes
/// back unknown.
pub proof fn lemma_dirent_code_round_trip(ty: InodeType)
    ensures
        spec_inode_type_of_dirent(spec_dirent_code(ty)) == (match ty {
            InodeType::Directory => InodeType::Directory,
            InodeType::RegularFile => InodeType::RegularFile,
            InodeType::Symlink => InodeType::Symlink,
            _ => InodeType::Unknown,
        }),
{
}

/// The entry of a lookup result names the inode that was found, carries the
/// name that was looked up, byte for byte, and has the type that the lookup
/// reported.
pub proof fn lemma_lookup_entry_round_trip(ino: u32, name: &str, kind: FileKind)
    ensures
        spec_lookup_entry(spec_lookup_result(ino, name, kind)).ino == ino,
        spec_lookup_entry(spec_lookup_result(ino, name, kind)).name == name.spec_bytes(),
        spec_inode_type_of_dirent(spec_lookup_entry(spec_lookup_result(ino, name, kind)).file_type)
            == spec_lookup_type_of_kind(kind),
{
    encode_utf8_valid_utf8(name@);
}

/// Every file kind becomes the inode type of the same name, and no two kinds
/// become the same type.
pub proof fn lemma_file_kind_keeps_its_name(kind: FileKind)
    ensures
        (spec_inode_type_of_kind(kind) == InodeType::RegularFile) <==> (kind == FileKind::RegularFile),
        (spec_inode_type_of_kind(kind) == InodeType::Directory) <==> (kind == FileKind::Directory),
        (spec_inode_type_of_kind(kind) == InodeType::Symlink) <==> (kind == FileKind::Symlink),
        (spec_inode_type_of_kind(kind) == InodeType::CharacterDevice) <==> (kind == FileKind::CharDevice),
        (spec_inode_type_of_kind(kind) == InodeType::BlockDevice) <==> (kind == FileKind::BlockDevice),
        (spec_inode_type_of_kind(kind) == InodeType::Fifo) <==> (kind == FileKind::Fifo),
        (spec_inode_type_of_kind(kind) == InodeType::Socket) <==> (kind == FileKind::Socket),
        (spec_inode_type_of_kind(kind) == InodeType::Unknown) <==> (kind == FileKind::Unknown),
{
}

/// A lookup reports a directory, a regular file or a symbolic link exactly
/// when the inode is one, and every other kind as unknown.
pub proof fn lemma_lookup_type_only_three_kinds(kind: FileKind)
    ensures
        (spec_lookup_type_of_kind(kind) == InodeType::RegularFile) <==> (kind == FileKind::RegularFile),
        (spec_lookup_type_of_kind(kind) == InodeType::Directory) <==> (kind == FileKind::Directory),
        (spec_lookup_type_of_kind(kind) == InodeType::Symlink) <==> (kind == FileKind::Symlink),
        kind != FileKind::RegularFile && kind != FileKind::Directory && kind != FileKind::Symlink
            ==> spec_lookup_type_of_kind(kind) == InodeType::Unknown,
{
}

/// A directory entry is a regular file only for file-type byte 1, a
/// directory only for 2, a symbolic link only for 7; every other byte is
/// unknown.
pub proof fn lemma_dirent_type_bytes(code: u8)
    ensures
        (spec_inode_type_of_dirent(code) == InodeType::RegularFile) <==> (code == 1),
        (spec_inode_type_of_dirent(code) == InodeType::Directory) <==> (code == 2),
        (spec_inode_type_of_dirent(code) == InodeType::Symlink) <==> (code == 7),
        code != 1 && code != 2 && code != 7 ==> spec_inode_type_of_dirent(code) == InodeType::Unknown,
{
}

/// The file-type byte of an entry is 2 for a directory, 1 for a regular
/// file, 7 for a symbolic link, and 0 for every other type.
pub proof fn lemma_dirent_code_values(ty: InodeType)
    ensures
        (spec_dirent_code(ty) == 2) <==> (ty == InodeType::Directory),
        (spec_dirent_code(ty) == 1) <==> (ty == InodeType::RegularFile),
        (spec_dirent_code(ty) == 7) <==> (ty == InodeType::Symlink),
        ty != InodeType::Directory && ty != InodeType::RegularFile && ty != InodeType::Symlink
            ==> spec_dirent_code(ty) == 0,
{
}

/// What a directory reader holds: the directory's entries and the index of
/// the current one, which may lie past the end.
pub struct DirReaderResultView {
    pub entries: Seq<DirEntryView>,
    pub index: usize,
}

/// A directory listing being read one entry at a time.
pub struct DirReaderResult {
    entries: Vec<DirEntry>,
    current_index: usize,
}

impl View for DirReaderResult {
    type V = DirReaderResultView;

    closed spec fn view(&self) -> DirReaderResultView {
        DirReaderResultView {
            entries: self.entries@.map_values(|e: DirEntry| e@),
            index: self.current_index,
        }
    }
}

/// The reader after one step: the next entry, or unchanged at the end.
pub open spec fn spec_step(r: DirReaderResultView) -> DirReaderResultView {
    if r.index < r.entries.len() {
        DirReaderResultView { entries: r.entries, index: (r.index + 1) as usize }
    } else {
        r
    }
}

/// The reader after `n` steps.
pub open spec fn spec_steps(r: DirReaderResultView, n: nat) -> DirReaderResultView
    decreases n,
{
    if n == 0 {
        r
    } else {
        spec_steps(spec_step(r), (n - 1) as nat)
    }
}

impl DirReaderResult {
    /// A reader over `entries` that starts at the entry with index `offset`.
    pub fn new(entries: Vec<DirEntry>, offset: u64) -> (r: DirReaderResult)
        ensures
            r@.entries == entries@.map_values(|e: DirEntry| e@),
            r@.index == offset as usize,
    {
        DirReaderResult { entries, current_index: offset as usize }
    }

    /// The current entry; the reader must not be at the end.
    pub fn entry(&self) -> (r: DirEntry)
        requires
            self@.index < self@.entries.len(),
        ensures
            r@ == self@.entries[self@.index as int],
    {
        self.entries[self.current_index].duplicate()
    }

    /// The current entry, or `None` at the end.
    pub fn current(&self) -> (r: Option<DirEntry>)
        ensures
            self@.index < self@.entries.len() ==> r is Some && r->0@ == self@.entries[self@.index as int],
            self@.index >= self@.entries.len() ==> r is None,
    {
        if self.current_index < self.entries.len() {
            Some(self.entries[self.current_index].duplicate())
        } else {
            None
        }
    }

    /// Moves to the next entry; at the end the reader stays where it is.
    pub fn step(&mut self) -> (r: Ext4Result<()>)
        ensures
            r is Ok,
            final(self)@ == spec_step(old(self)@),
    {
        if self.current_index < self.entries.len() {
            self.current_index += 1;
        }
        Ok(())
    }

    /// The index of the current entry.
    pub fn offset(&self) -> (r: u64)
        ensures
            r == self@.index as u64,
    {
        self.current_index as u64
    }
}

/// Reading a directory from an offset within it, each step moves to the next
/// entry until the end is reached, and the reader then stays at the end; the
/// entries themselves never change.
pub proof fn lemma_steps_reach_end(r: DirReaderResultView, n: nat)
    requires
        r.index <= r.entries.len() <= usize::MAX,
    ensures
        spec_steps(r, n).entries == r.entries,
        spec_steps(r, n).index == (if r.index + n <= r.entries.len() {
            r.index + n
        } else {
            r.entries.len() as int
        }),
    decreases n,
{
    if n > 0 {
        lemma_steps_reach_end(spec_step(r), (n - 1) as nat);
    }
}

} // verus!
