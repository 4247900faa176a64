//! Owned snapshots of a torrent's static metadata.
//!
//! The native engine hands metadata out as structs holding C strings,
//! fixed-size character buffers and raw arrays of sub-structs, whose
//! backing memory may be freed when the originating handle is released.
//! The caller marshals those into the plain values of [`RawInfo`];
//! everything that can be decided from plain values is done here:
//! cutting a fixed buffer at its first NUL, defaulting absent strings,
//! deriving the counts from the actual lists so that the snapshot is
//! well formed, and resolving file selectors to native file indices.

use vstd::prelude::*;

use crate::error::{Error, TrResult};
use crate::priority::Priority;

verus! {

/// The outcome of parsing a metainfo file outside a session, from the
/// two native codes it produces: the constructor must accept the
/// source and the parse must succeed; a failure of either step is a
/// parse error.
pub open spec fn parse_file_outcome(set_code: int, parse_code: int) -> TrResult<()> {
    if set_code == 0 && parse_code == 0 {
        TrResult::<()>::Ok(())
    } else {
        TrResult::<()>::Err(Error::ParseErr)
    }
}

/// Interpret the two native codes of a stand-alone parse: the result
/// of feeding the file to the constructor, then the parse result.
pub fn interpret_parse(set_code: i32, parse_code: i32) -> (r: TrResult<()>)
    ensures
        r == parse_file_outcome(set_code as int, parse_code as int),
{
    if set_code == 0 && parse_code == 0 {
        Ok(())
    } else {
        Err(Error::ParseErr)
    }
}

/// The bytes of a C string held in a fixed-size buffer: everything
/// before the first NUL, or the whole buffer when no NUL is present.
pub open spec fn nul_prefix(s: Seq<u8>) -> Seq<u8>
    decreases s.len(),
{
    if s.len() == 0 {
        s
    } else if s[0] == 0 {
        Seq::empty()
    } else {
        seq![s[0]] + nul_prefix(s.subrange(1, s.len() as int))
    }
}

/// When the first `i` bytes are all non-NUL and byte `i` (if any) is
/// NUL, the NUL prefix is exactly the first `i` bytes.
proof fn lemma_nul_prefix_take(s: Seq<u8>, i: int)
    requires
        0 <= i <= s.len(),
        forall|j: int| 0 <= j < i ==> s[j] != 0,
        i == s.len() || s[i] == 0,
    ensures
        nul_prefix(s) == s.take(i),
    decreases s.len(),
{
    if s.len() == 0 {
        assert(nul_prefix(s) =~= s.take(i));
    } else if s[0] == 0 {
        assert(i == 0);
        assert(nul_prefix(s) =~= s.take(i));
    } else {
        assert(i >= 1);
        let sub = s.subrange(1, s.len() as int);
        lemma_nul_prefix_take(sub, i - 1);
        assert(sub.take(i - 1) =~= s.take(i).subrange(1, i));
        assert(nul_prefix(s) =~= s.take(i));
    }
}

/// Copy the bytes of a fixed-size C string buffer up to (and not
/// including) its first NUL.
pub fn cut_at_nul(v: &Vec<u8>) -> (r: Vec<u8>)
    ensures
        r@ == nul_prefix(v@),
{
    let mut r: Vec<u8> = Vec::new();
    let mut i: usize = 0;
    while i < v.len()
        invariant
            i <= v@.len(),
            r@ == v@.take(i as int),
            forall|j: int| 0 <= j < i ==> v@[j] != 0,
        decreases v@.len() - i,
    {
        if v[i] == 0 {
            proof {
                lemma_nul_prefix_take(v@, i as int);
            }
            return r;
        }
        r.push(v[i]);
        assert(r@ =~= v@.take(i + 1));
        i = i + 1;
    }
    proof {
        lemma_nul_prefix_take(v@, v@.len() as int);
        assert(v@.take(v@.len() as int) =~= v@);
    }
    r
}

/// What a byte sequence reads as when decoded as UTF-8, with invalid
/// sequences replaced; the decoding depends on the bytes alone.
pub uninterp spec fn decoded_utf8(bytes: Seq<u8>) -> Seq<char>;

/// Relies on std's String::from_utf8_lossy: the result is a function of
/// the bytes alone, and no bytes decode to a non-empty string only when
/// there are none.
#[verifier::external_body]
fn decode_utf8_lossy(v: &Vec<u8>) -> (s: String)
    ensures
        s@ == decoded_utf8(v@),
        v@.len() == 0 ==> s@.len() == 0,
{
    String::from_utf8_lossy(v.as_slice()).into_owned()
}

/// The owned string held in a fixed-size C string buffer: the bytes up
/// to the first NUL, decoded as UTF-8.
pub fn c_buffer_string(buf: &Vec<u8>) -> (s: String)
    ensures
        s@ == decoded_utf8(nul_prefix(buf@)),
        nul_prefix(buf@).len() == 0 ==> s@.len() == 0,
{
    let prefix = cut_at_nul(buf);
    decode_utf8_lossy(&prefix)
}

/// A file that is part of a torrent.
#[derive(Clone, Debug)]
pub struct TorrentFile {
    /// The length of the file in bytes
    pub length: u64,
    /// Name of the file
    pub name: String,
    /// Download priority of the file
    pub priority: Priority,
    pub dnd: i8,
    /// Was the file renamed?
    pub is_renamed: bool,
    pub first_piece: u32,
    pub last_piece: u32,
    pub offset: u64,
}

/// One piece of a torrent.
#[derive(Clone, Debug)]
pub struct TorrentPiece {
    /// Last time the piece was checked, as Unix seconds
    pub time_checked: i64,
    pub hash: [u8; 20],
    /// Priority of the piece
    pub priority: i8,
    pub dnd: i8,
}

/// One tracker of a torrent.
#[derive(Clone, Debug)]
pub struct TrackerInfo {
    pub tier: i32,
    pub announce: String,
    pub scrape: String,
    pub id: u32,
}

/// An immutable snapshot of a torrent's static metadata, deep-copied
/// out of the native engine's memory.
#[derive(Clone, Debug)]
pub struct TorrentInfo {
    /// Total download size in bytes
    pub total_size: u64,
    /// Original name of the torrent
    pub original_name: String,
    /// Name of the torrent
    pub name: String,
    /// Path of the .torrent file, empty when there is none
    pub torrent: String,
    /// Webseeds of the torrent
    pub webseeds: Vec<String>,
    /// Comment on the torrent
    pub comment: String,
    /// The torrent's creator
    pub creator: String,
    /// Files of the torrent
    pub files: Vec<TorrentFile>,
    /// Pieces of the torrent
    pub pieces: Vec<TorrentPiece>,
    /// Trackers of the torrent
    pub trackers: Vec<TrackerInfo>,
    /// Date the torrent was created, as Unix seconds
    pub date_created: i64,
    /// Number of trackers
    pub tracker_count: u32,
    /// Number of webseeds
    pub webseed_count: u32,
    /// Number of files
    pub file_count: u32,
    /// Size of pieces in bytes
    pub piece_size: u32,
    /// Number of pieces
    pub piece_count: u32,
    pub hash: [u8; 20],
    /// String form of the torrent's hash
    pub hash_string: String,
    pub is_private: bool,
    /// Is it a torrent of a folder?
    pub is_folder: bool,
}

/// The plain values marshalled out of one native metadata struct,
/// before the snapshot's own rules are applied.
pub struct RawInfo {
    pub total_size: u64,
    pub original_name: String,
    pub name: String,
    /// The .torrent path, absent when the native pointer was null
    pub torrent: Option<String>,
    pub webseeds: Vec<String>,
    pub comment: String,
    pub creator: String,
    pub files: Vec<TorrentFile>,
    pub pieces: Vec<TorrentPiece>,
    pub trackers: Vec<TrackerInfo>,
    pub date_created: i64,
    pub piece_size: u32,
    pub hash: [u8; 20],
    /// The fixed-size hash-string buffer, NUL terminator included
    pub hash_string: Vec<u8>,
    pub is_private: bool,
    pub is_folder: bool,
}

/// Whether two file records name the same file: selectors are matched
/// by name and length.
pub open spec fn file_matches(a: TorrentFile, b: TorrentFile) -> bool {
    a.name@ == b.name@ && a.length == b.length
}

/// The index of the first file record matching a selector, if any.
pub open spec fn spec_first_index(fs: Seq<TorrentFile>, f: TorrentFile) -> Option<int>
    decreases fs.len(),
{
    if fs.len() == 0 {
        None
    } else if file_matches(fs[0], f) {
        Some(0)
    } else {
        match spec_first_index(fs.subrange(1, fs.len() as int), f) {
            Some(i) => Some(i + 1),
            None => None,
        }
    }
}

/// The native file indices that a list of selectors resolves to, in
/// order; selectors that match no file are dropped.
pub open spec fn spec_file_ids(fs: Seq<TorrentFile>, sel: Seq<TorrentFile>) -> Seq<u32>
    decreases sel.len(),
{
    if sel.len() == 0 {
        Seq::empty()
    } else {
        let rest = spec_file_ids(fs, sel.subrange(1, sel.len() as int));
        match spec_first_index(fs, sel[0]) {
            Some(i) => seq![i as u32] + rest,
            None => rest,
        }
    }
}

/// A first match at index `i` pins `spec_first_index` down.
proof fn lemma_first_index_some(fs: Seq<TorrentFile>, f: TorrentFile, i: int)
    requires
        0 <= i < fs.len(),
        file_matches(fs[i], f),
        forall|j: int| 0 <= j < i ==> !file_matches(fs[j], f),
    ensures
        spec_first_index(fs, f) == Some(i),
    decreases fs.len(),
{
    if i > 0 {
        lemma_first_index_some(fs.subrange(1, fs.len() as int), f, i - 1);
    }
}

/// No match anywhere pins `spec_first_index` down to `None`.
proof fn lemma_first_index_none(fs: Seq<TorrentFile>, f: TorrentFile)
    requires
        forall|j: int| 0 <= j < fs.len() ==> !file_matches(fs[j], f),
    ensures
        spec_first_index(fs, f) == Option::<int>::None,
    decreases fs.len(),
{
    if fs.len() > 0 {
        lemma_first_index_none(fs.subrange(1, fs.len() as int), f);
    }
}

/// Resolving one more selector appends that selector's resolution.
proof fn lemma_file_ids_snoc(fs: Seq<TorrentFile>, sel: Seq<TorrentFile>, x: TorrentFile)
    ensures
        spec_file_ids(fs, sel.push(x)) == spec_file_ids(fs, sel) + (match spec_first_index(fs, x) {
            Some(i) => seq![i as u32],
            None => Seq::<u32>::empty(),
        }),
    decreases sel.len(),
{
    let snoc = sel.push(x);
    let resolved_x = (match spec_first_index(fs, x) {
        Some(i) => seq![i as u32],
        None => Seq::<u32>::empty(),
    });
    if sel.len() == 0 {
        assert(snoc[0] == x);
        assert(snoc.subrange(1, snoc.len() as int) =~= Seq::<TorrentFile>::empty());
        assert(spec_file_ids(fs, snoc.subrange(1, snoc.len() as int)) =~= Seq::<u32>::empty());
        assert(spec_file_ids(fs, snoc) =~= spec_file_ids(fs, sel) + resolved_x);
    } else {
        let sub = sel.subrange(1, sel.len() as int);
        assert(snoc[0] == sel[0]);
        assert(snoc.subrange(1, snoc.len() as int) =~= sub.push(x));
        lemma_file_ids_snoc(fs, sub, x);
        match spec_first_index(fs, sel[0]) {
            Some(i) => {
                assert(spec_file_ids(fs, snoc) == seq![i as u32] + spec_file_ids(fs, sub.push(x)));
                assert(spec_file_ids(fs, sel) == seq![i as u32] + spec_file_ids(fs, sub));
                assert(spec_file_ids(fs, snoc) =~= spec_file_ids(fs, sel) + resolved_x);
            },
            None => {
                assert(spec_file_ids(fs, snoc) == spec_file_ids(fs, sub.push(x)));
                assert(spec_file_ids(fs, sel) == spec_file_ids(fs, sub));
                assert(spec_file_ids(fs, snoc) =~= spec_file_ids(fs, sel) + resolved_x);
            },
        }
    }
}

impl TorrentInfo {
    /// A snapshot is well formed when each count field agrees with the
    /// list it counts.
    pub open spec fn wf(&self) -> bool {
        &&& self.tracker_count == self.trackers@.len()
        &&& self.webseed_count == self.webseeds@.len()
        &&& self.file_count == self.files@.len()
        &&& self.piece_count == self.pieces@.len()
    }

    /// Build a well-formed snapshot from the marshalled native values:
    /// the counts are derived from the lists themselves, the hash
    /// string is cut at its first NUL and decoded, and an absent
    /// .torrent path becomes the empty string.
    pub fn from_raw(raw: RawInfo) -> (info: TorrentInfo)
        requires
            raw.files@.len() <= u32::MAX,
            raw.pieces@.len() <= u32::MAX,
            raw.trackers@.len() <= u32::MAX,
            raw.webseeds@.len() <= u32::MAX,
        ensures
            info.wf(),
            info.total_size == raw.total_size,
            info.original_name@ == raw.original_name@,
            info.name@ == raw.name@,
            raw.torrent matches Some(t) ==> info.torrent@ == t@,
            raw.torrent is None ==> info.torrent@ == Seq::<char>::empty(),
            info.webseeds == raw.webseeds,
            info.comment@ == raw.comment@,
            info.creator@ == raw.creator@,
            info.files == raw.files,
            info.pieces == raw.pieces,
            info.trackers == raw.trackers,
            info.date_created == raw.date_created,
            info.tracker_count == raw.trackers@.len(),
            info.webseed_count == raw.webseeds@.len(),
            info.file_count == raw.files@.len(),
            info.piece_size == raw.piece_size,
            info.piece_count == raw.pieces@.len(),
            info.hash == raw.hash,
            info.hash_string@ == decoded_utf8(nul_prefix(raw.hash_string@)),
            info.is_private == raw.is_private,
            info.is_folder == raw.is_folder,
    {
        let hash_string = c_buffer_string(&raw.hash_string);
        let torrent = match raw.torrent {
            Some(t) => t,
            None => String::new(),
        };
        let tracker_count = raw.trackers.len() as u32;
        let webseed_count = raw.webseeds.len() as u32;
        let file_count = raw.files.len() as u32;
        let piece_count = raw.pieces.len() as u32;
        TorrentInfo {
            total_size: raw.total_size,
            original_name: raw.original_name,
            name: raw.name,
            torrent,
            webseeds: raw.webseeds,
            comment: raw.comment,
            creator: raw.creator,
            files: raw.files,
            pieces: raw.pieces,
            trackers: raw.trackers,
            date_created: raw.date_created,
            tracker_count,
            webseed_count,
            file_count,
            piece_size: raw.piece_size,
            piece_count,
            hash: raw.hash,
            hash_string,
            is_private: raw.is_private,
            is_folder: raw.is_folder,
        }
    }

    /// Get the index of a file in a torrent: the first file record
    /// whose name and length both match the given one.
    pub fn get_file_index(&self, file: &TorrentFile) -> (r: Option<usize>)
        ensures
            match r {
                Some(i) => {
                    &&& i < self.files@.len()
                    &&& file_matches(self.files@[i as int], *file)
                    &&& forall|j: int| 0 <= j < i ==> !file_matches(self.files@[j], *file)
                },
                None => forall|j: int|
                    0 <= j < self.files@.len() ==> !file_matches(self.files@[j], *file),
            },
            r == (match spec_first_index(self.files@, *file) {
                Some(i) => Option::<usize>::Some(i as usize),
                None => Option::<usize>::None,
            }),
    {
        let mut i: usize = 0;
        while i < self.files.len()
            invariant
                i <= self.files@.len(),
                forall|j: int| 0 <= j < i ==> !file_matches(self.files@[j], *file),
            decreases self.files@.len() - i,
        {
            let candidate = &self.files[i];
            if candidate.name == file.name && candidate.length == file.length {
                proof {
                    lemma_first_index_some(self.files@, *file, i as int);
                }
                return Some(i);
            }
            i = i + 1;
        }
        proof {
            lemma_first_index_none(self.files@, *file);
        }
        None
    }

    /// Resolve a list of file selectors to the native file indices to
    /// hand to the engine, in order. A selector that matches no file of
    /// the torrent is dropped.
    pub fn file_ids(&self, files: &Vec<TorrentFile>) -> (ids: Vec<u32>)
        requires
            self.wf(),
        ensures
            ids@ == spec_file_ids(self.files@, files@),
    {
        let mut ids: Vec<u32> = Vec::new();
        let mut i: usize = 0;
        while i < files.len()
            invariant
                i <= files@.len(),
                self.wf(),
                ids@ == spec_file_ids(self.files@, files@.take(i as int)),
            decreases files@.len() - i,
        {
            proof {
                assert(files@.take(i + 1) =~= files@.take(i as int).push(files@[i as int]));
                lemma_file_ids_snoc(self.files@, files@.take(i as int), files@[i as int]);
            }
            match self.get_file_index(&files[i]) {
                Some(idx) => {
                    proof {
                        lemma_first_index_some(self.files@, files@[i as int], idx as int);
                    }
                    ids.push(idx as u32);
                    assert(ids@ =~= spec_file_ids(self.files@, files@.take(i + 1)));
                },
                None => {
                    proof {
                        lemma_first_index_none(self.files@, files@[i as int]);
                    }
                    assert(ids@ =~= spec_file_ids(self.files@, files@.take(i + 1)));
                },
            }
            i = i + 1;
        }
        proof {
            assert(files@.take(files@.len() as int) =~= files@);
        }
        ids
    }
}

} // verus!
