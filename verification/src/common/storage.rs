//! The bookkeeping of a file storage: which files are stored under which id,
//! where their content lies, and fragmented uploads in progress. Reading and
//! writing file content, and downloading, are left to the caller, which is
//! told by each step what to do.
use vstd::prelude::*;

use dashmap::DashMap;

use crate::interface::upload::{FileInfo, StoreState, UploadError, UploadKind, UrlUpload};
use crate::outside::{
    ascii_lower, file_extension, header_name_accepted, header_name_check, header_value_check, new_uuid_string, path_extension,
    valid_header_bytes,
};

verus! {

/// `dashmap::DashMap`, the concurrent map the storage keeps its records in.
#[verifier::external_type_specification]
#[verifier::external_body]
#[verifier::reject_recursive_types(K)]
#[verifier::reject_recursive_types(V)]
#[verifier::reject_recursive_types(S)]
pub struct ExDashMap<K, V, S>(DashMap<K, V, S>);

/// Error of a file system operation.
#[derive(Debug)]
pub enum FsError {
    Io(std::io::Error),
    Other(String),
}

impl FsError {
    /// An `Other` error with the given text.
    pub fn other(msg: String) -> (e: FsError)
        ensures
            e matches FsError::Other(m) && m == msg,
    {
        FsError::Other(msg)
    }
}

/// The local file system, where stored files are kept.
#[derive(Debug, Clone, Copy, Default)]
pub struct LocalFs;

/// Where a stored file's content comes from.
#[derive(Debug, Clone)]
pub enum FileSource {
    /// Fetched from a URL, and cached at `path` once downloaded.
    Url { url: UrlUpload, path: Option<String> },
    /// A local file.
    Path(String),
}

/// A stored file.
#[derive(Debug, Clone)]
pub struct FileStored {
    pub source: FileSource,
    pub file_name: String,
}

/// The map of file records, by id.
pub type FileMap = DashMap<String, FileStored>;

/// The map of fragmented uploads, by id: file name and local path.
pub type FragmentMap = DashMap<String, (String, String)>;

/// The files a map holds, by id.
pub uninterp spec fn stored_files(m: DashMap<String, FileStored>) -> Map<Seq<char>, FileStored>;

/// The fragmented uploads a map holds, by id: file name and local path.
pub uninterp spec fn pending_fragments(m: DashMap<String, (String, String)>) -> Map<Seq<char>, (String, String)>;

/// `DashMap::new` for the file records: an empty map.
#[verifier::external_body]
fn files_new(u: ()) -> (fresh: FileMap)
    ensures
        stored_files(fresh).dom() == Set::<Seq<char>>::empty(),
{
    DashMap::new()
}

/// `DashMap::insert` for the file records: the entry for `key` becomes
/// `value`, others are untouched.
#[verifier::external_body]
fn files_insert(m: &mut DashMap<String, FileStored>, key: String, value: FileStored)
    ensures
        stored_files(*final(m)) == stored_files(*old(m)).insert(key@, value),
{
    m.insert(key, value);
}

/// `DashMap::get` for the file records, copying the entry out (the copy is
/// derived `Clone`, equal to the entry) and releasing the shard lock before
/// returning.
#[verifier::external_body]
fn files_get(m: &DashMap<String, FileStored>, key: &str) -> (r: Option<FileStored>)
    ensures
        r == stored_files(*m).get(key@),
{
    m.get(key).map(|entry| entry.value().clone())
}

/// `DashMap::new` for the fragment records: an empty map.
#[verifier::external_body]
fn fragments_new(u: ()) -> (fresh: FragmentMap)
    ensures
        pending_fragments(fresh).dom() == Set::<Seq<char>>::empty(),
{
    DashMap::new()
}

/// `DashMap::insert` for the fragment records.
#[verifier::external_body]
fn fragments_insert(m: &mut DashMap<String, (String, String)>, key: String, value: (String, String))
    ensures
        pending_fragments(*final(m)) == pending_fragments(*old(m)).insert(key@, value),
{
    m.insert(key, value);
}

/// `DashMap::get` for the fragment records, copying the entry out.
#[verifier::external_body]
fn fragments_get(m: &DashMap<String, (String, String)>, key: &str) -> (r: Option<(String, String)>)
    ensures
        r == pending_fragments(*m).get(key@),
{
    m.get(key).map(|entry| entry.value().clone())
}

/// `DashMap::remove` for the fragment records: the removed entry's value,
/// if there was one, and the map without it.
#[verifier::external_body]
fn fragments_remove(m: &mut DashMap<String, (String, String)>, key: &str) -> (r: Option<(String, String)>)
    ensures
        r == pending_fragments(*old(m)).get(key@),
        pending_fragments(*final(m)) == pending_fragments(*old(m)).remove(key@),
{
    m.remove(key).map(|(_, v)| v)
}

/// The verdict on a list of headers: the first pair whose name or value
/// `http` refuses decides the error text.
pub open spec fn headers_verdict(pairs: Seq<(String, String)>) -> Result<(), Seq<char>>
    decreases pairs.len(),
{
    if pairs.len() == 0 {
        Ok(())
    } else if !header_name_accepted(pairs[0].0@) {
        Err("invalid HTTP header name"@)
    } else if !valid_header_bytes(vstd::utf8::encode_utf8(pairs[0].1@)) {
        Err("failed to parse header value"@)
    } else {
        headers_verdict(pairs.drop_first())
    }
}

/// The request headers that the pairs make: each name as `http` keeps it, in
/// ASCII lower case, with its value, in the order given.
pub open spec fn header_entries(pairs: Seq<(String, String)>) -> Seq<(Seq<char>, Seq<char>)> {
    pairs.map_values(|p: (String, String)| (ascii_lower(p.0@), p.1@))
}

/// Builds request headers from name and value pairs: every name and value
/// must be accepted by `http`, and the error is the text of the first
/// refusal. The headers keep each pair, in order, with its name in ASCII lower
/// case; a map filled from them in order keeps the last value of a name.
pub fn hashmap_to_headers(map: &Vec<(String, String)>) -> (r: Result<Vec<(String, String)>, String>)
    ensures
        match r {
            Ok(h) => headers_verdict(map@) is Ok && h@.len() == map@.len() && forall|i: int|
                0 <= i < h@.len() ==> (#[trigger] h@[i]).0@ == header_entries(map@)[i].0 && h@[i].1@ == header_entries(map@)[i].1,
            Err(m) => headers_verdict(map@) == Err::<(), Seq<char>>(m@),
        },
{
    let mut out: Vec<(String, String)> = Vec::new();
    let mut i: usize = 0;
    assert(map@ =~= map@.subrange(0, map@.len() as int));
    while i < map.len()
        invariant
            i <= map@.len(),
            headers_verdict(map@) == headers_verdict(map@.subrange(i as int, map@.len() as int)),
            out@.len() == i,
            forall|j: int| 0 <= j < i ==> (#[trigger] out@[j]).0@ == header_entries(map@)[j].0 && out@[j].1@ == header_entries(map@)[j].1,
        decreases map@.len() - i,
    {
        let ghost rest = map@.subrange(i as int, map@.len() as int);
        assert(rest.drop_first() =~= map@.subrange(i + 1, map@.len() as int));
        let (name, value) = &map[i];
        let lower = match header_name_check(name.as_str()) {
            Err(e) => {
                return Err(e);
            },
            Ok(n) => n,
        };
        match header_value_check(value.as_str()) {
            Err(e) => {
                return Err(e);
            },
            Ok(()) => {},
        }
        out.push((lower, value.clone()));
        i = i + 1;
    }
    Ok(out)
}

/// The local path a stored file with the given id is kept at: in the upload
/// directory, named by its id and the extension of its file name, or
/// `.upload` when it has none.
pub open spec fn spec_file_path(base: Seq<char>, id: Seq<char>, file_name: Seq<char>) -> Seq<char> {
    match path_extension(file_name) {
        Some(ext) => base + "/"@ + id + "."@ + ext,
        None => base + "/"@ + id + ".upload"@,
    }
}

/// The record an upload leaves behind under its id: data written directly
/// leaves no record, a URL is recorded as cached at the file's path, a local
/// file is recorded by its path.
pub open spec fn upload_record(kind: UploadKind, file_name: String, full_path: String) -> Option<FileStored> {
    match kind {
        UploadKind::Data(_) => None,
        UploadKind::Url(u) => Some(FileStored { source: FileSource::Url { url: u, path: Some(full_path) }, file_name }),
        UploadKind::Path(p) => Some(FileStored { source: FileSource::Path(p), file_name }),
    }
}

/// Whether a record says its file is on local disk.
pub open spec fn record_cached(rec: FileStored) -> bool {
    match rec.source {
        FileSource::Url { path, .. } => path is Some,
        FileSource::Path(_) => true,
    }
}

/// Every record an upload leaves behind reports its file as on local disk:
/// a URL upload is recorded with its path even before it is downloaded.
pub proof fn lemma_uploaded_records_cached(kind: UploadKind, file_name: String, full_path: String)
    ensures
        upload_record(kind, file_name, full_path) matches Some(rec) ==> record_cached(rec),
{
}

/// An upload recorded with `commit_upload` keeps what it was given: a URL
/// upload is stored as exactly that URL, its request headers included, at
/// the file's path; a local file by exactly its path; each under its name,
/// with every other record unchanged.
pub proof fn lemma_upload_recorded_as_given(
    before: OBFileStorage,
    after: OBFileStorage,
    id: Seq<char>,
    kind: UploadKind,
    file_name: String,
    full_path: String,
)
    requires
        match upload_record(kind, file_name, full_path) {
            None => after.files() == before.files(),
            Some(rec) => after.files() == before.files().insert(id, rec),
        },
    ensures
        kind matches UploadKind::Url(u) ==> after.files().contains_key(id)
            && after.files()[id].source == (FileSource::Url { url: u, path: Some(full_path) })
            && after.files()[id].file_name == file_name,
        kind matches UploadKind::Path(p) ==> after.files().contains_key(id)
            && after.files()[id].source == FileSource::Path(p)
            && after.files()[id].file_name == file_name,
        forall|other: Seq<char>| other != id ==> after.files().contains_key(other) == before.files().contains_key(other)
            && (before.files().contains_key(other) ==> after.files()[other] == before.files()[other]),
{
}

/// Preparing a fragmented upload under a fresh id and then finishing it
/// (the two steps of `upload_fragmented`) leaves the pending uploads as they
/// were before, and stores the file under the id that finishing gave, by the
/// name it was prepared with and the path its data was written to.
pub proof fn lemma_fragment_lifecycle(
    before: OBFileStorage,
    prepared: OBFileStorage,
    finished: OBFileStorage,
    id: Seq<char>,
    new_id: Seq<char>,
    name: String,
    path: String,
)
    requires
        !before.fragments().contains_key(id),
        prepared.fragments() == before.fragments().insert(id, (name, path)),
        finished.fragments() == prepared.fragments().remove(id),
        finished.files() == prepared.files().insert(new_id, FileStored {
            source: FileSource::Path(prepared.fragments()[id].1),
            file_name: prepared.fragments()[id].0,
        }),
    ensures
        finished.fragments() == before.fragments(),
        finished.files()[new_id] == (FileStored { source: FileSource::Path(path), file_name: name }),
{
    assert(before.fragments().insert(id, (name, path)).remove(id) =~= before.fragments());
}

/// The records stay as they were over a run of transfers, each of which
/// leaves them unchanged.
proof fn lemma_transfers_keep_records(states: Seq<OBFileStorage>, i: int)
    requires
        0 <= i < states.len(),
        forall|j: int| 0 <= j < states.len() - 1 ==> (#[trigger] states[j + 1]).files() == states[j].files()
            && states[j + 1].fragments() == states[j].fragments(),
    ensures
        states[i].files() == states[0].files(),
        states[i].fragments() == states[0].fragments(),
    decreases i,
{
    if i > 0 {
        lemma_transfers_keep_records(states, i - 1);
        assert(states[(i - 1) + 1].files() == states[i - 1].files());
    }
}

/// A whole fragmented upload, step by step as `upload_fragmented` takes it:
/// `Prepare` opens the upload under a fresh id `t` at `path`, each `Transfer`
/// leaves the records as they are and is told to write to that path, and
/// `Finish` stores the file under the id it gives. Then every write went to
/// the path the upload was prepared with, the file is stored under the new id
/// as that path with its name, nothing else changed, and `t` is no longer
/// pending, so later transfers or finishes on it are refused.
pub proof fn lemma_fragmented_upload_run(
    before: OBFileStorage,
    states: Seq<OBFileStorage>,
    writes: Seq<String>,
    finished: OBFileStorage,
    t: Seq<char>,
    id: Seq<char>,
    name: String,
    path: String,
)
    requires
        !before.fragments().contains_key(t),
        states.len() == writes.len() + 1,
        states[0].fragments() == before.fragments().insert(t, (name, path)),
        states[0].files() == before.files(),
        forall|j: int| 0 <= j < writes.len() ==> (#[trigger] states[j + 1]).files() == states[j].files()
            && states[j + 1].fragments() == states[j].fragments(),
        forall|j: int| 0 <= j < writes.len() ==> #[trigger] writes[j] == states[j].fragments()[t].1,
        finished.fragments() == states.last().fragments().remove(t),
        finished.files() == states.last().files().insert(id, FileStored {
            source: FileSource::Path(states.last().fragments()[t].1),
            file_name: states.last().fragments()[t].0,
        }),
    ensures
        forall|j: int| 0 <= j < writes.len() ==> #[trigger] writes[j] == path,
        finished.fragments() == before.fragments(),
        finished.files() == before.files().insert(id, FileStored { source: FileSource::Path(path), file_name: name }),
        !finished.fragments().contains_key(t),
{
    assert forall|j: int| 0 <= j < writes.len() implies #[trigger] writes[j] == path by {
        lemma_transfers_keep_records(states, j);
    }
    lemma_transfers_keep_records(states, states.len() - 1);
    assert(before.fragments().insert(t, (name, path)).remove(t) =~= before.fragments());
}

/// Once an upload is finished it is no longer pending, so `upload_fragmented`
/// refuses to finish it again, or to transfer to it, as unknown.
pub proof fn lemma_finish_only_once(prepared: OBFileStorage, finished: OBFileStorage, id: Seq<char>)
    requires
        finished.fragments() == prepared.fragments().remove(id),
    ensures
        !finished.fragments().contains_key(id),
{
}

/// Where a stored file's content can be read from.
#[derive(Debug, Clone)]
pub enum PathLookup {
    /// No file is stored under the id.
    Missing,
    /// The file is on local disk at this path.
    Ready(FileInfo<String>),
    /// The file must first be downloaded from `url` to `path`.
    Download { name: String, url: UrlUpload, path: String },
}

/// A request of a fragmented upload.
#[derive(Debug, Clone)]
pub enum UploadFileReq {
    Prepare { name: String, total_size: i64 },
    Transfer { file_id: String, offset: i64, data: Vec<u8> },
    Finish { file_id: String, sha256: Option<String> },
}

/// What a step of a fragmented upload asks of the caller.
#[derive(Debug, Clone)]
pub enum FragmentStep {
    /// An upload was opened under this id.
    Prepared(String),
    /// Write `data` at `offset` of the file at `path`.
    Write { path: String, offset: i64, data: Vec<u8> },
    /// The upload is complete and stored under this id.
    Finished(String),
}

/// The records of a file storage.
pub struct OBFileStorage {
    lazy: bool,
    upd_path_base: String,
    map: DashMap<String, FileStored>,
    frag_map: DashMap<String, (String, String)>,
}

impl OBFileStorage {
    /// The stored files, by id.
    pub closed spec fn files(&self) -> Map<Seq<char>, FileStored> {
        stored_files(self.map)
    }

    /// The fragmented uploads in progress, by id.
    pub closed spec fn fragments(&self) -> Map<Seq<char>, (String, String)> {
        pending_fragments(self.frag_map)
    }

    /// Whether URL uploads are downloaded only when their content is needed.
    pub closed spec fn is_lazy(&self) -> bool {
        self.lazy
    }

    /// The directory uploads are kept in.
    pub closed spec fn base(&self) -> Seq<char> {
        self.upd_path_base@
    }

    /// An empty storage that downloads lazily, keeping files under the
    /// root directory.
    pub fn new() -> (s: OBFileStorage)
        ensures
            s.files() == Map::<Seq<char>, FileStored>::empty(),
            s.fragments() == Map::<Seq<char>, (String, String)>::empty(),
            s.is_lazy(),
            s.base() == Seq::<char>::empty(),
    {
        let s = OBFileStorage { lazy: true, upd_path_base: String::new(), map: files_new(()), frag_map: fragments_new(()) };
        assert(s.files() =~= Map::<Seq<char>, FileStored>::empty());
        assert(s.fragments() =~= Map::<Seq<char>, (String, String)>::empty());
        s
    }

    /// An empty storage with the given settings.
    pub fn with_settings(lazy: bool, upd_path_base: String) -> (s: OBFileStorage)
        ensures
            s.files() == Map::<Seq<char>, FileStored>::empty(),
            s.fragments() == Map::<Seq<char>, (String, String)>::empty(),
            s.is_lazy() == lazy,
            s.base() == upd_path_base@,
    {
        let s = OBFileStorage { lazy, upd_path_base, map: files_new(()), frag_map: fragments_new(()) };
        assert(s.files() =~= Map::<Seq<char>, FileStored>::empty());
        assert(s.fragments() =~= Map::<Seq<char>, (String, String)>::empty());
        s
    }

    /// The local path for a file with the given id and name.
    pub fn mk_file_path(&self, id: &str, file_name: &str) -> (p: String)
        ensures
            p@ == spec_file_path(self.base(), id@, file_name@),
    {
        let mut path = self.upd_path_base.clone();
        path.append("/");
        path.append(id);
        match file_extension(file_name) {
            Some(ext) => {
                path.append(".");
                path.append(ext.as_str());
            },
            None => {
                path.append(".upload");
            },
        }
        path
    }

    /// A fresh random id and the local path for a file with that id.
    pub fn random_file(&self, file_name: &str) -> (r: (String, String))
        ensures
            r.0@.len() == 36,
            r.1@ == spec_file_path(self.base(), r.0@, file_name@),
    {
        let id = new_uuid_string(());
        let path = self.mk_file_path(id.as_str(), file_name);
        (id, path)
    }

    /// Whether an upload of this kind must be downloaded right away: a URL
    /// upload to a storage that does not download lazily.
    pub fn needs_download(&self, kind: &UploadKind) -> (r: bool)
        ensures
            r == (kind is Url && !self.is_lazy()),
    {
        match kind {
            UploadKind::Url(_) => !self.lazy,
            _ => false,
        }
    }

    /// Records an upload under `id` once its content is in place (written,
    /// downloaded, or left to be downloaded later) and gives back the id.
    pub fn commit_upload(&mut self, id: String, file_name: String, full_path: String, kind: UploadKind) -> (r: String)
        ensures
            r == id,
            final(self).fragments() == old(self).fragments(),
            final(self).is_lazy() == old(self).is_lazy(),
            final(self).base() == old(self).base(),
            match upload_record(kind, file_name, full_path) {
                None => final(self).files() == old(self).files(),
                Some(rec) => final(self).files() == old(self).files().insert(id@, rec),
            },
    {
        match kind {
            UploadKind::Data(_) => {},
            UploadKind::Url(url) => {
                files_insert(
                    &mut self.map,
                    id.clone(),
                    FileStored { source: FileSource::Url { url, path: Some(full_path) }, file_name },
                );
            },
            UploadKind::Path(path) => {
                files_insert(&mut self.map, id.clone(), FileStored { source: FileSource::Path(path), file_name });
            },
        }
        id
    }

    /// A step of a fragmented upload. `Prepare` opens an upload under a fresh
    /// id; `Transfer` tells where to write its data; `Finish` closes it and
    /// stores the file under another fresh id. An unknown upload id is an
    /// error.
    pub fn upload_fragmented(&mut self, req: UploadFileReq) -> (r: Result<FragmentStep, UploadError>)
        ensures
            final(self).is_lazy() == old(self).is_lazy(),
            final(self).base() == old(self).base(),
            match req {
                UploadFileReq::Prepare { name, .. } => r matches Ok(FragmentStep::Prepared(id)) && id@.len() == 36
                    && final(self).fragments() == old(self).fragments().insert(id@, (name, final(self).fragments()[id@].1))
                    && final(self).fragments()[id@].1@ == spec_file_path(old(self).base(), id@, name@)
                    && final(self).files() == old(self).files(),
                UploadFileReq::Transfer { file_id, offset, data } => final(self).files() == old(self).files()
                    && final(self).fragments() == old(self).fragments()
                    && if old(self).fragments().contains_key(file_id@) {
                        r == Ok::<FragmentStep, UploadError>(FragmentStep::Write { path: old(self).fragments()[file_id@].1, offset, data })
                    } else {
                        r == Err::<FragmentStep, UploadError>(UploadError::NotExists(file_id))
                    },
                UploadFileReq::Finish { file_id, .. } => if old(self).fragments().contains_key(file_id@) {
                    r matches Ok(FragmentStep::Finished(id)) && id@.len() == 36
                        && final(self).fragments() == old(self).fragments().remove(file_id@)
                        && final(self).files() == old(self).files().insert(id@, FileStored {
                            source: FileSource::Path(old(self).fragments()[file_id@].1),
                            file_name: old(self).fragments()[file_id@].0,
                        })
                } else {
                    r == Err::<FragmentStep, UploadError>(UploadError::NotExists(file_id))
                        && final(self).fragments() == old(self).fragments()
                        && final(self).files() == old(self).files()
                },
            },
    {
        match req {
            UploadFileReq::Prepare { name, total_size: _ } => {
                let (id, full_path) = self.random_file(name.as_str());
                let ghost p = full_path;
                fragments_insert(&mut self.frag_map, id.clone(), (name, full_path));
                assert(self.fragments()[id@] == (name, p));
                Ok(FragmentStep::Prepared(id))
            },
            UploadFileReq::Transfer { file_id, offset, data } => {
                match fragments_get(&self.frag_map, file_id.as_str()) {
                    None => Err(UploadError::NotExists(file_id)),
                    Some((_, path)) => Ok(FragmentStep::Write { path, offset, data }),
                }
            },
            UploadFileReq::Finish { file_id, sha256: _ } => {
                match fragments_remove(&mut self.frag_map, file_id.as_str()) {
                    None => Err(UploadError::NotExists(file_id)),
                    Some((file_name, path)) => {
                        let new_id = new_uuid_string(());
                        files_insert(
                            &mut self.map,
                            new_id.clone(),
                            FileStored { source: FileSource::Path(path), file_name },
                        );
                        Ok(FragmentStep::Finished(new_id))
                    },
                }
            },
        }
    }

    /// The URL a stored file is fetched from: none for an unknown id, an
    /// error for a local file.
    pub fn get_url(&self, id: &str) -> (r: Result<Option<FileInfo<UrlUpload>>, UploadError>)
        ensures
            !self.files().contains_key(id@) ==> r == Ok::<Option<FileInfo<UrlUpload>>, UploadError>(None),
            self.files().contains_key(id@) ==> match self.files()[id@].source {
                FileSource::Url { url, .. } => r == Ok::<Option<FileInfo<UrlUpload>>, UploadError>(Some(FileInfo { name: self.files()[id@].file_name, inner: url })),
                FileSource::Path(_) => r matches Err(UploadError::Unsupported(m)) && m@ == "cannot get url from path"@,
            },
    {
        match files_get(&self.map, id) {
            None => Ok(None),
            Some(file) => match file.source {
                FileSource::Url { url, path: _ } => Ok(Some(FileInfo { name: file.file_name, inner: url })),
                FileSource::Path(_) => Err(UploadError::Unsupported(String::from_str("cannot get url from path"))),
            },
        }
    }

    /// Where a stored file's content can be read: its local path, or the
    /// download that must come first, to the file's path in the storage.
    pub fn locate(&self, id: &str) -> (r: PathLookup)
        ensures
            !self.files().contains_key(id@) ==> r matches PathLookup::Missing,
            self.files().contains_key(id@) ==> match self.files()[id@].source {
                FileSource::Url { url, path: Some(p) } => r == PathLookup::Ready(FileInfo { name: self.files()[id@].file_name, inner: p }),
                FileSource::Url { url, path: None } => r matches PathLookup::Download { name, url: u, path }
                    && name == self.files()[id@].file_name && u == url
                    && path@ == spec_file_path(self.base(), id@, self.files()[id@].file_name@),
                FileSource::Path(p) => r == PathLookup::Ready(FileInfo { name: self.files()[id@].file_name, inner: p }),
            },
    {
        match files_get(&self.map, id) {
            None => PathLookup::Missing,
            Some(file) => match file.source {
                FileSource::Url { url, path } => match path {
                    Some(p) => PathLookup::Ready(FileInfo { name: file.file_name, inner: p }),
                    None => {
                        let full_path = self.mk_file_path(id, file.file_name.as_str());
                        PathLookup::Download { name: file.file_name, url, path: full_path }
                    },
                },
                FileSource::Path(p) => PathLookup::Ready(FileInfo { name: file.file_name, inner: p }),
            },
        }
    }

    /// Records that a URL file was downloaded to `path`. The record must still
    /// be a URL record.
    pub fn record_download(&mut self, id: &str, path: String) -> (r: Result<(), UploadError>)
        ensures
            final(self).fragments() == old(self).fragments(),
            final(self).is_lazy() == old(self).is_lazy(),
            final(self).base() == old(self).base(),
            !old(self).files().contains_key(id@) ==> (r matches Err(UploadError::NotExists(m)) && m@ == id@) && final(self).files() == old(self).files(),
            old(self).files().contains_key(id@) ==> match old(self).files()[id@].source {
                FileSource::Url { url, .. } => r is Ok && final(self).files() == old(self).files().insert(id@, FileStored {
                    source: FileSource::Url { url, path: Some(path) },
                    file_name: old(self).files()[id@].file_name,
                }),
                FileSource::Path(_) => (r matches Err(UploadError::Other(m)) && m@ == "`"@ + id@ + "`: expected `UploadSource::Url`"@)
                    && final(self).files() == old(self).files(),
            },
    {
        match files_get(&self.map, id) {
            None => Err(UploadError::NotExists(String::from_str(id))),
            Some(file) => match file.source {
                FileSource::Url { url, path: _ } => {
                    files_insert(
                        &mut self.map,
                        String::from_str(id),
                        FileStored { source: FileSource::Url { url, path: Some(path) }, file_name: file.file_name },
                    );
                    Ok(())
                },
                FileSource::Path(_) => {
                    let mut m = String::from_str("`");
                    m.append(id);
                    m.append("`: expected `UploadSource::Url`");
                    Err(UploadError::Other(m))
                },
            },
        }
    }

    /// Whether a stored file is on local disk.
    pub fn is_cached(&self, id: &str) -> (r: Result<bool, UploadError>)
        ensures
            !self.files().contains_key(id@) ==> (r matches Err(UploadError::NotExists(m)) && m@ == id@),
            self.files().contains_key(id@) ==> r == Ok::<bool, UploadError>(record_cached(self.files()[id@])),
    {
        match files_get(&self.map, id) {
            None => Err(UploadError::NotExists(String::from_str(id))),
            Some(file) => match file.source {
                FileSource::Url { url: _, path } => Ok(path.is_some()),
                FileSource::Path(_) => Ok(true),
            },
        }
    }

    /// Whether a stored file is on local disk, and where it is.
    pub fn get_store_state(&self, id: &str) -> (r: Result<StoreState, UploadError>)
        ensures
            !self.files().contains_key(id@) ==> (r matches Err(UploadError::NotExists(m)) && m@ == id@),
            self.files().contains_key(id@) ==> match self.files()[id@].source {
                FileSource::Url { url, path: Some(p) } => r matches Ok(StoreState::Cached(c)) && c == p,
                FileSource::Url { url, path: None } => r matches Ok(StoreState::NotCached(u)) && u == url,
                FileSource::Path(p) => r matches Ok(StoreState::Cached(c)) && c == p,
            },
    {
        match files_get(&self.map, id) {
            None => Err(UploadError::NotExists(String::from_str(id))),
            Some(file) => match file.source {
                FileSource::Url { url, path } => match path {
                    Some(p) => Ok(StoreState::Cached(p)),
                    None => Ok(StoreState::NotCached(url)),
                },
                FileSource::Path(p) => Ok(StoreState::Cached(p)),
            },
        }
    }
}

} // verus!
