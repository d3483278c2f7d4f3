//! File upload records shared by storages.
use vstd::prelude::*;

verus! {

/// A file's name together with what locates or holds it.
#[derive(Debug, Clone)]
pub struct FileInfo<T> {
    pub name: String,
    pub inner: T,
}

/// A file that can be fetched from a URL, with optional request headers.
#[derive(Debug, Clone)]
pub struct UrlUpload {
    pub url: String,
    pub headers: Option<Vec<(String, String)>>,
}

/// Where the content of an uploaded file comes from.
#[derive(Debug, Clone)]
pub enum UploadKind {
    Url(UrlUpload),
    Path(String),
    Data(Vec<u8>),
}

/// Error of a file storage.
#[derive(Debug, Clone)]
pub enum UploadError {
    NotExists(String),
    Unsupported(String),
    Other(String),
}

impl UploadError {
    /// An `Other` error with the given text.
    pub fn other(msg: String) -> (e: UploadError)
        ensures
            e == UploadError::Other(msg),
    {
        UploadError::Other(msg)
    }

    /// The error for a file id that is not stored.
    pub fn not_exists(id: String) -> (e: UploadError)
        ensures
            e == UploadError::NotExists(id),
    {
        UploadError::NotExists(id)
    }

    /// An `Unsupported` error with the given text.
    pub fn unsupported(msg: String) -> (e: UploadError)
        ensures
            e == UploadError::Unsupported(msg),
    {
        UploadError::Unsupported(msg)
    }
}

/// Whether a stored file is already on local disk.
#[derive(Debug, Clone)]
pub enum StoreState {
    NotCached(UrlUpload),
    Cached(String),
}

impl StoreState {
    /// Where the file can be found: its URL when not cached, its path when
    /// cached.
    pub fn location(self) -> (r: String)
        ensures
            match self {
                StoreState::NotCached(u) => r == u.url,
                StoreState::Cached(p) => r == p,
            },
    {
        match self {
            StoreState::NotCached(u) => u.url,
            StoreState::Cached(p) => p,
        }
    }
}

} // verus!
