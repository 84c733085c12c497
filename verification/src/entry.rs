//! What a backend reports about an object, and the kinds of failure.

use vstd::prelude::*;

verus! {

/// The kind of an entry, as far as the engine tells kinds apart.
#[derive(Clone, Copy, Debug, PartialEq, Eq, Structural)]
pub enum EntryMode {
    /// A plain object with content.
    File,
    /// A directory.
    Dir,
    /// Neither of the two.
    Unknown,
}

/// The shared taxonomy of failures. Backend errors are told apart by kind
/// only, never by backend.
#[derive(Clone, Copy, Debug, PartialEq, Eq, Structural)]
pub enum ErrorKind {
    /// No closer kind applies.
    Unexpected,
    /// The operation, or the kind of entry, is not supported.
    Unsupported,
    /// The configuration is invalid.
    ConfigInvalid,
    /// The path does not exist.
    NotFound,
    /// Access was denied.
    PermissionDenied,
    /// The path is a directory where a file was needed.
    IsADirectory,
    /// The path is a file where a directory was needed.
    NotADirectory,
    /// The path exists already.
    AlreadyExists,
    /// A kind of the backend's that the engine does not single out.
    Other,
}

/// The kinds of a low-level I/O error that map to a kind of their own.
#[derive(Clone, Copy, Debug, PartialEq, Eq, Structural)]
pub enum IoErrorKind {
    NotFound,
    PermissionDenied,
    AlreadyExists,
    IsADirectory,
    NotADirectory,
    /// Any other I/O error.
    Other,
}

/// The failure kind for a low-level I/O error.
pub open spec fn kind_of_io(kind: IoErrorKind) -> ErrorKind {
    match kind {
        IoErrorKind::NotFound => ErrorKind::NotFound,
        IoErrorKind::PermissionDenied => ErrorKind::PermissionDenied,
        IoErrorKind::AlreadyExists => ErrorKind::AlreadyExists,
        IoErrorKind::IsADirectory => ErrorKind::IsADirectory,
        IoErrorKind::NotADirectory => ErrorKind::NotADirectory,
        IoErrorKind::Other => ErrorKind::Unexpected,
    }
}

/// Maps the kind of a low-level I/O error to the failure taxonomy: the five
/// kinds that have a counterpart keep it, every other becomes `Unexpected`.
pub fn error_kind_of_io(kind: IoErrorKind) -> (mapped: ErrorKind)
    ensures
        mapped == kind_of_io(kind),
{
    match kind {
        IoErrorKind::NotFound => ErrorKind::NotFound,
        IoErrorKind::PermissionDenied => ErrorKind::PermissionDenied,
        IoErrorKind::AlreadyExists => ErrorKind::AlreadyExists,
        IoErrorKind::IsADirectory => ErrorKind::IsADirectory,
        IoErrorKind::NotADirectory => ErrorKind::NotADirectory,
        IoErrorKind::Other => ErrorKind::Unexpected,
    }
}

/// The text of an optional string.
pub open spec fn text_of(value: Option<String>) -> Option<Seq<char>> {
    match value {
        Some(s) => Some(s@),
        None => None,
    }
}

/// A copy of an optional string.
pub fn copy_text(value: &Option<String>) -> (copy: Option<String>)
    ensures
        text_of(copy) == text_of(*value),
{
    match value {
        Some(s) => Some(s.clone()),
        None => None,
    }
}

/// A failure that the engine itself raises, as opposed to one that a backend
/// reported.
#[derive(Clone, Copy, Debug, PartialEq, Eq, Structural)]
pub enum Failure {
    /// The source is neither a file nor a directory.
    UnknownEntryMode,
    /// A directory or the results of a glob were to be copied onto a file.
    DirectoryOntoFile,
    /// A file was to be copied into a directory, and neither its path nor
    /// its metadata gives a file name.
    NoFilename,
    /// The pattern is not accepted as a glob.
    InvalidGlob,
    /// A reply did not answer the request that was outstanding.
    OutOfTurn,
}

impl Failure {
    /// The kind under which the failure is reported.
    pub open spec fn kind_spec(self) -> ErrorKind {
        match self {
            Failure::UnknownEntryMode => ErrorKind::Unsupported,
            Failure::DirectoryOntoFile => ErrorKind::NotADirectory,
            Failure::NoFilename => ErrorKind::Unexpected,
            Failure::InvalidGlob => ErrorKind::Unexpected,
            Failure::OutOfTurn => ErrorKind::Unexpected,
        }
    }

    /// The message with which the failure is reported.
    pub open spec fn message_spec(self) -> Seq<char> {
        match self {
            Failure::UnknownEntryMode => "Unknown entry mode"@,
            Failure::DirectoryOntoFile => "Cannot copy directory to a file"@,
            Failure::NoFilename => "Source has no filename"@,
            Failure::InvalidGlob => "Invalid glob pattern"@,
            Failure::OutOfTurn => "Reply does not answer the request"@,
        }
    }

    /// The kind under which the failure is reported.
    #[verifier::when_used_as_spec(kind_spec)]
    pub fn kind(self) -> (kind: ErrorKind)
        ensures
            kind == self.kind_spec(),
    {
        match self {
            Failure::UnknownEntryMode => ErrorKind::Unsupported,
            Failure::DirectoryOntoFile => ErrorKind::NotADirectory,
            Failure::NoFilename => ErrorKind::Unexpected,
            Failure::InvalidGlob => ErrorKind::Unexpected,
            Failure::OutOfTurn => ErrorKind::Unexpected,
        }
    }

    /// The message with which the failure is reported.
    pub fn message(self) -> (message: String)
        ensures
            message@ == self.message_spec(),
    {
        match self {
            Failure::UnknownEntryMode => "Unknown entry mode".to_owned(),
            Failure::DirectoryOntoFile => "Cannot copy directory to a file".to_owned(),
            Failure::NoFilename => "Source has no filename".to_owned(),
            Failure::InvalidGlob => "Invalid glob pattern".to_owned(),
            Failure::OutOfTurn => "Reply does not answer the request".to_owned(),
        }
    }
}

/// Metadata of an object, as the backend reports it.
#[derive(Debug)]
pub struct Metadata {
    pub mode: EntryMode,
    pub size: u64,
    pub content_type: Option<String>,
    pub content_disposition: Option<String>,
}

/// The mathematical value of a `Metadata`.
pub struct MetadataView {
    pub mode: EntryMode,
    pub size: u64,
    pub content_type: Option<Seq<char>>,
    pub content_disposition: Option<Seq<char>>,
}

impl View for Metadata {
    type V = MetadataView;

    open spec fn view(&self) -> MetadataView {
        MetadataView {
            mode: self.mode,
            size: self.size,
            content_type: text_of(self.content_type),
            content_disposition: text_of(self.content_disposition),
        }
    }
}

impl Metadata {
    /// Metadata of the given mode with no size and no hints.
    pub fn new(mode: EntryMode) -> (metadata: Metadata)
        ensures
            metadata@ == (MetadataView {
                mode,
                size: 0,
                content_type: None,
                content_disposition: None,
            }),
    {
        Metadata { mode, size: 0, content_type: None, content_disposition: None }
    }

    pub fn is_file(&self) -> (file: bool)
        ensures
            file == (self.mode == EntryMode::File),
    {
        self.mode == EntryMode::File
    }

    pub fn is_dir(&self) -> (dir: bool)
        ensures
            dir == (self.mode == EntryMode::Dir),
    {
        self.mode == EntryMode::Dir
    }

    /// A copy with the same value.
    pub fn duplicate(&self) -> (copy: Metadata)
        ensures
            copy@ == self@,
    {
        Metadata {
            mode: self.mode,
            size: self.size,
            content_type: copy_text(&self.content_type),
            content_disposition: copy_text(&self.content_disposition),
        }
    }
}

/// One listing result: a path and its metadata.
#[derive(Debug)]
pub struct StorageEntry {
    pub path: String,
    pub metadata: Metadata,
}

/// The mathematical value of a `StorageEntry`.
pub struct StorageEntryView {
    pub path: Seq<char>,
    pub metadata: MetadataView,
}

impl View for StorageEntry {
    type V = StorageEntryView;

    open spec fn view(&self) -> StorageEntryView {
        StorageEntryView { path: self.path@, metadata: self.metadata@ }
    }
}

impl StorageEntry {
    /// An entry at `path` with the given metadata.
    pub fn new(path: &str, metadata: Metadata) -> (entry: StorageEntry)
        ensures
            entry@ == (StorageEntryView { path: path@, metadata: metadata@ }),
    {
        StorageEntry { path: path.to_owned(), metadata }
    }

    /// A copy with the same value.
    pub fn duplicate(&self) -> (copy: StorageEntry)
        ensures
            copy@ == self@,
    {
        StorageEntry { path: self.path.clone(), metadata: self.metadata.duplicate() }
    }
}

/// The values of a list of entries.
pub open spec fn entry_views(entries: Seq<StorageEntry>) -> Seq<StorageEntryView> {
    entries.map_values(|entry: StorageEntry| entry@)
}

} // verus!
