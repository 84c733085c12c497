//! The copier: what to ask of the two backends, step by step, to copy a
//! file, a directory or the matches of a glob.
//!
//! The copier performs no I/O. It hands out one request at a time, the caller
//! performs it on the source or destination backend and reports what came
//! back, and the copier answers with the next request until it finishes.

use vstd::prelude::*;
use vstd::hash_set::StringHashSet;
use crate::entry::{
    text_of, EntryMode, ErrorKind, Failure, Metadata, MetadataView, StorageEntry,
    StorageEntryView,
};
use crate::glob::{has_glob, has_glob_chars};
use crate::list::{admitted, lister, plan_for, Lister, ListerView};
use crate::path::{
    join_paths, joined, normal_path, normalize_path, parent_of, path_key, relative_path,
    relative_to, unix_parent, unix_path_key,
};
use crate::source::{source_filename, source_name};

verus! {

/// Options for controlling copy behavior.
#[derive(Clone, Copy, Debug, PartialEq, Eq, Structural)]
pub struct CopyOptions {
    /// Whether to copy directories recursively.
    ///
    /// When `true`, all files and subdirectories within a directory are
    /// copied. When `false`, only the immediate contents of the directory are
    /// copied.
    pub recursive: bool,
}

impl Default for CopyOptions {
    fn default() -> (options: CopyOptions)
        ensures
            !options.recursive,
    {
        CopyOptions { recursive: false }
    }
}

/// How a copy ends.
#[derive(Clone, Copy, Debug, PartialEq, Eq, Structural)]
pub enum Outcome {
    /// Everything was copied.
    Done,
    /// The backend failed: the caller returns the error that it reported, of
    /// the given kind, unchanged.
    Propagate(ErrorKind),
    /// The copier itself fails.
    Fail(Failure),
}

/// One object to stream from the source backend to the destination backend.
#[derive(Debug)]
pub struct Transfer {
    /// The path to read on the source backend.
    pub source: String,
    /// The path to write on the destination backend.
    pub destination: String,
    /// The content type to set on what is written, if any.
    pub content_type: Option<String>,
}

/// The mathematical value of a `Transfer`.
pub struct TransferView {
    pub source: Seq<char>,
    pub destination: Seq<char>,
    pub content_type: Option<Seq<char>>,
}

impl View for Transfer {
    type V = TransferView;

    open spec fn view(&self) -> TransferView {
        TransferView {
            source: self.source@,
            destination: self.destination@,
            content_type: text_of(self.content_type),
        }
    }
}

/// What the caller is to do next.
#[derive(Debug)]
pub enum Request {
    /// Stat `path` on the source backend.
    StatSource { path: String },
    /// Stat `path` on the destination backend.
    StatDestination { path: String },
    /// Open a listing of `path` on the source backend.
    OpenLister { path: String, recursive: bool },
    /// Create the directory `path` on the destination backend. The path
    /// ends in a separator, as the path of a directory does.
    CreateDir { path: String },
    /// Take the next entry from the open listing.
    NextEntry,
    /// Stream one object from the source to the destination.
    Transfer(Transfer),
    /// Stop: the copy has ended.
    Finish(Outcome),
}

/// The mathematical value of a `Request`.
pub enum RequestView {
    StatSource { path: Seq<char> },
    StatDestination { path: Seq<char> },
    OpenLister { path: Seq<char>, recursive: bool },
    CreateDir { path: Seq<char> },
    NextEntry,
    Transfer(TransferView),
    Finish(Outcome),
}

impl View for Request {
    type V = RequestView;

    open spec fn view(&self) -> RequestView {
        match self {
            Request::StatSource { path } => RequestView::StatSource { path: path@ },
            Request::StatDestination { path } => RequestView::StatDestination { path: path@ },
            Request::OpenLister { path, recursive } => RequestView::OpenLister {
                path: path@,
                recursive: *recursive,
            },
            Request::CreateDir { path } => RequestView::CreateDir { path: path@ },
            Request::NextEntry => RequestView::NextEntry,
            Request::Transfer(transfer) => RequestView::Transfer(transfer@),
            Request::Finish(outcome) => RequestView::Finish(*outcome),
        }
    }
}

/// What came back from the request that was outstanding.
#[derive(Debug)]
pub enum Reply {
    /// The stat succeeded.
    Metadata(Metadata),
    /// The listing yielded an entry.
    Entry(StorageEntry),
    /// The listing is exhausted.
    End,
    /// The listing was opened, the directory created or the object
    /// transferred.
    Completed,
    /// The backend failed with an error of this kind.
    Error(ErrorKind),
}

/// The mathematical value of a `Reply`.
pub enum ReplyView {
    Metadata(MetadataView),
    Entry(StorageEntryView),
    End,
    Completed,
    Error(ErrorKind),
}

impl View for Reply {
    type V = ReplyView;

    open spec fn view(&self) -> ReplyView {
        match self {
            Reply::Metadata(metadata) => ReplyView::Metadata(metadata@),
            Reply::Entry(entry) => ReplyView::Entry(entry@),
            Reply::End => ReplyView::End,
            Reply::Completed => ReplyView::Completed,
            Reply::Error(kind) => ReplyView::Error(*kind),
        }
    }
}

/// Where a copy stands: the request that is outstanding, with what the
/// copier has to remember to go on from its reply.
pub enum StateView {
    /// The source is being stat'ed.
    SourceStat,
    /// The source is a file; the destination is being stat'ed.
    FileDestinationStat { meta: MetadataView },
    /// The parent directory of the file's destination is being created.
    FileParent { transfer: TransferView },
    /// The file is being transferred.
    FileTransfer,
    /// The listing of the source is being opened.
    ListerOpen { plan: ListerView },
    /// The destination of a directory or glob copy is being stat'ed.
    TreeDestinationStat { plan: ListerView },
    /// The destination directory is being created.
    TreeDestinationCreate { plan: ListerView },
    /// The next entry is awaited. `created` holds the keys of the destination
    /// directories that are known to exist.
    Listing { plan: ListerView, created: Set<Seq<char>> },
    /// The parent directory of an entry's destination is being created.
    EntryParent { plan: ListerView, created: Set<Seq<char>>, transfer: TransferView },
    /// An entry is being transferred.
    EntryTransfer { plan: ListerView, created: Set<Seq<char>> },
    /// The copy has ended.
    Finished { outcome: Outcome },
}

/// The mathematical value of a `CopyTask`.
pub struct CopyTaskView {
    /// The normalised source path.
    pub source: Seq<char>,
    /// The normalised destination path.
    pub destination: Seq<char>,
    /// Whether a directory source is copied recursively.
    pub recursive: bool,
    pub state: StateView,
}

/// The copy ends with `outcome`.
pub open spec fn stop(outcome: Outcome) -> (StateView, RequestView) {
    (StateView::Finished { outcome }, RequestView::Finish(outcome))
}

/// What becomes of a reply that the outstanding request does not provide
/// for: a backend error is propagated, anything else is out of turn.
pub open spec fn unanswered(reply: ReplyView) -> (StateView, RequestView) {
    match reply {
        ReplyView::Error(kind) => stop(Outcome::Propagate(kind)),
        _ => stop(Outcome::Fail(Failure::OutOfTurn)),
    }
}

/// After the stat of the source: a directory is listed, a file is copied, and
/// any other kind of entry is not supported.
pub open spec fn after_source_stat(
    source: Seq<char>,
    destination: Seq<char>,
    recursive: bool,
    reply: ReplyView,
) -> (StateView, RequestView) {
    match reply {
        ReplyView::Metadata(meta) => match meta.mode {
            EntryMode::Dir => (
                StateView::ListerOpen {
                    plan: ListerView { root: source, recursive, pattern: None },
                },
                RequestView::OpenLister { path: source, recursive },
            ),
            EntryMode::File => (
                StateView::FileDestinationStat { meta },
                RequestView::StatDestination { path: destination },
            ),
            EntryMode::Unknown => stop(Outcome::Fail(Failure::UnknownEntryMode)),
        },
        _ => unanswered(reply),
    }
}

/// The directory to create before a transfer, given the parent of the
/// transfer's destination and whether a directory of the parent's key is known
/// to exist: the parent, as a directory path, where there is one that is not
/// known.
pub open spec fn directory_needed(parent: Option<Seq<char>>, known: bool) -> Option<Seq<char>> {
    match parent {
        Some(parent) => if known {
            None
        } else {
            Some(parent.push('/'))
        },
        None => None,
    }
}

/// The transfer of the source file to `destination`.
pub open spec fn file_transfer(
    source: Seq<char>,
    meta: MetadataView,
    destination: Seq<char>,
) -> TransferView {
    TransferView { source, destination, content_type: meta.content_type }
}

/// After the stat of a file copy's destination. Onto a directory, the file
/// goes below it under the source's name. Onto anything else that exists, it
/// goes to the destination path itself. Onto a path that does not exist, it
/// goes to the destination path, after the parent directory was created.
pub open spec fn after_file_destination_stat(
    source: Seq<char>,
    destination: Seq<char>,
    meta: MetadataView,
    reply: ReplyView,
) -> (StateView, RequestView) {
    match reply {
        ReplyView::Metadata(found) => if found.mode == EntryMode::Dir {
            match source_name(source, meta.content_disposition) {
                Some(name) => (
                    StateView::FileTransfer,
                    RequestView::Transfer(file_transfer(source, meta, joined(destination, name))),
                ),
                None => stop(Outcome::Fail(Failure::NoFilename)),
            }
        } else {
            (
                StateView::FileTransfer,
                RequestView::Transfer(file_transfer(source, meta, destination)),
            )
        },
        ReplyView::Error(ErrorKind::NotFound) => match directory_needed(
            unix_parent(destination),
            false,
        ) {
            Some(directory) => (
                StateView::FileParent { transfer: file_transfer(source, meta, destination) },
                RequestView::CreateDir { path: directory },
            ),
            None => (
                StateView::FileTransfer,
                RequestView::Transfer(file_transfer(source, meta, destination)),
            ),
        },
        _ => unanswered(reply),
    }
}

/// After the stat of a directory or glob copy's destination. A file there
/// fails the copy. A destination that does not exist is created as a
/// directory. Anything else is taken as the directory to copy into.
pub open spec fn after_tree_destination_stat(
    destination: Seq<char>,
    plan: ListerView,
    reply: ReplyView,
) -> (StateView, RequestView) {
    match reply {
        ReplyView::Metadata(found) => if found.mode == EntryMode::File {
            stop(Outcome::Fail(Failure::DirectoryOntoFile))
        } else {
            (
                StateView::Listing { plan, created: set![unix_path_key(destination)] },
                RequestView::NextEntry,
            )
        },
        ReplyView::Error(ErrorKind::NotFound) => (
            StateView::TreeDestinationCreate { plan },
            RequestView::CreateDir { path: destination.push('/') },
        ),
        _ => unanswered(reply),
    }
}

/// Where an entry goes: the destination joined with the entry's path
/// relative to the root of the listing.
pub open spec fn entry_destination(
    destination: Seq<char>,
    plan: ListerView,
    path: Seq<char>,
) -> Seq<char> {
    joined(destination, relative_to(path, plan.root))
}

/// The transfer of a listed entry.
pub open spec fn entry_transfer(
    destination: Seq<char>,
    plan: ListerView,
    entry: StorageEntryView,
) -> TransferView {
    TransferView {
        source: entry.path,
        destination: entry_destination(destination, plan, entry.path),
        content_type: entry.metadata.content_type,
    }
}

/// Whether an entry is copied: it is no directory and passes the filter.
pub open spec fn is_copied(plan: ListerView, entry: StorageEntryView) -> bool {
    entry.metadata.mode != EntryMode::Dir && admitted(plan, entry.path)
}

/// Whether the parent of a transfer's destination is a directory that is
/// known to exist.
pub open spec fn parent_known(parent: Option<Seq<char>>, created: Set<Seq<char>>) -> bool {
    match parent {
        Some(parent) => created.contains(unix_path_key(parent)),
        None => false,
    }
}

/// After an entry of the listing. An entry that is not copied is passed
/// over. One that is copied is transferred, after the parent directory of its
/// destination was created where that is not known to exist yet.
pub open spec fn after_entry(
    destination: Seq<char>,
    plan: ListerView,
    created: Set<Seq<char>>,
    entry: StorageEntryView,
) -> (StateView, RequestView) {
    if !is_copied(plan, entry) {
        (StateView::Listing { plan, created }, RequestView::NextEntry)
    } else {
        let transfer = entry_transfer(destination, plan, entry);
        let parent = unix_parent(transfer.destination);
        match directory_needed(parent, parent_known(parent, created)) {
            Some(directory) => (
                StateView::EntryParent {
                    plan,
                    created: created.insert(unix_path_key(parent->0)),
                    transfer,
                },
                RequestView::CreateDir { path: directory },
            ),
            None => (StateView::EntryTransfer { plan, created }, RequestView::Transfer(transfer)),
        }
    }
}

/// The next state and request for a reply.
pub open spec fn step_spec(task: CopyTaskView, reply: ReplyView) -> (StateView, RequestView) {
    match task.state {
        StateView::SourceStat => after_source_stat(
            task.source,
            task.destination,
            task.recursive,
            reply,
        ),
        StateView::FileDestinationStat { meta } => after_file_destination_stat(
            task.source,
            task.destination,
            meta,
            reply,
        ),
        StateView::FileParent { transfer } => match reply {
            ReplyView::Completed => (StateView::FileTransfer, RequestView::Transfer(transfer)),
            _ => unanswered(reply),
        },
        StateView::FileTransfer => match reply {
            ReplyView::Completed => stop(Outcome::Done),
            _ => unanswered(reply),
        },
        StateView::ListerOpen { plan } => match reply {
            ReplyView::Completed => (
                StateView::TreeDestinationStat { plan },
                RequestView::StatDestination { path: task.destination },
            ),
            _ => unanswered(reply),
        },
        StateView::TreeDestinationStat { plan } => after_tree_destination_stat(
            task.destination,
            plan,
            reply,
        ),
        StateView::TreeDestinationCreate { plan } => match reply {
            ReplyView::Completed => (
                StateView::Listing { plan, created: set![unix_path_key(task.destination)] },
                RequestView::NextEntry,
            ),
            _ => unanswered(reply),
        },
        StateView::Listing { plan, created } => match reply {
            ReplyView::Entry(entry) => after_entry(task.destination, plan, created, entry),
            ReplyView::End => stop(Outcome::Done),
            _ => unanswered(reply),
        },
        StateView::EntryParent { plan, created, transfer } => match reply {
            ReplyView::Completed => (
                StateView::EntryTransfer { plan, created },
                RequestView::Transfer(transfer),
            ),
            _ => unanswered(reply),
        },
        StateView::EntryTransfer { plan, created } => match reply {
            ReplyView::Completed => (StateView::Listing { plan, created }, RequestView::NextEntry),
            _ => unanswered(reply),
        },
        StateView::Finished { outcome } => stop(outcome),
    }
}

/// The task after a reply.
pub open spec fn advance(task: CopyTaskView, reply: ReplyView) -> CopyTaskView {
    CopyTaskView { state: step_spec(task, reply).0, ..task }
}

/// How a copy of `source` to `destination` begins. Both paths are
/// normalised. A source with glob metacharacters is listed by its plan, or
/// fails where the pattern is not accepted; any other source is stat'ed
/// first.
pub open spec fn start_spec(source: Seq<char>, destination: Seq<char>, options: CopyOptions) -> (
    CopyTaskView,
    RequestView,
) {
    let source = normal_path(source);
    let destination = normal_path(destination);
    let first = if has_glob(source) {
        match plan_for(source, false) {
            Some(plan) => (
                StateView::ListerOpen { plan },
                RequestView::OpenLister { path: plan.root, recursive: plan.recursive },
            ),
            None => stop(Outcome::Fail(Failure::InvalidGlob)),
        }
    } else {
        (StateView::SourceStat, RequestView::StatSource { path: source })
    };
    (CopyTaskView { source, destination, recursive: options.recursive, state: first.0 }, first.1)
}

/// Where a copy stands, with the data that goes with it.
enum State {
    SourceStat,
    FileDestinationStat { meta: Metadata },
    FileParent { transfer: Transfer },
    FileTransfer,
    ListerOpen { plan: Lister },
    TreeDestinationStat { plan: Lister },
    TreeDestinationCreate { plan: Lister },
    Listing { plan: Lister, created: StringHashSet },
    EntryParent { plan: Lister, created: StringHashSet, transfer: Transfer },
    EntryTransfer { plan: Lister, created: StringHashSet },
    Finished { outcome: Outcome },
}

impl View for State {
    type V = StateView;

    closed spec fn view(&self) -> StateView {
        match self {
            State::SourceStat => StateView::SourceStat,
            State::FileDestinationStat { meta } => StateView::FileDestinationStat { meta: meta@ },
            State::FileParent { transfer } => StateView::FileParent { transfer: transfer@ },
            State::FileTransfer => StateView::FileTransfer,
            State::ListerOpen { plan } => StateView::ListerOpen { plan: plan@ },
            State::TreeDestinationStat { plan } => StateView::TreeDestinationStat { plan: plan@ },
            State::TreeDestinationCreate { plan } => StateView::TreeDestinationCreate {
                plan: plan@,
            },
            State::Listing { plan, created } => StateView::Listing {
                plan: plan@,
                created: created@,
            },
            State::EntryParent { plan, created, transfer } => StateView::EntryParent {
                plan: plan@,
                created: created@,
                transfer: transfer@,
            },
            State::EntryTransfer { plan, created } => StateView::EntryTransfer {
                plan: plan@,
                created: created@,
            },
            State::Finished { outcome } => StateView::Finished { outcome: *outcome },
        }
    }
}

/// One copy in progress.
pub struct CopyTask {
    source: String,
    destination: String,
    recursive: bool,
    state: State,
}

impl View for CopyTask {
    type V = CopyTaskView;

    closed spec fn view(&self) -> CopyTaskView {
        CopyTaskView {
            source: self.source@,
            destination: self.destination@,
            recursive: self.recursive,
            state: self.state@,
        }
    }
}

/// Ends the copy with `outcome`.
fn finish(outcome: Outcome) -> (next: (State, Request))
    ensures
        (next.0@, next.1@) == stop(outcome),
{
    (State::Finished { outcome }, Request::Finish(outcome))
}

/// Ends the copy on a reply that the outstanding request does not provide
/// for.
fn reject(reply: Reply) -> (next: (State, Request))
    ensures
        (next.0@, next.1@) == unanswered(reply@),
{
    match reply {
        Reply::Error(kind) => finish(Outcome::Propagate(kind)),
        _ => finish(Outcome::Fail(Failure::OutOfTurn)),
    }
}

/// The state and request in which the listing of entries begins.
fn begin_listing(destination: &str, plan: Lister) -> (next: (State, Request))
    ensures
        (next.0@, next.1@) == (
            StateView::Listing { plan: plan@, created: set![unix_path_key(destination@)] },
            RequestView::NextEntry,
        ),
{
    let mut created = StringHashSet::new();
    created.insert(path_key(destination));
    (State::Listing { plan, created }, Request::NextEntry)
}

/// Decides whether a directory has to be created before a transfer, from
/// the parent of the transfer's destination and whether its key is known.
pub fn missing_directory(parent: Option<String>, known: bool) -> (directory: Option<String>)
    ensures
        text_of(directory) == directory_needed(text_of(parent), known),
{
    match parent {
        Some(parent) => if known {
            None
        } else {
            Some(directory_path(parent))
        },
        None => None,
    }
}

/// `path` with a separator at its end.
fn directory_path(path: String) -> (directory: String)
    ensures
        directory@ == path@.push('/'),
{
    let mut directory = path;
    crate::text::push_char(&mut directory, '/');
    directory
}

fn on_source_stat(source: &str, destination: &str, recursive: bool, reply: Reply) -> (next: (
    State,
    Request,
))
    ensures
        (next.0@, next.1@) == after_source_stat(source@, destination@, recursive, reply@),
{
    match reply {
        Reply::Metadata(meta) => match meta.mode {
            EntryMode::Dir => (
                State::ListerOpen { plan: Lister::unfiltered(source.to_owned(), recursive) },
                Request::OpenLister { path: source.to_owned(), recursive },
            ),
            EntryMode::File => (
                State::FileDestinationStat { meta },
                Request::StatDestination { path: destination.to_owned() },
            ),
            EntryMode::Unknown => finish(Outcome::Fail(Failure::UnknownEntryMode)),
        },
        other => reject(other),
    }
}

fn on_file_destination_stat(source: &str, destination: &str, meta: Metadata, reply: Reply) -> (next:
    (State, Request))
    ensures
        (next.0@, next.1@) == after_file_destination_stat(source@, destination@, meta@, reply@),
{
    match reply {
        Reply::Metadata(found) => {
            let target = if found.is_dir() {
                match source_filename(source, &meta) {
                    Ok(name) => join_paths(destination, name.as_str()),
                    Err(failure) => {
                        return finish(Outcome::Fail(failure));
                    },
                }
            } else {
                destination.to_owned()
            };
            (
                State::FileTransfer,
                Request::Transfer(
                    Transfer {
                        source: source.to_owned(),
                        destination: target,
                        content_type: meta.content_type,
                    },
                ),
            )
        },
        Reply::Error(ErrorKind::NotFound) => {
            let transfer = Transfer {
                source: source.to_owned(),
                destination: destination.to_owned(),
                content_type: meta.content_type,
            };
            match missing_directory(parent_of(destination), false) {
                Some(directory) => (
                    State::FileParent { transfer },
                    Request::CreateDir { path: directory },
                ),
                None => (State::FileTransfer, Request::Transfer(transfer)),
            }
        },
        other => reject(other),
    }
}

fn on_tree_destination_stat(destination: &str, plan: Lister, reply: Reply) -> (next: (
    State,
    Request,
))
    ensures
        (next.0@, next.1@) == after_tree_destination_stat(destination@, plan@, reply@),
{
    match reply {
        Reply::Metadata(found) => if found.is_file() {
            finish(Outcome::Fail(Failure::DirectoryOntoFile))
        } else {
            begin_listing(destination, plan)
        },
        Reply::Error(ErrorKind::NotFound) => (
            State::TreeDestinationCreate { plan },
            Request::CreateDir { path: directory_path(destination.to_owned()) },
        ),
        other => reject(other),
    }
}

/// The path at which an entry arrives: `destination` joined with the path
/// of the entry relative to `root`, the root of the listing that gave it.
pub fn destination_of_entry(destination: &str, root: &str, entry_path: &str) -> (target: String)
    ensures
        target@ == joined(destination@, relative_to(entry_path@, root@)),
{
    let relative = relative_path(entry_path, root);
    join_paths(destination, relative.as_str())
}

fn on_entry(destination: &str, plan: Lister, created: StringHashSet, entry: StorageEntry) -> (next:
    (State, Request))
    ensures
        (next.0@, next.1@) == after_entry(destination@, plan@, created@, entry@),
{
    if entry.metadata.is_dir() || !plan.admits(entry.path.as_str()) {
        return (State::Listing { plan, created }, Request::NextEntry);
    }
    let target = destination_of_entry(destination, plan.root(), entry.path.as_str());
    let parent = parent_of(target.as_str());
    let transfer = Transfer {
        source: entry.path,
        destination: target,
        content_type: entry.metadata.content_type,
    };
    let key = match &parent {
        Some(parent) => Some(path_key(parent.as_str())),
        None => None,
    };
    let known = match &key {
        Some(key) => created.contains(key.as_str()),
        None => false,
    };
    match (missing_directory(parent, known), key) {
        (Some(directory), Some(key)) => {
            let mut created = created;
            created.insert(key);
            (State::EntryParent { plan, created, transfer }, Request::CreateDir { path: directory })
        },
        _ => (State::EntryTransfer { plan, created }, Request::Transfer(transfer)),
    }
}

impl CopyTask {
    /// Begins a copy of `source` to `destination`.
    pub fn start(source: &str, destination: &str, options: CopyOptions) -> (begun: (
        CopyTask,
        Request,
    ))
        ensures
            (begun.0@, begun.1@) == start_spec(source@, destination@, options),
    {
        let source = normalize_path(source);
        let destination = normalize_path(destination);
        let (state, request) = if has_glob_chars(source.as_str()) {
            match lister(source.as_str(), None) {
                Ok(plan) => {
                    let request = Request::OpenLister {
                        path: plan.root().to_owned(),
                        recursive: plan.recursive(),
                    };
                    (State::ListerOpen { plan }, request)
                },
                Err(failure) => finish(Outcome::Fail(failure)),
            }
        } else {
            (State::SourceStat, Request::StatSource { path: source.clone() })
        };
        (CopyTask { source, destination, recursive: options.recursive, state }, request)
    }

    /// Takes the reply to the outstanding request and gives the next
    /// request. Once the copy has ended, every reply is answered with the
    /// same `Finish`.
    pub fn step(self, reply: Reply) -> (next: (CopyTask, Request))
        ensures
            next.0@ == advance(self@, reply@),
            next.1@ == step_spec(self@, reply@).1,
    {
        let CopyTask { source, destination, recursive, state } = self;
        let (state, request) = match state {
            State::SourceStat => on_source_stat(
                source.as_str(),
                destination.as_str(),
                recursive,
                reply,
            ),
            State::FileDestinationStat { meta } => on_file_destination_stat(
                source.as_str(),
                destination.as_str(),
                meta,
                reply,
            ),
            State::FileParent { transfer } => match reply {
                Reply::Completed => (State::FileTransfer, Request::Transfer(transfer)),
                other => reject(other),
            },
            State::FileTransfer => match reply {
                Reply::Completed => finish(Outcome::Done),
                other => reject(other),
            },
            State::ListerOpen { plan } => match reply {
                Reply::Completed => (
                    State::TreeDestinationStat { plan },
                    Request::StatDestination { path: destination.clone() },
                ),
                other => reject(other),
            },
            State::TreeDestinationStat { plan } => on_tree_destination_stat(
                destination.as_str(),
                plan,
                reply,
            ),
            State::TreeDestinationCreate { plan } => match reply {
                Reply::Completed => begin_listing(destination.as_str(), plan),
                other => reject(other),
            },
            State::Listing { plan, created } => match reply {
                Reply::Entry(entry) => on_entry(destination.as_str(), plan, created, entry),
                Reply::End => finish(Outcome::Done),
                other => reject(other),
            },
            State::EntryParent { plan, created, transfer } => match reply {
                Reply::Completed => (
                    State::EntryTransfer { plan, created },
                    Request::Transfer(transfer),
                ),
                other => reject(other),
            },
            State::EntryTransfer { plan, created } => match reply {
                Reply::Completed => (State::Listing { plan, created }, Request::NextEntry),
                other => reject(other),
            },
            State::Finished { outcome } => finish(outcome),
        };
        (CopyTask { source, destination, recursive, state }, request)
    }

    /// How the copy ended, once it has.
    pub fn outcome(&self) -> (outcome: Option<Outcome>)
        ensures
            outcome == match self@.state {
                StateView::Finished { outcome } => Some(outcome),
                _ => None,
            },
    {
        match &self.state {
            State::Finished { outcome } => Some(*outcome),
            _ => None,
        }
    }

    /// The normalised source path.
    pub fn source(&self) -> (source: &str)
        ensures
            source@ == self@.source,
    {
        self.source.as_str()
    }

    /// The normalised destination path.
    pub fn destination(&self) -> (destination: &str)
        ensures
            destination@ == self@.destination,
    {
        self.destination.as_str()
    }
}

/// The entry point for copies between two backends.
#[derive(Clone, Copy, Debug)]
pub struct Copier {}

impl Copier {
    pub fn new() -> Copier {
        Copier {}
    }

    /// Begins a copy with default options: a directory is copied without its
    /// subdirectories.
    pub fn copy(&self, source: &str, destination: &str) -> (begun: (CopyTask, Request))
        ensures
            (begun.0@, begun.1@) == start_spec(
                source@,
                destination@,
                CopyOptions { recursive: false },
            ),
    {
        self.copy_options(source, destination, CopyOptions { recursive: false })
    }

    /// Begins a copy.
    pub fn copy_options(&self, source: &str, destination: &str, options: CopyOptions) -> (begun: (
        CopyTask,
        Request,
    ))
        ensures
            (begun.0@, begun.1@) == start_spec(source@, destination@, options),
    {
        CopyTask::start(source, destination, options)
    }
}

/// Begins a copy of `source` to `destination` with default options.
pub fn copy(source: &str, destination: &str) -> (begun: (CopyTask, Request))
    ensures
        (begun.0@, begun.1@) == start_spec(source@, destination@, CopyOptions { recursive: false }),
{
    Copier::new().copy(source, destination)
}

} // verus!
