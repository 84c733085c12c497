//! Decision core of a backend-agnostic copy and listing engine.
//!
//! The crate holds everything that decides: path normalisation, glob
//! analysis, the listing plan and its filter, and the two state machines that
//! drive a copy and a single transfer. Storage backends are reached only by
//! the caller, who performs each requested action and reports what came back.

pub mod copy;
pub mod entry;
pub mod factory;
pub mod glob;
pub mod list;
pub mod location;
pub mod path;
pub mod restate;
pub mod runs;
mod sealed;
pub mod source;
pub mod text;
pub mod transfer;

pub use copy::{
    copy, destination_of_entry, missing_directory, Copier, CopyOptions, CopyTask, CopyTaskView,
    Outcome, Reply, ReplyView, Request, RequestView, StateView, Transfer, TransferView,
};
pub use entry::{
    error_kind_of_io, EntryMode, ErrorKind, Failure, IoErrorKind, Metadata, MetadataView,
    StorageEntry, StorageEntryView,
};
pub use factory::{
    chain_verdict, ChainVerdict, DefaultOperatorFactory, FactoryFailure, ProfileOperatorFactory,
    ResolvedUri, ResolvedUriView,
};
pub use glob::{has_glob_chars, literal_prefix, split_glob_path};
pub use list::{glob_lister, list, lister, ListOptions, Lister, ListerView};
pub use location::{LocationType, SchemaSupport, SerdeSupport};
pub use path::{normalize_path, relative_path};
pub use restate::{status_code, to_restate_error, HandlerReport};
pub use source::source_filename;
pub use transfer::{
    TransferOutcome, TransferReply, TransferReplyView, TransferRequest, TransferRequestView,
    TransferState, TransferTask,
};
