//! What holds of every run of a copy, whatever the backends reply.

use vstd::prelude::*;
use crate::copy::{
    advance, directory_needed, entry_transfer, file_transfer, is_copied, parent_known, start_spec,
    step_spec, CopyOptions, CopyTaskView, Outcome, ReplyView, RequestView, StateView,
    TransferView,
};
use crate::entry::{EntryMode, ErrorKind, Failure, MetadataView, StorageEntryView};
use crate::glob::{has_glob, literal_prefix_of};
use crate::list::{glob_accepted, ListerView};
use crate::path::{joined, normal_path, unix_parent, unix_path_key};
use crate::source::source_name;

verus! {

/// The requests that a task issues, one for each of the replies in turn.
pub open spec fn requests(task: CopyTaskView, replies: Seq<ReplyView>) -> Seq<RequestView>
    decreases replies.len(),
{
    if replies.len() == 0 {
        Seq::<RequestView>::empty()
    } else {
        seq![step_spec(task, replies[0]).1] + requests(
            advance(task, replies[0]),
            replies.drop_first(),
        )
    }
}

/// Whether a request changes the destination.
pub open spec fn writes(request: RequestView) -> bool {
    request is CreateDir || request is Transfer
}

/// States in which nothing was asked yet that changes the destination, or
/// in which the copy has ended.
pub open spec fn is_pristine(state: StateView) -> bool {
    state is SourceStat || state is FileDestinationStat || state is ListerOpen
        || state is TreeDestinationStat || state is Finished
}

/// States from which a copy no longer fails for a file at the destination.
pub open spec fn is_past_destination(state: StateView) -> bool {
    match state {
        StateView::FileParent { .. } => true,
        StateView::FileTransfer => true,
        StateView::TreeDestinationCreate { .. } => true,
        StateView::Listing { .. } => true,
        StateView::EntryParent { .. } => true,
        StateView::EntryTransfer { .. } => true,
        StateView::Finished { outcome } => outcome != Outcome::Fail(Failure::DirectoryOntoFile),
        _ => false,
    }
}

/// The request that ends a copy of a directory onto a file.
pub open spec fn directory_onto_file() -> RequestView {
    RequestView::Finish(Outcome::Fail(Failure::DirectoryOntoFile))
}

/// There is one request for each reply.
pub proof fn lemma_requests_len(task: CopyTaskView, replies: Seq<ReplyView>)
    ensures
        requests(task, replies).len() == replies.len(),
    decreases replies.len(),
{
    if replies.len() > 0 {
        lemma_requests_len(advance(task, replies[0]), replies.drop_first());
    }
}

/// Once past the stat of the destination, no request reports a file at the
/// destination.
pub proof fn lemma_past_destination(task: CopyTaskView, replies: Seq<ReplyView>, i: int)
    requires
        is_past_destination(task.state),
        0 <= i < replies.len(),
    ensures
        requests(task, replies).len() == replies.len(),
        requests(task, replies)[i] != directory_onto_file(),
    decreases replies.len(),
{
    lemma_requests_len(task, replies);
    let next = advance(task, replies[0]);
    if i > 0 {
        lemma_past_destination(next, replies.drop_first(), i - 1);
    }
}

/// From a state in which the destination is untouched, a run that comes to
/// report a file at the destination has asked for no change of the destination
/// up to then.
pub proof fn lemma_untouched_until_refused(
    task: CopyTaskView,
    replies: Seq<ReplyView>,
    i: int,
    j: int,
)
    requires
        is_pristine(task.state),
        0 <= j <= i < replies.len(),
        requests(task, replies)[i] == directory_onto_file(),
    ensures
        !writes(requests(task, replies)[j]),
    decreases replies.len(),
{
    lemma_requests_len(task, replies);
    let next = advance(task, replies[0]);
    let rest = replies.drop_first();
    lemma_requests_len(next, rest);
    if i > 0 {
        if is_past_destination(next.state) {
            lemma_past_destination(next, rest, i - 1);
        } else if j > 0 {
            lemma_untouched_until_refused(next, rest, i - 1, j - 1);
        }
    }
}

/// Copying a directory, or the matches of a glob, onto an existing file
/// fails with `NotADirectory`, and the destination is left as it was: from the
/// start of the copy up to the failure, no directory was created and nothing
/// was transferred.
pub proof fn lemma_directory_onto_file(
    source: Seq<char>,
    destination: Seq<char>,
    options: CopyOptions,
    replies: Seq<ReplyView>,
    i: int,
    j: int,
)
    requires
        0 <= j <= i < replies.len(),
        requests(start_spec(source, destination, options).0, replies)[i] == directory_onto_file(),
    ensures
        !writes(start_spec(source, destination, options).1),
        !writes(requests(start_spec(source, destination, options).0, replies)[j]),
        Failure::DirectoryOntoFile.kind_spec() == ErrorKind::NotADirectory,
{
    let begun = start_spec(source, destination, options);
    lemma_untouched_until_refused(begun.0, replies, i, j);
}

/// A file found at the destination of a directory or glob copy ends the copy
/// with `DirectoryOntoFile`.
pub proof fn lemma_file_at_tree_destination(
    task: CopyTaskView,
    plan: ListerView,
    found: MetadataView,
)
    requires
        task.state == (StateView::TreeDestinationStat { plan }),
        found.mode == EntryMode::File,
    ensures
        step_spec(task, ReplyView::Metadata(found)).1 == directory_onto_file(),
{
}

/// The keys of the destination directories that a copy does not ask to
/// create from here on: those that it has asked to create or found to exist,
/// and every key once the copy creates no directory any more.
pub open spec fn known_directories(task: CopyTaskView) -> Set<Seq<char>> {
    match task.state {
        StateView::SourceStat => Set::<Seq<char>>::empty(),
        StateView::FileDestinationStat { .. } => Set::<Seq<char>>::empty(),
        StateView::ListerOpen { .. } => Set::<Seq<char>>::empty(),
        StateView::TreeDestinationStat { .. } => Set::<Seq<char>>::empty(),
        StateView::TreeDestinationCreate { .. } => set![unix_path_key(task.destination)],
        StateView::Listing { created, .. } => created,
        StateView::EntryParent { created, .. } => created,
        StateView::EntryTransfer { created, .. } => created,
        StateView::FileParent { .. } => Set::<Seq<char>>::full(),
        StateView::FileTransfer => Set::<Seq<char>>::full(),
        StateView::Finished { .. } => Set::<Seq<char>>::full(),
    }
}

/// The key of the directory that a request creates. Such a request names
/// the directory with a separator at its end.
pub open spec fn created_key(request: RequestView) -> Option<Seq<char>> {
    match request {
        RequestView::CreateDir { path } => Some(unix_path_key(path.drop_last())),
        _ => None,
    }
}

/// One step of a copy: the known directories only grow, and a directory
/// that is asked to be created was not known before and is known afterwards.
pub proof fn lemma_step_directories(task: CopyTaskView, reply: ReplyView)
    ensures
        known_directories(task).subset_of(known_directories(advance(task, reply))),
        created_key(step_spec(task, reply).1) matches Some(key) ==> !known_directories(
            task,
        ).contains(key) && known_directories(advance(task, reply)).contains(key),
{
    match task.state {
        StateView::TreeDestinationStat { plan } => {
            assert(task.destination.push('/').drop_last() == task.destination);
        },
        StateView::Listing { plan, created } => {
            if let ReplyView::Entry(entry) = reply {
                if is_copied(plan, entry) {
                    let transfer = entry_transfer(task.destination, plan, entry);
                    if let Some(parent) = unix_parent(transfer.destination) {
                        assert(parent.push('/').drop_last() == parent);
                    }
                }
            }
        },
        _ => {},
    }
}

/// A copy that has ended asks for nothing more.
pub proof fn lemma_finished_stays(task: CopyTaskView, replies: Seq<ReplyView>, i: int)
    requires
        task.state is Finished,
        0 <= i < replies.len(),
    ensures
        requests(task, replies)[i] == RequestView::Finish(task.state->outcome),
    decreases replies.len(),
{
    lemma_requests_len(task, replies);
    let next = advance(task, replies[0]);
    lemma_requests_len(next, replies.drop_first());
    if i > 0 {
        lemma_finished_stays(next, replies.drop_first(), i - 1);
    }
}

/// A directory that a copy asks to create was not known to exist.
pub proof fn lemma_created_was_unknown(task: CopyTaskView, replies: Seq<ReplyView>, i: int)
    requires
        0 <= i < replies.len(),
        created_key(requests(task, replies)[i]) is Some,
    ensures
        !known_directories(task).contains(created_key(requests(task, replies)[i])->0),
    decreases replies.len(),
{
    lemma_requests_len(task, replies);
    let next = advance(task, replies[0]);
    let rest = replies.drop_first();
    lemma_requests_len(next, rest);
    lemma_step_directories(task, replies[0]);
    if i > 0 {
        lemma_created_was_unknown(next, rest, i - 1);
    }
}

/// Each destination directory is created at most once in a copy: no two
/// requests of a run create a directory of the same key, however many entries
/// share it.
pub proof fn lemma_directories_created_once(
    task: CopyTaskView,
    replies: Seq<ReplyView>,
    i: int,
    j: int,
)
    requires
        0 <= i < j < replies.len(),
        created_key(requests(task, replies)[i]) is Some,
        created_key(requests(task, replies)[j]) is Some,
    ensures
        created_key(requests(task, replies)[i]) != created_key(requests(task, replies)[j]),
    decreases replies.len(),
{
    lemma_requests_len(task, replies);
    let next = advance(task, replies[0]);
    let rest = replies.drop_first();
    lemma_requests_len(next, rest);
    lemma_step_directories(task, replies[0]);
    if i == 0 {
        lemma_created_was_unknown(next, rest, j - 1);
    } else {
        lemma_directories_created_once(next, rest, i - 1, j - 1);
    }
}

/// The destination of a directory or glob copy, which the copy marks as
/// existing before the first entry, is never asked to be created for an
/// entry.
pub proof fn lemma_destination_not_recreated(
    task: CopyTaskView,
    plan: ListerView,
    replies: Seq<ReplyView>,
    i: int,
)
    requires
        task.state == (StateView::Listing { plan, created: set![unix_path_key(task.destination)] }),
        0 <= i < replies.len(),
    ensures
        created_key(requests(task, replies)[i]) != Some(unix_path_key(task.destination)),
{
    if created_key(requests(task, replies)[i]) is Some {
        lemma_created_was_unknown(task, replies, i);
    }
}

/// Where a file is copied to, over backends that do not fail. Onto an
/// existing directory it is placed below it under the source's file name, and
/// the copy fails where the source has none. Onto anything else that exists it
/// is written at the destination path itself. Onto a path that does not exist
/// the parent directory is created first, and the file is then written at the
/// destination path. In each case the file is transferred once, with the
/// content type of the source.
pub proof fn lemma_file_copied(
    source: Seq<char>,
    destination: Seq<char>,
    options: CopyOptions,
    file: MetadataView,
    found: MetadataView,
)
    requires
        !has_glob(normal_path(source)),
        file.mode == EntryMode::File,
    ensures
        ({
            let begun = start_spec(source, destination, options);
            let from = normal_path(source);
            let to = normal_path(destination);
            let stat = RequestView::StatDestination { path: to };
            let done = RequestView::Finish(Outcome::Done);
            let present = seq![
                ReplyView::Metadata(file),
                ReplyView::Metadata(found),
                ReplyView::Completed,
            ];
            let missing = seq![
                ReplyView::Metadata(file),
                ReplyView::Error(ErrorKind::NotFound),
                ReplyView::Completed,
                ReplyView::Completed,
            ];
            &&& begun.1 == RequestView::StatSource { path: from }
            &&& found.mode == EntryMode::Dir ==> requests(begun.0, present) == match source_name(
                from,
                file.content_disposition,
            ) {
                Some(name) => seq![
                    stat,
                    RequestView::Transfer(file_transfer(from, file, joined(to, name))),
                    done,
                ],
                None => seq![
                    stat,
                    RequestView::Finish(Outcome::Fail(Failure::NoFilename)),
                    RequestView::Finish(Outcome::Fail(Failure::NoFilename)),
                ],
            }
            &&& found.mode != EntryMode::Dir ==> requests(begun.0, present) == seq![
                stat,
                RequestView::Transfer(file_transfer(from, file, to)),
                done,
            ]
            &&& requests(begun.0, missing) == match directory_needed(unix_parent(to), false) {
                Some(directory) => seq![
                    stat,
                    RequestView::CreateDir { path: directory },
                    RequestView::Transfer(file_transfer(from, file, to)),
                    done,
                ],
                None => seq![
                    stat,
                    RequestView::Transfer(file_transfer(from, file, to)),
                    done,
                    done,
                ],
            }
        }),
{
    reveal_with_fuel(requests, 5);
}

/// A directory source is listed as deep as the options say: only its own
/// entries without `recursive`, every descendant with it.
pub proof fn lemma_directory_listing_depth(task: CopyTaskView, found: MetadataView)
    requires
        task.state == StateView::SourceStat,
        found.mode == EntryMode::Dir,
    ensures
        step_spec(task, ReplyView::Metadata(found)).1 == (RequestView::OpenLister {
            path: task.source,
            recursive: task.recursive,
        }),
{
}

/// Every listed entry that is copied is transferred from its own path to the
/// destination joined with its path relative to the root of the listing, so
/// that the relative nesting of the source is kept. Where the parent directory
/// of that path is not known to exist, it is created first. Entries that are
/// directories, or that the filter does not admit, are passed over.
pub proof fn lemma_entry_transferred(
    task: CopyTaskView,
    plan: ListerView,
    created: Set<Seq<char>>,
    entry: StorageEntryView,
)
    requires
        task.state == (StateView::Listing { plan, created }),
    ensures
        !is_copied(plan, entry) ==> step_spec(task, ReplyView::Entry(entry)) == (
            task.state,
            RequestView::NextEntry,
        ),
        is_copied(plan, entry) ==> ({
            let asked = requests(task, seq![ReplyView::Entry(entry), ReplyView::Completed]);
            let transfer = RequestView::Transfer(entry_transfer(task.destination, plan, entry));
            let parent = unix_parent(entry_transfer(task.destination, plan, entry).destination);
            match directory_needed(parent, parent_known(parent, created)) {
                Some(directory) => asked == seq![
                    RequestView::CreateDir { path: directory },
                    transfer,
                ],
                None => asked[0] == transfer,
            }
        }),
{
    let replies = seq![ReplyView::Entry(entry), ReplyView::Completed];
    let next = advance(task, replies[0]);
    let rest = replies.drop_first();
    assert(requests(advance(next, rest[0]), rest.drop_first()) == Seq::<RequestView>::empty());
    assert(requests(task, replies) == seq![step_spec(task, replies[0]).1] + requests(next, rest));
}

/// A listing without entries is a success, and leaves a destination
/// directory behind: one that was not there is created before the listing is
/// read.
pub proof fn lemma_empty_listing(task: CopyTaskView, plan: ListerView, found: MetadataView)
    requires
        task.state == (StateView::TreeDestinationStat { plan }),
        found.mode != EntryMode::File,
    ensures
        requests(
            task,
            seq![ReplyView::Error(ErrorKind::NotFound), ReplyView::Completed, ReplyView::End],
        ) == seq![
            RequestView::CreateDir { path: task.destination.push('/') },
            RequestView::NextEntry,
            RequestView::Finish(Outcome::Done),
        ],
        requests(task, seq![ReplyView::Metadata(found), ReplyView::End]) == seq![
            RequestView::NextEntry,
            RequestView::Finish(Outcome::Done),
        ],
{
    let missing = seq![ReplyView::Error(ErrorKind::NotFound), ReplyView::Completed, ReplyView::End];
    let created = advance(task, missing[0]);
    let listing = advance(created, ReplyView::Completed);
    let ended = advance(listing, ReplyView::End);
    let empty = Seq::<ReplyView>::empty();
    assert(missing.drop_first() == seq![ReplyView::Completed, ReplyView::End]);
    assert(missing.drop_first().drop_first() == seq![ReplyView::End]);
    assert(seq![ReplyView::End].drop_first() == empty);
    assert(requests(ended, empty) == Seq::<RequestView>::empty());
    assert(requests(listing, seq![ReplyView::End]) == seq![RequestView::Finish(Outcome::Done)]);
    assert(requests(created, seq![ReplyView::Completed, ReplyView::End]) == seq![
        RequestView::NextEntry,
        RequestView::Finish(Outcome::Done),
    ]);

    let present = seq![ReplyView::Metadata(found), ReplyView::End];
    assert(present.drop_first() == seq![ReplyView::End]);
}

/// The first failure of a backend ends the copy: but for a destination that
/// a stat does not find, an error reply in any state gives `Propagate` with
/// the kind of the error, and nothing is retried.
pub proof fn lemma_backend_error_ends_copy(task: CopyTaskView, kind: ErrorKind)
    requires
        !(task.state is Finished),
        !(kind == ErrorKind::NotFound && (task.state is FileDestinationStat
            || task.state is TreeDestinationStat)),
    ensures
        step_spec(task, ReplyView::Error(kind)) == (
            StateView::Finished { outcome: Outcome::Propagate(kind) },
            RequestView::Finish(Outcome::Propagate(kind)),
        ),
{
}

/// The task after a sequence of replies.
pub open spec fn after(task: CopyTaskView, replies: Seq<ReplyView>) -> CopyTaskView
    decreases replies.len(),
{
    if replies.len() == 0 {
        task
    } else {
        after(advance(task, replies[0]), replies.drop_first())
    }
}

/// The transfers among the requests, in order.
pub open spec fn transfers_of(asked: Seq<RequestView>) -> Seq<TransferView>
    decreases asked.len(),
{
    if asked.len() == 0 {
        Seq::<TransferView>::empty()
    } else {
        (match asked[0] {
            RequestView::Transfer(transfer) => seq![transfer],
            _ => Seq::<TransferView>::empty(),
        }) + transfers_of(asked.drop_first())
    }
}

/// The transfers of the entries that are copied, in the order of the
/// entries: each from its own path to its place below the destination.
pub open spec fn expected_transfers(
    destination: Seq<char>,
    plan: ListerView,
    entries: Seq<StorageEntryView>,
) -> Seq<TransferView>
    decreases entries.len(),
{
    if entries.len() == 0 {
        Seq::<TransferView>::empty()
    } else if is_copied(plan, entries[0]) {
        seq![entry_transfer(destination, plan, entries[0])] + expected_transfers(
            destination,
            plan,
            entries.drop_first(),
        )
    } else {
        expected_transfers(destination, plan, entries.drop_first())
    }
}

/// What backends that never fail reply for one entry of a listing: the
/// entry, and a completion for each directory creation and transfer that the
/// copier asks for on its account.
pub open spec fn replies_for_entry(task: CopyTaskView, entry: StorageEntryView) -> Seq<ReplyView> {
    match step_spec(task, ReplyView::Entry(entry)).1 {
        RequestView::CreateDir { .. } => seq![
            ReplyView::Entry(entry),
            ReplyView::Completed,
            ReplyView::Completed,
        ],
        RequestView::Transfer(_) => seq![ReplyView::Entry(entry), ReplyView::Completed],
        _ => seq![ReplyView::Entry(entry)],
    }
}

/// What backends that never fail reply while the copier goes through a
/// listing of the given entries, up to the end of the listing.
pub open spec fn replies_for_listing(task: CopyTaskView, entries: Seq<StorageEntryView>) -> Seq<
    ReplyView,
>
    decreases entries.len(),
{
    if entries.len() == 0 {
        seq![ReplyView::End]
    } else {
        let first = replies_for_entry(task, entries[0]);
        first + replies_for_listing(after(task, first), entries.drop_first())
    }
}

/// The requests for two sequences of replies, one after the other.
pub proof fn lemma_requests_append(task: CopyTaskView, a: Seq<ReplyView>, b: Seq<ReplyView>)
    ensures
        requests(task, a + b) == requests(task, a) + requests(after(task, a), b),
    decreases a.len(),
{
    if a.len() > 0 {
        assert((a + b).drop_first() == a.drop_first() + b);
        lemma_requests_append(advance(task, a[0]), a.drop_first(), b);
    }
}

/// The transfers among two sequences of requests, one after the other.
pub proof fn lemma_transfers_append(a: Seq<RequestView>, b: Seq<RequestView>)
    ensures
        transfers_of(a + b) == transfers_of(a) + transfers_of(b),
    decreases a.len(),
{
    if a.len() > 0 {
        assert((a + b).drop_first() == a.drop_first() + b);
        lemma_transfers_append(a.drop_first(), b);
    }
}

/// The task after two sequences of replies, one after the other.
pub proof fn lemma_after_append(task: CopyTaskView, a: Seq<ReplyView>, b: Seq<ReplyView>)
    ensures
        after(task, a + b) == after(after(task, a), b),
    decreases a.len(),
{
    if a.len() > 0 {
        assert((a + b).drop_first() == a.drop_first() + b);
        lemma_after_append(advance(task, a[0]), a.drop_first(), b);
    }
}

/// What the copier does for one entry while the backends do not fail: it
/// asks for the transfer of the entry if the entry is copied, and for no other
/// transfer, and then awaits the next entry with the same plan.
pub proof fn lemma_entry_round(
    task: CopyTaskView,
    plan: ListerView,
    created: Set<Seq<char>>,
    entry: StorageEntryView,
)
    requires
        task.state == (StateView::Listing { plan, created }),
    ensures
        transfers_of(requests(task, replies_for_entry(task, entry))) == if is_copied(plan, entry) {
            seq![entry_transfer(task.destination, plan, entry)]
        } else {
            Seq::<TransferView>::empty()
        },
        after(task, replies_for_entry(task, entry)).state matches StateView::Listing {
            plan: same,
            ..
        } && same == plan,
        after(task, replies_for_entry(task, entry)).destination == task.destination,
{
    reveal_with_fuel(requests, 4);
    reveal_with_fuel(after, 4);
    reveal_with_fuel(transfers_of, 4);
}

/// Over backends that do not fail, a directory or glob copy transfers
/// exactly the listed entries that are copied: every entry that is no
/// directory and passes the filter, once, in the order of the listing, from its
/// own path to the destination joined with its path relative to the root of
/// the listing. It transfers nothing else, and ends with success.
pub proof fn lemma_listing_copied(
    task: CopyTaskView,
    plan: ListerView,
    created: Set<Seq<char>>,
    entries: Seq<StorageEntryView>,
)
    requires
        task.state == (StateView::Listing { plan, created }),
    ensures
        transfers_of(requests(task, replies_for_listing(task, entries))) == expected_transfers(
            task.destination,
            plan,
            entries,
        ),
        after(task, replies_for_listing(task, entries)).state == (StateView::Finished {
            outcome: Outcome::Done,
        }),
    decreases entries.len(),
{
    if entries.len() == 0 {
        reveal_with_fuel(requests, 2);
        reveal_with_fuel(after, 2);
        reveal_with_fuel(transfers_of, 2);
    } else {
        let first = replies_for_entry(task, entries[0]);
        let next = after(task, first);
        let rest = replies_for_listing(next, entries.drop_first());
        lemma_entry_round(task, plan, created, entries[0]);
        let grown = next.state->Listing_created;
        lemma_listing_copied(next, plan, grown, entries.drop_first());
        lemma_requests_append(task, first, rest);
        lemma_transfers_append(requests(task, first), requests(next, rest));
        lemma_after_append(task, first, rest);
    }
}

/// Over backends that do not fail, the copy of a directory into a
/// destination that is no file transfers exactly the entries that the listing
/// of the directory gives and that are no directories: with `recursive` those
/// of the whole tree, without it those of the directory itself, as the backend
/// lists them. Each goes to the destination joined with its path relative to
/// the source directory, so that the nesting of the source is kept.
pub proof fn lemma_directory_copied(
    source: Seq<char>,
    destination: Seq<char>,
    options: CopyOptions,
    directory: MetadataView,
    found: MetadataView,
    entries: Seq<StorageEntryView>,
)
    requires
        !has_glob(normal_path(source)),
        directory.mode == EntryMode::Dir,
        found.mode != EntryMode::File,
    ensures
        ({
            let begun = start_spec(source, destination, options);
            let plan = ListerView {
                root: normal_path(source),
                recursive: options.recursive,
                pattern: None,
            };
            let opening = seq![
                ReplyView::Metadata(directory),
                ReplyView::Completed,
                ReplyView::Metadata(found),
            ];
            let listing = replies_for_listing(after(begun.0, opening), entries);
            &&& begun.1 == RequestView::StatSource { path: normal_path(source) }
            &&& requests(begun.0, opening) == seq![
                RequestView::OpenLister { path: plan.root, recursive: plan.recursive },
                RequestView::StatDestination { path: normal_path(destination) },
                RequestView::NextEntry,
            ]
            &&& transfers_of(requests(begun.0, opening + listing)) == expected_transfers(
                normal_path(destination),
                plan,
                entries,
            )
            &&& after(begun.0, opening + listing).state == StateView::Finished {
                outcome: Outcome::Done,
            }
        }),
{
    let begun = start_spec(source, destination, options);
    let plan = ListerView { root: normal_path(source), recursive: options.recursive, pattern: None };
    let opening = seq![
        ReplyView::Metadata(directory),
        ReplyView::Completed,
        ReplyView::Metadata(found),
    ];
    let listed = after(begun.0, opening);
    let listing = replies_for_listing(listed, entries);
    reveal_with_fuel(requests, 4);
    reveal_with_fuel(after, 4);
    reveal_with_fuel(transfers_of, 4);
    let created = set![unix_path_key(normal_path(destination))];
    assert(listed.state == StateView::Listing { plan, created });
    lemma_listing_copied(listed, plan, created, entries);
    lemma_requests_append(begun.0, opening, listing);
    lemma_transfers_append(requests(begun.0, opening), requests(listed, listing));
    lemma_after_append(begun.0, opening, listing);
}

/// Over backends that do not fail, the copy of a glob into a destination
/// that is no file lists the literal prefix of the pattern recursively and
/// transfers exactly the listed entries that are no directories and that the
/// whole pattern matches. Each goes to the destination joined with its path
/// relative to the literal prefix.
pub proof fn lemma_glob_copied(
    source: Seq<char>,
    destination: Seq<char>,
    options: CopyOptions,
    found: MetadataView,
    entries: Seq<StorageEntryView>,
)
    requires
        has_glob(normal_path(source)),
        glob_accepted(normal_path(source)),
        found.mode != EntryMode::File,
    ensures
        ({
            let begun = start_spec(source, destination, options);
            let plan = ListerView {
                root: literal_prefix_of(normal_path(source))->0,
                recursive: true,
                pattern: Some(normal_path(source)),
            };
            let opening = seq![ReplyView::Completed, ReplyView::Metadata(found)];
            let listing = replies_for_listing(after(begun.0, opening), entries);
            &&& begun.1 == RequestView::OpenLister { path: plan.root, recursive: true }
            &&& transfers_of(requests(begun.0, opening + listing)) == expected_transfers(
                normal_path(destination),
                plan,
                entries,
            )
            &&& after(begun.0, opening + listing).state == StateView::Finished {
                outcome: Outcome::Done,
            }
        }),
{
    let begun = start_spec(source, destination, options);
    let pattern = normal_path(source);
    crate::glob::lemma_literal_prefix_iff_glob(pattern);
    let plan = ListerView {
        root: literal_prefix_of(pattern)->0,
        recursive: true,
        pattern: Some(pattern),
    };
    let opening = seq![ReplyView::Completed, ReplyView::Metadata(found)];
    let listed = after(begun.0, opening);
    let listing = replies_for_listing(listed, entries);
    reveal_with_fuel(requests, 3);
    reveal_with_fuel(after, 3);
    reveal_with_fuel(transfers_of, 3);
    let created = set![unix_path_key(normal_path(destination))];
    assert(listed.state == StateView::Listing { plan, created });
    lemma_listing_copied(listed, plan, created, entries);
    lemma_requests_append(begun.0, opening, listing);
    lemma_transfers_append(requests(begun.0, opening), requests(listed, listing));
    lemma_after_append(begun.0, opening, listing);
}

} // verus!
