//! The file manager's domain model: the current directory and its listing, the
//! selection, the sort and filter flags, and a bounded log of failures.
//!
//! The model never touches the filesystem. An operation that needs it queues
//! a [`FsRequest`]; the host takes the requests, carries them out in order, and
//! reports each outcome through the matching `apply_` method.

use crate::entry::{arrange, arrange_entries, entry_views, Entry, EntryView, SortDir};
use crate::string_ring_buffer::{keep_last, push_all, texts, StringRingBuffer};
use vstd::prelude::*;
use vstd::string::StringExecFns;

verus! {

/// The number of failures that the error log keeps.
pub const ERROR_LOG_CAPACITY: usize = 20;

/// What kind of filesystem operation failed.
#[derive(Clone, Copy, Debug, PartialEq, Eq, Structural)]
pub enum FsErrorKind {
    /// The directory to enter is missing, is no directory, or may not be read.
    NavigationError,
    /// A directory could not be enumerated, or an entry's metadata not read.
    ListingError,
    /// One selected path could not be copied.
    PasteError,
    /// One selected path could not be removed.
    DeletionError,
}

/// One failed filesystem operation, as the host reports it.
#[derive(Debug, PartialEq, Eq)]
pub struct FsError {
    pub kind: FsErrorKind,
    /// The path that the operation was about.
    pub path: String,
    /// The cause, in the filesystem's words.
    pub reason: String,
}

/// The mathematical value of an [`FsError`].
pub struct FsErrorView {
    pub kind: FsErrorKind,
    pub path: Seq<char>,
    pub reason: Seq<char>,
}

impl View for FsError {
    type V = FsErrorView;

    open spec fn view(&self) -> FsErrorView {
        FsErrorView { kind: self.kind, path: self.path@, reason: self.reason@ }
    }
}

/// The values of a sequence of failures, in the same order.
pub open spec fn error_views(errors: Seq<FsError>) -> Seq<FsErrorView> {
    errors.map_values(|e: FsError| e@)
}

/// How a message about a failure of the given kind begins.
pub open spec fn kind_label(kind: FsErrorKind) -> Seq<char> {
    match kind {
        FsErrorKind::NavigationError => "cannot enter "@,
        FsErrorKind::ListingError => "cannot list "@,
        FsErrorKind::PasteError => "cannot copy "@,
        FsErrorKind::DeletionError => "cannot delete "@,
    }
}

/// The message that the error log shows for a failure: what was attempted,
/// on which path, and why it failed.
pub open spec fn error_text(error: FsErrorView) -> Seq<char> {
    kind_label(error.kind) + error.path + ": "@ + error.reason
}

/// The messages for a sequence of failures, in the same order.
pub open spec fn error_texts(errors: Seq<FsErrorView>) -> Seq<Seq<char>> {
    errors.map_values(|e: FsErrorView| error_text(e))
}

impl FsError {
    /// The message that the error log shows for this failure.
    pub fn message(&self) -> (r: String)
        ensures
            r@ == error_text(self@),
    {
        let label = match self.kind {
            FsErrorKind::NavigationError => "cannot enter ",
            FsErrorKind::ListingError => "cannot list ",
            FsErrorKind::PasteError => "cannot copy ",
            FsErrorKind::DeletionError => "cannot delete ",
        };
        let mut out = label.to_owned();
        out.append(self.path.as_str());
        out.append(": ");
        out.append(self.reason.as_str());
        out
    }
}

/// The index given to [`FileManager::get_entry_at_index`] is past the end of
/// the listing.
#[derive(Clone, Copy, Debug, PartialEq, Eq, Structural)]
pub struct OutOfRange {
    /// The index that was asked for.
    pub index: usize,
    /// The number of entries listed.
    pub len: usize,
}

/// Filesystem work that the model asks the host to do.
#[derive(Debug, PartialEq, Eq)]
pub enum FsRequest {
    /// Enumerate the directory `dir`, and report through
    /// [`FileManager::apply_listing`].
    List { dir: String },
    /// Resolve `target`, which may be relative to `from` and may be `..`, to an
    /// absolute path, check that it is a readable directory, and report through
    /// [`FileManager::apply_change_dir`].
    ChangeDir { from: String, target: String },
    /// Copy `source` into the directory `into`, a directory with all it holds,
    /// leaving the source in place and overwriting nothing; report a failure
    /// through [`FileManager::apply_failures`].
    Copy { source: String, into: String },
    /// Remove `target` for good, a directory with all it holds; report a
    /// failure through [`FileManager::apply_failures`].
    Remove { target: String },
}

/// The mathematical value of an [`FsRequest`].
pub enum FsRequestView {
    List { dir: Seq<char> },
    ChangeDir { from: Seq<char>, target: Seq<char> },
    Copy { source: Seq<char>, into: Seq<char> },
    Remove { target: Seq<char> },
}

impl View for FsRequest {
    type V = FsRequestView;

    open spec fn view(&self) -> FsRequestView {
        match self {
            FsRequest::List { dir } => FsRequestView::List { dir: dir@ },
            FsRequest::ChangeDir { from, target } => FsRequestView::ChangeDir {
                from: from@,
                target: target@,
            },
            FsRequest::Copy { source, into } => FsRequestView::Copy {
                source: source@,
                into: into@,
            },
            FsRequest::Remove { target } => FsRequestView::Remove { target: target@ },
        }
    }
}

/// The values of a sequence of requests, in the same order.
pub open spec fn request_views(requests: Seq<FsRequest>) -> Seq<FsRequestView> {
    requests.map_values(|r: FsRequest| r@)
}

/// One request for each of `sources`, in order, to copy it into `into`.
pub open spec fn copy_requests(sources: Seq<Seq<char>>, into: Seq<char>) -> Seq<FsRequestView> {
    Seq::new(sources.len(), |i: int| FsRequestView::Copy { source: sources[i], into })
}

/// One request for each of `targets`, in order, to remove it.
pub open spec fn remove_requests(targets: Seq<Seq<char>>) -> Seq<FsRequestView> {
    Seq::new(targets.len(), |i: int| FsRequestView::Remove { target: targets[i] })
}

/// The state of a [`FileManager`] as a mathematical value, with each operation
/// as a function from state to state.
pub struct FileManagerView {
    /// The absolute path of the directory shown.
    pub current_dir: Seq<char>,
    /// The last enumeration of that directory that the host reported, in the
    /// filesystem's order; empty until the first arrives.
    pub listing: Seq<EntryView>,
    pub dir_sorting: SortDir,
    pub show_hidden: bool,
    /// The selected paths, in the order in which they were selected.
    pub selection: Seq<Seq<char>>,
    /// The failures not yet handed to the user interface, oldest first.
    pub error_log: Seq<Seq<char>>,
    /// The requests that the host has not taken yet, oldest first.
    pub requests: Seq<FsRequestView>,
}

impl FileManagerView {
    /// The state of a new file manager for the directory `dir`: nothing listed
    /// or selected, directories unsorted, hidden files left out, and one request
    /// to enumerate `dir`.
    pub open spec fn initial(dir: Seq<char>) -> FileManagerView {
        FileManagerView {
            current_dir: dir,
            listing: Seq::empty(),
            dir_sorting: SortDir::Unsorted,
            show_hidden: false,
            selection: Seq::empty(),
            error_log: Seq::empty(),
            requests: seq![FsRequestView::List { dir }],
        }
    }

    /// What holds of every state: no path is selected twice, and the error log
    /// holds no more than its capacity.
    pub open spec fn wf(self) -> bool {
        &&& self.selection.no_duplicates()
        &&& self.error_log.len() <= ERROR_LOG_CAPACITY
    }

    /// The entries shown: the enumeration, filtered and grouped by the flags.
    pub open spec fn entries(self) -> Seq<EntryView> {
        arrange(self.listing, self.show_hidden, self.dir_sorting)
    }

    /// Whether `path` is selected.
    pub open spec fn is_selected(self, path: Seq<char>) -> bool {
        self.selection.contains(path)
    }

    /// The state with one more failure in the log; the oldest is dropped when
    /// the log is full.
    pub open spec fn log(self, error: FsErrorView) -> FileManagerView {
        FileManagerView {
            error_log: keep_last(self.error_log.push(error_text(error)), ERROR_LOG_CAPACITY as nat),
            ..self
        }
    }

    /// The state with one more request for the host.
    pub open spec fn ask(self, request: FsRequestView) -> FileManagerView {
        FileManagerView { requests: self.requests.push(request), ..self }
    }

    /// The state after an update: the current directory is to be enumerated
    /// again.
    pub open spec fn update(self) -> FileManagerView {
        self.ask(FsRequestView::List { dir: self.current_dir })
    }

    /// The state after the host reported on the enumeration of `dir`. An
    /// enumeration of the current directory replaces the one held; one of another
    /// directory is stale and changes nothing; a failure is logged.
    pub open spec fn apply_listing(
        self,
        dir: Seq<char>,
        outcome: Result<Seq<EntryView>, FsErrorView>,
    ) -> FileManagerView {
        match outcome {
            Ok(listing) => if dir == self.current_dir {
                FileManagerView { listing, ..self }
            } else {
                self
            },
            Err(error) => self.log(error),
        }
    }

    /// The state after a change of directory was asked for: the host is to
    /// resolve `target`, and nothing else changes yet.
    pub open spec fn change_dir(self, target: Seq<char>) -> FileManagerView {
        self.ask(FsRequestView::ChangeDir { from: self.current_dir, target })
    }

    /// The state after the host reported on a change of directory. On
    /// success the resolved path is the current directory, nothing is listed, and
    /// the new directory is to be enumerated; a failure is logged and the
    /// current directory stays.
    pub open spec fn apply_change_dir(
        self,
        outcome: Result<Seq<char>, FsErrorView>,
    ) -> FileManagerView {
        match outcome {
            Ok(dir) => FileManagerView { current_dir: dir, listing: Seq::empty(), ..self }.update(),
            Err(error) => self.log(error),
        }
    }

    /// The state with the sort mode `sorting`.
    pub open spec fn set_dir_sorting(self, sorting: SortDir) -> FileManagerView {
        FileManagerView { dir_sorting: sorting, ..self }
    }

    /// The state with the sort mode one step further along its cycle.
    pub open spec fn toggle_dir_sorting(self) -> FileManagerView {
        self.set_dir_sorting(self.dir_sorting.spec_next())
    }

    /// The state with the hidden-file flag `show_hidden`.
    pub open spec fn set_show_hidden(self, show_hidden: bool) -> FileManagerView {
        FileManagerView { show_hidden, ..self }
    }

    /// The state with the hidden-file flag flipped.
    pub open spec fn toggle_hidden(self) -> FileManagerView {
        self.set_show_hidden(!self.show_hidden)
    }

    /// The state with `path` selected: it joins the selection at its end,
    /// unless it is selected already.
    pub open spec fn add_to_selection(self, path: Seq<char>) -> FileManagerView {
        if self.selection.contains(path) {
            self
        } else {
            FileManagerView { selection: self.selection.push(path), ..self }
        }
    }

    /// The state with `path` taken out of the selection.
    pub open spec fn remove_from_selection(self, path: Seq<char>) -> FileManagerView {
        FileManagerView { selection: self.selection.remove_value(path), ..self }
    }

    /// The state with nothing selected.
    pub open spec fn clear_selection(self) -> FileManagerView {
        FileManagerView { selection: Seq::empty(), ..self }
    }

    /// The state after a paste: every selected path is to be copied into the
    /// current directory, each by a request of its own, so that one path's
    /// failure does not keep the others from being copied.
    pub open spec fn paste(self) -> FileManagerView {
        FileManagerView {
            requests: self.requests + copy_requests(self.selection, self.current_dir),
            ..self
        }
    }

    /// The state after a deletion: every selected path is to be removed, each
    /// by a request of its own.
    pub open spec fn delete_selection(self) -> FileManagerView {
        FileManagerView { requests: self.requests + remove_requests(self.selection), ..self }
    }

    /// The state after the failures of `failures` were logged one after the
    /// other.
    pub open spec fn apply_failures(self, failures: Seq<FsErrorView>) -> FileManagerView {
        FileManagerView {
            error_log: push_all(
                self.error_log,
                error_texts(failures),
                ERROR_LOG_CAPACITY as nat,
            ),
            ..self
        }
    }

    /// The state after the error log was handed out.
    pub open spec fn take_errors(self) -> FileManagerView {
        FileManagerView { error_log: Seq::empty(), ..self }
    }

    /// The state after the requests were handed out.
    pub open spec fn take_requests(self) -> FileManagerView {
        FileManagerView { requests: Seq::empty(), ..self }
    }
}

/// The domain model of the file manager.
pub struct FileManager {
    current_dir: String,
    listing: Vec<Entry>,
    entries: Vec<Entry>,
    num_files: usize,
    dir_sorting: SortDir,
    show_hidden: bool,
    selection: Vec<String>,
    error_log: StringRingBuffer,
    requests: Vec<FsRequest>,
}

impl View for FileManager {
    type V = FileManagerView;

    closed spec fn view(&self) -> FileManagerView {
        FileManagerView {
            current_dir: self.current_dir@,
            listing: entry_views(self.listing@),
            dir_sorting: self.dir_sorting,
            show_hidden: self.show_hidden,
            selection: texts(self.selection@),
            error_log: self.error_log@,
            requests: request_views(self.requests@),
        }
    }
}

impl FileManager {
    /// The entries held are the enumeration arranged by the flags, their count
    /// is kept beside them, no path is selected twice, and the error log is a
    /// buffer of [`ERROR_LOG_CAPACITY`] messages.
    pub closed spec fn wf(&self) -> bool {
        &&& entry_views(self.entries@) == self@.entries()
        &&& self.num_files == self.entries@.len()
        &&& texts(self.selection@).no_duplicates()
        &&& self.error_log.wf()
        &&& self.error_log.spec_capacity() == ERROR_LOG_CAPACITY
    }

    /// What a well-formed file manager's state is known to satisfy.
    pub proof fn lemma_wf_view(&self)
        requires
            self.wf(),
        ensures
            self@.wf(),
    {
        self.error_log.lemma_wf_bounds();
    }

    /// A file manager for the directory `start_dir`, which the host gives as an
    /// absolute path. Its first request asks for that directory's enumeration.
    pub fn new(start_dir: String) -> (r: FileManager)
        ensures
            r.wf(),
            r@ == FileManagerView::initial(start_dir@),
    {
        let mut requests: Vec<FsRequest> = Vec::new();
        requests.push(FsRequest::List { dir: start_dir.clone() });
        let r = FileManager {
            current_dir: start_dir,
            listing: Vec::new(),
            entries: Vec::new(),
            num_files: 0,
            dir_sorting: SortDir::Unsorted,
            show_hidden: false,
            selection: Vec::new(),
            error_log: StringRingBuffer::with_capacity(ERROR_LOG_CAPACITY),
            requests,
        };
        proof {
            reveal(Seq::filter);
            assert(r@.listing =~= Seq::<EntryView>::empty());
            assert(r@.selection =~= Seq::<Seq<char>>::empty());
            assert(r@.requests =~= seq![FsRequestView::List { dir: start_dir@ }]);
            assert(entry_views(r.entries@) =~= r@.entries());
        }
        r
    }

    /// Rebuilds the entries shown from the enumeration held and the flags.
    fn rearrange(&mut self)
        requires
            texts(old(self).selection@).no_duplicates(),
            old(self).error_log.wf(),
            old(self).error_log.spec_capacity() == ERROR_LOG_CAPACITY,
        ensures
            final(self).wf(),
            final(self)@ == old(self)@,
    {
        let entries = arrange_entries(&self.listing, self.show_hidden, self.dir_sorting);
        self.num_files = entries.len();
        self.entries = entries;
    }

    /// Queues `request` for the host.
    fn ask(&mut self, request: FsRequest)
        requires
            old(self).wf(),
        ensures
            final(self).wf(),
            final(self)@ == old(self)@.ask(request@),
    {
        self.requests.push(request);
        assert(request_views(self.requests@) =~= request_views(old(self).requests@).push(
            request@,
        ));
    }

    /// Records one failure in the error log.
    fn log(&mut self, error: &FsError)
        requires
            old(self).wf(),
        ensures
            final(self).wf(),
            final(self)@ == old(self)@.log(error@),
    {
        self.error_log.push(error.message());
    }

    /// The absolute path of the directory shown.
    pub fn current_dir(&self) -> (r: &String)
        ensures
            r@ == self@.current_dir,
    {
        &self.current_dir
    }

    /// The number of entries shown.
    pub fn num_files(&self) -> (r: usize)
        requires
            self.wf(),
        ensures
            r == self@.entries().len(),
    {
        self.num_files
    }

    /// The directory sort mode in force.
    pub fn dir_sorting(&self) -> (r: SortDir)
        ensures
            r == self@.dir_sorting,
    {
        self.dir_sorting
    }

    /// Whether hidden files are shown.
    pub fn show_hidden(&self) -> (r: bool)
        ensures
            r == self@.show_hidden,
    {
        self.show_hidden
    }

    /// The entries shown, in the order shown.
    pub fn get_entries(&self) -> (r: &Vec<Entry>)
        requires
            self.wf(),
        ensures
            entry_views(r@) == self@.entries(),
    {
        &self.entries
    }

    /// The entry shown at `index`, or [`OutOfRange`] when the listing has no
    /// such row.
    pub fn get_entry_at_index(&self, index: usize) -> (r: Result<&Entry, OutOfRange>)
        requires
            self.wf(),
        ensures
            match r {
                Ok(entry) => index < self@.entries().len() && entry@ == self@.entries()[
                    index as int
                ],
                Err(error) => index >= self@.entries().len() && error == (OutOfRange {
                    index,
                    len: self@.entries().len() as usize,
                }),
            },
    {
        if index < self.entries.len() {
            Ok(&self.entries[index])
        } else {
            Err(OutOfRange { index, len: self.entries.len() })
        }
    }

    /// Asks the host to enumerate the current directory again. The entries
    /// shown are rebuilt when the enumeration arrives.
    pub fn update(&mut self)
        requires
            old(self).wf(),
        ensures
            final(self).wf(),
            final(self)@ == old(self)@.update(),
    {
        let dir = self.current_dir.clone();
        self.ask(FsRequest::List { dir });
    }

    /// Takes the outcome of enumerating `dir`. An enumeration of the current
    /// directory replaces the one held, and the entries shown are rebuilt from
    /// it; one of another directory is stale and is dropped. A failure goes to
    /// the error log, and the entries shown stay as they are.
    pub fn apply_listing(&mut self, dir: &String, outcome: Result<Vec<Entry>, FsError>)
        requires
            old(self).wf(),
        ensures
            final(self).wf(),
            final(self)@ == old(self)@.apply_listing(
                dir@,
                match outcome {
                    Ok(listing) => Ok(entry_views(listing@)),
                    Err(error) => Err(error@),
                },
            ),
    {
        match outcome {
            Ok(listing) => {
                if *dir == self.current_dir {
                    self.listing = listing;
                    self.rearrange();
                }
            },
            Err(error) => {
                self.log(&error);
            },
        }
    }

    /// Asks the host to resolve `path` and check that it is a directory that
    /// can be entered. The current directory changes only when the host
    /// reports success.
    pub fn change_dir(&mut self, path: String)
        requires
            old(self).wf(),
        ensures
            final(self).wf(),
            final(self)@ == old(self)@.change_dir(path@),
    {
        let from = self.current_dir.clone();
        self.ask(FsRequest::ChangeDir { from, target: path });
    }

    /// Takes the outcome of a change of directory. On success the resolved
    /// path becomes the current directory, the old listing is dropped, and the
    /// new directory's enumeration is asked for. On failure the error is
    /// logged and the current directory stays.
    pub fn apply_change_dir(&mut self, outcome: Result<String, FsError>)
        requires
            old(self).wf(),
        ensures
            final(self).wf(),
            final(self)@ == old(self)@.apply_change_dir(
                match outcome {
                    Ok(dir) => Ok(dir@),
                    Err(error) => Err(error@),
                },
            ),
    {
        match outcome {
            Ok(dir) => {
                self.current_dir = dir;
                self.listing = Vec::new();
                assert(entry_views(self.listing@) =~= Seq::<EntryView>::empty());
                self.rearrange();
                self.update();
            },
            Err(error) => {
                self.log(&error);
            },
        }
    }

    /// Sets the directory sort mode and rebuilds the entries shown.
    pub fn set_dir_sorting(&mut self, sorting: SortDir)
        requires
            old(self).wf(),
        ensures
            final(self).wf(),
            final(self)@ == old(self)@.set_dir_sorting(sorting),
    {
        self.dir_sorting = sorting;
        self.rearrange();
    }

    /// Moves the directory sort mode one step along its cycle.
    pub fn toggle_dir_sorting(&mut self)
        requires
            old(self).wf(),
        ensures
            final(self).wf(),
            final(self)@ == old(self)@.toggle_dir_sorting(),
    {
        let sorting = self.dir_sorting.next();
        self.set_dir_sorting(sorting);
    }

    /// Sets the hidden-file flag and rebuilds the entries shown.
    pub fn set_show_hidden(&mut self, show_hidden: bool)
        requires
            old(self).wf(),
        ensures
            final(self).wf(),
            final(self)@ == old(self)@.set_show_hidden(show_hidden),
    {
        self.show_hidden = show_hidden;
        self.rearrange();
    }

    /// Flips the hidden-file flag.
    pub fn toggle_hidden(&mut self)
        requires
            old(self).wf(),
        ensures
            final(self).wf(),
            final(self)@ == old(self)@.toggle_hidden(),
    {
        let show_hidden = !self.show_hidden;
        self.set_show_hidden(show_hidden);
    }

    /// The place of `path` in the selection, if it is selected.
    fn selection_index(&self, path: &String) -> (r: Option<usize>)
        ensures
            match r {
                Some(i) => i < self.selection@.len() && self.selection@[i as int]@ == path@
                    && forall|j: int| 0 <= j < i ==> self.selection@[j]@ != path@,
                None => !texts(self.selection@).contains(path@),
            },
    {
        for i in 0..self.selection.len()
            invariant
                forall|j: int| 0 <= j < i ==> self.selection@[j]@ != path@,
        {
            if self.selection[i] == *path {
                return Some(i);
            }
        }
        None
    }

    /// Whether `path` is selected.
    pub fn is_selected(&self, path: &String) -> (r: bool)
        ensures
            r == self@.is_selected(path@),
    {
        let found = self.selection_index(path);
        proof {
            if let Some(i) = found {
                assert(texts(self.selection@)[i as int] == path@);
            }
        }
        found.is_some()
    }

    /// Selects `path`. Nothing changes when it is selected already.
    pub fn add_to_selection(&mut self, path: String)
        requires
            old(self).wf(),
        ensures
            final(self).wf(),
            final(self)@ == old(self)@.add_to_selection(path@),
    {
        if !self.is_selected(&path) {
            self.selection.push(path);
            assert(texts(self.selection@) =~= texts(old(self).selection@).push(path@));
        }
    }

    /// Takes `path` out of the selection. Nothing changes when it is not
    /// selected.
    pub fn remove_from_selection(&mut self, path: String)
        requires
            old(self).wf(),
        ensures
            final(self).wf(),
            final(self)@ == old(self)@.remove_from_selection(path@),
    {
        let ghost before = texts(self.selection@);
        match self.selection_index(&path) {
            Some(i) => {
                proof {
                    lemma_first_occurrence(before, path@, i as int);
                    lemma_remove_keeps_distinct(before, i as int);
                }
                self.selection.remove(i);
                assert(texts(self.selection@) =~= before.remove(i as int));
            },
            None => {
                proof {
                    before.index_of_first_ensures(path@);
                }
            },
        }
    }

    /// Empties the selection.
    pub fn clear_selection(&mut self)
        requires
            old(self).wf(),
        ensures
            final(self).wf(),
            final(self)@ == old(self)@.clear_selection(),
    {
        self.selection.clear();
        assert(texts(self.selection@) =~= Seq::<Seq<char>>::empty());
    }

    /// Asks the host to copy every selected path into the current directory,
    /// path by path. The selection stays as it is.
    pub fn paste(&mut self)
        requires
            old(self).wf(),
        ensures
            final(self).wf(),
            final(self)@ == old(self)@.paste(),
    {
        let ghost asked = copy_requests(self@.selection, self@.current_dir);
        assert(self@.requests + asked.take(0) =~= self@.requests);
        let count = self.selection.len();
        for i in 0..count
            invariant
                self.wf(),
                count == self.selection@.len(),
                asked == copy_requests(old(self)@.selection, old(self)@.current_dir),
                self@ == (FileManagerView {
                    requests: old(self)@.requests + asked.take(i as int),
                    ..old(self)@
                }),
        {
            assert(texts(self.selection@)[i as int] == self.selection@[i as int]@);
            let request = FsRequest::Copy {
                source: self.selection[i].clone(),
                into: self.current_dir.clone(),
            };
            assert(old(self)@.requests + asked.take(i + 1) =~= (old(self)@.requests + asked.take(
                i as int,
            )).push(request@));
            self.ask(request);
        }
        assert(asked.take(self.selection@.len() as int) =~= asked);
    }

    /// Asks the host to remove every selected path for good, path by path.
    pub fn delete_selection(&mut self)
        requires
            old(self).wf(),
        ensures
            final(self).wf(),
            final(self)@ == old(self)@.delete_selection(),
    {
        let ghost asked = remove_requests(self@.selection);
        assert(self@.requests + asked.take(0) =~= self@.requests);
        let count = self.selection.len();
        for i in 0..count
            invariant
                self.wf(),
                count == self.selection@.len(),
                asked == remove_requests(old(self)@.selection),
                self@ == (FileManagerView {
                    requests: old(self)@.requests + asked.take(i as int),
                    ..old(self)@
                }),
        {
            assert(texts(self.selection@)[i as int] == self.selection@[i as int]@);
            let request = FsRequest::Remove { target: self.selection[i].clone() };
            assert(old(self)@.requests + asked.take(i + 1) =~= (old(self)@.requests + asked.take(
                i as int,
            )).push(request@));
            self.ask(request);
        }
        assert(asked.take(self.selection@.len() as int) =~= asked);
    }

    /// Takes failures that the host met with, such as that of one copy or of
    /// one removal, and logs each in the order given.
    pub fn apply_failures(&mut self, failures: Vec<FsError>)
        requires
            old(self).wf(),
        ensures
            final(self).wf(),
            final(self)@ == old(self)@.apply_failures(error_views(failures@)),
    {
        let ghost all = error_texts(error_views(failures@));
        let ghost log_before = self.error_log@;
        assert(all.take(0) =~= Seq::<Seq<char>>::empty());
        for i in 0..failures.len()
            invariant
                self.wf(),
                all == error_texts(error_views(failures@)),
                log_before == old(self)@.error_log,
                self@ == (FileManagerView {
                    error_log: push_all(log_before, all.take(i as int), ERROR_LOG_CAPACITY as nat),
                    ..old(self)@
                }),
        {
            assert(all.take(i + 1).drop_last() =~= all.take(i as int));
            assert(all.take(i + 1).last() == error_text(failures@[i as int]@));
            self.log(&failures[i]);
        }
        assert(all.take(failures@.len() as int) =~= all);
    }

    /// Hands out the failures logged since the last call, oldest first, and
    /// empties the log.
    pub fn take_errors(&mut self) -> (out: Vec<String>)
        requires
            old(self).wf(),
        ensures
            final(self).wf(),
            final(self)@ == old(self)@.take_errors(),
            texts(out@) == old(self)@.error_log,
    {
        self.error_log.drain()
    }

    /// Hands out the requests queued since the last call, oldest first, and
    /// empties the queue.
    pub fn take_requests(&mut self) -> (out: Vec<FsRequest>)
        requires
            old(self).wf(),
        ensures
            final(self).wf(),
            final(self)@ == old(self)@.take_requests(),
            request_views(out@) == old(self)@.requests,
    {
        let mut out: Vec<FsRequest> = Vec::new();
        std::mem::swap(&mut self.requests, &mut out);
        assert(request_views(self.requests@) =~= Seq::<FsRequestView>::empty());
        out
    }
}

/// The first place at which `needle` occurs in `s` is `at`, where it occurs
/// at `at` and nowhere before.
proof fn lemma_first_occurrence<A>(s: Seq<A>, needle: A, at: int)
    requires
        0 <= at < s.len(),
        s[at] == needle,
        forall|j: int| 0 <= j < at ==> s[j] != needle,
    ensures
        s.index_of_first(needle) == Some(at),
{
    s.index_of_first_ensures(needle);
}

/// A sequence without duplicates has none after an element was taken out.
proof fn lemma_remove_keeps_distinct<A>(s: Seq<A>, at: int)
    requires
        0 <= at < s.len(),
        s.no_duplicates(),
    ensures
        s.remove(at).no_duplicates(),
{
    let rest = s.remove(at);
    assert forall|i: int, j: int| 0 <= i < rest.len() && 0 <= j < rest.len() && i != j implies rest[i]
        != rest[j] by {
        let a = if i < at {
            i
        } else {
            i + 1
        };
        let b = if j < at {
            j
        } else {
            j + 1
        };
        assert(rest[i] == s[a] && rest[j] == s[b]);
    }
}

/// Selecting and deselecting are idempotent and touch no other path. In a
/// state where no path is selected twice: a path is selected after it was
/// added and is not after it was removed; adding or removing it a second time
/// changes nothing; neither changes whether another path is selected; and
/// neither selects a path twice.
pub proof fn lemma_selection_is_a_set(state: FileManagerView, path: Seq<char>, other: Seq<char>)
    requires
        state.wf(),
        other != path,
    ensures
        state.add_to_selection(path).is_selected(path),
        !state.remove_from_selection(path).is_selected(path),
        state.add_to_selection(path).add_to_selection(path) == state.add_to_selection(path),
        state.remove_from_selection(path).remove_from_selection(path)
            == state.remove_from_selection(path),
        state.add_to_selection(path).is_selected(other) == state.is_selected(other),
        state.remove_from_selection(path).is_selected(other) == state.is_selected(other),
        state.add_to_selection(path).wf(),
        state.remove_from_selection(path).wf(),
        !state.clear_selection().is_selected(path),
{
    let held = state.selection;
    let added = state.add_to_selection(path).selection;
    let removed = state.remove_from_selection(path).selection;
    held.index_of_first_ensures(path);
    removed.index_of_first_ensures(path);
    if !held.contains(path) {
        assert(added[held.len() as int] == path);
        assert forall|i: int, j: int|
            0 <= i < added.len() && 0 <= j < added.len() && i != j implies added[i]
            != added[j] by {
            if i == held.len() {
                assert(held.contains(added[j]) || added[j] != path);
            }
            if j == held.len() {
                assert(held.contains(added[i]) || added[i] != path);
            }
        }
    }
    if held.contains(other) {
        let k = held.index_of(other);
        if !held.contains(path) {
            assert(added[k] == other);
        }
    }
    if added.contains(other) {
        let k = added.index_of(other);
        assert(held[k] == other);
    }
    match held.index_of_first(path) {
        Some(at) => {
            assert(removed =~= held.remove(at));
            assert forall|i: int| 0 <= i < removed.len() implies removed[i] != path by {
                if i < at {
                    assert(removed[i] == held[i]);
                } else {
                    assert(removed[i] == held[i + 1]);
                }
            }
            lemma_remove_keeps_distinct(held, at);
            if held.contains(other) {
                let k = held.index_of(other);
                if k < at {
                    assert(removed[k] == other);
                } else {
                    assert(removed[k - 1] == other);
                }
            }
            if removed.contains(other) {
                let k = removed.index_of(other);
                if k < at {
                    assert(held[k] == other);
                } else {
                    assert(held[k + 1] == other);
                }
            }
        },
        None => {},
    }
}

/// The selection does not depend on what is listed. No operation but
/// selecting, deselecting and clearing changes the selection: not a change of
/// directory, asked for or carried out, not an enumeration or its failure, not
/// a change of the sort mode or of the hidden-file flag, not pasting or
/// deleting, and not the host's taking of requests and errors.
pub proof fn lemma_selection_outlives_listing(
    state: FileManagerView,
    dir: Seq<char>,
    target: Seq<char>,
    listed: Result<Seq<EntryView>, FsErrorView>,
    changed: Result<Seq<char>, FsErrorView>,
    failures: Seq<FsErrorView>,
    sorting: SortDir,
    show_hidden: bool,
)
    ensures
        state.update().selection == state.selection,
        state.apply_listing(dir, listed).selection == state.selection,
        state.change_dir(target).selection == state.selection,
        state.apply_change_dir(changed).selection == state.selection,
        state.set_dir_sorting(sorting).selection == state.selection,
        state.toggle_dir_sorting().selection == state.selection,
        state.set_show_hidden(show_hidden).selection == state.selection,
        state.toggle_hidden().selection == state.selection,
        state.paste().selection == state.selection,
        state.delete_selection().selection == state.selection,
        state.apply_failures(failures).selection == state.selection,
        state.take_errors().selection == state.selection,
        state.take_requests().selection == state.selection,
{
}

/// A selected path stays selected through a walk away and back. After
/// `path` was selected, a change into the directory `away`, its enumeration, a
/// change back into `home`, its enumeration, and a turn of both flags leave
/// `path` selected, whatever the directories hold, and though `path` may not be
/// listed anywhere on the way.
pub proof fn lemma_selected_path_survives_navigation(
    state: FileManagerView,
    path: Seq<char>,
    away: Seq<char>,
    away_listing: Seq<EntryView>,
    home: Seq<char>,
    home_listing: Seq<EntryView>,
)
    ensures
        state.add_to_selection(path).change_dir(away).apply_change_dir(Ok(away)).apply_listing(
            away,
            Ok(away_listing),
        ).change_dir(home).apply_change_dir(Ok(home)).apply_listing(
            home,
            Ok(home_listing),
        ).toggle_dir_sorting().toggle_hidden().is_selected(path),
{
    let selected = state.add_to_selection(path);
    if !state.selection.contains(path) {
        assert(selected.selection[state.selection.len() as int] == path);
    }
}

/// The flags turn in cycles. Turning the hidden-file flag twice restores
/// the state, and with it the listing shown; so it does when the directory was
/// enumerated again after each turn and held the same. Three turns of the sort
/// mode restore the state as well.
pub proof fn lemma_flags_cycle(state: FileManagerView)
    ensures
        state.toggle_hidden().toggle_hidden() == state,
        state.toggle_hidden().apply_listing(state.current_dir, Ok(state.listing)).toggle_hidden()
            .apply_listing(state.current_dir, Ok(state.listing)).entries() == state.entries(),
        state.toggle_dir_sorting().toggle_dir_sorting().toggle_dir_sorting() == state,
{
}

/// The listing follows the flags in every state. With directories first,
/// every directory shown stands before every other entry shown; with
/// directories last, after it; unsorted, the entries shown stand in the order
/// of the enumeration. While hidden files are left out, no entry shown has a
/// hidden name; while they are shown, every entry of the enumeration is shown,
/// as often as it was enumerated.
pub proof fn lemma_entries_follow_flags(state: FileManagerView)
    ensures
        state.dir_sorting == SortDir::Start ==> forall|i: int, j: int|
            0 <= i < state.entries().len() && 0 <= j < state.entries().len()
                && state.entries()[i].is_dir && !state.entries()[j].is_dir ==> i < j,
        state.dir_sorting == SortDir::End ==> forall|i: int, j: int|
            0 <= i < state.entries().len() && 0 <= j < state.entries().len()
                && state.entries()[i].is_dir && !state.entries()[j].is_dir ==> j < i,
        state.dir_sorting == SortDir::Unsorted ==> crate::entry::keeps_order(
            state.entries(),
            state.listing,
        ),
        !state.show_hidden ==> forall|i: int|
            0 <= i < state.entries().len() ==> !crate::entry::is_hidden_name(
                #[trigger] state.entries()[i].name,
            ),
        state.show_hidden ==> state.entries().to_multiset() == state.listing.to_multiset(),
{
    crate::entry::lemma_listing_order(state.listing, state.show_hidden);
    crate::entry::lemma_hidden_filter(state.listing, state.dir_sorting);
}

/// The error log keeps the most recent failures. After the failures of
/// `failures` were logged, the log holds the last [`ERROR_LOG_CAPACITY`] of what
/// it held and of their messages, in the order in which they came.
pub proof fn lemma_error_log_keeps_most_recent(state: FileManagerView, failures: Seq<FsErrorView>)
    requires
        state.wf(),
    ensures
        state.apply_failures(failures).error_log == keep_last(
            state.error_log + error_texts(failures),
            ERROR_LOG_CAPACITY as nat,
        ),
        failures.len() >= ERROR_LOG_CAPACITY ==> state.apply_failures(failures).error_log
            == keep_last(error_texts(failures), ERROR_LOG_CAPACITY as nat),
        state.apply_failures(failures).wf(),
{
    crate::string_ring_buffer::lemma_push_all_keeps_most_recent(
        state.error_log,
        error_texts(failures),
        ERROR_LOG_CAPACITY as nat,
    );
}

} // verus!
