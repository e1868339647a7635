//! The traversal-and-dispatch engine.
//!
//! The engine is a state machine. The surrounding application performs
//! every file-system and image operation and feeds the outcome back; the
//! machine decides, step by step, which action comes next. Its policy:
//!
//! - the input path is checked for existence before any traversal, and a
//!   missing input fails the run at once;
//! - a directory listing contributes its files for dispatch in order,
//!   and its subdirectories for descent only when recursion is on;
//! - every file is routed by its classification: the structured format
//!   to the decode/re-encode pipeline, ordinary raster images to direct
//!   removal, and anything else to a warning-only skip;
//! - the first failure of any step ends the run immediately: no file
//!   after the failing one is ever dispatched (fail-fast), and the
//!   configuration is never changed while a run lasts.

use vstd::prelude::*;
use vstd::pervasive::unreached;
use crate::classify::{classify, classification_of, FileClassification};
use crate::config::ProcessingConfig;

verus! {

/// What a directory listing says one of its entries is.
#[derive(Clone, Copy, Debug, PartialEq, Eq, Structural)]
pub enum EntryKind {
    /// A regular file.
    File,
    /// A directory.
    Dir,
    /// Anything else (a symlink, a socket, ...): never dispatched.
    Other,
}

/// One entry of a directory listing, as the application reports it.
#[derive(Debug)]
pub struct Entry {
    /// The full path of the entry.
    pub path: String,
    /// What the entry is.
    pub kind: EntryKind,
}

impl View for Entry {
    type V = (EntryKind, Seq<char>);

    open spec fn view(&self) -> (EntryKind, Seq<char>) {
        (self.kind, self.path@)
    }
}

/// The kind of a pending work item.
#[derive(Clone, Copy, Debug, PartialEq, Eq, Structural)]
pub enum NodeKind {
    /// A file waiting to be dispatched.
    File,
    /// A directory waiting to be listed.
    Dir,
}

struct WorkItem {
    kind: NodeKind,
    path: String,
}

/// How a single file is to be handled, decided by its classification.
#[derive(Clone, Copy, Debug, PartialEq, Eq, Structural)]
pub enum DispatchPlan {
    /// Run the structured-format pipeline: decode, apply removal with
    /// the given threshold, re-encode.
    Structured { threshold: u8 },
    /// Run letterbox removal directly with the given threshold.
    Direct { threshold: u8 },
    /// Emit a warning and leave the file untouched: it is not an image.
    SkipNonImage,
}

/// An error that ends a run.
#[derive(Debug, PartialEq, Eq)]
pub enum RunError {
    /// The input path does not exist; raised before any traversal.
    InputNotFound { path: String },
    /// A directory could not be listed.
    DirectoryReadError { dir: String, message: String },
    /// A file operation failed; wraps the collaborator's message with
    /// the offending path.
    FileProcessingError { path: String, message: String },
}

/// The mathematical value of a [`RunError`].
pub enum RunErrorV {
    InputNotFound { path: Seq<char> },
    DirectoryReadError { dir: Seq<char>, message: Seq<char> },
    FileProcessingError { path: Seq<char>, message: Seq<char> },
}

impl View for RunError {
    type V = RunErrorV;

    open spec fn view(&self) -> RunErrorV {
        match self {
            RunError::InputNotFound { path } => RunErrorV::InputNotFound { path: path@ },
            RunError::DirectoryReadError { dir, message } => (RunErrorV::DirectoryReadError {
                dir: dir@,
                message: message@,
            }),
            RunError::FileProcessingError { path, message } => (RunErrorV::FileProcessingError {
                path: path@,
                message: message@,
            }),
        }
    }
}

/// The next thing the application must do for the engine.
#[derive(Debug, PartialEq, Eq)]
pub enum Action {
    /// Report whether this path exists and whether it is a regular file
    /// or a directory.
    StatInput { path: String },
    /// List this directory and report its entries, or that the listing
    /// failed.
    ReadDir { path: String },
    /// Carry out the plan on this file and report success or failure.
    ProcessFile { path: String, plan: DispatchPlan },
    /// The run is over, with this result.
    Finish { result: Result<(), RunError> },
}

/// The mathematical value of an [`Action`].
pub enum ActionV {
    StatInput { path: Seq<char> },
    ReadDir { path: Seq<char> },
    ProcessFile { path: Seq<char>, plan: DispatchPlan },
    FinishOk,
    FinishErr { error: RunErrorV },
}

impl View for Action {
    type V = ActionV;

    open spec fn view(&self) -> ActionV {
        match self {
            Action::StatInput { path } => ActionV::StatInput { path: path@ },
            Action::ReadDir { path } => ActionV::ReadDir { path: path@ },
            Action::ProcessFile { path, plan } => (ActionV::ProcessFile {
                path: path@,
                plan: *plan,
            }),
            Action::Finish { result } => match result {
                Ok(_) => ActionV::FinishOk,
                Err(e) => ActionV::FinishErr { error: e@ },
            },
        }
    }
}

/// The dispatch plan for a path: the structured pipeline for the
/// structured format, direct removal for a raster image, a skip for
/// everything else. The threshold is the configured one in either
/// processing plan.
pub open spec fn plan_of(path: Seq<char>, threshold: u8) -> DispatchPlan {
    match classification_of(path) {
        FileClassification::StructuredFormat => DispatchPlan::Structured { threshold },
        FileClassification::StandardImage => DispatchPlan::Direct { threshold },
        FileClassification::NonImage => DispatchPlan::SkipNonImage,
    }
}

/// Decides how a single file is handled, from its path and the
/// configured threshold.
pub fn plan_for(path: &str, threshold: u8) -> (p: DispatchPlan)
    ensures
        p == plan_of(path@, threshold),
{
    match classify(path) {
        FileClassification::StructuredFormat => DispatchPlan::Structured { threshold },
        FileClassification::StandardImage => DispatchPlan::Direct { threshold },
        FileClassification::NonImage => DispatchPlan::SkipNonImage,
    }
}

/// A path is only ever skipped when it is classified as a non-image,
/// and every non-image is skipped: a skip is never an error, and no
/// image operation is ever planned for a non-image.
pub proof fn lemma_non_image_is_skipped(path: Seq<char>, threshold: u8)
    ensures
        plan_of(path, threshold) == DispatchPlan::SkipNonImage <==> classification_of(path)
            == FileClassification::NonImage,
{
}

/// The views of a listing's entries, in listing order.
pub open spec fn entry_views(entries: Seq<Entry>) -> Seq<(EntryKind, Seq<char>)> {
    entries.map_values(|e: Entry| e@)
}

/// What one directory entry contributes to the worklist: a file is
/// kept for dispatch; a directory is kept for descent only when
/// recursion is on; anything else is dropped.
pub open spec fn kept_item(e: (EntryKind, Seq<char>), recursive: bool) -> Seq<
    (NodeKind, Seq<char>),
> {
    match e.0 {
        EntryKind::File => seq![(NodeKind::File, e.1)],
        EntryKind::Dir => if recursive {
            seq![(NodeKind::Dir, e.1)]
        } else {
            Seq::empty()
        },
        EntryKind::Other => Seq::empty(),
    }
}

/// What a whole directory listing contributes to the worklist, in
/// listing order.
pub open spec fn planned(entries: Seq<(EntryKind, Seq<char>)>, recursive: bool) -> Seq<
    (NodeKind, Seq<char>),
>
    decreases entries.len(),
{
    if entries.len() == 0 {
        Seq::empty()
    } else {
        kept_item(entries[0], recursive) + planned(entries.drop_first(), recursive)
    }
}

/// When recursion is off, a listing contributes only files to the
/// worklist: no directory is ever scheduled for descent, so nothing
/// below a subdirectory is ever touched.
pub proof fn lemma_non_recursive_never_descends(entries: Seq<(EntryKind, Seq<char>)>)
    ensures
        forall|i: int|
            0 <= i < planned(entries, false).len() ==> (#[trigger] planned(entries, false)[i]).0
                == NodeKind::File,
    decreases entries.len(),
{
    if entries.len() > 0 {
        lemma_non_recursive_never_descends(entries.drop_first());
    }
}

proof fn lemma_planned_push(
    s: Seq<(EntryKind, Seq<char>)>,
    e: (EntryKind, Seq<char>),
    recursive: bool,
)
    ensures
        planned(s.push(e), recursive) == planned(s, recursive) + kept_item(e, recursive),
    decreases s.len(),
{
    if s.len() == 0 {
        assert(s.push(e).drop_first() =~= s);
        assert(planned(s.push(e), recursive) =~= planned(s, recursive) + kept_item(e, recursive));
    } else {
        assert(s.push(e)[0] == s[0]);
        assert(s.push(e).drop_first() =~= s.drop_first().push(e));
        lemma_planned_push(s.drop_first(), e, recursive);
        assert(planned(s.push(e), recursive) =~= planned(s, recursive) + kept_item(e, recursive));
    }
}

enum Phase {
    Start,
    AwaitingDir { dir: String },
    AwaitingFile { path: String },
    Done,
}

/// The traversal driver: decides, from the outcome of each step, what
/// the application must do next.
pub struct Driver {
    config: ProcessingConfig,
    input: String,
    work: Vec<WorkItem>,
    phase: Phase,
}

/// What a driver must look like, and which action it must have
/// produced, after its worklist advanced: an empty worklist ends the
/// run successfully; otherwise the front item is dispatched (a file)
/// or listed (a directory) and the rest stays pending.
pub open spec fn advance_post(
    pre_work: Seq<(NodeKind, Seq<char>)>,
    threshold: u8,
    post: Driver,
    a: Action,
) -> bool {
    if pre_work.len() == 0 {
        &&& a@ == ActionV::FinishOk
        &&& post.done()
        &&& post.work_views() == pre_work
    } else {
        &&& post.work_views() == pre_work.drop_first()
        &&& pre_work[0].0 == NodeKind::File ==> {
            &&& a@ == (ActionV::ProcessFile {
                path: pre_work[0].1,
                plan: plan_of(pre_work[0].1, threshold),
            })
            &&& post.awaiting_file()
            &&& post.awaited_path() == pre_work[0].1
        }
        &&& pre_work[0].0 == NodeKind::Dir ==> {
            &&& a@ == (ActionV::ReadDir { path: pre_work[0].1 })
            &&& post.awaiting_dir()
            &&& post.awaited_dir() == pre_work[0].1
        }
    }
}

impl Driver {
    /// The configuration of this run; identical for every file
    /// processed in it.
    pub closed spec fn configuration(&self) -> ProcessingConfig {
        self.config
    }

    /// The input path this run was started on.
    pub closed spec fn input_path(&self) -> Seq<char> {
        self.input@
    }

    /// The pending worklist: what is still to be dispatched or listed,
    /// front first.
    pub closed spec fn work_views(&self) -> Seq<(NodeKind, Seq<char>)> {
        self.work@.map_values(|w: WorkItem| (w.kind, w.path@))
    }

    /// The run has not begun: the input has not been inspected yet.
    pub closed spec fn at_start(&self) -> bool {
        self.phase matches Phase::Start
    }

    /// A directory listing has been requested and not yet answered.
    pub closed spec fn awaiting_dir(&self) -> bool {
        self.phase matches Phase::AwaitingDir { .. }
    }

    /// The directory whose listing is awaited.
    pub closed spec fn awaited_dir(&self) -> Seq<char> {
        match self.phase {
            Phase::AwaitingDir { dir } => dir@,
            _ => Seq::empty(),
        }
    }

    /// A file outcome has been requested and not yet answered.
    pub closed spec fn awaiting_file(&self) -> bool {
        self.phase matches Phase::AwaitingFile { .. }
    }

    /// The file whose outcome is awaited.
    pub closed spec fn awaited_path(&self) -> Seq<char> {
        match self.phase {
            Phase::AwaitingFile { path } => path@,
            _ => Seq::empty(),
        }
    }

    /// The run is over: the driver accepts no further event and emits
    /// no further action.
    pub closed spec fn done(&self) -> bool {
        self.phase matches Phase::Done
    }

    /// Starts a run on an input path with a fixed configuration.
    pub fn new(input: String, config: ProcessingConfig) -> (d: Driver)
        ensures
            d.at_start(),
            d.configuration() == config,
            d.input_path() == input@,
            d.work_views() == Seq::<(NodeKind, Seq<char>)>::empty(),
    {
        let d = Driver { config, input, work: Vec::new(), phase: Phase::Start };
        proof {
            assert(d.work_views() =~= Seq::<(NodeKind, Seq<char>)>::empty());
        }
        d
    }

    /// The first action of every run: inspect the input path.
    pub fn initial_action(&self) -> (a: Action)
        requires
            self.at_start(),
        ensures
            a@ == (ActionV::StatInput { path: self.input_path() }),
    {
        Action::StatInput { path: self.input.clone() }
    }

    /// Absorbs what the input path turned out to be. A missing input
    /// fails the run with `InputNotFound` before any traversal: the
    /// worklist is untouched and no listing is ever requested. A
    /// regular file is dispatched directly; a directory is listed; an
    /// input that is neither ends the run successfully.
    pub fn on_input_stat(&mut self, present: bool, is_file: bool, is_dir: bool) -> (a: Action)
        requires
            old(self).at_start(),
        ensures
            final(self).configuration() == old(self).configuration(),
            final(self).input_path() == old(self).input_path(),
            final(self).work_views() == old(self).work_views(),
            !present ==> {
                &&& a@ == (ActionV::FinishErr {
                    error: RunErrorV::InputNotFound { path: old(self).input_path() },
                })
                &&& final(self).done()
            },
            present && is_file ==> {
                &&& a@ == (ActionV::ProcessFile {
                    path: old(self).input_path(),
                    plan: plan_of(old(self).input_path(), old(self).configuration().threshold),
                })
                &&& final(self).awaiting_file()
                &&& final(self).awaited_path() == old(self).input_path()
            },
            present && !is_file && is_dir ==> {
                &&& a@ == (ActionV::ReadDir { path: old(self).input_path() })
                &&& final(self).awaiting_dir()
                &&& final(self).awaited_dir() == old(self).input_path()
            },
            present && !is_file && !is_dir ==> a@ == ActionV::FinishOk && final(self).done(),
    {
        if !present {
            self.phase = Phase::Done;
            Action::Finish { result: Err(RunError::InputNotFound { path: self.input.clone() }) }
        } else if is_file {
            let plan = plan_for(self.input.as_str(), self.config.threshold);
            self.phase = Phase::AwaitingFile { path: self.input.clone() };
            Action::ProcessFile { path: self.input.clone(), plan }
        } else if is_dir {
            self.phase = Phase::AwaitingDir { dir: self.input.clone() };
            Action::ReadDir { path: self.input.clone() }
        } else {
            self.phase = Phase::Done;
            Action::Finish { result: Ok(()) }
        }
    }

    /// Absorbs a directory listing. Its files are queued for dispatch
    /// in listing order; its subdirectories are queued for descent only
    /// when recursion is on; both come before everything already
    /// pending, so a directory is fully handled before its siblings
    /// (depth-first). Then the front of the worklist is acted on.
    pub fn on_dir_entries(&mut self, entries: Vec<Entry>) -> (a: Action)
        requires
            old(self).awaiting_dir(),
        ensures
            final(self).configuration() == old(self).configuration(),
            final(self).input_path() == old(self).input_path(),
            advance_post(
                planned(entry_views(entries@), old(self).configuration().recursive) + old(
                    self,
                ).work_views(),
                old(self).configuration().threshold,
                *final(self),
                a,
            ),
    {
        let ghost all_views = entry_views(entries@);
        let ghost rec = self.config.recursive;
        let ghost work0 = self.work_views();
        let mut ents = entries;
        while ents.len() > 0
            invariant
                self.config == old(self).config,
                self.input == old(self).input,
                self.phase == old(self).phase,
                planned(entry_views(ents@), self.config.recursive) + self.work_views() == planned(
                    all_views,
                    self.config.recursive,
                ) + work0,
            decreases ents.len(),
        {
            let ghost prev_ents = ents@;
            let ghost prev_work = self.work_views();
            let e = ents.remove(ents.len() - 1);
            let ghost ev = e@;
            match e.kind {
                EntryKind::File => {
                    self.work.insert(0, WorkItem { kind: NodeKind::File, path: e.path });
                },
                EntryKind::Dir => {
                    if self.config.recursive {
                        self.work.insert(0, WorkItem { kind: NodeKind::Dir, path: e.path });
                    }
                },
                EntryKind::Other => {},
            }
            proof {
                assert(entry_views(prev_ents) =~= entry_views(ents@).push(ev));
                lemma_planned_push(entry_views(ents@), ev, self.config.recursive);
                assert(self.work_views() =~= kept_item(ev, self.config.recursive) + prev_work);
                assert(planned(entry_views(ents@), self.config.recursive) + self.work_views()
                    =~= planned(entry_views(prev_ents), self.config.recursive) + prev_work);
            }
        }
        proof {
            assert(entry_views(ents@) =~= Seq::<(EntryKind, Seq<char>)>::empty());
            assert(planned(all_views, rec) + work0 =~= self.work_views());
        }
        self.advance()
    }

    /// Absorbs the failure of a directory listing: the run ends at once
    /// with `DirectoryReadError` naming the directory.
    pub fn on_dir_read_failed(&mut self, message: String) -> (a: Action)
        requires
            old(self).awaiting_dir(),
        ensures
            final(self).configuration() == old(self).configuration(),
            final(self).input_path() == old(self).input_path(),
            a@ == (ActionV::FinishErr {
                error: RunErrorV::DirectoryReadError {
                    dir: old(self).awaited_dir(),
                    message: message@,
                },
            }),
            final(self).done(),
            final(self).work_views() == old(self).work_views(),
    {
        let dir = match &self.phase {
            Phase::AwaitingDir { dir } => dir.clone(),
            _ => unreached(),
        };
        self.phase = Phase::Done;
        Action::Finish { result: Err(RunError::DirectoryReadError { dir, message }) }
    }

    /// Absorbs the outcome of one file. Success moves on to the front
    /// of the worklist. Failure ends the whole run at once with
    /// `FileProcessingError` naming the file: nothing still pending is
    /// ever dispatched (fail-fast).
    pub fn on_file_result(&mut self, ok: bool, message: String) -> (a: Action)
        requires
            old(self).awaiting_file(),
        ensures
            final(self).configuration() == old(self).configuration(),
            final(self).input_path() == old(self).input_path(),
            !ok ==> {
                &&& a@ == (ActionV::FinishErr {
                    error: RunErrorV::FileProcessingError {
                        path: old(self).awaited_path(),
                        message: message@,
                    },
                })
                &&& final(self).done()
                &&& final(self).work_views() == old(self).work_views()
            },
            ok ==> advance_post(
                old(self).work_views(),
                old(self).configuration().threshold,
                *final(self),
                a,
            ),
    {
        if !ok {
            let path = match &self.phase {
                Phase::AwaitingFile { path } => path.clone(),
                _ => unreached(),
            };
            self.phase = Phase::Done;
            Action::Finish { result: Err(RunError::FileProcessingError { path, message }) }
        } else {
            self.advance()
        }
    }

    /// Acts on the front of the worklist, or ends the run when nothing
    /// is pending.
    fn advance(&mut self) -> (a: Action)
        ensures
            final(self).configuration() == old(self).configuration(),
            final(self).input_path() == old(self).input_path(),
            advance_post(old(self).work_views(), old(self).configuration().threshold, *final(self), a),
    {
        if self.work.len() == 0 {
            self.phase = Phase::Done;
            Action::Finish { result: Ok(()) }
        } else {
            let item = self.work.remove(0);
            proof {
                assert(self.work_views() =~= old(self).work_views().drop_first());
            }
            match item.kind {
                NodeKind::File => {
                    let plan = plan_for(item.path.as_str(), self.config.threshold);
                    self.phase = Phase::AwaitingFile { path: item.path.clone() };
                    Action::ProcessFile { path: item.path, plan }
                },
                NodeKind::Dir => {
                    self.phase = Phase::AwaitingDir { dir: item.path.clone() };
                    Action::ReadDir { path: item.path }
                },
            }
        }
    }
}

} // verus!
