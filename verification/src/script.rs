//! The scripted exercise of the storage collaborator.
//!
//! The work entry point attaches to the runtime, resolves a document tree and
//! then creates, fills, reads, lists and removes a directory in it. Every one
//! of these operations is carried out by the embedding program; this module
//! decides which comes next. The program performs the operation that the
//! current [`Stage`] names, reports how it ended as an [`Outcome`], and is
//! given the next stage, until the run is finished or aborted.

use crate::lifecycle::Lifecycle;
use vstd::prelude::*;

verus! {

/// The name of the directory that the script creates under the root.
pub const DIRECTORY_NAME: &'static str = "test_dir";

/// The MIME type of the file that the script creates.
pub const FILE_MIME: &'static str = "text/plain";

/// The name of the file that the script creates in its directory.
pub const FILE_NAME: &'static str = "test.mp3";

/// What the script writes to its file.
pub const FILE_CONTENT: &'static str = "Hello, world!";

/// The mode in which the file is opened for [`Operation::Write`].
pub const WRITE_MODE: &'static str = "w";

/// The mode in which the file is opened for [`Operation::ReadAll`].
pub const READ_MODE: &'static str = "r";

/// The number of operations in the script.
pub const SCRIPT_LENGTH: usize = 13;

/// A document that the script works on. The handles themselves stay with the
/// embedding program.
#[derive(Clone, Copy, Debug, PartialEq, Eq, Structural)]
pub enum Target {
    /// The document that the URI resolves to.
    Root,
    /// The directory that the script creates under the root.
    CreatedDirectory,
    /// The file that the script creates in that directory.
    CreatedFile,
}

/// One operation of the script.
#[derive(Clone, Copy, Debug, PartialEq, Eq, Structural)]
pub enum Operation {
    /// Turn the recorded runtime handle into a runtime to attach to.
    OpenRuntime { handle: usize },
    /// Attach the calling thread to the runtime.
    AttachThread,
    /// Decode the URI from the host's representation.
    DecodeUri,
    /// Resolve the URI to the root document.
    Resolve,
    /// Ask whether the root is a directory and list it. The answer is logged,
    /// a failure too.
    Inspect,
    /// Create the directory [`DIRECTORY_NAME`] under the root.
    CreateDirectory,
    /// Create the file [`FILE_NAME`] of type [`FILE_MIME`] in the created
    /// directory. A panic of the collaborator is contained here.
    CreateFile,
    /// Open the created file in [`WRITE_MODE`].
    OpenForWrite,
    /// Write [`FILE_CONTENT`] to the stream just opened.
    Write,
    /// Open the created file in [`READ_MODE`].
    OpenForRead,
    /// Read the stream just opened to its end.
    ReadAll,
    /// List the created directory.
    ListCreated,
    /// Remove the created directory.
    Remove,
}

/// How an operation ended.
#[derive(Clone, Copy, Debug, PartialEq, Eq, Structural)]
pub enum Outcome {
    /// It returned what was asked for.
    Succeeded,
    /// It returned an error.
    Failed,
    /// It panicked, and the panic was contained.
    Panicked,
}

/// Why a run was aborted.
#[derive(Clone, Copy, Debug, PartialEq, Eq, Structural)]
pub enum Fault {
    /// No runtime handle is recorded: the load hook has not completed.
    NoRuntime,
    /// The operation returned an error.
    Failed(Operation),
    /// The operation panicked.
    Panicked(Operation),
}

/// Where a run stands.
#[derive(Clone, Copy, Debug, PartialEq, Eq, Structural)]
pub enum Stage {
    /// The operation is to be performed, and its outcome reported.
    Perform(Operation),
    /// Every operation of the script has been performed.
    Finished,
    /// The run was given up. Nothing more is to be performed.
    Aborted(Fault),
}

impl Operation {
    /// The operation that follows this one in the script, if any does.
    pub open spec fn successor(self) -> Option<Operation> {
        match self {
            Operation::OpenRuntime { .. } => Some(Operation::AttachThread),
            Operation::AttachThread => Some(Operation::DecodeUri),
            Operation::DecodeUri => Some(Operation::Resolve),
            Operation::Resolve => Some(Operation::Inspect),
            Operation::Inspect => Some(Operation::CreateDirectory),
            Operation::CreateDirectory => Some(Operation::CreateFile),
            Operation::CreateFile => Some(Operation::OpenForWrite),
            Operation::OpenForWrite => Some(Operation::Write),
            Operation::Write => Some(Operation::OpenForRead),
            Operation::OpenForRead => Some(Operation::ReadAll),
            Operation::ReadAll => Some(Operation::ListCreated),
            Operation::ListCreated => Some(Operation::Remove),
            Operation::Remove => None,
        }
    }

    /// Whether the run goes on when the operation returns an error.
    pub open spec fn tolerant(self) -> bool {
        self is Inspect
    }

    /// Whether a panic of the operation is to be contained and reported as
    /// [`Outcome::Panicked`].
    pub open spec fn contained(self) -> bool {
        self is CreateFile
    }

    /// The document that the operation is applied to, if it is applied to one.
    pub open spec fn document(self) -> Option<Target> {
        match self {
            Operation::Inspect | Operation::CreateDirectory => Some(Target::Root),
            Operation::CreateFile | Operation::ListCreated | Operation::Remove => Some(
                Target::CreatedDirectory,
            ),
            Operation::OpenForWrite | Operation::OpenForRead => Some(Target::CreatedFile),
            _ => None,
        }
    }

    /// The document that the operation adds to the store, if it adds one.
    pub open spec fn creates(self) -> Option<Target> {
        match self {
            Operation::CreateDirectory => Some(Target::CreatedDirectory),
            Operation::CreateFile => Some(Target::CreatedFile),
            _ => None,
        }
    }

    /// Whether the operation takes `target` out of the store: a directory
    /// goes with what lies in it.
    pub open spec fn removes(self, target: Target) -> bool {
        self is Remove && (target is CreatedDirectory || target is CreatedFile)
    }

    /// Whether the operation changes the store.
    pub open spec fn mutates(self) -> bool {
        self.creates() is Some || self is Write || self is Remove
    }

    /// The operation that follows this one in the script, if any does.
    pub fn next(self) -> (following: Option<Operation>)
        ensures
            following == self.successor(),
    {
        match self {
            Operation::OpenRuntime { .. } => Some(Operation::AttachThread),
            Operation::AttachThread => Some(Operation::DecodeUri),
            Operation::DecodeUri => Some(Operation::Resolve),
            Operation::Resolve => Some(Operation::Inspect),
            Operation::Inspect => Some(Operation::CreateDirectory),
            Operation::CreateDirectory => Some(Operation::CreateFile),
            Operation::CreateFile => Some(Operation::OpenForWrite),
            Operation::OpenForWrite => Some(Operation::Write),
            Operation::Write => Some(Operation::OpenForRead),
            Operation::OpenForRead => Some(Operation::ReadAll),
            Operation::ReadAll => Some(Operation::ListCreated),
            Operation::ListCreated => Some(Operation::Remove),
            Operation::Remove => None,
        }
    }

    /// Whether the embedding program has to contain a panic of the operation
    /// and report it as [`Outcome::Panicked`].
    pub fn is_contained(self) -> (contained: bool)
        ensures
            contained == self.contained(),
    {
        match self {
            Operation::CreateFile => true,
            _ => false,
        }
    }

    /// The document that the operation is applied to, if it is applied to one.
    pub fn applies_to(self) -> (target: Option<Target>)
        ensures
            target == self.document(),
    {
        match self {
            Operation::Inspect | Operation::CreateDirectory => Some(Target::Root),
            Operation::CreateFile | Operation::ListCreated | Operation::Remove => Some(
                Target::CreatedDirectory,
            ),
            Operation::OpenForWrite | Operation::OpenForRead => Some(Target::CreatedFile),
            _ => None,
        }
    }
}

impl Stage {
    /// The stage that a run starts in, given the recorded runtime handle.
    pub open spec fn begin(runtime: Option<usize>) -> Stage {
        match runtime {
            Some(handle) => Stage::Perform(Operation::OpenRuntime { handle }),
            None => Stage::Aborted(Fault::NoRuntime),
        }
    }

    /// The stage that is entered once `operation` is behind.
    pub open spec fn after(operation: Operation) -> Stage {
        match operation.successor() {
            Some(following) => Stage::Perform(following),
            None => Stage::Finished,
        }
    }

    /// The stage that follows this one when its operation ended as `outcome`.
    /// A finished or aborted run stays as it is.
    pub open spec fn step(self, outcome: Outcome) -> Stage {
        match self {
            Stage::Perform(operation) => match outcome {
                Outcome::Succeeded => Stage::after(operation),
                Outcome::Failed => if operation.tolerant() {
                    Stage::after(operation)
                } else {
                    Stage::Aborted(Fault::Failed(operation))
                },
                Outcome::Panicked => Stage::Aborted(Fault::Panicked(operation)),
            },
            Stage::Finished => Stage::Finished,
            Stage::Aborted(fault) => Stage::Aborted(fault),
        }
    }

    /// Whether nothing more is to be performed.
    pub open spec fn terminal(self) -> bool {
        !(self is Perform)
    }

    /// The stage that follows this one when its operation ended as `outcome`.
    pub fn advance(self, outcome: Outcome) -> (next: Stage)
        ensures
            next == self.step(outcome),
    {
        match self {
            Stage::Perform(operation) => {
                let proceed = match outcome {
                    Outcome::Succeeded => true,
                    Outcome::Failed => match operation {
                        Operation::Inspect => true,
                        _ => false,
                    },
                    Outcome::Panicked => false,
                };
                if proceed {
                    match operation.next() {
                        Some(following) => Stage::Perform(following),
                        None => Stage::Finished,
                    }
                } else {
                    match outcome {
                        Outcome::Panicked => Stage::Aborted(Fault::Panicked(operation)),
                        _ => Stage::Aborted(Fault::Failed(operation)),
                    }
                }
            },
            Stage::Finished => Stage::Finished,
            Stage::Aborted(fault) => Stage::Aborted(fault),
        }
    }

    /// Whether nothing more is to be performed.
    pub fn is_terminal(self) -> (done: bool)
        ensures
            done == self.terminal(),
    {
        match self {
            Stage::Perform(_) => false,
            _ => true,
        }
    }
}

/// The work entry point: the stage in which a run starts. Without a recorded
/// runtime handle the run is aborted before anything is performed.
#[allow(non_snake_case)]
pub fn Java_one_rachelt_rust_1saf_MainActivity_listUriFiles(state: &Lifecycle) -> (stage: Stage)
    ensures
        stage == Stage::begin(state@.runtime),
{
    match crate::lifecycle::get_jvm(state) {
        Some(handle) => Stage::Perform(Operation::OpenRuntime { handle }),
        None => Stage::Aborted(Fault::NoRuntime),
    }
}

/// The operations of the script, in the order in which a run performs them.
pub open spec fn script(handle: usize) -> Seq<Operation> {
    seq![
        Operation::OpenRuntime { handle },
        Operation::AttachThread,
        Operation::DecodeUri,
        Operation::Resolve,
        Operation::Inspect,
        Operation::CreateDirectory,
        Operation::CreateFile,
        Operation::OpenForWrite,
        Operation::Write,
        Operation::OpenForRead,
        Operation::ReadAll,
        Operation::ListCreated,
        Operation::Remove,
    ]
}

/// The stages that a run goes through when the recorded runtime handle is
/// `runtime` and its operations end as `outcomes`, in this order. Outcomes
/// that come after the run has finished or aborted count for nothing.
pub open spec fn run(runtime: Option<usize>, outcomes: Seq<Outcome>) -> Seq<Stage>
    decreases outcomes.len(),
{
    if outcomes.len() == 0 {
        seq![Stage::begin(runtime)]
    } else {
        let earlier = run(runtime, outcomes.drop_last());
        if earlier.last().terminal() {
            earlier
        } else {
            earlier.push(earlier.last().step(outcomes.last()))
        }
    }
}

/// The stages of a run that performs the whole script.
pub open spec fn complete_run(handle: usize) -> Seq<Stage> {
    Seq::new(
        (SCRIPT_LENGTH + 1) as nat,
        |i: int|
            if i < SCRIPT_LENGTH {
                Stage::Perform(script(handle)[i])
            } else {
                Stage::Finished
            },
    )
}

/// Whether `stages` is the script from its start up to some operation,
/// followed by nothing, by `Finished` after the last operation, or by an
/// abort that names the operation reached.
pub open spec fn follows_script(stages: Seq<Stage>, handle: usize) -> bool {
    let n = stages.len() as int;
    &&& 1 <= n <= SCRIPT_LENGTH + 1
    &&& forall|i: int| 0 <= i < n - 1 ==> #[trigger] stages[i] == Stage::Perform(script(handle)[i])
    &&& match stages[n - 1] {
        Stage::Perform(operation) => n <= SCRIPT_LENGTH && operation == script(handle)[n - 1],
        Stage::Finished => n == SCRIPT_LENGTH + 1,
        Stage::Aborted(Fault::NoRuntime) => false,
        Stage::Aborted(Fault::Failed(operation)) => n >= 2 && operation == script(handle)[n - 2]
            && !operation.tolerant(),
        Stage::Aborted(Fault::Panicked(operation)) => n >= 2 && operation == script(handle)[n - 2],
    }
}

/// Whether some operation after the one at `i` takes `target` out of the
/// store.
pub open spec fn removed_after(operations: Seq<Operation>, i: int, target: Target) -> bool {
    exists|j: int| i < j < operations.len() && #[trigger] operations[j].removes(target)
}

/// Whether `operations`, each of which did what it was asked to, leave
/// `target` in a store that did not hold it before: some operation created it
/// and none removed it afterwards.
pub open spec fn left_behind(operations: Seq<Operation>, target: Target) -> bool {
    exists|i: int|
        0 <= i < operations.len() && #[trigger] operations[i].creates() == Some(target)
            && !removed_after(operations, i, target)
}

/// The script is walked in order: each operation is followed by the next one
/// of [`script`], the last one by none.
pub proof fn lemma_script_order(handle: usize, i: int)
    requires
        0 <= i < SCRIPT_LENGTH,
    ensures
        script(handle).len() == SCRIPT_LENGTH,
        script(handle)[i].successor() == if i + 1 < SCRIPT_LENGTH {
            Some(script(handle)[i + 1])
        } else {
            None
        },
{
}

/// Whatever the outcomes, a run with a runtime handle performs the script in
/// order, from its start, and stops at the first operation that fails without
/// being tolerated or that panics.
pub proof fn lemma_run_follows_script(handle: usize, outcomes: Seq<Outcome>)
    ensures
        follows_script(run(Some(handle), outcomes), handle),
    decreases outcomes.len(),
{
    if outcomes.len() > 0 {
        let earlier = run(Some(handle), outcomes.drop_last());
        lemma_run_follows_script(handle, outcomes.drop_last());
        if !earlier.last().terminal() {
            lemma_script_order(handle, earlier.len() - 1);
        }
    }
}

/// How a run unfolds: it starts where [`Stage::begin`] says, each of its
/// stages but the last names an operation and is followed by the stage that
/// the outcome of that operation leads to, and it is cut short only by a stage
/// at which nothing more is to be performed.
pub proof fn lemma_run_unfolds(runtime: Option<usize>, outcomes: Seq<Outcome>)
    ensures
        run(runtime, outcomes)[0] == Stage::begin(runtime),
        1 <= run(runtime, outcomes).len() <= outcomes.len() + 1,
        run(runtime, outcomes).len() <= outcomes.len() ==> run(runtime, outcomes).last().terminal(),
        forall|k: int|
            #![trigger run(runtime, outcomes)[k]]
            0 <= k < run(runtime, outcomes).len() - 1 ==> {
                &&& !run(runtime, outcomes)[k].terminal()
                &&& run(runtime, outcomes)[k + 1] == run(runtime, outcomes)[k].step(outcomes[k])
            },
    decreases outcomes.len(),
{
    if outcomes.len() > 0 {
        lemma_run_unfolds(runtime, outcomes.drop_last());
    }
}

/// The store is not changed before the root is resolved: a run reaches an
/// operation that changes the store only after it has asked for the
/// resolution and has been told that it succeeded.
pub proof fn lemma_store_untouched_until_resolved(handle: usize, outcomes: Seq<Outcome>, i: int)
    requires
        0 <= i < run(Some(handle), outcomes).len(),
        run(Some(handle), outcomes)[i] matches Stage::Perform(operation) && operation.mutates(),
    ensures
        i > 3,
        run(Some(handle), outcomes)[3] == Stage::Perform(Operation::Resolve),
        outcomes[3] is Succeeded,
{
    lemma_run_follows_script(handle, outcomes);
    lemma_run_unfolds(Some(handle), outcomes);
}

/// Without a recorded runtime handle a run is aborted at once, whatever is
/// reported to it: no operation is performed, so the store is not touched.
pub proof fn lemma_no_runtime_nothing_performed(outcomes: Seq<Outcome>)
    ensures
        run(None, outcomes) == seq![Stage::Aborted(Fault::NoRuntime)],
        forall|i: int|
            0 <= i < run(None, outcomes).len() ==> (#[trigger] run(None, outcomes)[i]).terminal(),
    decreases outcomes.len(),
{
    if outcomes.len() > 0 {
        lemma_no_runtime_nothing_performed(outcomes.drop_last());
    }
}

/// A run that finishes has performed the whole script, and the script leaves
/// nothing behind: what it created, it removed.
pub proof fn lemma_finished_run_leaves_nothing(handle: usize, outcomes: Seq<Outcome>)
    requires
        run(Some(handle), outcomes).last() is Finished,
    ensures
        run(Some(handle), outcomes) == complete_run(handle),
        forall|target: Target| !left_behind(script(handle), target),
{
    lemma_run_follows_script(handle, outcomes);
    lemma_script_leaves_nothing(handle);
}

/// A run whose operations all succeed performs the whole script and finishes;
/// while fewer outcomes than operations are in, it stands at the operation
/// that is due.
pub proof fn lemma_successful_run(handle: usize, outcomes: Seq<Outcome>)
    requires
        forall|i: int| 0 <= i < outcomes.len() && i < SCRIPT_LENGTH ==> outcomes[i] is Succeeded,
    ensures
        outcomes.len() >= SCRIPT_LENGTH ==> run(Some(handle), outcomes) == complete_run(handle),
        outcomes.len() < SCRIPT_LENGTH ==> run(Some(handle), outcomes) == complete_run(
            handle,
        ).take(outcomes.len() as int + 1),
    decreases outcomes.len(),
{
    let stages = run(Some(handle), outcomes);
    let whole = complete_run(handle);
    let k = outcomes.len() as int;
    if k == 0 {
        assert(stages =~= whole.take(1));
    } else {
        lemma_successful_run(handle, outcomes.drop_last());
        if k < SCRIPT_LENGTH {
            lemma_script_order(handle, k - 1);
            assert(stages =~= whole.take(k + 1));
        } else if k == SCRIPT_LENGTH {
            lemma_script_order(handle, k - 1);
            assert(stages =~= whole);
        }
    }
}

/// The script removes what it creates.
pub proof fn lemma_script_leaves_nothing(handle: usize)
    ensures
        forall|target: Target| !left_behind(script(handle), target),
{
    let operations = script(handle);
    assert forall|target: Target| !left_behind(operations, target) by {
        // The last operation removes both documents that the script creates.
        assert(operations[12].removes(target) || target is Root);
    }
}

} // verus!
