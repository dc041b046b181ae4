//! The vocabulary between the decision engine and whoever drives it.

use vstd::prelude::*;

verus! {

/// One thing that has to happen outside of the library.
#[derive(Clone, Debug, PartialEq, Eq)]
pub enum Operation {
    /// Launch a program and wait for it, leaving its output alone. It
    /// succeeds when the program could be launched.
    Probe { program: String, arguments: Vec<String> },
    /// Launch a program, wait for it and show what it wrote to standard
    /// output. It succeeds when the program could be launched; the status
    /// with which the program ends is not looked at.
    Run { program: String, arguments: Vec<String>, directory: Option<String> },
    /// Open `path` as a repository. It succeeds when there is one.
    OpenRepository { path: String },
    /// Clone the repository at `url` into the new directory `into`.
    CloneRepository { url: String, into: String },
    /// Remove a directory and everything below it.
    RemoveTree { path: String },
    /// Look whether `path` exists. It succeeds when it does.
    Exists { path: String },
    /// Remove one file.
    RemoveFile { path: String },
    /// Move `from` to `to`, replacing what was there.
    Rename { from: String, to: String },
    /// Replace what the existing file `path` holds by `contents`.
    Overwrite { path: String, contents: String },
    /// Name the directories directly below `path`.
    ListDirectories { path: String },
}

/// What an [`Operation`] is, as mathematics.
pub enum OperationView {
    Probe { program: Seq<char>, arguments: Seq<Seq<char>> },
    Run { program: Seq<char>, arguments: Seq<Seq<char>>, directory: Option<Seq<char>> },
    OpenRepository { path: Seq<char> },
    CloneRepository { url: Seq<char>, into: Seq<char> },
    RemoveTree { path: Seq<char> },
    Exists { path: Seq<char> },
    RemoveFile { path: Seq<char> },
    Rename { from: Seq<char>, to: Seq<char> },
    Overwrite { path: Seq<char>, contents: Seq<char> },
    ListDirectories { path: Seq<char> },
}

impl OperationView {
    /// Whether the operation only looks: it may launch a program or read the
    /// disk, and leaves what is there as it is.
    pub open spec fn only_looks(self) -> bool {
        self is Probe || self is OpenRepository || self is Exists || self is ListDirectories
    }
}

impl View for Operation {
    type V = OperationView;

    open spec fn view(&self) -> OperationView {
        match *self {
            Operation::Probe { program, arguments } => OperationView::Probe {
                program: program@,
                arguments: arguments.deep_view(),
            },
            Operation::Run { program, arguments, directory } => OperationView::Run {
                program: program@,
                arguments: arguments.deep_view(),
                directory: directory.deep_view(),
            },
            Operation::OpenRepository { path } => OperationView::OpenRepository { path: path@ },
            Operation::CloneRepository { url, into } => OperationView::CloneRepository {
                url: url@,
                into: into@,
            },
            Operation::RemoveTree { path } => OperationView::RemoveTree { path: path@ },
            Operation::Exists { path } => OperationView::Exists { path: path@ },
            Operation::RemoveFile { path } => OperationView::RemoveFile { path: path@ },
            Operation::Rename { from, to } => OperationView::Rename { from: from@, to: to@ },
            Operation::Overwrite { path, contents } => OperationView::Overwrite {
                path: path@,
                contents: contents@,
            },
            Operation::ListDirectories { path } => OperationView::ListDirectories { path: path@ },
        }
    }
}

/// How the operation that was asked for last has ended.
#[derive(Clone, Debug, PartialEq, Eq)]
pub enum Outcome {
    /// It was done, or what was looked for is there.
    Success,
    /// It could not be done, or what was looked for is not there.
    Failure,
    /// It was done and gave these names.
    Entries(Vec<String>),
}

/// What an [`Outcome`] is, as mathematics.
pub enum OutcomeView {
    Success,
    Failure,
    Entries(Seq<Seq<char>>),
}

impl OutcomeView {
    /// Anything but a failure counts as success.
    pub open spec fn succeeded(self) -> bool {
        !(self is Failure)
    }

    /// The names that came with the outcome; none where it carries none.
    pub open spec fn entries(self) -> Seq<Seq<char>> {
        match self {
            OutcomeView::Entries(names) => names,
            _ => Seq::empty(),
        }
    }
}

impl View for Outcome {
    type V = OutcomeView;

    open spec fn view(&self) -> OutcomeView {
        match *self {
            Outcome::Success => OutcomeView::Success,
            Outcome::Failure => OutcomeView::Failure,
            Outcome::Entries(names) => OutcomeView::Entries(names.deep_view()),
        }
    }
}

impl Outcome {
    pub fn succeeded(&self) -> (ok: bool)
        ensures
            ok == self@.succeeded(),
    {
        match self {
            Outcome::Failure => false,
            _ => true,
        }
    }

    /// A copy of the names that came with the outcome.
    pub fn entries(&self) -> (names: Vec<String>)
        ensures
            names.deep_view() == self@.entries(),
    {
        let mut names: Vec<String> = Vec::new();
        match self {
            Outcome::Entries(given) => {
                let mut i: usize = 0;
                while i < given.len()
                    invariant
                        i <= given.len(),
                        names.len() == i,
                        forall|k: int| 0 <= k < i ==> names[k]@ == given[k]@,
                    decreases given.len() - i,
                {
                    names.push(given[i].clone());
                    i += 1;
                }
                assert(names.deep_view() =~= given.deep_view());
            },
            _ => {
                assert(names.deep_view() =~= Seq::<Seq<char>>::empty());
            },
        }
        names
    }
}

/// What a routine answers: the next operation together with the state to
/// come back with, or the end of the routine.
#[derive(Clone, Debug, PartialEq, Eq)]
pub enum Step<S, E> {
    /// Perform the operation, then call the routine again with this state
    /// and the operation's outcome.
    Perform(S, Operation),
    /// The routine is through; nothing is left to do.
    Finished,
    /// The routine gives up. Nothing further may be performed.
    Abort(E),
}

/// What a [`Step`] is, as mathematics.
pub enum StepView<S, E> {
    Perform(S, OperationView),
    Finished,
    Abort(E),
}

impl<S, E> StepView<S, E> {
    /// This step as a step of a larger routine that goes on with `next`
    /// once this one is through. The larger routine keeps the state of this
    /// step inside its own, as `wrap` says.
    pub open spec fn and_then<T>(self, wrap: spec_fn(S) -> T, next: StepView<T, E>) -> StepView<
        T,
        E,
    > {
        match self {
            StepView::Perform(state, operation) => StepView::Perform(wrap(state), operation),
            StepView::Finished => next,
            StepView::Abort(error) => StepView::Abort(error),
        }
    }

    /// This step as the last part of a larger routine, which is through
    /// when this one is.
    pub open spec fn within<T>(self, wrap: spec_fn(S) -> T) -> StepView<T, E> {
        self.and_then(wrap, StepView::Finished)
    }
}

impl<S: View, E> View for Step<S, E> {
    type V = StepView<S::V, E>;

    open spec fn view(&self) -> StepView<S::V, E> {
        match *self {
            Step::Perform(state, operation) => StepView::Perform(state@, operation@),
            Step::Finished => StepView::Finished,
            Step::Abort(error) => StepView::Abort(error),
        }
    }
}

} // verus!
