//! Pick-up and drop-off as a dialogue with the file system.
//!
//! A [`Transfer`] never touches a file. It names the one [`Action`] that is
//! due, the caller performs it and reports back with an [`Event`], and
//! [`Transfer::step`] decides how to go on: with the next action, or with the
//! end of the transfer. The first failure ends it; what was copied until then
//! is reported either way.

use crate::error::{result_view, text_result_view, Error, ErrorKind, ErrorView};
use crate::path::{append, joined, parent, parent_of};
use crate::plan::{Plan, PlanView};
use crate::printer::{clone_lines, Print};
use crate::report::{print_copied, report_lines};
use vstd::prelude::*;
use vstd::string::*;

verus! {

/// Which way the files go.
#[derive(Clone, Copy, Debug, PartialEq, Eq, Structural)]
pub enum Direction {
    /// From the external directory into staging.
    PickUp,
    /// From staging out to the external directory.
    DropOff,
}

/// What a transfer is waiting for.
#[derive(Clone, Copy, Debug, PartialEq, Eq, Structural)]
pub enum Stage {
    /// The working directory, below which staging lies.
    Locate,
    /// The staging directory to exist.
    Staging,
    /// Source and destination to be told apart.
    Distinct,
    /// The real location of the file in turn.
    Resolve,
    /// Whether that location holds a regular file.
    Inspect,
    /// The directories above the file's destination to exist.
    Parent,
    /// The bytes of the file in turn to be copied.
    Copying,
}

/// What the caller is asked to do.
#[derive(Debug)]
pub enum Action {
    /// Find the working directory.
    CurrentDir,
    /// Create `path` and every missing directory above it.
    CreateDirAll { path: String },
    /// Find out whether `a` and `b` are one and the same place.
    CheckSameFile { a: String, b: String },
    /// Resolve `path` to the real location behind it.
    Canonicalize { path: String },
    /// Find out whether `path` holds a regular file.
    CheckIsFile { path: String },
    /// Copy the bytes of `from` to `to`, replacing what is there.
    CopyFile { from: String, to: String },
}

/// What an [`Action`] stands for.
pub enum ActionView {
    CurrentDir,
    CreateDirAll { path: Seq<char> },
    CheckSameFile { a: Seq<char>, b: Seq<char> },
    Canonicalize { path: Seq<char> },
    CheckIsFile { path: Seq<char> },
    CopyFile { from: Seq<char>, to: Seq<char> },
}

impl View for Action {
    type V = ActionView;

    open spec fn view(&self) -> ActionView {
        match *self {
            Action::CurrentDir => ActionView::CurrentDir,
            Action::CreateDirAll { path } => ActionView::CreateDirAll { path: path@ },
            Action::CheckSameFile { a, b } => ActionView::CheckSameFile { a: a@, b: b@ },
            Action::Canonicalize { path } => ActionView::Canonicalize { path: path@ },
            Action::CheckIsFile { path } => ActionView::CheckIsFile { path: path@ },
            Action::CopyFile { from, to } => ActionView::CopyFile { from: from@, to: to@ },
        }
    }
}

/// What came of an action. Where the file system refused, the text is its
/// own account of why.
#[derive(Debug)]
pub enum Event {
    /// The working directory, or why there is none.
    CurrentDir(Result<String, String>),
    /// The directories exist now, or why they could not be created.
    DirsCreated(Result<(), String>),
    /// Whether the two places are the same, or why one could not be opened.
    SameFile(Result<bool, String>),
    /// The real location, or why the path leads nowhere.
    Canonical(Result<String, String>),
    /// Whether the location holds a regular file.
    IsFile(bool),
    /// The bytes were copied, or why they were not.
    Copied(Result<(), String>),
}

/// What is made of the answer to [`Action::CurrentDir`].
pub open spec fn current_dir_spec(found: Result<String, String>) -> Result<Seq<char>, ErrorView> {
    match found {
        Ok(dir) => Ok(dir@),
        Err(cause) => Err(
            ErrorView {
                kind: ErrorKind::LocationUnreadable,
                message: "Could not get current dir "@ + cause@,
            },
        ),
    }
}

/// What is made of the answer to [`Action::CreateDirAll`] for `path`.
pub open spec fn create_dir_all_spec(path: Seq<char>, made: Result<(), String>) -> Result<
    (),
    ErrorView,
> {
    match made {
        Ok(()) => Ok(()),
        Err(cause) => Err(
            ErrorView {
                kind: ErrorKind::DirectoryCreate,
                message: "Could not create directories "@ + path + " - "@ + cause@,
            },
        ),
    }
}

/// The failure for a destination `path` with nothing above it.
pub open spec fn get_parent_error(path: Seq<char>) -> ErrorView {
    ErrorView { kind: ErrorKind::DirectoryCreate, message: "Could not get parent of "@ + path }
}

/// The directory above `path`, in which the directories for a destination
/// are created, or the failure for a path that has nothing above it.
pub open spec fn get_parent_spec(path: Seq<char>) -> Result<Seq<char>, ErrorView> {
    match parent_of(path) {
        Some(above) => Ok(above),
        None => Err(get_parent_error(path)),
    }
}

/// What is made of the answer to [`Action::CheckSameFile`] for `a` and `b`.
pub open spec fn check_not_same_file_spec(
    a: Seq<char>,
    b: Seq<char>,
    same: Result<bool, String>,
) -> Result<(), ErrorView> {
    match same {
        Ok(false) => Ok(()),
        Ok(true) => Err(
            ErrorView {
                kind: ErrorKind::SameLocation,
                message: "Input and output are the same - "@ + a,
            },
        ),
        Err(cause) => Err(
            ErrorView {
                kind: ErrorKind::LocationUnreadable,
                message: "One of the following paths could not be opened "@ + a + ", "@ + b
                    + " - "@ + cause@,
            },
        ),
    }
}

/// What is made of the answer to [`Action::Canonicalize`] for `path`.
pub open spec fn canonicalize_spec(path: Seq<char>, found: Result<String, String>) -> Result<
    Seq<char>,
    ErrorView,
> {
    match found {
        Ok(target) => Ok(target@),
        Err(cause) => Err(
            ErrorView {
                kind: ErrorKind::SourceNotFound,
                message: "Error reading file "@ + path + " - "@ + cause@,
            },
        ),
    }
}

/// What is made of the answer to [`Action::CheckIsFile`] for `path`.
pub open spec fn is_file_spec(path: Seq<char>, regular: bool) -> Result<(), ErrorView> {
    if regular {
        Ok(())
    } else {
        Err(ErrorView { kind: ErrorKind::NotAFile, message: path + " is not a file"@ })
    }
}

/// What is made of the answer to [`Action::CopyFile`] from `a` to `b`.
pub open spec fn copy_spec(a: Seq<char>, b: Seq<char>, done: Result<(), String>) -> Result<
    (),
    ErrorView,
> {
    match done {
        Ok(()) => Ok(()),
        Err(cause) => Err(
            ErrorView {
                kind: ErrorKind::CopyIO,
                message: "Could not copy "@ + a + " -> "@ + b + " - "@ + cause@,
            },
        ),
    }
}

/// Passes the working directory on, or says that there is none.
pub fn current_dir(found: Result<String, String>) -> (dir: Result<String, Error>)
    ensures
        text_result_view(dir) == current_dir_spec(found),
{
    match found {
        Ok(dir) => Ok(dir),
        Err(cause) => {
            let mut details = String::from_str("Could not get current dir ");
            details.append(cause.as_str());
            Err(Error::new(ErrorKind::LocationUnreadable, details))
        },
    }
}

/// Accepts the directory `path` and those above it as created, or says why
/// they were not.
pub fn create_dir_all(path: &str, made: Result<(), String>) -> (res: Result<(), Error>)
    ensures
        result_view(res) == create_dir_all_spec(path@, made),
{
    match made {
        Ok(()) => Ok(()),
        Err(cause) => {
            let mut details = String::from_str("Could not create directories ");
            details.append(path);
            details.append(" - ");
            details.append(cause.as_str());
            Err(Error::new(ErrorKind::DirectoryCreate, details))
        },
    }
}

/// The directory above `path`, or the failure for a path that has nothing
/// above it.
pub fn get_parent(path: &str) -> (above: Result<String, Error>)
    ensures
        text_result_view(above) == get_parent_spec(path@),
{
    match parent(path) {
        Some(above) => Ok(above),
        None => {
            let mut details = String::from_str("Could not get parent of ");
            details.append(path);
            Err(Error::new(ErrorKind::DirectoryCreate, details))
        },
    }
}

/// Accepts two places that are apart; fails where they are the same, and
/// where one of them could not be opened to find out.
pub fn check_not_same_file(a: &str, b: &str, same: Result<bool, String>) -> (res: Result<
    (),
    Error,
>)
    ensures
        result_view(res) == check_not_same_file_spec(a@, b@, same),
{
    match same {
        Ok(false) => Ok(()),
        Ok(true) => {
            let mut details = String::from_str("Input and output are the same - ");
            details.append(a);
            Err(Error::new(ErrorKind::SameLocation, details))
        },
        Err(cause) => {
            let mut details = String::from_str("One of the following paths could not be opened ");
            details.append(a);
            details.append(", ");
            details.append(b);
            details.append(" - ");
            details.append(cause.as_str());
            Err(Error::new(ErrorKind::LocationUnreadable, details))
        },
    }
}

/// Passes the real location of `path` on, or says that `path` leads nowhere.
pub fn canonicalize(path: &str, found: Result<String, String>) -> (target: Result<String, Error>)
    ensures
        text_result_view(target) == canonicalize_spec(path@, found),
{
    match found {
        Ok(target) => Ok(target),
        Err(cause) => {
            let mut details = String::from_str("Error reading file ");
            details.append(path);
            details.append(" - ");
            details.append(cause.as_str());
            Err(Error::new(ErrorKind::SourceNotFound, details))
        },
    }
}

/// Accepts a regular file at `path`, and nothing else.
pub fn is_file(path: &str, regular: bool) -> (res: Result<(), Error>)
    ensures
        result_view(res) == is_file_spec(path@, regular),
{
    if regular {
        Ok(())
    } else {
        let mut details = String::from_str(path);
        details.append(" is not a file");
        Err(Error::new(ErrorKind::NotAFile, details))
    }
}

/// Accepts a copy from `a` to `b` that was made, or says why it was not.
pub fn copy(a: &str, b: &str, done: Result<(), String>) -> (res: Result<(), Error>)
    ensures
        result_view(res) == copy_spec(a@, b@, done),
{
    match done {
        Ok(()) => Ok(()),
        Err(cause) => {
            let mut details = String::from_str("Could not copy ");
            details.append(a);
            details.append(" -> ");
            details.append(b);
            details.append(" - ");
            details.append(cause.as_str());
            Err(Error::new(ErrorKind::CopyIO, details))
        },
    }
}

/// What a [`Transfer`] stands for: the plan's share in it, where it moves
/// files from and to, and how far it has come.
pub struct TransferView {
    pub direction: Direction,
    /// The plan's name, which is the name of the staging directory.
    pub name: Seq<char>,
    /// The directory that the caller named.
    pub external: Seq<char>,
    /// The staging directory; known once the working directory is.
    pub staging: Seq<char>,
    /// The declared files, in the plan's order.
    pub files: Seq<Seq<char>>,
    pub stage: Stage,
    /// The real location of the file in turn; known once it is resolved.
    pub canonical: Seq<char>,
    /// How many of the files are copied: the first `done` of `files`.
    pub done: nat,
}

/// How a step ends.
pub enum StepView {
    /// The transfer goes on from this state.
    Continue(TransferView),
    /// The transfer is over. `last` is the state it ended in: the report
    /// lists the records of that state.
    Finished { result: Result<(), ErrorView>, last: TransferView },
}

impl TransferView {
    /// Where a transfer of `plan` in `direction` begins.
    pub open spec fn start(direction: Direction, plan: PlanView, external: Seq<char>) -> Self {
        TransferView {
            direction,
            name: plan.name,
            external,
            staging: Seq::empty(),
            files: plan.files,
            stage: Stage::Locate,
            canonical: Seq::empty(),
            done: 0,
        }
    }

    /// The directory that files are read from.
    pub open spec fn source(self) -> Seq<char> {
        match self.direction {
            Direction::PickUp => self.external,
            Direction::DropOff => self.staging,
        }
    }

    /// The directory that files are written to.
    pub open spec fn destination(self) -> Seq<char> {
        match self.direction {
            Direction::PickUp => self.staging,
            Direction::DropOff => self.external,
        }
    }

    /// Where file `i` of the plan is read.
    pub open spec fn source_of(self, i: int) -> Seq<char> {
        joined(self.source(), self.files[i])
    }

    /// Where file `i` of the plan is written.
    pub open spec fn destination_of(self, i: int) -> Seq<char> {
        joined(self.destination(), self.files[i])
    }

    /// One of the files is in turn.
    pub open spec fn in_file(self) -> bool {
        self.stage == Stage::Resolve || self.stage == Stage::Inspect || self.stage == Stage::Parent
            || self.stage == Stage::Copying
    }

    /// The state is one that a transfer can be in: no file is copied before
    /// the two directories are settled, and the file in turn is one of the
    /// plan.
    pub open spec fn wf(self) -> bool {
        if self.in_file() {
            self.done < self.files.len()
        } else {
            self.done == 0
        }
    }

    /// The directory above the destination of the file in turn; the empty
    /// path where there is none.
    pub open spec fn parent_dir(self) -> Seq<char> {
        match parent_of(self.destination_of(self.done as int)) {
            Some(above) => above,
            None => Seq::empty(),
        }
    }

    /// What was copied so far: the first `done` files, in the plan's order,
    /// each with the place it was read from and the place it was written to.
    pub open spec fn records(self) -> Seq<(Seq<char>, Seq<char>)> {
        Seq::new(self.done, |i: int| (self.source_of(i), self.destination_of(i)))
    }

    /// The action that is due.
    pub open spec fn action(self) -> ActionView {
        match self.stage {
            Stage::Locate => ActionView::CurrentDir,
            Stage::Staging => ActionView::CreateDirAll { path: self.staging },
            Stage::Distinct => ActionView::CheckSameFile {
                a: self.source(),
                b: self.destination(),
            },
            Stage::Resolve => ActionView::Canonicalize { path: self.source_of(self.done as int) },
            Stage::Inspect => ActionView::CheckIsFile { path: self.canonical },
            Stage::Parent => ActionView::CreateDirAll { path: self.parent_dir() },
            Stage::Copying => ActionView::CopyFile {
                from: self.source_of(self.done as int),
                to: self.destination_of(self.done as int),
            },
        }
    }

    /// The transfer ends here with `result`.
    pub open spec fn finish(self, result: Result<(), ErrorView>) -> StepView {
        StepView::Finished { result, last: self }
    }

    /// The transfer turns to the directories above the destination of the
    /// file in turn, or ends where the destination has nothing above it.
    pub open spec fn to_parent(self) -> StepView {
        let at = TransferView { stage: Stage::Parent, ..self };
        match get_parent_spec(at.destination_of(at.done as int)) {
            Ok(_) => StepView::Continue(at),
            Err(e) => at.finish(Err(e)),
        }
    }

    /// The transfer turns to the next file, or ends well where none is left.
    pub open spec fn next_file(self) -> StepView {
        if self.done < self.files.len() {
            StepView::Continue(TransferView { stage: Stage::Resolve, ..self })
        } else {
            self.finish(Ok(()))
        }
    }

    /// How the transfer goes on when `event` comes in. An event that does not
    /// answer the action that is due changes nothing.
    pub open spec fn step(self, event: Event) -> StepView {
        match self.stage {
            Stage::Locate => match event {
                Event::CurrentDir(found) => match current_dir_spec(found) {
                    Ok(dir) => StepView::Continue(
                        TransferView {
                            staging: joined(dir, self.name),
                            stage: match self.direction {
                                Direction::PickUp => Stage::Staging,
                                Direction::DropOff => Stage::Distinct,
                            },
                            ..self
                        },
                    ),
                    Err(e) => self.finish(Err(e)),
                },
                _ => StepView::Continue(self),
            },
            Stage::Staging => match event {
                Event::DirsCreated(made) => match create_dir_all_spec(self.staging, made) {
                    Ok(()) => StepView::Continue(TransferView { stage: Stage::Distinct, ..self }),
                    Err(e) => self.finish(Err(e)),
                },
                _ => StepView::Continue(self),
            },
            Stage::Distinct => match event {
                Event::SameFile(same) => match check_not_same_file_spec(
                    self.source(),
                    self.destination(),
                    same,
                ) {
                    Ok(()) => self.next_file(),
                    Err(e) => self.finish(Err(e)),
                },
                _ => StepView::Continue(self),
            },
            Stage::Resolve => match event {
                Event::Canonical(found) => match canonicalize_spec(
                    self.source_of(self.done as int),
                    found,
                ) {
                    Ok(target) => StepView::Continue(
                        TransferView { canonical: target, stage: Stage::Inspect, ..self },
                    ),
                    Err(e) => self.finish(Err(e)),
                },
                _ => StepView::Continue(self),
            },
            Stage::Inspect => match event {
                Event::IsFile(regular) => match is_file_spec(self.canonical, regular) {
                    Ok(()) => self.to_parent(),
                    Err(e) => self.finish(Err(e)),
                },
                _ => StepView::Continue(self),
            },
            Stage::Parent => match event {
                Event::DirsCreated(made) => match create_dir_all_spec(self.parent_dir(), made) {
                    Ok(()) => StepView::Continue(TransferView { stage: Stage::Copying, ..self }),
                    Err(e) => self.finish(Err(e)),
                },
                _ => StepView::Continue(self),
            },
            Stage::Copying => match event {
                Event::Copied(done) => match copy_spec(
                    self.source_of(self.done as int),
                    self.destination_of(self.done as int),
                    done,
                ) {
                    Ok(()) => TransferView { done: self.done + 1, ..self }.next_file(),
                    Err(e) => self.finish(Err(e)),
                },
                _ => StepView::Continue(self),
            },
        }
    }

    /// How the transfer goes on when `events` come in one after the other.
    /// Once it is over, no further event is looked at.
    pub open spec fn run(self, events: Seq<Event>) -> StepView
        decreases events.len(),
    {
        if events.len() == 0 {
            StepView::Continue(self)
        } else {
            match self.step(events[0]) {
                StepView::Continue(next) => next.run(events.drop_first()),
                over => over,
            }
        }
    }
}

/// A pick-up or drop-off under way.
pub struct Transfer {
    direction: Direction,
    name: String,
    external: String,
    staging: String,
    files: Vec<String>,
    stage: Stage,
    canonical: String,
    copied: Vec<(String, String)>,
}

/// How a step ends.
pub enum Step {
    /// The transfer goes on: its next action is due.
    Continue(Transfer),
    /// The transfer is over, and its report is written.
    Finished(Result<(), Error>),
}

impl View for Transfer {
    type V = TransferView;

    closed spec fn view(&self) -> TransferView {
        TransferView {
            direction: self.direction,
            name: self.name@,
            external: self.external@,
            staging: self.staging@,
            files: self.files.deep_view(),
            stage: self.stage,
            canonical: self.canonical@,
            done: self.copied.len() as nat,
        }
    }
}

/// Begins to pick the files of `plan` up from the directory `from`, into the
/// staging directory that is named after the plan.
pub fn pick_up(plan: &Plan, from: &str) -> (transfer: Transfer)
    ensures
        transfer@ == TransferView::start(Direction::PickUp, plan@, from@),
{
    Transfer::begin(Direction::PickUp, plan, from)
}

/// Begins to drop the files of `plan` off, from the staging directory that is
/// named after the plan into the directory `to`.
pub fn drop_off(plan: &Plan, to: &str) -> (transfer: Transfer)
    ensures
        transfer@ == TransferView::start(Direction::DropOff, plan@, to@),
{
    Transfer::begin(Direction::DropOff, plan, to)
}

impl Transfer {
    #[verifier::type_invariant]
    spec fn inv(&self) -> bool {
        &&& self@.wf()
        &&& self.copied.deep_view() =~= self@.records()
    }

    fn begin(direction: Direction, plan: &Plan, external: &str) -> (transfer: Transfer)
        ensures
            transfer@ == TransferView::start(direction, plan@, external@),
    {
        Transfer {
            direction,
            name: plan.name.clone(),
            external: String::from_str(external),
            staging: String::new(),
            files: clone_lines(&plan.files),
            stage: Stage::Locate,
            canonical: String::new(),
            copied: Vec::new(),
        }
    }

    /// The directory that files are read from.
    fn source(&self) -> (dir: &str)
        ensures
            dir@ == self@.source(),
    {
        match self.direction {
            Direction::PickUp => self.external.as_str(),
            Direction::DropOff => self.staging.as_str(),
        }
    }

    /// The directory that files are written to.
    fn destination(&self) -> (dir: &str)
        ensures
            dir@ == self@.destination(),
    {
        match self.direction {
            Direction::PickUp => self.staging.as_str(),
            Direction::DropOff => self.external.as_str(),
        }
    }

    /// Where the file in turn is read.
    fn current_source(&self) -> (path: String)
        requires
            self@.in_file(),
        ensures
            path@ == self@.source_of(self@.done as int),
    {
        proof {
            use_type_invariant(self);
        }
        let i: usize = self.copied.len();
        append(self.source(), self.files[i].as_str())
    }

    /// Where the file in turn is written.
    fn current_destination(&self) -> (path: String)
        requires
            self@.in_file(),
        ensures
            path@ == self@.destination_of(self@.done as int),
    {
        proof {
            use_type_invariant(self);
        }
        let i: usize = self.copied.len();
        append(self.destination(), self.files[i].as_str())
    }

    /// The directory above the destination of the file in turn.
    fn parent_dir(&self) -> (path: String)
        requires
            self@.in_file(),
        ensures
            path@ == self@.parent_dir(),
    {
        let to = self.current_destination();
        match parent(to.as_str()) {
            Some(above) => above,
            None => String::new(),
        }
    }

    /// The action that is due.
    pub fn action(&self) -> (action: Action)
        ensures
            action@ == self@.action(),
            self@.wf(),
    {
        proof {
            use_type_invariant(self);
        }
        match self.stage {
            Stage::Locate => Action::CurrentDir,
            Stage::Staging => Action::CreateDirAll { path: self.staging.clone() },
            Stage::Distinct => Action::CheckSameFile {
                a: String::from_str(self.source()),
                b: String::from_str(self.destination()),
            },
            Stage::Resolve => Action::Canonicalize { path: self.current_source() },
            Stage::Inspect => Action::CheckIsFile { path: self.canonical.clone() },
            Stage::Parent => Action::CreateDirAll { path: self.parent_dir() },
            Stage::Copying => Action::CopyFile {
                from: self.current_source(),
                to: self.current_destination(),
            },
        }
    }

    /// Ends the transfer with `result`: writes the report of what was copied.
    fn finish<P: Print>(self, result: Result<(), Error>, stdout: &mut P) -> (next: Step)
        ensures
            next matches Step::Finished(r) && r == result,
            reported(*old(stdout), *final(stdout), report_lines(self@.records())),
    {
        proof {
            use_type_invariant(&self);
        }
        print_copied(self.copied, stdout);
        Step::Finished(result)
    }

    /// Turns to the next file, or ends the transfer well where none is left.
    fn next_file<P: Print>(self, stdout: &mut P) -> (next: Step)
        requires
            !self@.in_file(),
        ensures
            step_agrees(next, self@.next_file(), *old(stdout), *final(stdout)),
    {
        proof {
            use_type_invariant(&self);
        }
        if self.copied.len() < self.files.len() {
            Step::Continue(Transfer { stage: Stage::Resolve, ..self })
        } else {
            self.finish(Ok(()), stdout)
        }
    }

    /// Takes `event` as the answer to the action that is due and goes on:
    /// to the next action, or to the end of the transfer, with the report of
    /// what was copied written to `stdout`. An event that does not answer
    /// the action that is due changes nothing.
    pub fn step<P: Print>(self, event: Event, stdout: &mut P) -> (next: Step)
        ensures
            step_agrees(next, self@.step(event), *old(stdout), *final(stdout)),
            next matches Step::Continue(transfer) ==> transfer@.wf(),
    {
        proof {
            use_type_invariant(&self);
        }
        let next = match self.stage {
            Stage::Locate => match event {
                Event::CurrentDir(found) => match current_dir(found) {
                    Ok(dir) => {
                        let staging = append(dir.as_str(), self.name.as_str());
                        let stage = match self.direction {
                            Direction::PickUp => Stage::Staging,
                            Direction::DropOff => Stage::Distinct,
                        };
                        Step::Continue(Transfer { staging, stage, ..self })
                    },
                    Err(e) => self.finish(Err(e), stdout),
                },
                _ => Step::Continue(self),
            },
            Stage::Staging => match event {
                Event::DirsCreated(made) => match create_dir_all(self.staging.as_str(), made) {
                    Ok(()) => Step::Continue(Transfer { stage: Stage::Distinct, ..self }),
                    Err(e) => self.finish(Err(e), stdout),
                },
                _ => Step::Continue(self),
            },
            Stage::Distinct => match event {
                Event::SameFile(same) => match check_not_same_file(
                    self.source(),
                    self.destination(),
                    same,
                ) {
                    Ok(()) => self.next_file(stdout),
                    Err(e) => self.finish(Err(e), stdout),
                },
                _ => Step::Continue(self),
            },
            Stage::Resolve => match event {
                Event::Canonical(found) => {
                    let path = self.current_source();
                    match canonicalize(path.as_str(), found) {
                        Ok(canonical) => Step::Continue(
                            Transfer { canonical, stage: Stage::Inspect, ..self },
                        ),
                        Err(e) => self.finish(Err(e), stdout),
                    }
                },
                _ => Step::Continue(self),
            },
            Stage::Inspect => match event {
                Event::IsFile(regular) => match is_file(self.canonical.as_str(), regular) {
                    Ok(()) => {
                        let to = self.current_destination();
                        let at = Transfer { stage: Stage::Parent, ..self };
                        match get_parent(to.as_str()) {
                            Ok(_) => Step::Continue(at),
                            Err(e) => at.finish(Err(e), stdout),
                        }
                    },
                    Err(e) => self.finish(Err(e), stdout),
                },
                _ => Step::Continue(self),
            },
            Stage::Parent => match event {
                Event::DirsCreated(made) => {
                    let above = self.parent_dir();
                    match create_dir_all(above.as_str(), made) {
                        Ok(()) => Step::Continue(Transfer { stage: Stage::Copying, ..self }),
                        Err(e) => self.finish(Err(e), stdout),
                    }
                },
                _ => Step::Continue(self),
            },
            Stage::Copying => match event {
                Event::Copied(done) => {
                    let from = self.current_source();
                    let to = self.current_destination();
                    match copy(from.as_str(), to.as_str(), done) {
                        Ok(()) => self.copied_one(from, to, stdout),
                        Err(e) => self.finish(Err(e), stdout),
                    }
                },
                _ => Step::Continue(self),
            },
        };
        next
    }

    /// Takes `events` one after the other, each as the answer to the action
    /// that is due by then, until they are used up or the transfer is over.
    #[verifier::loop_isolation(false)]
    pub fn run<P: Print>(self, events: Vec<Event>, stdout: &mut P) -> (next: Step)
        ensures
            step_agrees(next, self@.run(events@), *old(stdout), *final(stdout)),
            next matches Step::Continue(transfer) ==> transfer@.wf(),
    {
        let ghost whole = self@.run(events@);
        let ghost before = *stdout;
        proof {
            use_type_invariant(&self);
        }
        let mut transfer = self;
        assert(events@.skip(0) == events@);
        for event in it: events
            invariant
                it.seq() == events@,
                transfer@.wf(),
                whole == transfer@.run(events@.skip(it.index())),
                untouched(before, *stdout),
        {
            proof {
                let rest = events@.skip(it.index());
                assert(rest.drop_first() == events@.skip(it.index() + 1));
            }
            match transfer.step(event, stdout) {
                Step::Continue(next) => {
                    transfer = next;
                },
                Step::Finished(result) => {
                    return Step::Finished(result);
                },
            }
        }
        Step::Continue(transfer)
    }

    /// Records the copy of the file in turn, from `from` to `to`, and turns
    /// to the next file, or ends the transfer well where none is left.
    fn copied_one<P: Print>(
        self,
        from: String,
        to: String,
        stdout: &mut P,
    ) -> (next: Step)
        requires
            self@.stage == Stage::Copying,
            from@ == self@.source_of(self@.done as int),
            to@ == self@.destination_of(self@.done as int),
        ensures
            step_agrees(
                next,
                (TransferView { done: self@.done + 1, ..self@ }).next_file(),
                *old(stdout),
                *final(stdout),
            ),
            next matches Step::Continue(transfer) ==> transfer@.wf(),
    {
        proof {
            use_type_invariant(&self);
        }
        let ghost before = self@;
        let ghost after = TransferView { done: before.done + 1, ..before };
        let Transfer { direction, name, external, staging, files, stage: _, canonical, copied } =
            self;
        let ghost earlier = copied.deep_view();
        let mut copied = copied;
        copied.push((from, to));
        proof {
            assert forall|i: int| 0 <= i < after.done implies copied.deep_view()[i]
                == after.records()[i] by {
                if i < before.done {
                    assert(earlier[i] == before.records()[i]);
                }
            }
            assert(copied.deep_view() =~= after.records());
        }
        if copied.len() < files.len() {
            Step::Continue(
                Transfer {
                    direction,
                    name,
                    external,
                    staging,
                    files,
                    stage: Stage::Resolve,
                    canonical,
                    copied,
                },
            )
        } else {
            print_copied(copied, stdout);
            Step::Finished(Ok(()))
        }
    }
}

/// Nothing was handed to the output between `before` and `after`.
pub open spec fn untouched<P: Print>(before: P, after: P) -> bool {
    &&& after.taken() == before.taken()
    &&& after.printed() == before.printed()
    &&& after.prints() == before.prints()
}

/// Between `before` and `after` the output took `report`, behind what it had
/// taken already, and was then printed, once.
pub open spec fn reported<P: Print>(before: P, after: P, report: Seq<Seq<char>>) -> bool {
    &&& after.taken() == before.taken() + report
    &&& after.printed() == after.taken()
    &&& after.prints() == before.prints() + 1
}

/// `next` is what `expected` stands for, and the output went from `before`
/// to `after` as that step asks: nothing was handed to it where the transfer
/// goes on; where the transfer is over, the report was written to it and
/// printed.
pub open spec fn step_agrees<P: Print>(next: Step, expected: StepView, before: P, after: P) -> bool {
    match expected {
        StepView::Continue(state) => {
            &&& next matches Step::Continue(transfer)
            &&& transfer@ == state
            &&& untouched(before, after)
        },
        StepView::Finished { result, last } => {
            &&& next matches Step::Finished(r)
            &&& result_view(r) == result
            &&& reported(before, after, report_lines(last.records()))
        },
    }
}

} // verus!
