//! What the library asks its host to do, and what the host reports back.
//!
//! The library starts no program and touches no file. It decides; the host
//! carries out one `Action` at a time and answers with an `Outcome`.

use crate::text::texts;
use vstd::prelude::*;

verus! {

/// A program and the arguments it is started with.
#[derive(Debug)]
pub struct Command {
    pub program: String,
    pub args: Vec<String>,
}

/// A command as text.
pub struct CommandView {
    pub program: Seq<char>,
    pub args: Seq<Seq<char>>,
}

impl View for Command {
    type V = CommandView;

    open spec fn view(&self) -> CommandView {
        CommandView { program: self.program@, args: texts(self.args@) }
    }
}

/// One thing for the host to do.
#[derive(Debug)]
pub enum Action {
    /// Start the program on the terminal of the process and wait for it.
    Run(Command),
    /// Start the program, keeping its output to oneself, and wait for it.
    Probe(Command),
    /// Create the directory and those above it that are missing.
    CreateDir(String),
    /// Copy the file at `from` to `to`.
    Copy { from: String, to: String },
    /// Give the file the permission bits `mode`.
    SetMode { path: String, mode: u32 },
    /// Write `contents` to the file at `path`, replacing what it held.
    Write { path: String, contents: String },
    /// Remove the file.
    Remove(String),
    /// Remove the file if it is there.
    Discard(String),
    /// Read the names of the entries of the directory.
    List(String),
    /// See whether anything lies at the path.
    Exists(String),
    /// See whether the variable is set in the environment.
    EnvSet(String),
    /// See whether the running program is the file at the path.
    RunningFrom(String),
}

/// An action as text.
pub enum ActionView {
    Run(CommandView),
    Probe(CommandView),
    CreateDir(Seq<char>),
    Copy { from: Seq<char>, to: Seq<char> },
    SetMode { path: Seq<char>, mode: u32 },
    Write { path: Seq<char>, contents: Seq<char> },
    Remove(Seq<char>),
    Discard(Seq<char>),
    List(Seq<char>),
    Exists(Seq<char>),
    EnvSet(Seq<char>),
    RunningFrom(Seq<char>),
}

impl View for Action {
    type V = ActionView;

    open spec fn view(&self) -> ActionView {
        match self {
            Action::Run(command) => ActionView::Run(command@),
            Action::Probe(command) => ActionView::Probe(command@),
            Action::CreateDir(path) => ActionView::CreateDir(path@),
            Action::Copy { from, to } => ActionView::Copy { from: from@, to: to@ },
            Action::SetMode { path, mode } => ActionView::SetMode { path: path@, mode: *mode },
            Action::Write { path, contents } => ActionView::Write {
                path: path@,
                contents: contents@,
            },
            Action::Remove(path) => ActionView::Remove(path@),
            Action::Discard(path) => ActionView::Discard(path@),
            Action::List(path) => ActionView::List(path@),
            Action::Exists(path) => ActionView::Exists(path@),
            Action::EnvSet(name) => ActionView::EnvSet(name@),
            Action::RunningFrom(path) => ActionView::RunningFrom(path@),
        }
    }
}

impl ActionView {
    /// The action starts a program.
    pub open spec fn starts_program(self) -> bool {
        self is Run || self is Probe
    }
}

/// What came of an action.
#[derive(Debug)]
pub enum Outcome {
    /// It was done; the program ended well; what was looked for is there.
    Success,
    /// The program ended badly; what was looked for is not there.
    Failure,
    /// It could not be done at all, for the reason given.
    Error(String),
    /// The names that a directory holds.
    Entries(Vec<String>),
}

/// An outcome as text.
pub enum OutcomeView {
    Success,
    Failure,
    Error(Seq<char>),
    Entries(Seq<Seq<char>>),
}

impl View for Outcome {
    type V = OutcomeView;

    open spec fn view(&self) -> OutcomeView {
        match self {
            Outcome::Success => OutcomeView::Success,
            Outcome::Failure => OutcomeView::Failure,
            Outcome::Error(cause) => OutcomeView::Error(cause@),
            Outcome::Entries(names) => OutcomeView::Entries(texts(names@)),
        }
    }
}

/// As many strings of the same texts.
pub fn duplicate_all(strings: &Vec<String>) -> (copy: Vec<String>)
    ensures
        texts(copy@) == texts(strings@),
{
    let mut copy: Vec<String> = Vec::new();
    let mut i: usize = 0;
    while i < strings.len()
        invariant
            i <= strings.len(),
            copy@.len() == i,
            forall|j: int| 0 <= j < i ==> copy@[j]@ == strings@[j]@,
        decreases strings.len() - i,
    {
        copy.push(strings[i].clone());
        i += 1;
    }
    copy
}

impl Command {
    /// The same command once more.
    pub fn duplicate(&self) -> (copy: Command)
        ensures
            copy@ == self@,
    {
        Command { program: self.program.clone(), args: duplicate_all(&self.args) }
    }
}

impl Action {
    /// The same action once more.
    pub fn duplicate(&self) -> (copy: Action)
        ensures
            copy@ == self@,
    {
        match self {
            Action::Run(command) => Action::Run(command.duplicate()),
            Action::Probe(command) => Action::Probe(command.duplicate()),
            Action::CreateDir(path) => Action::CreateDir(path.clone()),
            Action::Copy { from, to } => Action::Copy { from: from.clone(), to: to.clone() },
            Action::SetMode { path, mode } => Action::SetMode { path: path.clone(), mode: *mode },
            Action::Write { path, contents } => Action::Write {
                path: path.clone(),
                contents: contents.clone(),
            },
            Action::Remove(path) => Action::Remove(path.clone()),
            Action::Discard(path) => Action::Discard(path.clone()),
            Action::List(path) => Action::List(path.clone()),
            Action::Exists(path) => Action::Exists(path.clone()),
            Action::EnvSet(name) => Action::EnvSet(name.clone()),
            Action::RunningFrom(path) => Action::RunningFrom(path.clone()),
        }
    }
}

/// The command that starts `program` with `args`.
pub fn command(program: &str, args: &[&str]) -> (made: Command)
    ensures
        made@.program == program@,
        made@.args == Seq::new(args@.len(), |i: int| args@[i]@),
{
    let mut list: Vec<String> = Vec::new();
    let mut i: usize = 0;
    while i < args.len()
        invariant
            i <= args.len(),
            list@.len() == i,
            forall|j: int| 0 <= j < i ==> list@[j]@ == args@[j]@,
        decreases args.len() - i,
    {
        list.push(String::from_str(args[i]));
        i += 1;
    }
    let made = Command { program: String::from_str(program), args: list };
    made
}

} // verus!
