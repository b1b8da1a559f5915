//! Procedures: what an installation or a removal consists of, step by
//! step, and how it goes on after each step.
//!
//! A procedure is a script of instructions, carried out in order. It ends
//! well past its last instruction and ends with an error at the first
//! instruction that demands so. Two kinds of procedure learn something from
//! the host before their script is known: a fork, which asks one question
//! and has a script for either answer, and a scan, which reads a directory
//! and removes what matches.

use crate::actions::{Action, ActionView, Outcome, OutcomeView};
use crate::models::InstallType;
use crate::text::text_of;
use crate::scripts::{removal_script, scan_script};
use vstd::prelude::*;

verus! {

/// The ways in which an installation or a removal fails.
#[derive(Debug, Clone, Copy, PartialEq, Eq, Structural)]
pub enum InstallErrorKind {
    /// The format cannot be installed or removed at all.
    UnsupportedFormat,
    /// A tool could not be started, or ended badly.
    ToolInvocation,
    /// What was to be removed is not there.
    NotFound,
    /// A file could not be copied, written, removed or made executable.
    Io,
    /// The path of the package names no file.
    InvalidPath,
    /// The host lacks a directory of the user.
    MissingDirectory,
}

/// Why an installation or a removal failed.
#[derive(Debug)]
pub struct InstallError {
    pub kind: InstallErrorKind,
    pub install_type: InstallType,
    pub cause: String,
}

/// An error as text.
pub struct InstallErrorView {
    pub kind: InstallErrorKind,
    pub install_type: InstallType,
    pub cause: Seq<char>,
}

impl View for InstallError {
    type V = InstallErrorView;

    open spec fn view(&self) -> InstallErrorView {
        InstallErrorView { kind: self.kind, install_type: self.install_type, cause: self.cause@ }
    }
}

/// One line of a script.
#[derive(Debug)]
pub enum Instruction {
    /// Do this; the procedure fails unless it succeeds. Where it could not
    /// be done the error says `could_not`, or what the host said if there
    /// is no such text; where it was done and did not succeed the error
    /// says `failed`.
    Must { action: Action, could_not: Option<String>, failed: String },
    /// Do this, and go on whatever comes of it.
    May(Action),
    /// Do this; the procedure ends well if it succeeds, fails with
    /// `blocked` if it could not be done, and goes on otherwise.
    Try { action: Action, blocked: String },
    /// Fail with this error.
    Abort(InstallError),
}

/// An instruction as text.
pub enum InstructionView {
    Must { action: ActionView, could_not: Option<Seq<char>>, failed: Seq<char> },
    May(ActionView),
    Try { action: ActionView, blocked: Seq<char> },
    Abort(InstallErrorView),
}

impl View for Instruction {
    type V = InstructionView;

    open spec fn view(&self) -> InstructionView {
        match self {
            Instruction::Must { action, could_not, failed } => InstructionView::Must {
                action: action@,
                could_not: match could_not {
                    Some(text) => Some(text@),
                    None => None,
                },
                failed: failed@,
            },
            Instruction::May(action) => InstructionView::May(action@),
            Instruction::Try { action, blocked } => InstructionView::Try {
                action: action@,
                blocked: blocked@,
            },
            Instruction::Abort(error) => InstructionView::Abort(error@),
        }
    }
}

/// The instructions of a script as text.
pub open spec fn script_view(script: Seq<Instruction>) -> Seq<InstructionView> {
    Seq::new(script.len(), |i: int| script[i]@)
}

/// How far a procedure has come, as text.
pub enum StageView {
    /// The instructions that are left, the first of which is being carried
    /// out.
    Steps(Seq<InstructionView>),
    /// A question is being asked: `hit` is the script if the answer is yes,
    /// `miss` the one if it is anything else.
    Fork { probe: ActionView, hit: Seq<InstructionView>, miss: Seq<InstructionView> },
    /// The directory `dir` is being read, to remove from it every file
    /// whose name holds `package`, whatever the case of either, each with
    /// its desktop entry under `applications`.
    Scan { dir: Seq<char>, package: Seq<char>, applications: Option<Seq<char>> },
    /// The procedure is over.
    Finished(Result<(), InstallErrorView>),
}

/// A procedure as text: the format it is about, and how far it has come.
pub struct OperationView {
    pub install_type: InstallType,
    pub stage: StageView,
}

/// The kind of error that an action gives rise to when it does not succeed.
pub open spec fn failure_kind(action: ActionView) -> InstallErrorKind {
    if action.starts_program() {
        InstallErrorKind::ToolInvocation
    } else {
        InstallErrorKind::Io
    }
}

/// The stage in which a procedure with `script` left to do is: over, well,
/// if nothing is left; over with an error if the script demands one now;
/// else at the first instruction of the script.
pub open spec fn settled(script: Seq<InstructionView>) -> StageView {
    if script.len() == 0 {
        StageView::Finished(Ok(()))
    } else {
        match script[0] {
            InstructionView::Abort(error) => StageView::Finished(Err(error)),
            _ => StageView::Steps(script),
        }
    }
}

/// The error of an instruction that had to succeed and met `outcome`.
pub open spec fn must_error(
    install_type: InstallType,
    action: ActionView,
    could_not: Option<Seq<char>>,
    failed: Seq<char>,
    outcome: OutcomeView,
) -> InstallErrorView {
    InstallErrorView {
        kind: failure_kind(action),
        install_type,
        cause: match outcome {
            OutcomeView::Error(said) => match could_not {
                Some(text) => text,
                None => said,
            },
            _ => failed,
        },
    }
}

/// The stage after the first instruction of `script` met `outcome`.
pub open spec fn after_step(
    install_type: InstallType,
    script: Seq<InstructionView>,
    outcome: OutcomeView,
) -> StageView
    recommends
        script.len() > 0,
{
    match script[0] {
        InstructionView::Must { action, could_not, failed } => {
            if outcome is Success {
                settled(script.drop_first())
            } else {
                StageView::Finished(
                    Err(must_error(install_type, action, could_not, failed, outcome)),
                )
            }
        },
        InstructionView::May(_) => settled(script.drop_first()),
        InstructionView::Try { action, blocked } => match outcome {
            OutcomeView::Success => StageView::Finished(Ok(())),
            OutcomeView::Error(_) => StageView::Finished(
                Err(InstallErrorView { kind: failure_kind(action), install_type, cause: blocked }),
            ),
            _ => settled(script.drop_first()),
        },
        InstructionView::Abort(error) => StageView::Finished(Err(error)),
    }
}

impl StageView {
    /// The procedure is over.
    pub open spec fn is_over(self) -> bool {
        self is Finished
    }

    /// What the host is to do now; nothing once the procedure is over.
    pub open spec fn pending(self) -> Option<ActionView> {
        match self {
            StageView::Steps(script) => if script.len() > 0 {
                match script[0] {
                    InstructionView::Must { action, .. } => Some(action),
                    InstructionView::May(action) => Some(action),
                    InstructionView::Try { action, .. } => Some(action),
                    InstructionView::Abort(_) => None,
                }
            } else {
                None
            },
            StageView::Fork { probe, .. } => Some(probe),
            StageView::Scan { dir, .. } => Some(ActionView::List(dir)),
            StageView::Finished(_) => None,
        }
    }

    /// A stage is sound if it is over exactly when nothing is pending.
    pub open spec fn sound(self) -> bool {
        match self {
            StageView::Steps(script) => script.len() > 0 && !(script[0] is Abort),
            _ => true,
        }
    }
}

impl OperationView {
    /// The procedure after the host has answered what was pending with
    /// `outcome`. Nothing changes a procedure that is over.
    pub open spec fn advanced(self, outcome: OutcomeView) -> OperationView {
        OperationView {
            install_type: self.install_type,
            stage: match self.stage {
                StageView::Steps(script) => after_step(self.install_type, script, outcome),
                StageView::Fork { probe, hit, miss } => settled(
                    if outcome is Success {
                        hit
                    } else {
                        miss
                    },
                ),
                StageView::Scan { dir, package, applications } => settled(
                    scan_script(
                        dir,
                        package,
                        applications,
                        match outcome {
                            OutcomeView::Entries(names) => names,
                            _ => Seq::empty(),
                        },
                    ),
                ),
                StageView::Finished(result) => StageView::Finished(result),
            },
        }
    }
}

impl OperationView {
    /// The procedure after the host has given `outcomes` in turn.
    pub open spec fn advanced_through(self, outcomes: Seq<OutcomeView>) -> OperationView
        decreases outcomes.len(),
    {
        if outcomes.len() == 0 {
            self
        } else {
            self.advanced(outcomes[0]).advanced_through(outcomes.drop_first())
        }
    }
}

impl InstallError {
    /// An error of the given kind and words.
    pub fn new(kind: InstallErrorKind, install_type: InstallType, cause: &str) -> (error: Self)
        ensures
            error@ == (InstallErrorView { kind, install_type, cause: cause@ }),
    {
        InstallError { kind, install_type, cause: String::from_str(cause) }
    }

    /// The same error once more.
    pub fn duplicate(&self) -> (copy: Self)
        ensures
            copy@ == self@,
    {
        InstallError {
            kind: self.kind,
            install_type: self.install_type,
            cause: self.cause.clone(),
        }
    }
}

/// How far a procedure has come.
#[derive(Debug)]
pub(crate) enum Stage {
    /// The script, and the index of the instruction that is being carried
    /// out.
    Steps { script: Vec<Instruction>, at: usize },
    Fork { probe: Action, hit: Vec<Instruction>, miss: Vec<Instruction> },
    Scan { dir: String, package: String, applications: Option<String> },
    Finished(Result<(), InstallError>),
}

impl Stage {
    pub(crate) open spec fn view(&self) -> StageView {
        match self {
            Stage::Steps { script, at } => StageView::Steps(script_view(script@).skip(*at as int)),
            Stage::Fork { probe, hit, miss } => StageView::Fork {
                probe: probe@,
                hit: script_view(hit@),
                miss: script_view(miss@),
            },
            Stage::Scan { dir, package, applications } => StageView::Scan {
                dir: dir@,
                package: package@,
                applications: text_of(*applications),
            },
            Stage::Finished(result) => StageView::Finished(
                match result {
                    Ok(_) => Ok(()),
                    Err(error) => Err(error@),
                },
            ),
        }
    }

    /// The index of a script in progress lies within the script.
    pub(crate) open spec fn in_bounds(&self) -> bool {
        match self {
            Stage::Steps { script, at } => *at < script@.len(),
            _ => true,
        }
    }

    /// The stage of a procedure that has `script` from index `at` on left
    /// to do.
    pub(crate) fn settle(script: Vec<Instruction>, at: usize) -> (stage: Stage)
        requires
            at <= script@.len(),
        ensures
            stage@ == settled(script_view(script@).skip(at as int)),
            stage@.sound(),
            stage.in_bounds(),
    {
        if at >= script.len() {
            return Stage::Finished(Ok(()));
        }
        match &script[at] {
            Instruction::Abort(error) => Stage::Finished(Err(error.duplicate())),
            _ => Stage::Steps { script, at },
        }
    }
}

/// An installation or a removal in progress.
#[derive(Debug)]
pub struct Operation {
    install_type: InstallType,
    stage: Stage,
}

impl View for Operation {
    type V = OperationView;

    closed spec fn view(&self) -> OperationView {
        OperationView { install_type: self.install_type, stage: self.stage@ }
    }
}

impl Operation {
    #[verifier::type_invariant]
    spec fn well_formed(self) -> bool {
        self.stage@.sound() && self.stage.in_bounds()
    }

    /// The procedure for `install_type` that is in `stage`.
    pub(crate) fn begin(install_type: InstallType, stage: Stage) -> (operation: Operation)
        requires
            stage@.sound(),
            stage.in_bounds(),
        ensures
            operation@ == (OperationView { install_type, stage: stage@ }),
    {
        Operation { install_type, stage }
    }

    /// The format that the procedure is about.
    pub fn install_type(&self) -> (install_type: InstallType)
        ensures
            install_type == self@.install_type,
    {
        self.install_type
    }

    /// Whether the procedure is over.
    pub fn is_finished(&self) -> (over: bool)
        ensures
            over == self@.stage.is_over(),
            over == (self@.stage.pending() is None),
    {
        proof {
            use_type_invariant(self);
        }
        match &self.stage {
            Stage::Finished(_) => true,
            _ => false,
        }
    }

    /// How the procedure ended, once it is over.
    pub fn result(&self) -> (result: Option<Result<(), InstallError>>)
        ensures
            match result {
                Some(Ok(_)) => self@.stage == StageView::Finished(Ok(())),
                Some(Err(error)) => self@.stage == StageView::Finished(Err(error@)),
                None => !self@.stage.is_over(),
            },
    {
        match &self.stage {
            Stage::Finished(Ok(_)) => Some(Ok(())),
            Stage::Finished(Err(error)) => Some(Err(error.duplicate())),
            _ => None,
        }
    }

    /// What the host is to do now; nothing once the procedure is over.
    pub fn pending(&self) -> (action: Option<Action>)
        ensures
            match action {
                Some(a) => self@.stage.pending() == Some(a@),
                None => self@.stage.pending() is None,
            },
    {
        proof {
            use_type_invariant(self);
        }
        match &self.stage {
            Stage::Steps { script, at } => {
                match &script[*at] {
                    Instruction::Must { action, .. } => Some(action.duplicate()),
                    Instruction::May(action) => Some(action.duplicate()),
                    Instruction::Try { action, .. } => Some(action.duplicate()),
                    Instruction::Abort(_) => None,
                }
            },
            Stage::Fork { probe, .. } => Some(probe.duplicate()),
            Stage::Scan { dir, .. } => Some(Action::List(dir.clone())),
            Stage::Finished(_) => None,
        }
    }

    /// The procedure after the host has answered what was pending with
    /// `outcome`.
    pub fn advance(self, outcome: Outcome) -> (next: Operation)
        ensures
            next@ == self@.advanced(outcome@),
    {
        proof {
            use_type_invariant(&self);
        }
        let install_type = self.install_type;
        let stage = match self.stage {
            Stage::Steps { script, at } => {
                let total = script.len();
                assert(at < total);
                proof {
                    let rest = script_view(script@).skip(at as int);
                    assert(rest.drop_first() == script_view(script@).skip(at + 1));
                }
                match &script[at] {
                    Instruction::Must { action, could_not, failed } => {
                        match outcome {
                            Outcome::Success => Stage::settle(script, at + 1),
                            Outcome::Error(said) => {
                                let cause = match could_not {
                                    Some(text) => text.clone(),
                                    None => said,
                                };
                                Stage::Finished(
                                    Err(
                                        InstallError {
                                            kind: failure_kind_of(action),
                                            install_type,
                                            cause,
                                        },
                                    ),
                                )
                            },
                            _ => Stage::Finished(
                                Err(
                                    InstallError {
                                        kind: failure_kind_of(action),
                                        install_type,
                                        cause: failed.clone(),
                                    },
                                ),
                            ),
                        }
                    },
                    Instruction::May(_) => Stage::settle(script, at + 1),
                    Instruction::Try { action, blocked } => match outcome {
                        Outcome::Success => Stage::Finished(Ok(())),
                        Outcome::Error(_) => Stage::Finished(
                            Err(
                                InstallError {
                                    kind: failure_kind_of(action),
                                    install_type,
                                    cause: blocked.clone(),
                                },
                            ),
                        ),
                        _ => Stage::settle(script, at + 1),
                    },
                    Instruction::Abort(error) => Stage::Finished(Err(error.duplicate())),
                }
            },
            Stage::Fork { probe, hit, miss } => match outcome {
                Outcome::Success => {
                    assert(script_view(hit@).skip(0) == script_view(hit@));
                    Stage::settle(hit, 0)
                },
                _ => {
                    assert(script_view(miss@).skip(0) == script_view(miss@));
                    Stage::settle(miss, 0)
                },
            },
            Stage::Scan { dir, package, applications } => {
                let names = match outcome {
                    Outcome::Entries(names) => names,
                    _ => Vec::new(),
                };
                let script = removal_script(dir.as_str(), package.as_str(), &applications, &names);
                assert(script_view(script@).skip(0) == script_view(script@));
                Stage::settle(script, 0)
            },
            Stage::Finished(result) => Stage::Finished(result),
        };
        Operation { install_type, stage }
    }
}

/// The kind of error that an action gives rise to when it does not succeed.
pub fn failure_kind_of(action: &Action) -> (kind: InstallErrorKind)
    ensures
        kind == failure_kind(action@),
{
    match action {
        Action::Run(_) => InstallErrorKind::ToolInvocation,
        Action::Probe(_) => InstallErrorKind::ToolInvocation,
        _ => InstallErrorKind::Io,
    }
}

/// Whatever script is left, the stage that it settles in is sound.
pub proof fn lemma_settled_is_sound(script: Seq<InstructionView>)
    ensures
        settled(script).sound(),
        settled(script) is Finished || settled(script) == StageView::Steps(script),
{
}

/// In a sound stage the procedure is over exactly when nothing is pending:
/// the host is never left without either an action or a result.
pub proof fn lemma_over_or_pending(stage: StageView)
    requires
        stage.sound(),
    ensures
        stage.is_over() <==> stage.pending() is None,
{
}

/// Advancing keeps a procedure sound and about the same format, whatever
/// the host answers.
pub proof fn lemma_advance_keeps_sound(operation: OperationView, outcome: OutcomeView)
    requires
        operation.stage.sound(),
    ensures
        operation.advanced(outcome).stage.sound(),
        operation.advanced(outcome).install_type == operation.install_type,
{
}

/// A procedure that is over stays as it is, with the result it has.
pub proof fn lemma_finished_stays(operation: OperationView, outcome: OutcomeView)
    requires
        operation.stage.is_over(),
    ensures
        operation.advanced(outcome) == operation,
{
}

/// A procedure asks at most one question before its script is known: after
/// the answer to a fork or a scan it is over or carrying out a script.
pub proof fn lemma_question_comes_first(operation: OperationView, outcome: OutcomeView)
    requires
        operation.stage is Fork || operation.stage is Scan,
    ensures
        operation.advanced(outcome).stage is Finished || operation.advanced(outcome).stage is Steps,
{
}

/// Each answer of the host brings a script nearer its end: after it the
/// procedure is over, or what is left of the script is what was left
/// before without its first instruction.
pub proof fn lemma_script_shrinks(
    install_type: InstallType,
    script: Seq<InstructionView>,
    outcome: OutcomeView,
)
    requires
        StageView::Steps(script).sound(),
    ensures
        ({
            let next = (OperationView {
                install_type,
                stage: StageView::Steps(script),
            }).advanced(outcome).stage;
            next is Finished || next == StageView::Steps(script.drop_first())
        }),
{
}

/// An instruction that has to succeed fails fast: unless its action
/// succeeds the procedure is over at once, with an error that carries the
/// format and tells a tool from a file operation. Nothing is tried again.
pub proof fn lemma_must_fails_fast(
    install_type: InstallType,
    script: Seq<InstructionView>,
    outcome: OutcomeView,
)
    requires
        script.len() > 0,
        script[0] is Must,
        !(outcome is Success),
    ensures
        ({
            let next = (OperationView {
                install_type,
                stage: StageView::Steps(script),
            }).advanced(outcome).stage;
            &&& next matches StageView::Finished(Err(error))
            &&& error.install_type == install_type
            &&& error.kind == failure_kind(script[0]->Must_action)
            &&& script[0]->Must_action.starts_program() ==> error.kind
                == InstallErrorKind::ToolInvocation
        }),
{
}

/// A procedure that is over stays as it is through whatever the host says.
pub proof fn lemma_finished_stays_through(operation: OperationView, outcomes: Seq<OutcomeView>)
    requires
        operation.stage.is_over(),
    ensures
        operation.advanced_through(outcomes) == operation,
    decreases outcomes.len(),
{
    if outcomes.len() > 0 {
        lemma_finished_stays_through(operation, outcomes.drop_first());
    }
}

/// A script comes to its end: a procedure that has a script of so many
/// instructions left is over after as many answers of the host, whatever
/// they are.
pub proof fn lemma_script_ends(
    install_type: InstallType,
    script: Seq<InstructionView>,
    outcomes: Seq<OutcomeView>,
)
    requires
        StageView::Steps(script).sound(),
        outcomes.len() >= script.len(),
    ensures
        (OperationView { install_type, stage: StageView::Steps(script) }).advanced_through(
            outcomes,
        ).stage.is_over(),
    decreases script.len(),
{
    let start = OperationView { install_type, stage: StageView::Steps(script) };
    let next = start.advanced(outcomes[0]);
    lemma_script_shrinks(install_type, script, outcomes[0]);
    lemma_advance_keeps_sound(start, outcomes[0]);
    if next.stage is Finished {
        lemma_finished_stays_through(next, outcomes.drop_first());
    } else {
        lemma_script_ends(install_type, script.drop_first(), outcomes.drop_first());
    }
}

} // verus!
