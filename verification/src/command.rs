//! Operations on the firewall as values: what to run next, and what a run's
//! result means. Nothing here runs the tool. A caller runs
//! [`Question::command`], [`Listing::command`] or [`Action::command`] and
//! hands back what came of it.
use crate::failure::{Failure, FailureView};
use crate::listing::{chain_names, chains_of, get_list, lines_of, shows};
use crate::outcome::{output_to_result, Outcome, OutcomeView};
use crate::pattern::texts;
use crate::text::{contains, decode_lossy, utf8_lossy};
use vstd::prelude::*;

verus! {

/// What came of trying to run the tool: its outcome, or why it did not run.
pub type Event = Result<OutcomeView, FailureView>;

/// The view of what came of trying to run the tool.
pub open spec fn event_of(result: Result<Outcome, Failure>) -> Event {
    match result {
        Ok(o) => Ok(o@),
        Err(e) => Err(e@),
    }
}

/// The view of a result without a value.
pub open spec fn unit_view(r: Result<(), Failure>) -> Result<(), FailureView> {
    match r {
        Ok(_) => Ok(()),
        Err(e) => Err(e@),
    }
}

/// A yes-or-no question that one run of the tool answers.
#[derive(Debug, Clone, PartialEq, Eq)]
pub struct Question {
    /// The arguments of the run.
    pub args: Vec<String>,
    /// With a line, the answer is whether standard output shows it; without
    /// one, whether the tool exited with code 0.
    pub line: Option<String>,
}

/// A question as a mathematical value.
pub struct QuestionView {
    pub args: Seq<Seq<char>>,
    pub line: Option<Seq<char>>,
}

impl View for Question {
    type V = QuestionView;

    open spec fn view(&self) -> QuestionView {
        QuestionView {
            args: texts(self.args@),
            line: match self.line {
                Some(l) => Some(l@),
                None => None,
            },
        }
    }
}

impl QuestionView {
    /// The answer that an outcome gives.
    pub open spec fn holds(self, outcome: OutcomeView) -> bool {
        match self.line {
            Some(line) => contains(utf8_lossy(outcome.stdout), line),
            None => outcome.succeeded(),
        }
    }

    /// The answer after an attempt to run the tool: a failure to run is
    /// passed on; an exit code other than 0 is an answer, not a failure.
    pub open spec fn answer(self, event: Event) -> Result<bool, FailureView> {
        match event {
            Ok(outcome) => Ok(self.holds(outcome)),
            Err(e) => Err(e),
        }
    }
}

impl Question {
    /// The arguments to run the tool with.
    pub fn command(&self) -> (args: &Vec<String>)
        ensures
            texts(args@) == self@.args,
    {
        &self.args
    }

    /// The answer that `outcome` gives.
    pub fn holds(&self, outcome: &Outcome) -> (r: bool)
        ensures
            r == self@.holds(outcome@),
    {
        match &self.line {
            Some(line) => {
                let text = decode_lossy(&outcome.stdout);
                shows(text.as_str(), line.as_str())
            },
            None => outcome.success(),
        }
    }

    /// The answer, given what came of running [`Question::command`].
    pub fn answer(&self, result: Result<Outcome, Failure>) -> (r: Result<bool, Failure>)
        ensures
            match r {
                Ok(b) => self@.answer(event_of(result)) == Ok::<bool, FailureView>(b),
                Err(e) => self@.answer(event_of(result)) == Err::<bool, FailureView>(e@),
            },
    {
        match result {
            Ok(outcome) => Ok(self.holds(&outcome)),
            Err(e) => Err(e),
        }
    }
}

/// What to read from a listing.
#[derive(Debug, Clone, Copy, PartialEq, Eq)]
pub enum Wanted {
    /// Every line.
    Lines,
    /// The names of the chains that the lines declare.
    Chains,
}

/// A request for a listing, answered by one run of the tool.
#[derive(Debug, Clone, PartialEq, Eq)]
pub struct Listing {
    /// The arguments of the run.
    pub args: Vec<String>,
    /// What to read from standard output.
    pub wanted: Wanted,
}

/// A listing request as a mathematical value.
pub struct ListingView {
    pub args: Seq<Seq<char>>,
    pub wanted: Wanted,
}

impl View for Listing {
    type V = ListingView;

    open spec fn view(&self) -> ListingView {
        ListingView { args: texts(self.args@), wanted: self.wanted }
    }
}

impl ListingView {
    /// What is read from the standard output of a run that succeeded.
    pub open spec fn items(self, outcome: OutcomeView) -> Seq<Seq<char>> {
        match self.wanted {
            Wanted::Lines => lines_of(utf8_lossy(outcome.stdout)),
            Wanted::Chains => chains_of(lines_of(utf8_lossy(outcome.stdout))),
        }
    }

    /// What is read after an attempt to run the tool. A listing is no
    /// question: a run that did not succeed is a failure with the tool's
    /// exit code and standard error, and nothing is read from it. A failure
    /// to run is passed on.
    pub open spec fn read(self, event: Event) -> Result<Seq<Seq<char>>, FailureView> {
        match event {
            Ok(outcome) => if outcome.succeeded() {
                Ok(self.items(outcome))
            } else {
                Err(outcome.failure())
            },
            Err(e) => Err(e),
        }
    }
}

impl Listing {
    /// The arguments to run the tool with.
    pub fn command(&self) -> (args: &Vec<String>)
        ensures
            texts(args@) == self@.args,
    {
        &self.args
    }

    /// The items of the listing, given what came of running
    /// [`Listing::command`].
    pub fn read(&self, result: Result<Outcome, Failure>) -> (r: Result<Vec<String>, Failure>)
        ensures
            match r {
                Ok(items) => self@.read(event_of(result)) == Ok::<Seq<Seq<char>>, FailureView>(
                    texts(items@),
                ),
                Err(e) => self@.read(event_of(result)) == Err::<Seq<Seq<char>>, FailureView>(e@),
            },
    {
        let outcome = match result {
            Ok(outcome) => outcome,
            Err(e) => {
                return Err(e);
            },
        };
        match self.wanted {
            Wanted::Lines => get_list(&outcome),
            Wanted::Chains => match output_to_result(&outcome) {
                Ok(_) => {
                    let text = decode_lossy(&outcome.stdout);
                    Ok(chain_names(text.as_str()))
                },
                Err(e) => Err(e),
            },
        }
    }
}

/// Where a flush-and-delete stands.
#[derive(Debug, Clone, Copy, PartialEq, Eq)]
pub enum Stage {
    /// Asking whether the chain exists.
    Probing,
    /// Flushing the chain.
    Flushing,
    /// Deleting the chain.
    Deleting,
}

/// A change to the firewall in progress. It always waits for the result of
/// one run of the tool: that of [`Action::command`].
#[derive(Debug, Clone, PartialEq, Eq)]
pub enum Action {
    /// One run; its exit code decides.
    Run { args: Vec<String> },
    /// Append a rule unless it is there. While `probing`, the question is
    /// out; after it, the append.
    AppendUnique { probe: Question, append: Vec<String>, probing: bool },
    /// Delete a rule as long as it is there. While `probing`, the question
    /// is out; else a delete.
    DeleteIfExists { probe: Question, delete: Vec<String>, probing: bool },
    /// Flush and delete a chain as long as it is there.
    FlushAndDeleteChain { probe: Question, flush: Vec<String>, delete: Vec<String>, stage: Stage },
}

/// An action as a mathematical value.
pub enum ActionView {
    Run { args: Seq<Seq<char>> },
    AppendUnique { probe: QuestionView, append: Seq<Seq<char>>, probing: bool },
    DeleteIfExists { probe: QuestionView, delete: Seq<Seq<char>>, probing: bool },
    FlushAndDeleteChain {
        probe: QuestionView,
        flush: Seq<Seq<char>>,
        delete: Seq<Seq<char>>,
        stage: Stage,
    },
}

/// What an action comes to after one run.
#[derive(Debug, PartialEq, Eq)]
pub enum Step {
    /// Another run is needed: that of the action's command.
    More(Action),
    /// The action is over.
    Done(Result<(), Failure>),
}

/// A step as a mathematical value.
pub enum StepView {
    More(ActionView),
    Done(Result<(), FailureView>),
}

impl View for Action {
    type V = ActionView;

    open spec fn view(&self) -> ActionView {
        match *self {
            Action::Run { args } => ActionView::Run { args: texts(args@) },
            Action::AppendUnique { probe, append, probing } => ActionView::AppendUnique {
                probe: probe@,
                append: texts(append@),
                probing,
            },
            Action::DeleteIfExists { probe, delete, probing } => ActionView::DeleteIfExists {
                probe: probe@,
                delete: texts(delete@),
                probing,
            },
            Action::FlushAndDeleteChain {
                probe,
                flush,
                delete,
                stage,
            } => ActionView::FlushAndDeleteChain {
                probe: probe@,
                flush: texts(flush@),
                delete: texts(delete@),
                stage,
            },
        }
    }
}

impl View for Step {
    type V = StepView;

    open spec fn view(&self) -> StepView {
        match *self {
            Step::More(action) => StepView::More(action@),
            Step::Done(r) => StepView::Done(unit_view(r)),
        }
    }
}

impl ActionView {
    /// The arguments of the run that the action waits for.
    pub open spec fn command(self) -> Seq<Seq<char>> {
        match self {
            ActionView::Run { args } => args,
            ActionView::AppendUnique { probe, append, probing } => if probing {
                probe.args
            } else {
                append
            },
            ActionView::DeleteIfExists { probe, delete, probing } => if probing {
                probe.args
            } else {
                delete
            },
            ActionView::FlushAndDeleteChain { probe, flush, delete, stage } => match stage {
                Stage::Probing => probe.args,
                Stage::Flushing => flush,
                Stage::Deleting => delete,
            },
        }
    }

    /// What the action comes to once its run has ended in `outcome`.
    pub open spec fn after(self, outcome: OutcomeView) -> StepView {
        match self {
            ActionView::Run { args } => StepView::Done(outcome.verdict()),
            ActionView::AppendUnique { probe, append, probing } => if probing {
                if probe.holds(outcome) {
                    StepView::Done(Err(FailureView::DuplicateRule))
                } else {
                    StepView::More(ActionView::AppendUnique { probe, append, probing: false })
                }
            } else {
                StepView::Done(outcome.verdict())
            },
            ActionView::DeleteIfExists { probe, delete, probing } => if probing {
                if probe.holds(outcome) {
                    StepView::More(ActionView::DeleteIfExists { probe, delete, probing: false })
                } else {
                    StepView::Done(Ok(()))
                }
            } else if outcome.succeeded() {
                StepView::More(ActionView::DeleteIfExists { probe, delete, probing: true })
            } else {
                StepView::Done(Err(outcome.failure()))
            },
            ActionView::FlushAndDeleteChain { probe, flush, delete, stage } => match stage {
                Stage::Probing => if probe.holds(outcome) {
                    StepView::More(
                        ActionView::FlushAndDeleteChain {
                            probe,
                            flush,
                            delete,
                            stage: Stage::Flushing,
                        },
                    )
                } else {
                    StepView::Done(Ok(()))
                },
                Stage::Flushing => if outcome.succeeded() {
                    StepView::More(
                        ActionView::FlushAndDeleteChain {
                            probe,
                            flush,
                            delete,
                            stage: Stage::Deleting,
                        },
                    )
                } else {
                    StepView::Done(Err(outcome.failure()))
                },
                Stage::Deleting => if outcome.succeeded() {
                    StepView::More(
                        ActionView::FlushAndDeleteChain {
                            probe,
                            flush,
                            delete,
                            stage: Stage::Probing,
                        },
                    )
                } else {
                    StepView::Done(Err(outcome.failure()))
                },
            },
        }
    }

    /// What the action comes to after an attempt to run the tool: a failure
    /// to run ends it at once.
    pub open spec fn next(self, event: Event) -> StepView {
        match event {
            Ok(outcome) => self.after(outcome),
            Err(e) => StepView::Done(Err(e)),
        }
    }
}

impl Action {
    /// The action of one run with `args`.
    pub fn run(args: Vec<String>) -> (a: Action)
        ensures
            a@ == (ActionView::Run { args: texts(args@) }),
    {
        Action::Run { args }
    }

    /// The action that appends with `append` unless `probe` finds the rule.
    pub fn append_unique(probe: Question, append: Vec<String>) -> (a: Action)
        ensures
            a@ == (ActionView::AppendUnique { probe: probe@, append: texts(append@), probing: true }),
    {
        Action::AppendUnique { probe, append, probing: true }
    }

    /// The action that deletes with `delete` as long as `probe` finds the
    /// rule.
    pub fn delete_if_exists(probe: Question, delete: Vec<String>) -> (a: Action)
        ensures
            a@ == (ActionView::DeleteIfExists {
                probe: probe@,
                delete: texts(delete@),
                probing: true,
            }),
    {
        Action::DeleteIfExists { probe, delete, probing: true }
    }

    /// The action that flushes and deletes a chain as long as `probe` finds
    /// it.
    pub fn flush_and_delete(probe: Question, flush: Vec<String>, delete: Vec<String>) -> (a:
        Action)
        ensures
            a@ == (ActionView::FlushAndDeleteChain {
                probe: probe@,
                flush: texts(flush@),
                delete: texts(delete@),
                stage: Stage::Probing,
            }),
    {
        Action::FlushAndDeleteChain { probe, flush, delete, stage: Stage::Probing }
    }

    /// The arguments to run the tool with now.
    pub fn command(&self) -> (args: &Vec<String>)
        ensures
            texts(args@) == self@.command(),
    {
        match self {
            Action::Run { args } => args,
            Action::AppendUnique { probe, append, probing } => if *probing {
                &probe.args
            } else {
                append
            },
            Action::DeleteIfExists { probe, delete, probing } => if *probing {
                &probe.args
            } else {
                delete
            },
            Action::FlushAndDeleteChain { probe, flush, delete, stage } => match stage {
                Stage::Probing => &probe.args,
                Stage::Flushing => flush,
                Stage::Deleting => delete,
            },
        }
    }

    /// Takes what came of running [`Action::command`] and says what the
    /// action comes to: another run, or its end.
    pub fn resume(self, result: Result<Outcome, Failure>) -> (step: Step)
        ensures
            step@ == self@.next(event_of(result)),
    {
        let outcome = match result {
            Ok(outcome) => outcome,
            Err(e) => {
                return Step::Done(Err(e));
            },
        };
        match self {
            Action::Run { args } => Step::Done(output_to_result(&outcome)),
            Action::AppendUnique { probe, append, probing } => {
                if !probing {
                    Step::Done(output_to_result(&outcome))
                } else if probe.holds(&outcome) {
                    Step::Done(Err(Failure::DuplicateRule))
                } else {
                    Step::More(Action::AppendUnique { probe, append, probing: false })
                }
            },
            Action::DeleteIfExists { probe, delete, probing } => {
                if probing {
                    if probe.holds(&outcome) {
                        Step::More(Action::DeleteIfExists { probe, delete, probing: false })
                    } else {
                        Step::Done(Ok(()))
                    }
                } else {
                    match output_to_result(&outcome) {
                        Ok(_) => Step::More(Action::DeleteIfExists { probe, delete, probing: true }),
                        Err(e) => Step::Done(Err(e)),
                    }
                }
            },
            Action::FlushAndDeleteChain { probe, flush, delete, stage } => {
                match stage {
                    Stage::Probing => {
                        if probe.holds(&outcome) {
                            Step::More(
                                Action::FlushAndDeleteChain {
                                    probe,
                                    flush,
                                    delete,
                                    stage: Stage::Flushing,
                                },
                            )
                        } else {
                            Step::Done(Ok(()))
                        }
                    },
                    Stage::Flushing => match output_to_result(&outcome) {
                        Ok(_) => Step::More(
                            Action::FlushAndDeleteChain {
                                probe,
                                flush,
                                delete,
                                stage: Stage::Deleting,
                            },
                        ),
                        Err(e) => Step::Done(Err(e)),
                    },
                    Stage::Deleting => match output_to_result(&outcome) {
                        Ok(_) => Step::More(
                            Action::FlushAndDeleteChain {
                                probe,
                                flush,
                                delete,
                                stage: Stage::Probing,
                            },
                        ),
                        Err(e) => Step::Done(Err(e)),
                    },
                }
            },
        }
    }
}

} // verus!
