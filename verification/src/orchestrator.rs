//! The pipeline orchestrator: runs the three stages as one job, the output
//! of each stage feeding the next, and reports one result for all.
//!
//! The orchestrator decides; its caller acts. Each step takes in what
//! happened and returns what to do next: start a stage, wait for a stage,
//! or finish. Stages are started in pipeline order and waited for in the
//! reverse order, and every stage that was started is waited for.

use vstd::prelude::*;
use crate::config::{credential, option_view, Config};
use crate::text::views;

verus! {

/// One of the three stages, in pipeline order.
#[derive(Debug, Clone, Copy, PartialEq, Eq, Structural)]
pub enum PipelineStage {
    NoteParser,
    TicketExtractor,
    TicketUpdater,
}

impl PipelineStage {
    /// The stage's name on the command line.
    pub open spec fn spec_name(self) -> Seq<char> {
        match self {
            PipelineStage::NoteParser => "parse-notes"@,
            PipelineStage::TicketExtractor => "extract-tickets"@,
            PipelineStage::TicketUpdater => "update-tickets"@,
        }
    }

    /// The stage that reads this stage's output, if there is one.
    pub open spec fn spec_next(self) -> Option<PipelineStage> {
        match self {
            PipelineStage::NoteParser => Some(PipelineStage::TicketExtractor),
            PipelineStage::TicketExtractor => Some(PipelineStage::TicketUpdater),
            PipelineStage::TicketUpdater => None,
        }
    }

    /// The stage whose output this stage reads, if there is one.
    pub open spec fn spec_previous(self) -> Option<PipelineStage> {
        match self {
            PipelineStage::NoteParser => None,
            PipelineStage::TicketExtractor => Some(PipelineStage::NoteParser),
            PipelineStage::TicketUpdater => Some(PipelineStage::TicketExtractor),
        }
    }

    /// The stage's name on the command line.
    pub fn name(self) -> (name: &'static str)
        ensures
            name@ == self.spec_name(),
    {
        match self {
            PipelineStage::NoteParser => "parse-notes",
            PipelineStage::TicketExtractor => "extract-tickets",
            PipelineStage::TicketUpdater => "update-tickets",
        }
    }

    /// The stage that reads this stage's output, if there is one.
    pub fn next(self) -> (stage: Option<PipelineStage>)
        ensures
            stage == self.spec_next(),
    {
        match self {
            PipelineStage::NoteParser => Some(PipelineStage::TicketExtractor),
            PipelineStage::TicketExtractor => Some(PipelineStage::TicketUpdater),
            PipelineStage::TicketUpdater => None,
        }
    }

    /// The stage whose output this stage reads, if there is one.
    pub fn previous(self) -> (stage: Option<PipelineStage>)
        ensures
            stage == self.spec_previous(),
    {
        match self {
            PipelineStage::NoteParser => None,
            PipelineStage::TicketExtractor => Some(PipelineStage::NoteParser),
            PipelineStage::TicketUpdater => Some(PipelineStage::TicketExtractor),
        }
    }
}

/// How the three stages ended.
#[derive(Debug, Clone, Copy, PartialEq, Eq, Structural)]
pub struct PipelineResult {
    pub parse_ok: bool,
    pub extract_ok: bool,
    pub update_ok: bool,
}

impl PipelineResult {
    /// The pipeline succeeded: all three stages did.
    pub open spec fn spec_success(self) -> bool {
        self.parse_ok && self.extract_ok && self.update_ok
    }

    /// Tells whether the pipeline succeeded: whether all three stages did.
    pub fn success(&self) -> (b: bool)
        ensures
            b == self.spec_success(),
    {
        self.parse_ok && self.extract_ok && self.update_ok
    }
}

/// How far the pipeline has come.
#[derive(Debug, Clone, Copy, PartialEq, Eq, Structural)]
pub enum PipelinePhase {
    /// Nothing was started yet.
    Init,
    /// The start of this stage was asked for.
    Spawning(PipelineStage),
    /// The end of this stage is waited for.
    Waiting(PipelineStage),
    /// The result was reported.
    Finished,
}

/// What happened since the orchestrator last spoke.
#[derive(Debug, PartialEq, Eq)]
pub enum PipelineEvent {
    /// The caller is ready.
    Start,
    /// The stage runs.
    Spawned,
    /// The stage could not be started, for this reason.
    SpawnFailed(String),
    /// The stage runs, but its output could not be taken hold of.
    CaptureFailed,
    /// The stage ended, with success or without.
    Exited(bool),
    /// Waiting for the stage failed, for this reason.
    WaitFailed(String),
}

/// What the orchestrator wants done next.
#[derive(Debug, PartialEq, Eq)]
pub enum PipelineAction {
    /// Start this stage with these arguments. The note parser's output
    /// feeds the ticket extractor, whose output feeds the ticket updater,
    /// whose output and errors are the caller's own.
    Spawn(PipelineStage, Vec<String>),
    /// Wait for this stage to end.
    Wait(PipelineStage),
    /// Report this result.
    Finish(Result<(), String>),
}

/// What a `PipelineAction` holds, as plain values.
pub enum PipelineActionView {
    Spawn(PipelineStage, Seq<Seq<char>>),
    Wait(PipelineStage),
    Finish(Result<(), Seq<char>>),
}

impl View for PipelineAction {
    type V = PipelineActionView;

    open spec fn view(&self) -> PipelineActionView {
        match self {
            PipelineAction::Spawn(stage, args) => PipelineActionView::Spawn(*stage, views(args@)),
            PipelineAction::Wait(stage) => PipelineActionView::Wait(*stage),
            PipelineAction::Finish(Ok(_)) => PipelineActionView::Finish(Ok(())),
            PipelineAction::Finish(Err(e)) => PipelineActionView::Finish(Err(e@)),
        }
    }
}

/// What an `Orchestrator` holds, as plain values.
pub struct PipelineView {
    pub release_tag: Seq<char>,
    pub api_key: Seq<char>,
    pub org: Seq<char>,
    pub dry_run: bool,
    pub update_all_statuses: bool,
    pub phase: PipelinePhase,
    /// How each stage ended, for the stages that were waited for.
    pub parse_exit: Option<bool>,
    pub extract_exit: Option<bool>,
    pub update_exit: Option<bool>,
    /// The first failure to start, to take hold of or to wait for a stage.
    pub fatal: Option<Seq<char>>,
}

impl PipelineView {
    /// The arguments with which `stage` is started.
    pub open spec fn stage_args(self, stage: PipelineStage) -> Seq<Seq<char>> {
        match stage {
            PipelineStage::NoteParser => seq!["parse-notes"@, "--release-tag"@, self.release_tag],
            PipelineStage::TicketExtractor => seq!["extract-tickets"@],
            PipelineStage::TicketUpdater => seq![
                "update-tickets"@,
                "--linear-api-key"@,
                self.api_key,
                "--linear-org"@,
                self.org,
            ] + (if self.dry_run {
                seq!["--dry-run"@]
            } else {
                seq![]
            }) + (if self.update_all_statuses {
                seq!["--update-all-statuses"@]
            } else {
                seq![]
            }),
        }
    }

    /// The state in which `failure` is kept, unless one was kept before.
    pub open spec fn with_fatal(self, failure: Seq<char>) -> PipelineView {
        if self.fatal is Some {
            self
        } else {
            PipelineView { fatal: Some(failure), ..self }
        }
    }

    /// The state in which the end of `stage` is kept.
    pub open spec fn with_exit(self, stage: PipelineStage, ok: bool) -> PipelineView {
        match stage {
            PipelineStage::NoteParser => PipelineView { parse_exit: Some(ok), ..self },
            PipelineStage::TicketExtractor => PipelineView { extract_exit: Some(ok), ..self },
            PipelineStage::TicketUpdater => PipelineView { update_exit: Some(ok), ..self },
        }
    }

    /// The result of the whole: the first failure that was kept; else
    /// success if all three stages ended with success; else failure.
    pub open spec fn outcome(self) -> Result<(), Seq<char>> {
        if let Some(failure) = self.fatal {
            Err(failure)
        } else if self.parse_exit == Some(true) && self.extract_exit == Some(true)
            && self.update_exit == Some(true) {
            Ok(())
        } else {
            Err("Pipeline failed"@)
        }
    }

    /// Waits for the stages from `stage` back to the first: the state and
    /// the action when the end of `stage`, if there is one, is next to be
    /// waited for, and the end of everything if there is none.
    pub open spec fn wait_or_finish(self, stage: Option<PipelineStage>) -> (
        PipelineView,
        PipelineActionView,
    ) {
        match stage {
            Some(stage) => (
                PipelineView { phase: PipelinePhase::Waiting(stage), ..self },
                PipelineActionView::Wait(stage),
            ),
            None => (
                PipelineView { phase: PipelinePhase::Finished, ..self },
                PipelineActionView::Finish(self.outcome()),
            ),
        }
    }

    /// The state and the action that follow `event`.
    pub open spec fn transition(self, event: PipelineEvent) -> (PipelineView, PipelineActionView) {
        match (self.phase, event) {
            (PipelinePhase::Init, PipelineEvent::Start) => (
                PipelineView { phase: PipelinePhase::Spawning(PipelineStage::NoteParser), ..self },
                PipelineActionView::Spawn(
                    PipelineStage::NoteParser,
                    self.stage_args(PipelineStage::NoteParser),
                ),
            ),
            (PipelinePhase::Spawning(stage), PipelineEvent::Spawned) => match stage.spec_next() {
                Some(next) => (
                    PipelineView { phase: PipelinePhase::Spawning(next), ..self },
                    PipelineActionView::Spawn(next, self.stage_args(next)),
                ),
                None => self.wait_or_finish(Some(stage)),
            },
            (PipelinePhase::Spawning(stage), PipelineEvent::SpawnFailed(reason)) => self.with_fatal(
                "Failed to spawn "@ + stage.spec_name() + ": "@ + reason@,
            ).wait_or_finish(stage.spec_previous()),
            (PipelinePhase::Spawning(stage), PipelineEvent::CaptureFailed) => self.with_fatal(
                "Failed to capture "@ + stage.spec_name() + " stdout"@,
            ).wait_or_finish(Some(stage)),
            (PipelinePhase::Waiting(stage), PipelineEvent::Exited(ok)) => self.with_exit(
                stage,
                ok,
            ).wait_or_finish(stage.spec_previous()),
            (PipelinePhase::Waiting(stage), PipelineEvent::WaitFailed(reason)) => self.with_exit(
                stage,
                false,
            ).with_fatal(
                "Failed to wait for "@ + stage.spec_name() + ": "@ + reason@,
            ).wait_or_finish(stage.spec_previous()),
            _ => (
                PipelineView { phase: PipelinePhase::Finished, ..self },
                PipelineActionView::Finish(Err("Unexpected event in the pipeline"@)),
            ),
        }
    }

    /// The state that follows `event`.
    pub open spec fn advance(self, event: PipelineEvent) -> PipelineView {
        self.transition(event).0
    }

    /// The action that follows `event`.
    pub open spec fn action(self, event: PipelineEvent) -> PipelineActionView {
        self.transition(event).1
    }
}

/// The pipeline, one step at a time: the caller performs the action that a
/// step returns and hands the outcome to the next step, until a step
/// returns `PipelineAction::Finish`.
pub struct Orchestrator {
    release_tag: String,
    api_key: String,
    org: String,
    dry_run: bool,
    update_all_statuses: bool,
    phase: PipelinePhase,
    parse_exit: Option<bool>,
    extract_exit: Option<bool>,
    update_exit: Option<bool>,
    fatal: Option<String>,
}

impl View for Orchestrator {
    type V = PipelineView;

    closed spec fn view(&self) -> PipelineView {
        PipelineView {
            release_tag: self.release_tag@,
            api_key: self.api_key@,
            org: self.org@,
            dry_run: self.dry_run,
            update_all_statuses: self.update_all_statuses,
            phase: self.phase,
            parse_exit: self.parse_exit,
            extract_exit: self.extract_exit,
            update_exit: self.update_exit,
            fatal: option_view(self.fatal),
        }
    }
}

/// What the orchestrator needs before it starts anything: the release tag
/// and the two credentials, each from the command line or, the
/// credentials, from the environment; or the complaint about the first of
/// them that is missing.
pub open spec fn requirements(
    c: crate::config::ConfigView,
    env_api_key: Option<Seq<char>>,
    env_org: Option<Seq<char>>,
) -> Result<(Seq<char>, Seq<char>, Seq<char>), Seq<char>> {
    match c.args.release_tag {
        None => Err("Orchestrator mode requires --release-tag flag"@),
        Some(tag) => match credential(
            c.args.linear_api_key,
            env_api_key,
            "LINEAR_API_KEY not provided via --linear-api-key flag or environment variable"@,
        ) {
            Err(e) => Err(e),
            Ok(key) => match credential(
                c.args.linear_org,
                env_org,
                "LINEAR_ORG not provided via --linear-org flag or environment variable"@,
            ) {
                Err(e) => Err(e),
                Ok(org) => Ok((tag, key, org)),
            },
        },
    }
}

impl Orchestrator {
    /// An orchestrator for the run that `config` describes, with nothing
    /// started yet. `env_api_key` and `env_org` are the values of the
    /// environment variables `LINEAR_API_KEY` and `LINEAR_ORG`.
    pub fn new(config: &Config, env_api_key: Option<String>, env_org: Option<String>) -> (r: Result<
        Orchestrator,
        String,
    >)
        ensures
            match (r, requirements(config@, option_view(env_api_key), option_view(env_org))) {
                (Ok(o), Ok((tag, key, org))) => o@ == (PipelineView {
                    release_tag: tag,
                    api_key: key,
                    org,
                    dry_run: config@.args.dry_run,
                    update_all_statuses: config@.args.update_all_statuses,
                    phase: PipelinePhase::Init,
                    parse_exit: None,
                    extract_exit: None,
                    update_exit: None,
                    fatal: None,
                }),
                (Err(e), Err(f)) => e@ == f,
                _ => false,
            },
    {
        let release_tag = match &config.release_tag {
            Some(tag) => tag.clone(),
            None => {
                return Err("Orchestrator mode requires --release-tag flag".to_owned());
            },
        };
        let api_key = match config.get_linear_api_key(env_api_key) {
            Ok(key) => key,
            Err(e) => {
                return Err(e);
            },
        };
        let org = match config.get_linear_org(env_org) {
            Ok(org) => org,
            Err(e) => {
                return Err(e);
            },
        };
        Ok(
            Orchestrator {
                release_tag,
                api_key,
                org,
                dry_run: config.dry_run,
                update_all_statuses: config.update_all_statuses,
                phase: PipelinePhase::Init,
                parse_exit: None,
                extract_exit: None,
                update_exit: None,
                fatal: None,
            },
        )
    }

    /// How far the pipeline has come.
    pub fn phase(&self) -> (phase: PipelinePhase)
        ensures
            phase == self@.phase,
    {
        self.phase
    }

    /// The arguments with which `stage` is started.
    pub fn stage_args(&self, stage: PipelineStage) -> (args: Vec<String>)
        ensures
            views(args@) == self@.stage_args(stage),
    {
        let mut args: Vec<String> = Vec::new();
        match stage {
            PipelineStage::NoteParser => {
                args.push("parse-notes".to_owned());
                args.push("--release-tag".to_owned());
                args.push(self.release_tag.clone());
            },
            PipelineStage::TicketExtractor => {
                args.push("extract-tickets".to_owned());
            },
            PipelineStage::TicketUpdater => {
                args.push("update-tickets".to_owned());
                args.push("--linear-api-key".to_owned());
                args.push(self.api_key.clone());
                args.push("--linear-org".to_owned());
                args.push(self.org.clone());
                if self.dry_run {
                    args.push("--dry-run".to_owned());
                }
                if self.update_all_statuses {
                    args.push("--update-all-statuses".to_owned());
                }
            },
        }
        assert(views(args@) =~= self@.stage_args(stage));
        args
    }

    /// The result of the whole, as far as it is known.
    pub fn outcome(&self) -> (r: Result<(), String>)
        ensures
            match (r, self@.outcome()) {
                (Ok(_), Ok(_)) => true,
                (Err(e), Err(f)) => e@ == f,
                _ => false,
            },
    {
        if let Some(failure) = &self.fatal {
            return Err(failure.clone());
        }
        match (self.parse_exit, self.extract_exit, self.update_exit) {
            (Some(parse_ok), Some(extract_ok), Some(update_ok)) => {
                let result = PipelineResult { parse_ok, extract_ok, update_ok };
                if result.success() {
                    Ok(())
                } else {
                    Err("Pipeline failed".to_owned())
                }
            },
            _ => Err("Pipeline failed".to_owned()),
        }
    }

    /// Keeps `failure`, unless one was kept before.
    fn keep_fatal(&mut self, failure: String)
        ensures
            final(self)@ == old(self)@.with_fatal(failure@),
    {
        if self.fatal.is_none() {
            self.fatal = Some(failure);
        }
    }

    /// Keeps the end of `stage`.
    fn keep_exit(&mut self, stage: PipelineStage, ok: bool)
        ensures
            final(self)@ == old(self)@.with_exit(stage, ok),
    {
        match stage {
            PipelineStage::NoteParser => {
                self.parse_exit = Some(ok);
            },
            PipelineStage::TicketExtractor => {
                self.extract_exit = Some(ok);
            },
            PipelineStage::TicketUpdater => {
                self.update_exit = Some(ok);
            },
        }
    }

    /// Goes on to wait for `stage`, or to the end where there is none.
    fn wait_or_finish(&mut self, stage: Option<PipelineStage>) -> (action: PipelineAction)
        ensures
            final(self)@ == old(self)@.wait_or_finish(stage).0,
            action@ == old(self)@.wait_or_finish(stage).1,
    {
        match stage {
            Some(stage) => {
                self.phase = PipelinePhase::Waiting(stage);
                PipelineAction::Wait(stage)
            },
            None => {
                let result = self.outcome();
                self.phase = PipelinePhase::Finished;
                PipelineAction::Finish(result)
            },
        }
    }

    /// Takes `event` in and says what to do next.
    pub fn step(&mut self, event: PipelineEvent) -> (action: PipelineAction)
        ensures
            final(self)@ == old(self)@.transition(event).0,
            action@ == old(self)@.transition(event).1,
    {
        match (self.phase, event) {
            (PipelinePhase::Init, PipelineEvent::Start) => {
                self.phase = PipelinePhase::Spawning(PipelineStage::NoteParser);
                PipelineAction::Spawn(
                    PipelineStage::NoteParser,
                    self.stage_args(PipelineStage::NoteParser),
                )
            },
            (PipelinePhase::Spawning(stage), PipelineEvent::Spawned) => match stage.next() {
                Some(next) => {
                    self.phase = PipelinePhase::Spawning(next);
                    PipelineAction::Spawn(next, self.stage_args(next))
                },
                None => self.wait_or_finish(Some(stage)),
            },
            (PipelinePhase::Spawning(stage), PipelineEvent::SpawnFailed(reason)) => {
                let mut failure = "Failed to spawn ".to_owned();
                failure.append(stage.name());
                failure.append(": ");
                failure.append(reason.as_str());
                self.keep_fatal(failure);
                self.wait_or_finish(stage.previous())
            },
            (PipelinePhase::Spawning(stage), PipelineEvent::CaptureFailed) => {
                let mut failure = "Failed to capture ".to_owned();
                failure.append(stage.name());
                failure.append(" stdout");
                self.keep_fatal(failure);
                self.wait_or_finish(Some(stage))
            },
            (PipelinePhase::Waiting(stage), PipelineEvent::Exited(ok)) => {
                self.keep_exit(stage, ok);
                self.wait_or_finish(stage.previous())
            },
            (PipelinePhase::Waiting(stage), PipelineEvent::WaitFailed(reason)) => {
                let mut failure = "Failed to wait for ".to_owned();
                failure.append(stage.name());
                failure.append(": ");
                failure.append(reason.as_str());
                self.keep_exit(stage, false);
                self.keep_fatal(failure);
                self.wait_or_finish(stage.previous())
            },
            _ => {
                self.phase = PipelinePhase::Finished;
                PipelineAction::Finish(Err("Unexpected event in the pipeline".to_owned()))
            },
        }
    }
}

/// Where every stage starts, the stages are started in pipeline order and
/// waited for in the reverse order, and the pipeline succeeds exactly when
/// all three stages ended with success: a stage that failed is not hidden
/// by the success of the stages after it.
pub proof fn law_pipeline_succeeds_iff_all_do(
    s: PipelineView,
    update_ok: bool,
    extract_ok: bool,
    parse_ok: bool,
)
    requires
        s.phase == PipelinePhase::Init,
        s.fatal is None,
    ensures
        ({
            let s1 = s.advance(PipelineEvent::Start);
            let s2 = s1.advance(PipelineEvent::Spawned);
            let s3 = s2.advance(PipelineEvent::Spawned);
            let s4 = s3.advance(PipelineEvent::Spawned);
            let s5 = s4.advance(PipelineEvent::Exited(update_ok));
            let s6 = s5.advance(PipelineEvent::Exited(extract_ok));
            let result = PipelineResult { parse_ok, extract_ok, update_ok };
            &&& s.action(PipelineEvent::Start) == PipelineActionView::Spawn(
                PipelineStage::NoteParser,
                s.stage_args(PipelineStage::NoteParser),
            )
            &&& s1.action(PipelineEvent::Spawned) == PipelineActionView::Spawn(
                PipelineStage::TicketExtractor,
                s.stage_args(PipelineStage::TicketExtractor),
            )
            &&& s2.action(PipelineEvent::Spawned) == PipelineActionView::Spawn(
                PipelineStage::TicketUpdater,
                s.stage_args(PipelineStage::TicketUpdater),
            )
            &&& s3.action(PipelineEvent::Spawned) == PipelineActionView::Wait(
                PipelineStage::TicketUpdater,
            )
            &&& s4.action(PipelineEvent::Exited(update_ok)) == PipelineActionView::Wait(
                PipelineStage::TicketExtractor,
            )
            &&& s5.action(PipelineEvent::Exited(extract_ok)) == PipelineActionView::Wait(
                PipelineStage::NoteParser,
            )
            &&& s6.action(PipelineEvent::Exited(parse_ok)) == PipelineActionView::Finish(
                if result.spec_success() {
                    Ok(())
                } else {
                    Err("Pipeline failed"@)
                },
            )
            &&& s6.advance(PipelineEvent::Exited(parse_ok)).phase == PipelinePhase::Finished
        }),
{
}

/// Where a stage cannot be started, no later stage is started, every stage
/// that was started before it is waited for, last one first, and the
/// pipeline fails with the reason, however the waited-for stages end.
pub proof fn law_spawn_failure_is_fatal(
    s: PipelineView,
    stage: PipelineStage,
    reason: String,
    first_exit: bool,
    second_exit: bool,
)
    requires
        s.phase == PipelinePhase::Spawning(stage),
        s.fatal is None,
    ensures
        ({
            let failure = "Failed to spawn "@ + stage.spec_name() + ": "@ + reason@;
            let first = s.transition(PipelineEvent::SpawnFailed(reason));
            match stage {
                PipelineStage::NoteParser => first.1 == PipelineActionView::Finish(Err(failure)),
                PipelineStage::TicketExtractor => {
                    &&& first.1 == PipelineActionView::Wait(PipelineStage::NoteParser)
                    &&& first.0.action(PipelineEvent::Exited(first_exit))
                        == PipelineActionView::Finish(Err(failure))
                },
                PipelineStage::TicketUpdater => {
                    &&& first.1 == PipelineActionView::Wait(PipelineStage::TicketExtractor)
                    &&& first.0.action(PipelineEvent::Exited(first_exit)) == PipelineActionView::Wait(
                        PipelineStage::NoteParser,
                    )
                    &&& first.0.advance(PipelineEvent::Exited(first_exit)).action(
                        PipelineEvent::Exited(second_exit),
                    ) == PipelineActionView::Finish(Err(failure))
                },
            }
        }),
{
}

/// No step undoes a failure: once a failure to start, to take hold of or
/// to wait for a stage is kept, it stays, and the pipeline cannot succeed.
pub proof fn law_failure_is_kept(s: PipelineView, event: PipelineEvent)
    requires
        s.fatal is Some,
    ensures
        s.advance(event).fatal == s.fatal,
        s.advance(event).outcome() is Err,
        !(s.action(event) matches PipelineActionView::Finish(Ok(_))),
{
}

} // verus!
