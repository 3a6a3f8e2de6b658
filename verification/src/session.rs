//! Following a running build through its events.
//!
//! The caller reads cargo's output and hands it over line by line; the session
//! says what to do about each line, and in the end how the request went.

use crate::error::{BuildError, ErrorModel};
use crate::event::{
    artifact_label, decode_line, event_model, get_artifact_kind, is_build_event, line_event,
    BuildEvent, EventModel,
};
use crate::invocation::CargoCommand;
use vstd::prelude::*;

verus! {

/// What the user is told about an instrumented executable.
#[derive(Debug)]
pub struct ArtifactReport {
    /// The label of the artifact: "binary", "benchmark", "example" or "artifact".
    pub kind: String,
    /// The name of the target.
    pub name: String,
    /// The path of the executable to run on a workload.
    pub executable: String,
    /// The variable to set for each run, with the pattern of the profile files.
    pub profile_file_setting: String,
}

/// An `ArtifactReport` as plain values.
pub struct ReportModel {
    pub kind: Seq<char>,
    pub name: Seq<char>,
    pub executable: Seq<char>,
    pub profile_file_setting: Seq<char>,
}

impl View for ArtifactReport {
    type V = ReportModel;

    open spec fn view(&self) -> ReportModel {
        ReportModel {
            kind: self.kind@,
            name: self.name@,
            executable: self.executable@,
            profile_file_setting: self.profile_file_setting@,
        }
    }
}

/// What to do about one event.
#[derive(Debug)]
pub enum Reaction {
    /// Tell the user about an instrumented executable.
    Report(ArtifactReport),
    /// The build is over, with or without success; nothing is to be told.
    Finished(bool),
    /// Pass the event on, as it came, to whoever prints cargo's other
    /// messages.
    Forward(BuildEvent),
    /// Nothing to do.
    Ignore,
}

/// A `Reaction` as plain values.
pub enum ReactionModel {
    Report(ReportModel),
    Finished(bool),
    Forward(EventModel),
    Ignore,
}

impl View for Reaction {
    type V = ReactionModel;

    open spec fn view(&self) -> ReactionModel {
        match self {
            Reaction::Report(report) => ReactionModel::Report(report@),
            Reaction::Finished(success) => ReactionModel::Finished(*success),
            Reaction::Forward(event) => ReactionModel::Forward(event@),
            Reaction::Ignore => ReactionModel::Ignore,
        }
    }
}

/// The setting that sends the profiles of one run of an artifact into the
/// profile directory: the variable's name, then a file name made of the
/// directory, the artifact's name and the placeholders that the profiling
/// runtime fills in for the module and the process.
pub open spec fn profile_file_setting(pgo_dir: Seq<char>, name: Seq<char>) -> Seq<char> {
    "LLVM_PROFILE_FILE="@ + pgo_dir + "/"@ + name + "_%m_%p.profraw"@
}

/// The setting that sends the profiles of one run of an artifact into the
/// profile directory.
pub fn profile_file_env(pgo_dir: &str, name: &str) -> (setting: String)
    ensures
        setting@ == profile_file_setting(pgo_dir@, name@),
{
    let mut setting = "LLVM_PROFILE_FILE=".to_owned();
    setting.append(pgo_dir);
    setting.append("/");
    setting.append(name);
    setting.append("_%m_%p.profraw");
    setting
}

/// The setting holds the profile directory and the artifact's name, whole and
/// in this order.
pub proof fn lemma_setting_holds_directory_and_name(pgo_dir: Seq<char>, name: Seq<char>)
    ensures
        ({
            let setting = profile_file_setting(pgo_dir, name);
            let at_dir = "LLVM_PROFILE_FILE="@.len() as int;
            let at_name = at_dir + pgo_dir.len() + "/"@.len();
            &&& at_name + name.len() <= setting.len()
            &&& setting.subrange(at_dir, at_dir + pgo_dir.len()) == pgo_dir
            &&& setting.subrange(at_name, at_name + name.len()) == name
        }),
{
    let setting = profile_file_setting(pgo_dir, name);
    let at_dir = "LLVM_PROFILE_FILE="@.len() as int;
    let at_name = at_dir + pgo_dir.len() + "/"@.len();
    assert(setting.subrange(at_dir, at_dir + pgo_dir.len()) =~= pgo_dir);
    assert(setting.subrange(at_name, at_name + name.len()) =~= name);
}

/// The reaction to an event. An artifact is reported where it has an
/// executable and the command is a build; the end of the build is noted; any
/// other event is passed on unchanged. So is plain text, though a session
/// never asks: it fails on plain text first.
pub open spec fn reaction_to(
    command: CargoCommand,
    pgo_dir: Seq<char>,
    event: EventModel,
) -> ReactionModel {
    match event {
        EventModel::CompilerArtifact(artifact) => match artifact.executable {
            Some(executable) => if command == CargoCommand::Build {
                ReactionModel::Report(
                    ReportModel {
                        kind: artifact_label(artifact.kind),
                        name: artifact.name,
                        executable: executable,
                        profile_file_setting: profile_file_setting(pgo_dir, artifact.name),
                    },
                )
            } else {
                ReactionModel::Ignore
            },
            None => ReactionModel::Ignore,
        },
        EventModel::BuildFinished(success) => ReactionModel::Finished(success),
        EventModel::CompilerMessage(_) => ReactionModel::Forward(event),
        EventModel::Other => ReactionModel::Forward(event),
        EventModel::TextLine(_) => ReactionModel::Forward(event),
    }
}

/// Decides what to do about one event of a build that runs `command` and
/// keeps its profiles in `pgo_dir`.
pub fn handle_message(command: CargoCommand, pgo_dir: &str, event: BuildEvent) -> (reaction:
    Reaction)
    ensures
        reaction@ == reaction_to(command, pgo_dir@, event@),
{
    match event {
        BuildEvent::CompilerArtifact(artifact) => {
            let kind = get_artifact_kind(&artifact);
            match artifact.executable {
                Some(executable) => match command {
                    CargoCommand::Build => {
                        let setting = profile_file_env(pgo_dir, artifact.name.as_str());
                        Reaction::Report(
                            ArtifactReport {
                                kind: kind.to_owned(),
                                name: artifact.name,
                                executable,
                                profile_file_setting: setting,
                            },
                        )
                    },
                    CargoCommand::Bench => Reaction::Ignore,
                },
                None => Reaction::Ignore,
            }
        },
        BuildEvent::BuildFinished(success) => Reaction::Finished(success),
        BuildEvent::CompilerMessage(diagnostic) => Reaction::Forward(
            BuildEvent::CompilerMessage(diagnostic),
        ),
        BuildEvent::Other => Reaction::Forward(BuildEvent::Other),
        BuildEvent::TextLine(text) => Reaction::Forward(BuildEvent::TextLine(text)),
    }
}

/// How far a build request has come.
#[derive(Clone, Copy, Debug, PartialEq, Eq, Structural)]
pub enum SessionState {
    /// Events are being read.
    Running,
    /// A line was no build event: the request has failed, and no further
    /// event is looked at.
    Failed,
}

/// The reading of one build's events.
#[derive(Debug)]
pub struct BuildSession {
    command: CargoCommand,
    pgo_dir: String,
    state: SessionState,
}

/// A `BuildSession` as plain values.
pub struct SessionModel {
    pub command: CargoCommand,
    pub pgo_dir: Seq<char>,
    pub state: SessionState,
}

/// The outcome of handing one line, or one event, to a session.
pub type StepModel = (SessionModel, Result<ReactionModel, ErrorModel>);

/// One step of a session on what a line was read as. A session that has
/// failed stays as it is and repeats its error. A line that is no build event
/// makes a running session fail. An event leaves it running and gets its
/// reaction.
pub open spec fn step(session: SessionModel, decoded: Option<EventModel>) -> StepModel {
    match session.state {
        SessionState::Failed => (session, Err(ErrorModel::MalformedEvent)),
        SessionState::Running => if is_build_event(decoded) {
            (session, Ok(reaction_to(session.command, session.pgo_dir, decoded->Some_0)))
        } else {
            (
                SessionModel { state: SessionState::Failed, ..session },
                Err(ErrorModel::MalformedEvent),
            )
        },
    }
}

/// The session after a sequence of lines, and the reactions to them in order.
pub open spec fn run(session: SessionModel, lines: Seq<Seq<char>>) -> (SessionModel, Seq<
    ReactionModel,
>)
    decreases lines.len(),
{
    if lines.len() == 0 {
        (session, Seq::empty())
    } else {
        let (next, outcome) = step(session, line_event(lines[0]));
        let (last, reactions) = run(next, lines.drop_first());
        (
            last,
            match outcome {
                Ok(reaction) => seq![reaction] + reactions,
                Err(_) => reactions,
            },
        )
    }
}

/// How a request ends once cargo's output is exhausted and its exit status is
/// known: with the error that stopped the reading, else with a failed build
/// where the status says so, else well.
pub open spec fn outcome(session: SessionModel, exit_success: bool) -> Result<(), ErrorModel> {
    match session.state {
        SessionState::Failed => Err(ErrorModel::MalformedEvent),
        SessionState::Running => if exit_success {
            Ok(())
        } else {
            Err(ErrorModel::BuildFailed)
        },
    }
}

/// A session that has failed reacts to no further line and stays as it is.
pub proof fn lemma_failed_session_ignores_lines(session: SessionModel, lines: Seq<Seq<char>>)
    requires
        session.state is Failed,
    ensures
        run(session, lines) == (session, Seq::<ReactionModel>::empty()),
    decreases lines.len(),
{
    if lines.len() > 0 {
        lemma_failed_session_ignores_lines(session, lines.drop_first());
    }
}

/// Reading two runs of lines one after the other is reading them as one.
pub proof fn lemma_run_in_two_parts(
    session: SessionModel,
    first: Seq<Seq<char>>,
    second: Seq<Seq<char>>,
)
    ensures
        run(session, first + second) == (
            run(run(session, first).0, second).0,
            run(session, first).1 + run(run(session, first).0, second).1,
        ),
    decreases first.len(),
{
    if first.len() == 0 {
        assert(first + second =~= second);
        assert(Seq::<ReactionModel>::empty() + run(session, second).1 =~= run(session, second).1);
    } else {
        let next = step(session, line_event(first[0])).0;
        assert((first + second).drop_first() =~= first.drop_first() + second);
        assert((first + second)[0] == first[0]);
        lemma_run_in_two_parts(next, first.drop_first(), second);
        let tail_first = run(next, first.drop_first());
        let tail_second = run(tail_first.0, second);
        match step(session, line_event(first[0])).1 {
            Ok(reaction) => {
                assert(seq![reaction] + (tail_first.1 + tail_second.1) =~= (seq![reaction]
                    + tail_first.1) + tail_second.1);
            },
            Err(_) => {},
        }
    }
}

/// A line that is no build event fails the request where it stands: the
/// session ends up failed, and whatever lines come after it, well-formed or
/// not, change neither the session nor the reactions, which are those to the
/// lines before it.
pub proof fn lemma_malformed_line_ends_reading(
    session: SessionModel,
    before: Seq<Seq<char>>,
    malformed: Seq<char>,
    after: Seq<Seq<char>>,
)
    requires
        !is_build_event(line_event(malformed)),
    ensures
        run(session, before + seq![malformed] + after) == run(session, before + seq![malformed]),
        run(session, before + seq![malformed] + after).0.state is Failed,
        run(session, before + seq![malformed] + after).1 == run(session, before).1,
        forall|exit_success: bool| #[trigger]
            outcome(run(session, before + seq![malformed] + after).0, exit_success) == Err::<
                (),
                ErrorModel,
            >(ErrorModel::MalformedEvent),
{
    let mid = run(session, before);
    let one = seq![malformed];
    let stopped = run(mid.0, one);
    let next = step(mid.0, line_event(malformed)).0;
    assert(one[0] == malformed);
    assert(one.drop_first() =~= Seq::<Seq<char>>::empty());
    assert(run(next, one.drop_first()) == (next, Seq::<ReactionModel>::empty()));
    assert(stopped.0.state is Failed);
    assert(stopped.1 =~= Seq::<ReactionModel>::empty());
    lemma_run_in_two_parts(session, before, one);
    assert(mid.1 + stopped.1 =~= mid.1);
    lemma_run_in_two_parts(session, before + one, after);
    lemma_failed_session_ignores_lines(stopped.0, after);
    assert(mid.1 + Seq::<ReactionModel>::empty() =~= mid.1);
}

/// Nothing is reported of a benchmark run, and nothing of an artifact without
/// an executable.
pub proof fn lemma_reports_need_build_and_executable(
    command: CargoCommand,
    pgo_dir: Seq<char>,
    event: EventModel,
)
    ensures
        reaction_to(command, pgo_dir, event) is Report <==> {
            &&& command == CargoCommand::Build
            &&& event is CompilerArtifact
            &&& event->CompilerArtifact_0.executable is Some
        },
{
}

/// A session of a benchmark run reports no artifact, whatever it reads.
pub proof fn lemma_bench_session_reports_nothing(session: SessionModel, lines: Seq<Seq<char>>)
    requires
        session.command == CargoCommand::Bench,
    ensures
        forall|k: int| 0 <= k < run(session, lines).1.len() ==> !(#[trigger] run(session, lines).1[k]
            is Report),
    decreases lines.len(),
{
    if lines.len() > 0 {
        let (next, outcome) = step(session, line_event(lines[0]));
        lemma_bench_session_reports_nothing(next, lines.drop_first());
    }
}

/// A request whose reading went well still fails, as a failed build and not as
/// a malformed event, where cargo's exit status is not zero.
pub proof fn lemma_exit_status_decides_a_clean_reading(session: SessionModel)
    requires
        session.state is Running,
    ensures
        outcome(session, true) == Ok::<(), ErrorModel>(()),
        outcome(session, false) == Err::<(), ErrorModel>(ErrorModel::BuildFailed),
{
}

/// The model of a step's result.
pub open spec fn reaction_model(result: Result<Reaction, BuildError>) -> Result<
    ReactionModel,
    ErrorModel,
> {
    match result {
        Ok(reaction) => Ok(reaction@),
        Err(error) => Err(error@),
    }
}

/// The model of a request's end.
pub open spec fn end_model(result: Result<(), BuildError>) -> Result<(), ErrorModel> {
    match result {
        Ok(_) => Ok(()),
        Err(error) => Err(error@),
    }
}

impl View for BuildSession {
    type V = SessionModel;

    closed spec fn view(&self) -> SessionModel {
        SessionModel { command: self.command, pgo_dir: self.pgo_dir@, state: self.state }
    }
}

impl BuildSession {
    /// A session for a build that runs `command` and keeps its profiles in
    /// `pgo_dir`. It starts out running.
    pub fn new(command: CargoCommand, pgo_dir: String) -> (session: BuildSession)
        ensures
            session@ == (SessionModel {
                command,
                pgo_dir: pgo_dir@,
                state: SessionState::Running,
            }),
    {
        BuildSession { command, pgo_dir, state: SessionState::Running }
    }

    /// The state of the session.
    pub fn state(&self) -> (state: SessionState)
        ensures
            state == self@.state,
    {
        self.state
    }

    /// Takes what a line was read as, and says what to do about it.
    pub fn on_event(&mut self, decoded: Option<BuildEvent>) -> (result: Result<
        Reaction,
        BuildError,
    >)
        ensures
            (final(self)@, reaction_model(result)) == step(old(self)@, event_model(decoded)),
    {
        match self.state {
            SessionState::Failed => Err(BuildError::MalformedEvent),
            SessionState::Running => match decoded {
                None | Some(BuildEvent::TextLine(_)) => {
                    self.state = SessionState::Failed;
                    Err(BuildError::MalformedEvent)
                },
                Some(event) => Ok(handle_message(self.command, self.pgo_dir.as_str(), event)),
            },
        }
    }

    /// Takes one line of cargo's output, without its line feed, and says what
    /// to do about it. A line that is no build event fails the request, and
    /// after that no line is looked at.
    pub fn on_line(&mut self, line: &str) -> (result: Result<Reaction, BuildError>)
        ensures
            (final(self)@, reaction_model(result)) == step(old(self)@, line_event(line@)),
    {
        match self.state {
            SessionState::Failed => Err(BuildError::MalformedEvent),
            SessionState::Running => {
                let decoded = decode_line(line);
                self.on_event(decoded)
            },
        }
    }

    /// Ends the request, once cargo's output is exhausted and cargo has
    /// exited. `exit_success` says whether its exit status was zero.
    pub fn finish(self, exit_success: bool) -> (result: Result<(), BuildError>)
        ensures
            end_model(result) == outcome(self@, exit_success),
    {
        match self.state {
            SessionState::Failed => Err(BuildError::MalformedEvent),
            SessionState::Running => if exit_success {
                Ok(())
            } else {
                Err(BuildError::BuildFailed)
            },
        }
    }
}

} // verus!
