//! Planning an instrumented build.

use crate::args::{sanitized, target_flag};
use crate::environment::distinct_names;
use crate::error::{BuildError, ErrorModel};
use crate::invocation::{
    cargo_command_model, cargo_command_with_flags, needs_default_target, rustflags_name,
    rustflags_value, BuildInvocation, CargoCommand, InvocationModel,
};
use crate::session::{BuildSession, SessionModel, SessionState};
use crate::text::{fallible_str, optional_string, views};
use crate::workspace::{joined_path, pgo_directory_name, CargoContext};
use vstd::prelude::*;

verus! {

/// What the user asks of an instrumented build.
#[derive(Debug)]
pub struct PgoInstrumentArgs {
    /// The cargo command that compiles with instrumentation.
    command: CargoCommand,
    /// Whether the profiles of earlier runs are kept.
    keep_profiles: bool,
    /// Arguments that are passed on to cargo.
    cargo_args: Vec<String>,
}

/// `PgoInstrumentArgs` as plain values.
pub struct InstrumentArgsModel {
    pub command: CargoCommand,
    pub keep_profiles: bool,
    pub cargo_args: Seq<Seq<char>>,
}

impl View for PgoInstrumentArgs {
    type V = InstrumentArgsModel;

    closed spec fn view(&self) -> InstrumentArgsModel {
        InstrumentArgsModel {
            command: self.command,
            keep_profiles: self.keep_profiles,
            cargo_args: views(self.cargo_args@),
        }
    }
}

impl PgoInstrumentArgs {
    /// The request to run `command` with `cargo_args`, keeping earlier
    /// profiles or not.
    pub fn new(command: CargoCommand, keep_profiles: bool, cargo_args: Vec<String>) -> (args:
        PgoInstrumentArgs)
        ensures
            args@ == (InstrumentArgsModel {
                command,
                keep_profiles,
                cargo_args: views(cargo_args@),
            }),
    {
        PgoInstrumentArgs { command, keep_profiles, cargo_args }
    }

    /// The cargo command that compiles with instrumentation.
    pub fn command(&self) -> (command: CargoCommand)
        ensures
            command == self@.command,
    {
        self.command
    }

    /// Whether the profiles of earlier runs are kept.
    pub fn keep_profiles(&self) -> (keep: bool)
        ensures
            keep == self@.keep_profiles,
    {
        self.keep_profiles
    }

    /// The arguments that are passed on to cargo, as the user gave them.
    pub fn cargo_args(&self) -> (cargo_args: &Vec<String>)
        ensures
            views(cargo_args@) == self@.cargo_args,
    {
        &self.cargo_args
    }

    /// Whether the toolchain has to be asked for its default target before the
    /// build can be planned: only where the user named no target.
    pub fn needs_default_target(&self) -> (needed: bool)
        ensures
            needed == !sanitized(self@.cargo_args).contains(target_flag()),
    {
        needs_default_target(&self.cargo_args)
    }
}

/// The compiler flag that turns on instrumentation and names the directory
/// for the profiles.
pub open spec fn profile_generate_flag(pgo_dir: Seq<char>) -> Seq<char> {
    "-Cprofile-generate="@ + pgo_dir
}

/// The compiler flag that turns on instrumentation and names the directory
/// for the profiles.
pub fn instrumentation_flag(pgo_dir: &str) -> (flag: String)
    ensures
        flag@ == profile_generate_flag(pgo_dir@),
{
    let mut flag = "-Cprofile-generate=".to_owned();
    flag.append(pgo_dir);
    flag
}

/// An instrumented build, ready to be carried out.
#[derive(Debug)]
pub struct Instrumentation {
    /// The directory into which the instrumented artifacts write profiles. It
    /// has to exist before the build starts.
    pub pgo_dir: String,
    /// Whether the directory is emptied before the build starts.
    pub clear_profiles: bool,
    /// The cargo process to start.
    pub invocation: BuildInvocation,
    /// The session that follows the events of that process.
    pub session: BuildSession,
}

/// An `Instrumentation` as plain values.
pub struct InstrumentationModel {
    pub pgo_dir: Seq<char>,
    pub clear_profiles: bool,
    pub invocation: InvocationModel,
    pub session: SessionModel,
}

impl View for Instrumentation {
    type V = InstrumentationModel;

    open spec fn view(&self) -> InstrumentationModel {
        InstrumentationModel {
            pgo_dir: self.pgo_dir@,
            clear_profiles: self.clear_profiles,
            invocation: self.invocation@,
            session: self.session@,
        }
    }
}

/// The profile directory of a project.
pub open spec fn pgo_directory(ctx: CargoContext) -> Seq<char> {
    joined_path(ctx.root(), pgo_directory_name())
}

/// The plan of an instrumented build. The profiles go below the project's
/// output root; that directory is emptied first unless the request keeps
/// earlier profiles; cargo runs the command of the request with its
/// arguments, the instrumentation flag added to the compiler flags that are
/// set already; and the session of the build starts out running. No plan is
/// made where the cargo invocation cannot be composed.
pub open spec fn planned(
    ctx: CargoContext,
    args: InstrumentArgsModel,
    rustflags: Option<Seq<char>>,
    rustc_output: Result<Seq<char>, Seq<char>>,
) -> Result<InstrumentationModel, ErrorModel> {
    match cargo_command_model(
        args.command,
        args.cargo_args,
        seq![
            (rustflags_name(), rustflags_value(rustflags, profile_generate_flag(pgo_directory(ctx)))),
        ],
        args.command.spec_release_mode(),
        rustc_output,
    ) {
        Err(error) => Err(error),
        Ok(invocation) => Ok(
            InstrumentationModel {
                pgo_dir: pgo_directory(ctx),
                clear_profiles: !args.keep_profiles,
                invocation,
                session: SessionModel {
                    command: args.command,
                    pgo_dir: pgo_directory(ctx),
                    state: SessionState::Running,
                },
            },
        ),
    }
}

/// Plans an instrumented build of the project `ctx`.
///
/// `rustflags` is the value of the compiler-flags variable in the environment
/// of this process, absent where it is unset. `rustc_output` is the output of
/// `rustc -vV`, or the reason why it could not be had; it is needed only
/// where `args.needs_default_target()` holds, and planning fails where it is
/// needed and names no host.
pub fn pgo_instrument(
    ctx: CargoContext,
    args: PgoInstrumentArgs,
    rustflags: Option<String>,
    rustc_output: Result<&str, &str>,
) -> (plan: Result<Instrumentation, BuildError>)
    ensures
        match plan {
            Ok(plan) => planned(
                ctx,
                args@,
                optional_string(rustflags),
                fallible_str(rustc_output),
            ) == Ok::<InstrumentationModel, ErrorModel>(plan@),
            Err(error) => planned(
                ctx,
                args@,
                optional_string(rustflags),
                fallible_str(rustc_output),
            ) == Err::<InstrumentationModel, ErrorModel>(error@),
        },
        plan is Ok ==> distinct_names(plan->Ok_0@.invocation.env),
{
    let pgo_dir = ctx.get_pgo_directory();
    let flags = instrumentation_flag(pgo_dir.as_str());
    let session = BuildSession::new(args.command, pgo_dir.clone());
    let invocation = match cargo_command_with_flags(
        args.command,
        flags.as_str(),
        args.cargo_args,
        rustflags,
        rustc_output,
    ) {
        Ok(invocation) => invocation,
        Err(error) => {
            return Err(error);
        },
    };
    Ok(Instrumentation { pgo_dir, clear_profiles: !args.keep_profiles, invocation, session })
}

/// Profiles are cleared exactly where the request does not keep them, and the
/// planned session reports into the planned directory.
pub proof fn lemma_plan_clears_unless_kept(
    ctx: CargoContext,
    args: InstrumentArgsModel,
    rustflags: Option<Seq<char>>,
    rustc_output: Result<Seq<char>, Seq<char>>,
)
    requires
        planned(ctx, args, rustflags, rustc_output) is Ok,
    ensures
        planned(ctx, args, rustflags, rustc_output)->Ok_0.clear_profiles == !args.keep_profiles,
        planned(ctx, args, rustflags, rustc_output)->Ok_0.session.pgo_dir == planned(
            ctx,
            args,
            rustflags,
            rustc_output,
        )->Ok_0.pgo_dir,
        planned(ctx, args, rustflags, rustc_output)->Ok_0.session.state is Running,
{
}

} // verus!
