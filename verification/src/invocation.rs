//! Composing the cargo invocation of an instrumented build.
//!
//! Nothing here starts a process: the result describes the process to start.

use crate::args::{
    dropped_flags, lemma_flags_distinct, message_format_flag, parse_cargo_args, release_flag,
    sanitized, target_flag, DroppedFlag,
};
use crate::environment::{distinct_names, with_variable, Environment};
use crate::error::{missing_field_text, BuildError, ErrorModel};
use crate::get_default_target;
use crate::text::{fallible_str, optional_string, views};
use vstd::prelude::*;

verus! {

/// The cargo subcommand that builds the instrumented artifacts.
#[derive(Clone, Copy, Debug, PartialEq, Eq, Structural)]
pub enum CargoCommand {
    Build,
    Bench,
}

impl CargoCommand {
    /// The subcommand's name on cargo's command line.
    pub open spec fn name(&self) -> Seq<char> {
        match self {
            CargoCommand::Build => "build"@,
            CargoCommand::Bench => "bench"@,
        }
    }

    /// The subcommand's name on cargo's command line.
    pub fn to_str(&self) -> (name: &'static str)
        ensures
            name@ == self.name(),
    {
        match self {
            CargoCommand::Build => "build",
            CargoCommand::Bench => "bench",
        }
    }

    /// Whether the subcommand is run in release mode by this tool: a build is,
    /// a benchmark run chooses its own mode.
    pub open spec fn spec_release_mode(&self) -> ReleaseMode {
        match self {
            CargoCommand::Bench => ReleaseMode::NoRelease,
            CargoCommand::Build => ReleaseMode::AddRelease,
        }
    }

    /// Whether the subcommand is run in release mode by this tool.
    pub fn release_mode(&self) -> (mode: ReleaseMode)
        ensures
            mode == self.spec_release_mode(),
    {
        match self {
            CargoCommand::Bench => ReleaseMode::NoRelease,
            CargoCommand::Build => ReleaseMode::AddRelease,
        }
    }
}

/// Whether the release flag is added to the invocation.
#[derive(Clone, Copy, Debug, PartialEq, Eq, Structural)]
pub enum ReleaseMode {
    AddRelease,
    NoRelease,
}

/// What a standard stream of the child process is connected to.
#[derive(Clone, Copy, Debug, PartialEq, Eq, Structural)]
pub enum StreamWiring {
    /// The stream of the parent process.
    Inherit,
    /// A pipe that the parent reads.
    Piped,
}

/// A child process to start: program, arguments, environment and streams.
#[derive(Debug)]
pub struct BuildInvocation {
    pub program: String,
    pub args: Vec<String>,
    /// Variables set for the child over those it inherits.
    pub env: Environment,
    pub stdin: StreamWiring,
    pub stdout: StreamWiring,
    pub stderr: StreamWiring,
    /// The owned flags that were taken out of the caller's arguments; each
    /// one calls for a warning.
    pub dropped: Vec<DroppedFlag>,
}

/// A `BuildInvocation` as plain values.
pub struct InvocationModel {
    pub program: Seq<char>,
    pub args: Seq<Seq<char>>,
    pub env: Seq<(Seq<char>, Seq<char>)>,
    pub stdin: StreamWiring,
    pub stdout: StreamWiring,
    pub stderr: StreamWiring,
    pub dropped: Seq<DroppedFlag>,
}

impl View for BuildInvocation {
    type V = InvocationModel;

    open spec fn view(&self) -> InvocationModel {
        InvocationModel {
            program: self.program@,
            args: views(self.args@),
            env: self.env@,
            stdin: self.stdin,
            stdout: self.stdout,
            stderr: self.stderr,
            dropped: self.dropped@,
        }
    }
}

/// The program that is invoked.
pub open spec fn cargo_program() -> Seq<char> {
    "cargo"@
}

/// The message format that is forced on every invocation: JSON, with
/// diagnostics rendered for a terminal.
pub open spec fn forced_message_format() -> Seq<char> {
    "json-diagnostic-rendered-ansi"@
}

/// The name of the variable that carries compiler flags.
pub open spec fn rustflags_name() -> Seq<char> {
    "RUSTFLAGS"@
}

/// The argument list of an invocation: the subcommand, the forced message
/// format, the release flag where the mode asks for it, the target where one is
/// injected, then the caller's sanitized arguments.
pub open spec fn invocation_args(
    command: CargoCommand,
    release_mode: ReleaseMode,
    injected_target: Option<Seq<char>>,
    passthrough: Seq<Seq<char>>,
) -> Seq<Seq<char>> {
    seq![command.name(), message_format_flag(), forced_message_format()] + (
    if release_mode == ReleaseMode::AddRelease {
        seq![release_flag()]
    } else {
        Seq::empty()
    }) + (match injected_target {
        Some(target) => seq![target_flag(), target],
        None => Seq::empty(),
    }) + passthrough
}

/// The target that is injected into an invocation: none where the caller's
/// arguments name one, else the host that the toolchain reports. `rustc_output`
/// is the output of `rustc -vV`, or the reason why it could not be had; it
/// counts only where no target is named. Where it is needed and gives no
/// host, the error says why.
pub open spec fn injected_target(
    passthrough: Seq<Seq<char>>,
    rustc_output: Result<Seq<char>, Seq<char>>,
) -> Result<Option<Seq<char>>, ErrorModel> {
    if passthrough.contains(target_flag()) {
        Ok(None)
    } else {
        match rustc_output {
            Err(cause) => Err(ErrorModel::UnknownDefaultTarget(cause)),
            Ok(output) => match crate::default_target(output) {
                None => Err(
                    ErrorModel::UnknownDefaultTarget(missing_field_text(crate::host_field())),
                ),
                Some(target) => Ok(Some(target)),
            },
        }
    }
}

/// What `cargo_command` returns.
pub open spec fn cargo_command_model(
    command: CargoCommand,
    cargo_args: Seq<Seq<char>>,
    env: Seq<(Seq<char>, Seq<char>)>,
    release_mode: ReleaseMode,
    rustc_output: Result<Seq<char>, Seq<char>>,
) -> Result<InvocationModel, ErrorModel> {
    let passthrough = sanitized(cargo_args);
    match injected_target(passthrough, rustc_output) {
        Err(error) => Err(error),
        Ok(target) => Ok(
            InvocationModel {
                program: cargo_program(),
                args: invocation_args(command, release_mode, target, passthrough),
                env: env,
                stdin: StreamWiring::Inherit,
                stdout: StreamWiring::Piped,
                stderr: StreamWiring::Inherit,
                dropped: dropped_flags(cargo_args),
            },
        ),
    }
}

/// Whether a result of the library stands for a result over plain values.
pub open spec fn models(
    result: Result<BuildInvocation, BuildError>,
    model: Result<InvocationModel, ErrorModel>,
) -> bool {
    match result {
        Ok(invocation) => model == Ok::<InvocationModel, ErrorModel>(invocation@),
        Err(error) => model == Err::<InvocationModel, ErrorModel>(error@),
    }
}

/// Whether the default target has to be asked of the toolchain before
/// `cargo_args` can be turned into an invocation: only where the arguments
/// that pass through name no target.
pub fn needs_default_target(cargo_args: &Vec<String>) -> (needed: bool)
    ensures
        needed == !sanitized(views(cargo_args@)).contains(target_flag()),
{
    let parsed = parse_cargo_args(clone_strings(cargo_args));
    !parsed.contains_target()
}

/// A copy of a list of strings.
fn clone_strings(strings: &Vec<String>) -> (copy: Vec<String>)
    ensures
        views(copy@) == views(strings@),
{
    let mut copy: Vec<String> = Vec::new();
    let mut i: usize = 0;
    while i < strings.len()
        invariant
            i <= strings.len(),
            copy@.len() == i,
            forall|k: int| 0 <= k < i ==> copy@[k]@ == strings@[k]@,
        decreases strings.len() - i,
    {
        copy.push(strings[i].clone());
        i += 1;
    }
    assert(views(copy@) =~= views(strings@));
    copy
}

/// Composes the cargo invocation for `cargo_args`. The message format is
/// always set, the release flag goes by `release_mode`, and where the caller
/// named no target, the toolchain's default target is taken from
/// `rustc_output` and passed explicitly. `rustc_output` is the output of
/// `rustc -vV`, or the reason why it could not be had. Fails where that target
/// is needed and cannot be had, with an error that holds the reason.
pub fn cargo_command(
    cargo_cmd: CargoCommand,
    cargo_args: Vec<String>,
    env: Environment,
    release_mode: ReleaseMode,
    rustc_output: Result<&str, &str>,
) -> (invocation: Result<BuildInvocation, BuildError>)
    ensures
        models(
            invocation,
            cargo_command_model(
                cargo_cmd,
                views(cargo_args@),
                env@,
                release_mode,
                fallible_str(rustc_output),
            ),
        ),
{
    let ghost tokens = views(cargo_args@);
    let parsed_args = parse_cargo_args(cargo_args);

    let mut args: Vec<String> = Vec::new();
    args.push(cargo_cmd.to_str().to_owned());
    args.push("--message-format".to_owned());
    args.push("json-diagnostic-rendered-ansi".to_owned());
    match release_mode {
        ReleaseMode::AddRelease => {
            args.push("--release".to_owned());
        },
        ReleaseMode::NoRelease => {},
    }
    let ghost mut injected: Option<Seq<char>> = None;
    if !parsed_args.contains_target() {
        let output = match rustc_output {
            Ok(output) => output,
            Err(cause) => {
                return Err(BuildError::UnknownDefaultTarget(cause.to_owned()));
            },
        };
        let default_target = match get_default_target(output) {
            Ok(target) => target,
            Err(error) => {
                return Err(BuildError::UnknownDefaultTarget(error.message()));
            },
        };
        proof {
            injected = Some(default_target@);
        }
        args.push("--target".to_owned());
        args.push(default_target);
    }
    let ghost head = views(args@);
    assert(head =~= invocation_args(cargo_cmd, release_mode, injected, Seq::empty()));
    let dropped = copy_flags(parsed_args.dropped());
    let filtered = parsed_args.into_filtered();
    for arg in it: filtered
        invariant
            it.seq() == filtered@,
            views(args@) == head + views(filtered@).take(it.index() as int),
    {
        let ghost before = views(args@);
        args.push(arg);
        assert(views(args@) =~= before.push(arg@));
        assert(views(filtered@).take(it.index() + 1) =~= views(filtered@).take(
            it.index() as int,
        ).push(arg@));
    }
    assert(views(filtered@).take(filtered@.len() as int) =~= views(filtered@));
    assert(views(args@) =~= invocation_args(cargo_cmd, release_mode, injected, sanitized(tokens)));
    Ok(
        BuildInvocation {
            program: "cargo".to_owned(),
            args,
            env,
            stdin: StreamWiring::Inherit,
            stdout: StreamWiring::Piped,
            stderr: StreamWiring::Inherit,
            dropped,
        },
    )
}

/// The value of the compiler-flags variable for the child: what the variable
/// held before, nothing where it was unset, then one space, then `flags`.
pub open spec fn rustflags_value(existing: Option<Seq<char>>, flags: Seq<char>) -> Seq<char> {
    (match existing {
        Some(value) => value,
        None => Seq::empty(),
    }) + seq![' '] + flags
}

/// Appends `flags` to the compiler flags that are already set. `existing` is
/// the variable's value in the environment of this process, absent where it is
/// unset; it is never overwritten.
pub fn compose_rustflags(existing: Option<String>, flags: &str) -> (value: String)
    ensures
        value@ == rustflags_value(optional_string(existing), flags@),
{
    let mut value = match existing {
        Some(old_value) => old_value,
        None => String::new(),
    };
    proof {
        reveal_strlit(" ");
        assert(" "@ =~= seq![' ']);
    }
    value.append(" ");
    value.append(flags);
    value
}

/// Composes the cargo invocation of `command` with `flags` added to the
/// compiler flags. The environment of the child sets the compiler-flags
/// variable and nothing else; release mode goes by the command.
pub fn cargo_command_with_flags(
    command: CargoCommand,
    flags: &str,
    cargo_args: Vec<String>,
    rustflags: Option<String>,
    rustc_output: Result<&str, &str>,
) -> (invocation: Result<BuildInvocation, BuildError>)
    ensures
        models(
            invocation,
            cargo_command_model(
                command,
                views(cargo_args@),
                seq![(rustflags_name(), rustflags_value(optional_string(rustflags), flags@))],
                command.spec_release_mode(),
                fallible_str(rustc_output),
            ),
        ),
        invocation is Ok ==> distinct_names(invocation->Ok_0@.env),
{
    let value = compose_rustflags(rustflags, flags);
    let env = Environment::new().set("RUSTFLAGS".to_owned(), value);
    proof {
        lemma_rustflags_set_once(optional_string(rustflags), flags@);
    }
    let release_mode = command.release_mode();
    cargo_command(command, cargo_args, env, release_mode, rustc_output)
}

/// Where the caller's arguments name a target, none is injected, and the
/// toolchain's answer plays no part: the invocation is the same whatever
/// `rustc_output` holds, and the same where the toolchain gave no answer.
pub proof fn lemma_named_target_is_kept(
    command: CargoCommand,
    cargo_args: Seq<Seq<char>>,
    env: Seq<(Seq<char>, Seq<char>)>,
    release_mode: ReleaseMode,
    rustc_output: Result<Seq<char>, Seq<char>>,
    other_output: Result<Seq<char>, Seq<char>>,
)
    requires
        sanitized(cargo_args).contains(target_flag()),
    ensures
        cargo_command_model(command, cargo_args, env, release_mode, rustc_output)
            == cargo_command_model(command, cargo_args, env, release_mode, other_output),
        cargo_command_model(command, cargo_args, env, release_mode, rustc_output) is Ok,
        cargo_command_model(command, cargo_args, env, release_mode, rustc_output)->Ok_0.args
            == invocation_args(command, release_mode, None, sanitized(cargo_args)),
{
}

/// The arguments that this tool puts before the caller's hold no target flag.
pub proof fn lemma_head_names_no_target(command: CargoCommand, release_mode: ReleaseMode)
    ensures
        !invocation_args(command, release_mode, None, Seq::empty()).contains(target_flag()),
{
    lemma_flags_distinct();
    reveal_strlit("build");
    reveal_strlit("bench");
    reveal_strlit("json-diagnostic-rendered-ansi");
    assert(command.name().len() == 5);
    assert(forced_message_format().len() == 29);
    let head = invocation_args(command, release_mode, None, Seq::empty());
    assert forall|k: int| 0 <= k < head.len() implies head[k] != target_flag() by {
        if release_mode == ReleaseMode::AddRelease {
            assert(head =~= seq![
                command.name(),
                message_format_flag(),
                forced_message_format(),
                release_flag(),
            ]);
        } else {
            assert(head =~= seq![command.name(), message_format_flag(), forced_message_format()]);
        }
    }
}

/// Where the caller's arguments name no target, exactly one target argument is
/// injected, and its value is the host that the toolchain reports: the target
/// flag and that value stand between the arguments of this tool and the
/// caller's, neither of which holds a target flag.
pub proof fn lemma_default_target_is_injected_once(
    command: CargoCommand,
    cargo_args: Seq<Seq<char>>,
    env: Seq<(Seq<char>, Seq<char>)>,
    release_mode: ReleaseMode,
    rustc_output: Seq<char>,
)
    requires
        !sanitized(cargo_args).contains(target_flag()),
        crate::default_target(rustc_output) is Some,
    ensures
        cargo_command_model(command, cargo_args, env, release_mode, Ok(rustc_output)) is Ok,
        ({
            let args = cargo_command_model(
                command,
                cargo_args,
                env,
                release_mode,
                Ok(rustc_output),
            )->Ok_0.args;
            let head = invocation_args(command, release_mode, None, Seq::empty());
            let host = crate::default_target(rustc_output)->Some_0;
            &&& args == head + seq![target_flag(), host] + sanitized(cargo_args)
            &&& !head.contains(target_flag())
            &&& !sanitized(cargo_args).contains(target_flag())
            &&& host != target_flag() ==> forall|p: int|
                0 <= p < args.len() ==> (#[trigger] args[p] == target_flag() <==> p == head.len())
        }),
{
    lemma_head_names_no_target(command, release_mode);
    let args = cargo_command_model(
        command,
        cargo_args,
        env,
        release_mode,
        Ok(rustc_output),
    )->Ok_0.args;
    let head = invocation_args(command, release_mode, None, Seq::empty());
    let host = crate::default_target(rustc_output)->Some_0;
    let rest = sanitized(cargo_args);
    assert(args =~= head + seq![target_flag(), host] + rest);
    if host != target_flag() {
        assert forall|p: int| 0 <= p < args.len() implies (#[trigger] args[p] == target_flag() <==> p
            == head.len()) by {
            if p < head.len() {
                assert(args[p] == head[p]);
            } else if p >= head.len() + 2 {
                assert(args[p] == rest[p - head.len() - 2]);
            }
        }
    }
}

/// Without a target among the caller's arguments and without a host in the
/// toolchain's answer, no invocation is composed, and the error holds the
/// reason: why the toolchain gave no answer, or that its answer lacks the
/// host field.
pub proof fn lemma_unknown_target_fails(
    command: CargoCommand,
    cargo_args: Seq<Seq<char>>,
    env: Seq<(Seq<char>, Seq<char>)>,
    release_mode: ReleaseMode,
    rustc_output: Result<Seq<char>, Seq<char>>,
)
    requires
        !sanitized(cargo_args).contains(target_flag()),
        rustc_output is Ok ==> crate::default_target(rustc_output->Ok_0) is None,
    ensures
        cargo_command_model(command, cargo_args, env, release_mode, rustc_output) == Err::<
            InvocationModel,
            ErrorModel,
        >(
            ErrorModel::UnknownDefaultTarget(
                match rustc_output {
                    Err(cause) => cause,
                    Ok(_) => missing_field_text(crate::host_field()),
                },
            ),
        ),
{
}

/// The environment that `cargo_command_with_flags` hands to the child names
/// the compiler-flags variable once and nothing else.
pub proof fn lemma_rustflags_set_once(existing: Option<Seq<char>>, flags: Seq<char>)
    ensures
        with_variable(Seq::empty(), rustflags_name(), rustflags_value(existing, flags)) == seq![
            (rustflags_name(), rustflags_value(existing, flags)),
        ],
        distinct_names(seq![(rustflags_name(), rustflags_value(existing, flags))]),
{
    let entry = (rustflags_name(), rustflags_value(existing, flags));
    assert(with_variable(Seq::empty(), entry.0, entry.1) =~= seq![entry]);
}

/// The compiler flags of the child begin with those that were set before, and
/// go on with one space and the injected flags, once.
pub proof fn lemma_rustflags_extend_existing(existing: Option<Seq<char>>, flags: Seq<char>)
    ensures
        existing is Some ==> existing->Some_0.is_prefix_of(rustflags_value(existing, flags)),
        existing is Some ==> rustflags_value(existing, flags).skip(existing->Some_0.len() as int)
            == seq![' '] + flags,
        existing is None ==> rustflags_value(existing, flags) == seq![' '] + flags,
{
    let value = rustflags_value(existing, flags);
    if existing is Some {
        let old_value = existing->Some_0;
        assert(value.subrange(0, old_value.len() as int) =~= old_value);
        assert(value.skip(old_value.len() as int) =~= seq![' '] + flags);
    } else {
        assert(value =~= seq![' '] + flags);
    }
}

/// A copy of a list of dropped flags.
fn copy_flags(flags: &Vec<DroppedFlag>) -> (copy: Vec<DroppedFlag>)
    ensures
        copy@ == flags@,
{
    let mut copy: Vec<DroppedFlag> = Vec::new();
    let mut i: usize = 0;
    while i < flags.len()
        invariant
            i <= flags.len(),
            copy@ == flags@.take(i as int),
        decreases flags.len() - i,
    {
        copy.push(flags[i]);
        assert(flags@.take(i + 1) =~= flags@.take(i as int).push(flags@[i as int]));
        i += 1;
    }
    assert(flags@.take(flags@.len() as int) =~= flags@);
    copy
}

} // verus!
