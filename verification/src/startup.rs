//! Where the configuration comes from, how it is put together, and what is set
//! up with it before the relays run.

use vstd::prelude::*;

verus! {

/// What the configuration variable of the environment holds.
#[derive(Debug, PartialEq, Eq)]
pub enum EnvConf<C> {
    /// It is not set, or not text.
    Unset,
    /// It is no configuration.
    Malformed,
    Parsed(C),
}

/// What the command line asks for: one endpoint, a configuration file, or
/// nothing to run.
#[derive(Debug, PartialEq, Eq)]
pub enum CmdInput<E, O> {
    Endpoint(E, O),
    Config(String, O),
    Nothing,
}

/// What a reload starts from: the file, and the options of the command line,
/// which go over whatever the file says.
#[derive(Debug, PartialEq, Eq)]
pub struct ReloadCtx<O> {
    pub path: String,
    pub opts: O,
}

/// How the process starts.
#[derive(Debug, PartialEq, Eq)]
pub enum Startup<C, E, O> {
    /// With a configuration that is complete as it stands.
    Ready(C),
    /// With one endpoint of the command line.
    Endpoint { endpoint: E, opts: O },
    /// From a file, which can be read again later.
    File(ReloadCtx<O>),
    /// Not at all: the process exits with this code.
    Exit { code: i32 },
}

/// One step in putting a configuration together.
#[derive(Debug, PartialEq, Eq)]
pub enum ConfStep<'a, E, O> {
    /// Begin with the default configuration.
    Default,
    /// Begin with what the file says.
    ReadFile(&'a String),
    AddEndpoint(&'a E),
    /// Let the options for all endpoints fill in what an endpoint leaves open.
    ApplyGlobalOpts,
    /// Let the options of the command line go over everything.
    ApplyCmdOpts(&'a O),
}

/// The start that the environment alone decides, if it does.
pub open spec fn env_startup<C, E, O>(env: EnvConf<C>) -> Option<Startup<C, E, O>> {
    match env {
        EnvConf::Parsed(conf) => Some(Startup::Ready(conf)),
        _ => None,
    }
}

/// The start that the command line asks for.
pub open spec fn cmd_startup<C, E, O>(input: CmdInput<E, O>) -> Startup<C, E, O> {
    match input {
        CmdInput::Endpoint(endpoint, opts) => Startup::Endpoint { endpoint, opts },
        CmdInput::Config(path, opts) => Startup::File(ReloadCtx { path, opts }),
        CmdInput::Nothing => Startup::Exit { code: 0 },
    }
}

/// Takes the configuration of the environment if there is one; otherwise the
/// command line is to be asked.
pub fn from_env<C, E, O>(env: EnvConf<C>) -> (startup: Option<Startup<C, E, O>>)
    ensures
        startup == env_startup::<C, E, O>(env),
{
    match env {
        EnvConf::Parsed(conf) => Some(Startup::Ready(conf)),
        EnvConf::Unset => None,
        EnvConf::Malformed => None,
    }
}

/// Starts as the command line says.
pub fn from_cmd<C, E, O>(input: CmdInput<E, O>) -> (startup: Startup<C, E, O>)
    ensures
        startup == cmd_startup::<C, E, O>(input),
{
    match input {
        CmdInput::Endpoint(endpoint, opts) => Startup::Endpoint { endpoint, opts },
        CmdInput::Config(path, opts) => Startup::File(ReloadCtx { path, opts }),
        CmdInput::Nothing => Startup::Exit { code: 0 },
    }
}

/// How a configuration is read from a file.
pub open spec fn reload_steps<'a, E, O>(ctx: &'a ReloadCtx<O>) -> Seq<ConfStep<'a, E, O>> {
    seq![
        ConfStep::ReadFile(&ctx.path),
        ConfStep::ApplyGlobalOpts,
        ConfStep::ApplyCmdOpts(&ctx.opts),
    ]
}

/// How the configuration of a start is put together.
pub open spec fn startup_steps<'a, C, E, O>(startup: &'a Startup<C, E, O>) -> Seq<
    ConfStep<'a, E, O>,
> {
    match startup {
        Startup::Ready(_) => seq![],
        Startup::Endpoint { endpoint, opts } => seq![
            ConfStep::Default,
            ConfStep::AddEndpoint(endpoint),
            ConfStep::ApplyGlobalOpts,
            ConfStep::ApplyCmdOpts(opts),
        ],
        Startup::File(ctx) => reload_steps(ctx),
        Startup::Exit { .. } => seq![],
    }
}

/// What reloads start from after such a start.
pub open spec fn startup_reload<C, E, O>(startup: Startup<C, E, O>) -> Option<ReloadCtx<O>> {
    match startup {
        Startup::File(ctx) => Some(ctx),
        _ => None,
    }
}

impl<O> ReloadCtx<O> {
    /// Lists the steps that read the configuration anew.
    pub fn reload<'a, E>(&'a self) -> (steps: Vec<ConfStep<'a, E, O>>)
        ensures
            steps@ == reload_steps::<E, O>(self),
    {
        let mut steps: Vec<ConfStep<'a, E, O>> = Vec::new();
        steps.push(ConfStep::ReadFile(&self.path));
        steps.push(ConfStep::ApplyGlobalOpts);
        steps.push(ConfStep::ApplyCmdOpts(&self.opts));
        assert(steps@ =~= reload_steps::<E, O>(self));
        steps
    }
}

impl<C, E, O> Startup<C, E, O> {
    /// Lists the steps that put the configuration together; a configuration
    /// that is ready takes none.
    pub fn conf_steps<'a>(&'a self) -> (steps: Vec<ConfStep<'a, E, O>>)
        ensures
            steps@ == startup_steps(self),
    {
        match self {
            Startup::Ready(_) => Vec::new(),
            Startup::Endpoint { endpoint, opts } => {
                let mut steps: Vec<ConfStep<'a, E, O>> = Vec::new();
                steps.push(ConfStep::Default);
                steps.push(ConfStep::AddEndpoint(endpoint));
                steps.push(ConfStep::ApplyGlobalOpts);
                steps.push(ConfStep::ApplyCmdOpts(opts));
                assert(steps@ =~= startup_steps(self));
                steps
            },
            Startup::File(ctx) => ctx.reload(),
            Startup::Exit { code: _ } => Vec::new(),
        }
    }

    /// What later reloads start from. Only a start from a file can be repeated.
    pub fn into_reload(self) -> (reload: Option<ReloadCtx<O>>)
        ensures
            reload == startup_reload(self),
    {
        match self {
            Startup::File(ctx) => Some(ctx),
            _ => None,
        }
    }
}

/// The parts of a configuration that are set up apart from each other.
#[derive(Debug, PartialEq, Eq)]
pub struct FullConf<L, D, N> {
    pub log: L,
    pub dns: D,
    pub endpoints: Vec<N>,
}

/// What the program was built with, and for.
#[derive(Clone, Copy, Debug, PartialEq, Eq, Structural)]
pub struct Features {
    /// Relays run on several threads.
    pub multi_thread: bool,
    /// TLS transports are there.
    pub transport: bool,
    /// The system has a hang-up signal.
    pub unix: bool,
}

/// One step between a configuration and running relays.
#[derive(Debug, PartialEq, Eq)]
pub enum StartStep<L, D, N, O> {
    SetupLog(L),
    SetupDns(D),
    /// Install the TLS provider that the transports need.
    InstallTls,
    /// Run the relays of these endpoints, and of those that a reload comes to,
    /// until the process ends.
    Supervise { endpoints: Vec<N>, reload: Option<ReloadCtx<O>> },
}

/// The start as the parts and the build ask for it.
pub open spec fn start_steps<L, D, N, O>(
    full: FullConf<L, D, N>,
    reload: Option<ReloadCtx<O>>,
    features: Features,
) -> Seq<StartStep<L, D, N, O>> {
    seq![StartStep::SetupLog(full.log), StartStep::SetupDns(full.dns)] + setup_transport_steps(
        features,
    ) + seq![StartStep::Supervise { endpoints: full.endpoints, reload }]
}

/// What the transports need: the TLS provider, if there are any.
pub open spec fn setup_transport_steps<L, D, N, O>(features: Features) -> Seq<
    StartStep<L, D, N, O>,
> {
    if features.transport {
        seq![StartStep::InstallTls]
    } else {
        seq![]
    }
}

/// Lists what is done with a configuration, in order: logging first, so that
/// everything after it can log, and the relays last, together with what reloads
/// start from.
pub fn start_from_conf<L, D, N, O>(
    full: FullConf<L, D, N>,
    reload: Option<ReloadCtx<O>>,
    features: Features,
) -> (steps: Vec<StartStep<L, D, N, O>>)
    ensures
        steps@ == start_steps(full, reload, features),
{
    let FullConf { log, dns, endpoints } = full;
    let mut steps: Vec<StartStep<L, D, N, O>> = Vec::new();
    steps.push(StartStep::SetupLog(log));
    steps.push(StartStep::SetupDns(dns));
    if features.transport {
        steps.push(StartStep::InstallTls);
    }
    steps.push(StartStep::Supervise { endpoints, reload });
    assert(steps@ =~= start_steps(full, reload, features));
    steps
}

/// What the steps mean for a kind of configuration.
#[verifier::reject_recursive_types(C)]
#[verifier::reject_recursive_types(E)]
#[verifier::reject_recursive_types(O)]
pub struct ConfOps<C, E, O> {
    pub default: C,
    pub read_file: spec_fn(Seq<char>) -> C,
    pub add_endpoint: spec_fn(C, E) -> C,
    pub apply_global_opts: spec_fn(C) -> C,
    pub apply_cmd_opts: spec_fn(C, O) -> C,
}

impl<C, E, O> ConfOps<C, E, O> {
    /// One step on the configuration so far, which only a first step can do
    /// without.
    pub open spec fn step(self, conf: Option<C>, step: ConfStep<'_, E, O>) -> Option<C> {
        match (step, conf) {
            (ConfStep::Default, _) => Some(self.default),
            (ConfStep::ReadFile(path), _) => Some((self.read_file)(path@)),
            (ConfStep::AddEndpoint(endpoint), Some(c)) => Some((self.add_endpoint)(c, *endpoint)),
            (ConfStep::ApplyGlobalOpts, Some(c)) => Some((self.apply_global_opts)(c)),
            (ConfStep::ApplyCmdOpts(opts), Some(c)) => Some((self.apply_cmd_opts)(c, *opts)),
            _ => None,
        }
    }

    /// The steps one after the other.
    pub open spec fn steps(self, conf: Option<C>, steps: Seq<ConfStep<'_, E, O>>) -> Option<C>
        decreases steps.len(),
    {
        if steps.len() == 0 {
            conf
        } else {
            self.steps(self.step(conf, steps[0]), steps.skip(1))
        }
    }

    /// The configuration that a start comes to.
    pub open spec fn startup(self, startup: Startup<C, E, O>) -> Option<C> {
        let ready = match startup {
            Startup::Ready(conf) => Some(conf),
            _ => None,
        };
        self.steps(ready, startup_steps(&startup))
    }
}

/// The environment goes before the command line: a configuration in it is used
/// just as it is, without any option of the command line, and cannot be
/// reloaded. One that is missing or malformed makes no difference to what the
/// command line asks for.
pub proof fn environment_goes_first<C, E, O>(env: EnvConf<C>, ops: ConfOps<C, E, O>)
    ensures
        env matches EnvConf::Parsed(conf) ==> {
            &&& env_startup::<C, E, O>(env) matches Some(startup)
            &&& ops.startup(startup) == Some(conf)
            &&& !(startup is File)
        },
        !(env is Parsed) ==> env_startup::<C, E, O>(env) is None,
{
}

/// A start from a file reads it, fills in the options for all endpoints and
/// lets the command line go over the result. A reload does the very same, so as
/// long as the file says the same, a reload comes to the configuration that the
/// process started with.
pub proof fn reload_repeats_the_start<C, E, O>(path: String, opts: O, ops: ConfOps<C, E, O>)
    ensures
        ({
            let startup = cmd_startup::<C, E, O>(CmdInput::Config(path, opts));
            &&& startup matches Startup::File(ctx)
            &&& ops.startup(startup) == ops.steps(None, reload_steps(&ctx))
            &&& ops.startup(startup) == Some(
                (ops.apply_cmd_opts)((ops.apply_global_opts)((ops.read_file)(path@)), opts),
            )
        }),
{
    let ctx = ReloadCtx { path, opts };
    let steps = reload_steps::<E, O>(&ctx);
    reveal_with_fuel(ConfOps::steps, 4);
    assert(steps.skip(1)[0] == steps[1]);
    assert(steps.skip(1).skip(1)[0] == steps[2]);
}

/// A start with one endpoint adds it to the default configuration, and then
/// goes on as a start from a file does.
pub proof fn endpoint_start_is_exact<C, E, O>(endpoint: E, opts: O, ops: ConfOps<C, E, O>)
    ensures
        ({
            let startup = cmd_startup::<C, E, O>(CmdInput::Endpoint(endpoint, opts));
            &&& !(startup is File)
            &&& ops.startup(startup) == Some(
                (ops.apply_cmd_opts)(
                    (ops.apply_global_opts)((ops.add_endpoint)(ops.default, endpoint)),
                    opts,
                ),
            )
        }),
{
    let startup = cmd_startup::<C, E, O>(CmdInput::Endpoint(endpoint, opts));
    let steps = startup_steps(&startup);
    reveal_with_fuel(ConfOps::steps, 5);
    assert(steps.skip(1)[0] == steps[1]);
    assert(steps.skip(1).skip(1)[0] == steps[2]);
    assert(steps.skip(1).skip(1).skip(1)[0] == steps[3]);
}

/// The command line is taken at its word: one endpoint with its options, a file
/// with its options, or the end, with a code that says all is well.
pub proof fn command_line_is_taken_at_its_word<C, E, O>(input: CmdInput<E, O>)
    ensures
        match (input, cmd_startup::<C, E, O>(input)) {
            (CmdInput::Endpoint(asked, given), Startup::Endpoint { endpoint, opts }) => endpoint
                == asked && opts == given,
            (CmdInput::Config(path, given), Startup::File(ctx)) => ctx.path == path && ctx.opts
                == given,
            (CmdInput::Nothing, Startup::Exit { code }) => code == 0,
            _ => false,
        },
{
}

/// Only a configuration in the environment that can be read decides the start,
/// and then it is the very configuration.
pub proof fn environment_is_taken_at_its_word<C, E, O>(env: EnvConf<C>)
    ensures
        match env_startup::<C, E, O>(env) {
            Some(startup) => startup matches Startup::Ready(conf) && env == EnvConf::Parsed(conf),
            None => env is Unset || env is Malformed,
        },
{
}

/// A configuration is begun once, by its first step, and the options of the
/// command line go over it once, in its last; the options for all endpoints come
/// just before them, so that the command line has the last word. A file is read,
/// and an endpoint added, exactly where the start is about one.
pub proof fn configurations_are_put_together_in_order<C, E, O>(
    startup: Startup<C, E, O>,
    i: int,
)
    requires
        0 <= i < startup_steps(&startup).len(),
    ensures
        ({
            let steps = startup_steps(&startup);
            let n = steps.len();
            &&& n == (if startup is File {
                3nat
            } else {
                4nat
            })
            &&& i == n - 2 <==> steps[i] is ApplyGlobalOpts
            &&& match (startup, steps[i]) {
                (Startup::File(ctx), ConfStep::ReadFile(path)) => i == 0 && *path == ctx.path,
                (Startup::File(ctx), ConfStep::ApplyCmdOpts(opts)) => i == n - 1 && *opts
                    == ctx.opts,
                (Startup::Endpoint { .. }, ConfStep::Default) => i == 0,
                (Startup::Endpoint { endpoint, .. }, ConfStep::AddEndpoint(added)) => i == 1
                    && *added == endpoint,
                (Startup::Endpoint { opts, .. }, ConfStep::ApplyCmdOpts(applied)) => i == n - 1
                    && *applied == opts,
                (_, step) => step is ApplyGlobalOpts,
            }
        }),
{
}

/// A configuration that is there already takes no step, nor does a start that
/// there is none of; every other start takes some.
pub proof fn ready_configurations_stay_as_they_are<C, E, O>(startup: Startup<C, E, O>)
    ensures
        startup_steps(&startup).len() == 0 <==> startup is Ready || startup is Exit,
{
}

/// A reload takes the very steps that the start from the same file took, and a
/// process can reload exactly if it was started from a file, with the path and
/// the options of that start.
pub proof fn reloads_are_for_files<C, E, O>(startup: Startup<C, E, O>)
    ensures
        startup_reload(startup) is Some <==> startup is File,
        startup_reload(startup) matches Some(ctx) ==> {
            &&& startup == Startup::<C, E, O>::File(ctx)
            &&& startup_steps(&startup) == reload_steps::<E, O>(&ctx)
        },
{
}

/// Everything is set up with its own part of the configuration: the logger with
/// the one on logging, the resolver with the one on names, the relays with all
/// endpoints in their order and with what reloads start from. There is one step
/// for each, and one more for the TLS provider where there are transports.
pub proof fn parts_go_where_they_belong<L, D, N, O>(
    full: FullConf<L, D, N>,
    reload: Option<ReloadCtx<O>>,
    features: Features,
)
    ensures
        ({
            let steps = start_steps(full, reload, features);
            &&& steps.len() == (if features.transport {
                4nat
            } else {
                3nat
            })
            &&& steps[0] matches StartStep::SetupLog(log) && log == full.log
            &&& steps[1] matches StartStep::SetupDns(dns) && dns == full.dns
            &&& features.transport ==> steps[2] is InstallTls
            &&& steps.last() matches StartStep::Supervise { endpoints, reload: kept } && endpoints
                == full.endpoints && kept == reload
        }),
{
}

/// Everything is set up before the first relay runs, and each thing once: the
/// log first, the relays last, and the TLS provider only where there are
/// transports.
pub proof fn relays_come_last<L, D, N, O>(
    full: FullConf<L, D, N>,
    reload: Option<ReloadCtx<O>>,
    features: Features,
    i: int,
)
    requires
        0 <= i < start_steps(full, reload, features).len(),
    ensures
        ({
            let steps = start_steps(full, reload, features);
            &&& steps[i] is SetupLog <==> i == 0
            &&& steps[i] is SetupDns <==> i == 1
            &&& steps[i] is InstallTls <==> features.transport && i == 2
            &&& steps[i] is Supervise <==> i == steps.len() - 1
        }),
{
}

/// The relays run with what reloads start from: the file and the options of the
/// command line if the start was from a file, and nothing otherwise.
pub proof fn reload_context_reaches_the_relays<C, E, L, D, N, O>(
    startup: Startup<C, E, O>,
    full: FullConf<L, D, N>,
    features: Features,
)
    ensures
        ({
            let steps = start_steps(full, startup_reload(startup), features);
            match startup {
                Startup::File(ctx) => steps.last() == (StartStep::<L, D, N, O>::Supervise {
                    endpoints: full.endpoints,
                    reload: Some(ctx),
                }),
                _ => steps.last() == (StartStep::<L, D, N, O>::Supervise {
                    endpoints: full.endpoints,
                    reload: None,
                }),
            }
        }),
{
}

} // verus!
