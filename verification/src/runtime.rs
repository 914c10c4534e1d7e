//! How a server starts and stops: which pools it runs, on which cores, and what
//! becomes of its listeners and threads.

use vstd::prelude::*;

use crate::config::ServerArgs;
use crate::frontend::FrontendConfig;
use crate::text::{concat2, concat3};

verus! {

/// A stage of the pipeline: it owns its channels and runs until its inbox
/// closes.
pub trait Runnable: Send + 'static {
    fn run(self);
}

/// The seconds after which threads that have not stopped are given up.
pub const SHUTDOWN_JOIN_TIMEOUT: u64 = 5;

/// The cores of each part of the server.
#[derive(Debug)]
pub struct CorePlan {
    pub api: Vec<usize>,
    pub tok: Vec<usize>,
    pub detok: Vec<usize>,
    pub tm: Vec<usize>,
}

/// A pool of threads: how many, and on which cores, if they are pinned.
#[derive(Debug)]
pub struct Pool {
    pub cores: Option<Vec<usize>>,
    pub count: usize,
}

/// What a [`Pool`] means.
#[verifier::ext_equal]
pub struct PoolModel {
    pub cores: Option<Seq<usize>>,
    pub count: usize,
}

/// What optional cores mean.
pub open spec fn opt_cores(cores: Option<Vec<usize>>) -> Option<Seq<usize>> {
    match cores {
        Some(cores) => Some(cores@),
        None => None,
    }
}

impl View for Pool {
    type V = PoolModel;

    open spec fn view(&self) -> PoolModel {
        PoolModel { cores: opt_cores(self.cores), count: self.count }
    }
}

/// What the detokenizer shards send on.
#[derive(Clone, Copy, Debug, PartialEq, Eq, Structural)]
pub enum DetokenizerBackend {
    /// Text, decoded by the tokenizer.
    Decode,
    /// Tokens, as they are.
    Skip,
}

/// The pools that a server runs.
#[derive(Debug)]
pub struct PoolPlan {
    pub detokenizer: Pool,
    pub backend: DetokenizerBackend,
    /// Absent where there is no tokenizer.
    pub tokenizer: Option<Pool>,
    pub from_scheduler: Pool,
    pub to_scheduler: Pool,
    /// The cores of the API threads, if they are pinned.
    pub api_cores: Option<Vec<usize>>,
}

/// The core of the response router: the first of the manager's.
pub open spec fn router_core(tm: Seq<usize>) -> Option<Seq<usize>> {
    if tm.len() > 0 {
        Some(seq![tm[0]])
    } else {
        None
    }
}

/// The core of the intake: the second of the manager's, or else the first.
pub open spec fn intake_core(tm: Seq<usize>) -> Option<Seq<usize>> {
    if tm.len() > 1 {
        Some(seq![tm[1]])
    } else {
        router_core(tm)
    }
}

/// Copies cores.
fn copy_cores(cores: &Vec<usize>) -> (copy: Vec<usize>)
    ensures
        copy@ == cores@,
{
    let copy = cores.clone();
    assert(copy@ =~= cores@);
    copy
}

/// A single core, if there is one at the position.
fn core_at(cores: &Vec<usize>, position: usize) -> (core: Option<Vec<usize>>)
    ensures
        opt_cores(core) == if position < cores@.len() {
            Some(seq![cores@[position as int]])
        } else {
            None
        },
{
    if position < cores.len() {
        let mut single: Vec<usize> = Vec::new();
        single.push(cores[position]);
        assert(single@ =~= seq![cores@[position as int]]);
        Some(single)
    } else {
        None
    }
}

/// The path to load a tokenizer from, unless it is empty.
pub fn tokenizer_source(args: &ServerArgs) -> (path: Option<&str>)
    ensures
        match path {
            Some(path) => args.tokenizer_path@.len() > 0 && path@ == args.tokenizer_path@,
            None => args.tokenizer_path@.len() == 0,
        },
{
    if args.tokenizer_path.as_str().is_empty() {
        None
    } else {
        Some(args.tokenizer_path.as_str())
    }
}

/// Plans the pools of a server. The router and the intake are single threads;
/// without a tokenizer there is no tokenizer pool, and tokens are sent on as
/// they are.
pub fn plan_pools(args: &ServerArgs, plan: Option<&CorePlan>, tokenizer_loaded: bool) -> (pools:
    PoolPlan)
    ensures
        pools_planned(pools, *args, plan, tokenizer_loaded),
{
    let mut detok_cores: Option<Vec<usize>> = None;
    let mut tok_cores: Option<Vec<usize>> = None;
    let mut router_cores: Option<Vec<usize>> = None;
    let mut intake_cores: Option<Vec<usize>> = None;
    let mut api_cores: Option<Vec<usize>> = None;
    if let Some(plan) = plan {
        detok_cores = Some(copy_cores(&plan.detok));
        tok_cores = Some(copy_cores(&plan.tok));
        router_cores = core_at(&plan.tm, 0);
        intake_cores = if plan.tm.len() > 1 {
            core_at(&plan.tm, 1)
        } else {
            core_at(&plan.tm, 0)
        };
        api_cores = Some(copy_cores(&plan.api));
    }
    PoolPlan {
        detokenizer: Pool { cores: detok_cores, count: args.detokenizer_worker_num },
        backend: if tokenizer_loaded {
            DetokenizerBackend::Decode
        } else {
            DetokenizerBackend::Skip
        },
        tokenizer: if tokenizer_loaded {
            Some(Pool { cores: tok_cores, count: args.tokenizer_worker_num })
        } else {
            None
        },
        from_scheduler: Pool { cores: router_cores, count: 1 },
        to_scheduler: Pool { cores: intake_cores, count: 1 },
        api_cores,
    }
}

/// The core whose turn it is.
pub open spec fn turn_model(cores: Seq<usize>, index: int) -> usize {
    cores[index % cores.len() as int]
}

/// The core of the API thread that started as number `index`: the threads take
/// turns on the cores.
pub fn api_core(cores: &Vec<usize>, index: usize) -> (core: usize)
    requires
        cores@.len() > 0,
    ensures
        core == cores@[index as int % cores@.len() as int],
        core == turn_model(cores@, index as int),
{
    cores[index % cores.len()]
}

/// The listeners of a server, once they are all bound.
#[derive(Debug)]
pub struct Listeners<L> {
    pub http: L,
    pub grpc: Option<L>,
}

/// A listener that could not be bound.
pub open spec fn bind_error(surface: Seq<char>, address: Seq<char>, reason: Seq<char>) -> Seq<
    char,
> {
    "binding "@ + surface + " listener on "@ + address + " failed: "@ + reason
}

/// Describes a listener that could not be bound.
fn bind_failure(surface: &str, address: &str, reason: &str) -> (message: String)
    ensures
        message@ == bind_error(surface@, address@, reason@),
{
    let start = concat3("binding ", surface, " listener on ");
    let middle = concat3(start.as_str(), address, " failed: ");
    concat2(middle.as_str(), reason)
}

/// What starting the listeners came to.
pub open spec fn listeners_model<L>(
    http: (Seq<char>, Result<L, Seq<char>>),
    grpc: Option<(Seq<char>, Result<L, Seq<char>>)>,
) -> Result<Listeners<L>, Seq<char>> {
    match http.1 {
        Err(reason) => Err(bind_error("HTTP"@, http.0, reason)),
        Ok(http) => match grpc {
            None => Ok(Listeners { http, grpc: None }),
            Some((address, Err(reason))) => Err(bind_error("gRPC"@, address, reason)),
            Some((_, Ok(grpc))) => Ok(Listeners { http, grpc: Some(grpc) }),
        },
    }
}

/// What a bound listener means.
pub open spec fn bound<L>(result: Result<L, String>) -> Result<L, Seq<char>> {
    match result {
        Ok(listener) => Ok(listener),
        Err(reason) => Err(reason@),
    }
}

/// Takes the listeners on, all or none: where one that is configured could not
/// be bound, the other is released and the start fails.
pub fn start_listeners<L>(
    http_addr: &str,
    http: Result<L, String>,
    grpc: Option<(String, Result<L, String>)>,
) -> (listeners: Result<Listeners<L>, String>)
    ensures
        bound(listeners) == listeners_model(
            (http_addr@, bound(http)),
            match grpc {
                Some((address, result)) => Some((address@, bound(result))),
                None => None,
            },
        ),
{
    let http = match http {
        Ok(http) => http,
        Err(reason) => {
            return Err(bind_failure("HTTP", http_addr, reason.as_str()));
        },
    };
    match grpc {
        None => Ok(Listeners { http, grpc: None }),
        Some((address, Err(reason))) => Err(
            bind_failure("gRPC", address.as_str(), reason.as_str()),
        ),
        Some((_, Ok(grpc))) => Ok(Listeners { http, grpc: Some(grpc) }),
    }
}

/// The pools of a server, exactly.
pub open spec fn pools_planned(
    pools: PoolPlan,
    args: ServerArgs,
    plan: Option<&CorePlan>,
    tokenizer_loaded: bool,
) -> bool {
    &&& pools.detokenizer@ == (PoolModel {
        cores: match plan {
            Some(plan) => Some(plan.detok@),
            None => None,
        },
        count: args.detokenizer_worker_num,
    })
    &&& pools.backend == if tokenizer_loaded {
        DetokenizerBackend::Decode
    } else {
        DetokenizerBackend::Skip
    }
    &&& match pools.tokenizer {
        Some(pool) => tokenizer_loaded && pool@ == (PoolModel {
            cores: match plan {
                Some(plan) => Some(plan.tok@),
                None => None,
            },
            count: args.tokenizer_worker_num,
        }),
        None => !tokenizer_loaded,
    }
    &&& pools.from_scheduler@ == (PoolModel {
        cores: match plan {
            Some(plan) => router_core(plan.tm@),
            None => None,
        },
        count: 1,
    })
    &&& pools.to_scheduler@ == (PoolModel {
        cores: match plan {
            Some(plan) => intake_core(plan.tm@),
            None => None,
        },
        count: 1,
    })
    &&& opt_cores(pools.api_cores) == match plan {
        Some(plan) => Some(plan.api@),
        None => None,
    }
}

/// Everything that a start has decided before any thread runs.
#[derive(Debug)]
pub struct Startup<L> {
    pub listeners: Listeners<L>,
    pub pools: PoolPlan,
    pub frontend: FrontendConfig,
}

/// What a server without a tokenizer fails with, unless it was asked to skip it.
pub open spec fn missing_tokenizer() -> Seq<char> {
    "no tokenizer is loaded, and skip_tokenizer_init is not set"@
}

/// Whether a server has the tokenizer that it needs.
pub open spec fn tokenizer_ready(args: ServerArgs, tokenizer_loaded: bool) -> bool {
    args.skip_tokenizer_init || tokenizer_loaded
}

/// What the outcome of loading a tokenizer means.
pub open spec fn settled_model(settled: Result<bool, String>) -> Result<bool, Seq<char>> {
    match settled {
        Ok(loaded) => Ok(loaded),
        Err(message) => Err(message@),
    }
}

/// Whether a tokenizer is there, or why the start ends.
pub open spec fn required_model(
    args: ServerArgs,
    loaded: Result<bool, Seq<char>>,
) -> Result<bool, Seq<char>> {
    match loaded {
        Ok(found) => if tokenizer_ready(args, found) {
            Ok(found)
        } else {
            Err(missing_tokenizer())
        },
        Err(reason) => Err(reason),
    }
}

/// Settles whether a tokenizer is there, from what loading it gave. A failed
/// load ends the start, and so does a missing tokenizer that was not skipped.
pub fn require_tokenizer(args: &ServerArgs, loaded: Result<bool, String>) -> (settled: Result<
    bool,
    String,
>)
    ensures
        match (loaded, settled) {
            (Err(reason), Err(message)) => message == reason,
            (Ok(loaded), Ok(settled)) => settled == loaded && tokenizer_ready(*args, loaded),
            (Ok(loaded), Err(message)) => !tokenizer_ready(*args, loaded) && message@
                == missing_tokenizer(),
            (Err(_), Ok(_)) => false,
        },
        settled_model(settled) == required_model(*args, settled_model(loaded)),
{
    match loaded {
        Err(reason) => Err(reason),
        Ok(loaded) => if args.skip_tokenizer_init || loaded {
            Ok(loaded)
        } else {
            Err("no tokenizer is loaded, and skip_tokenizer_init is not set".to_owned())
        },
    }
}

/// The listeners of a start, or why it fails: the tokenizer is looked at before
/// any listener.
pub open spec fn start_model<L>(
    args: ServerArgs,
    tokenizer_loaded: bool,
    http: (Seq<char>, Result<L, Seq<char>>),
    grpc: Option<(Seq<char>, Result<L, Seq<char>>)>,
) -> Result<Listeners<L>, Seq<char>> {
    if tokenizer_ready(args, tokenizer_loaded) {
        listeners_model(http, grpc)
    } else {
        Err(missing_tokenizer())
    }
}

/// Starts a server on listeners that were, or were not, bound. Nothing is
/// started unless the tokenizer is there or skipped, and every configured
/// listener is there.
pub fn start<L>(
    args: &ServerArgs,
    stage_channel_cap: usize,
    plan: Option<&CorePlan>,
    tokenizer_loaded: bool,
    http_addr: &str,
    http: Result<L, String>,
    grpc: Option<(String, Result<L, String>)>,
) -> (started: Result<Startup<L>, String>)
    ensures
        !args.skip_tokenizer_init && !tokenizer_loaded ==> started is Err,
        ({
            let listeners = start_model(
                *args,
                tokenizer_loaded,
                (http_addr@, bound(http)),
                match grpc {
                    Some((address, result)) => Some((address@, bound(result))),
                    None => None,
                },
            );
            match started {
                Ok(startup) => listeners == Ok::<Listeners<L>, Seq<char>>(startup.listeners)
                    && pools_planned(startup.pools, *args, plan, tokenizer_loaded)
                    && startup.frontend.response_capacity == stage_channel_cap
                    && startup.frontend.configured_by(*args),
                Err(message) => listeners == Err::<Listeners<L>, Seq<char>>(message@),
            }
        }),
{
    let tokenizer_loaded = match require_tokenizer(args, Ok(tokenizer_loaded)) {
        Ok(loaded) => loaded,
        Err(message) => {
            return Err(message);
        },
    };
    let listeners = match start_listeners(http_addr, http, grpc) {
        Ok(listeners) => listeners,
        Err(message) => {
            return Err(message);
        },
    };
    Ok(
        Startup {
            listeners,
            pools: plan_pools(args, plan, tokenizer_loaded),
            frontend: FrontendConfig::new(args, stage_channel_cap),
        },
    )
}

/// A running server: the threads that have not been joined, and whether it may
/// still run.
#[derive(Debug)]
pub struct Runtime<H> {
    threads: Vec<H>,
    running: bool,
}

/// The pool of multimodal workers: unpinned, and never empty.
pub open spec fn mm_pool(workers: usize) -> PoolModel {
    PoolModel {
        cores: None,
        count: if workers == 0 {
            1
        } else {
            workers
        },
    }
}

/// What a running server is: the threads that have not been joined, and whether
/// no shutdown was asked for.
#[verifier::ext_equal]
pub ghost struct RuntimeModel<H> {
    pub unjoined: Seq<H>,
    pub running: bool,
}

impl<H> RuntimeModel<H> {
    /// The server once it was asked to stop: every thread was handed out.
    pub open spec fn shut_down(self) -> Self {
        RuntimeModel { unjoined: seq![], running: false }
    }
}

impl<H> View for Runtime<H> {
    type V = RuntimeModel<H>;

    closed spec fn view(&self) -> RuntimeModel<H> {
        RuntimeModel { unjoined: self.threads@, running: self.running }
    }
}

impl<H> Runtime<H> {
    /// A server that was just started.
    pub fn new(threads: Vec<H>) -> (runtime: Self)
        ensures
            runtime@ == (RuntimeModel { unjoined: threads@, running: true }),
    {
        Runtime { threads, running: true }
    }

    /// Takes one more thread on.
    pub fn add_thread(&mut self, thread: H)
        ensures
            final(self)@ == (RuntimeModel {
                unjoined: old(self)@.unjoined.push(thread),
                running: old(self)@.running,
            }),
    {
        self.threads.push(thread);
    }

    /// The pool of multimodal workers. At least one is run.
    pub fn spawn_mm_pool(&self, workers: usize) -> (pool: Pool)
        ensures
            pool@ == mm_pool(workers),
    {
        Pool {
            cores: None,
            count: if workers == 0 {
                1
            } else {
                workers
            },
        }
    }

    /// Plans the multimodal workers around a context that could, or could not,
    /// be built.
    pub fn start_mm_workers<C>(&self, context: Result<C, String>, workers: usize) -> (planned:
        Result<(C, Pool), String>)
        ensures
            match (context, planned) {
                (Ok(context), Ok((planned, pool))) => planned == context && pool@ == mm_pool(
                    workers,
                ),
                (Err(reason), Err(message)) => message == reason,
                _ => false,
            },
    {
        match context {
            Ok(context) => Ok((context, self.spawn_mm_pool(workers))),
            Err(reason) => Err(reason),
        }
    }

    /// Plans the multimodal workers around a processor that is there already.
    pub fn start_mm_workers_with_processor(&self, workers: usize) -> (pool: Pool)
        ensures
            pool@ == mm_pool(workers),
    {
        self.spawn_mm_pool(workers)
    }

    /// Stops the server, and hands out the threads to join. Asked again, it
    /// finds nothing left to do.
    pub fn request_shutdown(&mut self) -> (threads: Vec<H>)
        ensures
            threads@ == old(self)@.unjoined,
            final(self)@ == old(self)@.shut_down(),
    {
        self.running = false;
        let mut threads: Vec<H> = Vec::new();
        std::mem::swap(&mut threads, &mut self.threads);
        threads
    }
}

/// What becomes of a thread while a shutdown waits for it.
#[derive(Debug, Clone, Copy, PartialEq, Eq, Structural)]
pub enum JoinStep {
    /// It has finished: take its result.
    Join,
    /// Look again in a moment.
    Wait,
    /// Leave it behind.
    Abandon,
}

/// What becomes of a thread, by whether it has finished and how many
/// milliseconds the shutdown has taken so far.
pub open spec fn join_model(finished: bool, elapsed_millis: int) -> JoinStep {
    if finished {
        JoinStep::Join
    } else if elapsed_millis < SHUTDOWN_JOIN_TIMEOUT * 1000 {
        JoinStep::Wait
    } else {
        JoinStep::Abandon
    }
}

/// Decides what becomes of a thread during a shutdown: one that has finished is
/// joined however late it is, and none is waited for past the time limit.
pub fn join_step(finished: bool, elapsed_millis: u128) -> (step: JoinStep)
    ensures
        step == join_model(finished, elapsed_millis as int),
{
    if finished {
        JoinStep::Join
    } else if elapsed_millis < SHUTDOWN_JOIN_TIMEOUT as u128 * 1000 {
        JoinStep::Wait
    } else {
        JoinStep::Abandon
    }
}

/// A start that succeeds has its tokenizer or was asked to skip it, and holds
/// every listener that was configured; one that fails names the missing
/// tokenizer, or the surface and the address that could not be bound.
pub proof fn law_startup_is_all_or_nothing<L>(
    args: ServerArgs,
    tokenizer_loaded: bool,
    http: (Seq<char>, Result<L, Seq<char>>),
    grpc: Option<(Seq<char>, Result<L, Seq<char>>)>,
)
    ensures
        match start_model(args, tokenizer_loaded, http, grpc) {
            Ok(listeners) => (args.skip_tokenizer_init || tokenizer_loaded) && http.1 == Ok::<
                L,
                Seq<char>,
            >(listeners.http) && (listeners.grpc is Some <==> grpc is Some) && (grpc matches Some(
                (_, result),
            ) ==> result == Ok::<L, Seq<char>>(listeners.grpc->0)),
            Err(message) => if !args.skip_tokenizer_init && !tokenizer_loaded {
                message == missing_tokenizer()
            } else {
                match http.1 {
                    Err(reason) => message == bind_error("HTTP"@, http.0, reason),
                    Ok(_) => match grpc {
                        Some((address, Err(reason))) => message == bind_error(
                            "gRPC"@,
                            address,
                            reason,
                        ),
                        _ => false,
                    },
                }
            },
        },
{
}

/// A server that was not asked to skip the tokenizer never starts without one,
/// whatever its listeners are, and one that starts decodes its output.
pub proof fn law_no_start_without_the_tokenizer<L>(
    args: ServerArgs,
    tokenizer_loaded: bool,
    http: (Seq<char>, Result<L, Seq<char>>),
    grpc: Option<(Seq<char>, Result<L, Seq<char>>)>,
    pools: PoolPlan,
    plan: Option<&CorePlan>,
)
    requires
        !args.skip_tokenizer_init,
    ensures
        !tokenizer_loaded ==> start_model(args, tokenizer_loaded, http, grpc) is Err,
        start_model(args, tokenizer_loaded, http, grpc) is Ok && pools_planned(
            pools,
            args,
            plan,
            tokenizer_loaded,
        ) ==> pools.tokenizer is Some && pools.backend == DetokenizerBackend::Decode,
{
}

/// A second shutdown changes nothing and finds no thread to join, and a server
/// that was shut down does not run.
pub proof fn law_shutdown_is_idempotent<H>(runtime: RuntimeModel<H>)
    ensures
        runtime.shut_down().shut_down() == runtime.shut_down(),
        runtime.shut_down().unjoined == Seq::<H>::empty(),
        !runtime.shut_down().running,
{
}

/// A shutdown waits for a bounded time: from the time limit on every thread is
/// joined or left behind, and a finished thread is joined at any time.
pub proof fn law_shutdown_wait_is_bounded(finished: bool, elapsed_millis: int)
    ensures
        elapsed_millis >= SHUTDOWN_JOIN_TIMEOUT * 1000 ==> join_model(finished, elapsed_millis)
            != JoinStep::Wait,
        finished ==> join_model(finished, elapsed_millis) == JoinStep::Join,
{
}

/// How the pools of a server come about: as many tokenizer and detokenizer threads
/// as were configured, one router and one intake, each on the cores that the plan
/// gives it, and on none without a plan; without a tokenizer there is no tokenizer
/// pool, and output is sent on as tokens.
pub proof fn law_planned_pools(
    pools: PoolPlan,
    args: ServerArgs,
    plan: Option<&CorePlan>,
    tokenizer_loaded: bool,
)
    requires
        pools_planned(pools, args, plan, tokenizer_loaded),
    ensures
        pools.detokenizer.count == args.detokenizer_worker_num,
        pools.from_scheduler.count == 1,
        pools.to_scheduler.count == 1,
        pools.tokenizer is Some <==> tokenizer_loaded,
        pools.tokenizer matches Some(pool) ==> pool.count == args.tokenizer_worker_num,
        pools.backend is Decode <==> tokenizer_loaded,
        plan is None ==> pools.detokenizer.cores is None && pools.from_scheduler.cores is None
            && pools.to_scheduler.cores is None && pools.api_cores is None,
        plan is None ==> (pools.tokenizer matches Some(pool) ==> pool.cores is None),
        plan matches Some(plan) ==> {
            &&& pools.detokenizer.cores matches Some(cores) && cores@ == plan.detok@
            &&& pools.api_cores matches Some(cores) && cores@ == plan.api@
            &&& pools.tokenizer matches Some(pool) ==> (pool.cores matches Some(cores) && cores@
                == plan.tok@)
            &&& plan.tm@.len() == 0 ==> pools.from_scheduler.cores is None
                && pools.to_scheduler.cores is None
            &&& plan.tm@.len() > 0 ==> (pools.from_scheduler.cores matches Some(cores)
                && cores@.len() == 1 && cores@[0] == plan.tm@[0])
            &&& plan.tm@.len() == 1 ==> (pools.to_scheduler.cores matches Some(cores)
                && cores@.len() == 1 && cores@[0] == plan.tm@[0])
            &&& plan.tm@.len() > 1 ==> (pools.to_scheduler.cores matches Some(cores)
                && cores@.len() == 1 && cores@[0] == plan.tm@[1])
        },
{
}

/// What a failed start says: which listener could not be bound, where and why, or
/// that the tokenizer is missing.
pub proof fn law_failed_starts_say_why(surface: Seq<char>, address: Seq<char>, reason: Seq<char>)
    ensures
        bind_error(surface, address, reason) == "binding "@ + surface + " listener on "@ + address
            + " failed: "@ + reason,
        missing_tokenizer() == "no tokenizer is loaded, and skip_tokenizer_init is not set"@,
{
}

/// There is always a multimodal worker, as many as were asked for where any were,
/// and they are bound to no core.
pub proof fn law_multimodal_pools(workers: usize)
    ensures
        mm_pool(workers).count >= 1,
        workers > 0 ==> mm_pool(workers).count == workers,
        workers == 0 ==> mm_pool(workers).count == 1,
        mm_pool(workers).cores is None,
{
}

/// A shutdown waits five seconds and no longer: until then it waits for every thread
/// that has not finished, and from then on it leaves them behind.
pub proof fn law_shutdown_waits_five_seconds(elapsed_millis: int)
    ensures
        elapsed_millis < 5_000 ==> join_model(false, elapsed_millis) is Wait,
        elapsed_millis >= 5_000 ==> join_model(false, elapsed_millis) is Abandon,
        join_model(true, elapsed_millis) is Join,
{
}

/// A tokenizer that could not be loaded ends the start with the loader's own words,
/// whether or not it was needed; one that was loaded is used, and one that is not
/// there ends the start unless it was to be skipped.
pub proof fn law_required_tokenizers(args: ServerArgs, reason: Seq<char>)
    ensures
        required_model(args, Err(reason)) == Err::<bool, Seq<char>>(reason),
        required_model(args, Ok(true)) == Ok::<bool, Seq<char>>(true),
        args.skip_tokenizer_init ==> required_model(args, Ok(false)) == Ok::<bool, Seq<char>>(
            false,
        ),
        !args.skip_tokenizer_init ==> required_model(args, Ok(false)) == Err::<bool, Seq<char>>(
            "no tokenizer is loaded, and skip_tokenizer_init is not set"@,
        ),
        tokenizer_ready(args, false) == args.skip_tokenizer_init,
        tokenizer_ready(args, true),
{
}

/// Threads take turns on the cores: the first ones get the cores in order, and after
/// the last core the first one is next.
pub proof fn law_threads_take_turns(cores: Seq<usize>, index: int)
    requires
        cores.len() > 0,
        index >= 0,
    ensures
        index < cores.len() ==> turn_model(cores, index) == cores[index],
        turn_model(cores, index + cores.len() as int) == turn_model(cores, index),
{
    vstd::arithmetic::div_mod::lemma_mod_add_multiples_vanish(index, cores.len() as int);
    if index < cores.len() {
        vstd::arithmetic::div_mod::lemma_small_mod(index as nat, cores.len());
    }
}

/// A start takes on the listeners that it was given and no others, and decides
/// nothing on their account: only their being there matters.
pub proof fn law_start_takes_the_listeners<L>(
    args: ServerArgs,
    http: (Seq<char>, L),
    grpc: Option<(Seq<char>, L)>,
)
    requires
        args.skip_tokenizer_init,
    ensures
        ({
            let bound_grpc = match grpc {
                Some((address, listener)) => Some((address, Ok::<L, Seq<char>>(listener))),
                None => None,
            };
            let started = start_model(
                args,
                false,
                (http.0, Ok::<L, Seq<char>>(http.1)),
                bound_grpc,
            );
            started matches Ok(listeners) && listeners.http == http.1 && (grpc matches Some(
                (_, listener),
            ) ==> listeners.grpc == Some(listener)) && (grpc is None ==> listeners.grpc is None)
        }),
{
}

/// A listener that was, or was not, bound, the outcome of loading, and a pool mean
/// themselves.
pub proof fn law_outcomes_mean_themselves<L>(
    listener: Result<L, String>,
    loaded: Result<bool, String>,
    pool: Pool,
)
    ensures
        listener matches Ok(listener) ==> bound(Ok::<L, String>(listener)) == Ok::<L, Seq<char>>(
            listener,
        ),
        listener matches Err(reason) ==> bound(listener) == Err::<L, Seq<char>>(reason@),
        loaded matches Ok(found) ==> settled_model(loaded) == Ok::<bool, Seq<char>>(found),
        loaded matches Err(reason) ==> settled_model(loaded) == Err::<bool, Seq<char>>(reason@),
        pool@.count == pool.count,
        pool@.cores is Some <==> pool.cores is Some,
        pool.cores matches Some(cores) ==> pool@.cores == Some(cores@),
{
}

} // verus!
