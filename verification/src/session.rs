//! Session contexts: how one is configured from the execution options, and
//! which executions share one.

use std::sync::Arc;
use vstd::prelude::*;
use datafusion::execution::context::{SessionConfig, SessionContext};
use datafusion::execution::disk_manager::DiskManagerConfig;
use datafusion::execution::memory_pool::FairSpillPool;
use datafusion::execution::runtime_env::{RuntimeEnv, RuntimeEnvBuilder};
use datafusion::execution::session_state::SessionState;
use datafusion::execution::TaskContext;
use datafusion_common::DataFusionError;
use crate::error::Error;
use crate::options::{EnvOverrides, LanceExecutionOptions, DEFAULT_LANCE_MEM_POOL_SIZE};

verus! {

/// `datafusion::execution::context::SessionConfig`, carried through unread.
#[verifier::external_type_specification]
#[verifier::external_body]
pub struct ExSessionConfig(SessionConfig);

/// `datafusion::execution::context::SessionContext`, carried through unread.
#[verifier::external_type_specification]
#[verifier::external_body]
pub struct ExSessionContext(SessionContext);

/// `datafusion::execution::session_state::SessionState`, carried through unread.
#[verifier::external_type_specification]
#[verifier::external_body]
pub struct ExSessionState(SessionState);

/// `datafusion::execution::runtime_env::RuntimeEnvBuilder`, carried through unread.
#[verifier::external_type_specification]
#[verifier::external_body]
pub struct ExRuntimeEnvBuilder(RuntimeEnvBuilder);

/// `datafusion::execution::runtime_env::RuntimeEnv`, carried through unread.
#[verifier::external_type_specification]
#[verifier::external_body]
pub struct ExRuntimeEnv(RuntimeEnv);

/// `datafusion::execution::disk_manager::DiskManagerConfig`, carried through unread.
#[verifier::external_type_specification]
#[verifier::external_body]
pub struct ExDiskManagerConfig(DiskManagerConfig);

/// `datafusion::execution::TaskContext`, carried through unread.
#[verifier::external_type_specification]
#[verifier::external_body]
pub struct ExTaskContext(TaskContext);

/// `datafusion_common::DataFusionError`, carried through unread.
#[verifier::external_type_specification]
#[verifier::external_body]
pub struct ExDataFusionError(DataFusionError);

/// Whether a session configuration names a location from which the tables
/// of the default schema are loaded.
pub uninterp spec fn config_names_catalog_location(config: SessionConfig) -> bool;

/// Whether a disk manager configuration asks for temporary files in a
/// directory that the operating system chooses.
pub uninterp spec fn disk_manager_is_os_chosen(disk_manager: DiskManagerConfig) -> bool;

/// Whether the disk manager that a builder holds for the runtime
/// environment to build is one with a directory of the operating system's
/// choice.
pub uninterp spec fn builder_spills_to_disk(builder: RuntimeEnvBuilder) -> bool;

/// Whether the disk manager of a runtime environment was built as one with
/// a directory of the operating system's choice.
pub uninterp spec fn runtime_spills_to_disk(runtime: RuntimeEnv) -> bool;

/// Whether the runtime environment that the session of a context was
/// created with has a disk manager with a directory of the operating
/// system's choice.
pub uninterp spec fn session_spills_to_disk(context: SessionContext) -> bool;

/// The target partition count that a session configuration holds.
pub uninterp spec fn config_target_partitions(config: SessionConfig) -> usize;

/// The size of the fair spill pool that a builder holds as the memory pool
/// of the runtime environment to build, if it holds one.
pub uninterp spec fn builder_fair_pool_size(builder: RuntimeEnvBuilder) -> Option<usize>;

/// The size of the fair spill pool that is the memory pool of a runtime
/// environment, if it is one.
pub uninterp spec fn runtime_fair_pool_size(runtime: RuntimeEnv) -> Option<usize>;

/// The target partition count of the configuration that the session of a
/// context was created with.
pub uninterp spec fn session_target_partitions(context: SessionContext) -> usize;

/// The size of the fair spill pool of the runtime environment that the
/// session of a context was created with, if its memory pool is one.
pub uninterp spec fn session_fair_pool_size(context: SessionContext) -> Option<usize>;

/// `SessionConfig::new`: a configuration with the defaults, which name no
/// catalog location.
pub assume_specification[ SessionConfig::new ]() -> (config: SessionConfig)
    ensures
        !config_names_catalog_location(config),
;

/// `SessionConfig::with_target_partitions`: it asserts that the number is
/// not zero, stores it as the target partition count and changes nothing
/// else.
pub assume_specification[ SessionConfig::with_target_partitions ](
    config: SessionConfig,
    n: usize,
) -> (changed: SessionConfig)
    requires
        n > 0,
    ensures
        config_target_partitions(changed) == n,
        config_names_catalog_location(changed) == config_names_catalog_location(config),
;

/// `RuntimeEnvBuilder::new`: a builder with the defaults, which name no
/// memory pool and a disk manager with a directory of the operating
/// system's choice.
pub assume_specification[ RuntimeEnvBuilder::new ]() -> (builder: RuntimeEnvBuilder)
    ensures
        builder_fair_pool_size(builder) is None,
        builder_spills_to_disk(builder),
;

/// `DiskManagerConfig::new`: temporary files in a directory of the system's.
pub assume_specification[ DiskManagerConfig::new ]() -> (config: DiskManagerConfig)
    ensures
        disk_manager_is_os_chosen(config),
;

/// `RuntimeEnvBuilder::with_disk_manager`: it replaces the disk manager and
/// leaves the memory pool as it is.
pub assume_specification[ RuntimeEnvBuilder::with_disk_manager ](
    builder: RuntimeEnvBuilder,
    disk_manager: DiskManagerConfig,
) -> (changed: RuntimeEnvBuilder)
    ensures
        builder_fair_pool_size(changed) == builder_fair_pool_size(builder),
        builder_spills_to_disk(changed) == disk_manager_is_os_chosen(disk_manager),
;

/// `RuntimeEnvBuilder::build_arc`: building fails only where the disk
/// manager cannot be set up, which does not happen for one with a directory
/// of the operating system's choice: that directory is made when it is
/// first used. The environment that is built has the memory pool of the
/// builder, and a pool without a limit where the builder holds none, and a
/// disk manager built as the builder holds it.
pub assume_specification[ RuntimeEnvBuilder::build_arc ](builder: RuntimeEnvBuilder) -> (built:
    Result<Arc<RuntimeEnv>, DataFusionError>)
    ensures
        builder_spills_to_disk(builder) ==> built is Ok,
        built matches Ok(runtime) ==> runtime_fair_pool_size(*runtime) == builder_fair_pool_size(
            builder,
        ) && runtime_spills_to_disk(*runtime) == builder_spills_to_disk(builder),
;

/// `SessionContext::new_with_config_rt`: the state of the new session is
/// built with this configuration and this runtime environment. Building it
/// panics where the configuration names a catalog location that cannot be
/// parsed.
pub assume_specification[ SessionContext::new_with_config_rt ](
    config: SessionConfig,
    runtime: Arc<RuntimeEnv>,
) -> (context: SessionContext)
    requires
        !config_names_catalog_location(config),
    ensures
        session_target_partitions(context) == config_target_partitions(config),
        session_fair_pool_size(context) == runtime_fair_pool_size(*runtime),
        session_spills_to_disk(context) == runtime_spills_to_disk(*runtime),
;

/// `SessionContext::state`: a copy of the session's state as it is now.
pub assume_specification[ SessionContext::state ](context: &SessionContext) -> (state:
    SessionState);

/// The session id of a context, which it gets when it is made and keeps.
pub uninterp spec fn session_identity(context: SessionContext) -> Seq<char>;

/// The batch size in the configuration of a session state.
pub uninterp spec fn state_batch_size(state: SessionState) -> nat;

/// The batch size in the session configuration of a task context.
pub uninterp spec fn task_batch_size(task: TaskContext) -> nat;

/// Whether two contexts are handles to one session: they have its session
/// id, and what it was created with, in common.
pub open spec fn same_session(a: SessionContext, b: SessionContext) -> bool {
    &&& session_identity(a) == session_identity(b)
    &&& session_target_partitions(a) == session_target_partitions(b)
    &&& session_fair_pool_size(a) == session_fair_pool_size(b)
    &&& session_spills_to_disk(a) == session_spills_to_disk(b)
}

/// `SessionContext::clone`: the copy is a handle to the same session, under
/// the same session id, and so to what that session was created with.
pub assume_specification[ <SessionContext as Clone>::clone ](context: &SessionContext) -> (copy:
    SessionContext)
    ensures
        session_identity(copy) == session_identity(*context),
        session_target_partitions(copy) == session_target_partitions(*context),
        session_fair_pool_size(copy) == session_fair_pool_size(*context),
        session_spills_to_disk(copy) == session_spills_to_disk(*context),
;

/// `SessionState::task_ctx`: the task context gets a copy of the state's
/// configuration.
pub assume_specification[ SessionState::task_ctx ](state: &SessionState) -> (task: Arc<
    TaskContext,
>)
    ensures
        task_batch_size(*task) == state_batch_size(*state),
;

/// Assigns the field `execution.batch_size` of the options that
/// `SessionState::config_mut` and `SessionConfig::options_mut` lead to.
#[verifier::external_body]
fn set_batch_size(state: &mut SessionState, batch_size: usize)
    ensures
        state_batch_size(*final(state)) == batch_size,
{
    state.config_mut().options_mut().execution.batch_size = batch_size;
}

/// `RuntimeEnvBuilder::with_memory_pool`, given a new `FairSpillPool` of
/// `pool_size` bytes: that pool is the memory pool of the builder from then
/// on.
#[verifier::external_body]
fn with_fair_spill_pool(builder: RuntimeEnvBuilder, pool_size: usize) -> (changed:
    RuntimeEnvBuilder)
    ensures
        builder_fair_pool_size(changed) == Some(pool_size),
        builder_spills_to_disk(changed) == builder_spills_to_disk(builder),
{
    builder.with_memory_pool(Arc::new(FairSpillPool::new(pool_size)))
}

/// What a new session context is configured with.
#[derive(Debug, Clone, Copy, PartialEq, Eq, Structural)]
pub struct SessionSettings {
    /// The number of partitions to plan for, where one is asked for.
    pub target_partitions: Option<usize>,
    /// The size in bytes of the fair spill pool, where spilling is in effect;
    /// the session then also gets a disk manager to spill with.
    pub spill_pool_size: Option<usize>,
}

/// The settings that the options ask for under the environment's overrides.
pub open spec fn session_settings_of(
    options: LanceExecutionOptions,
    env: EnvOverrides,
) -> SessionSettings {
    SessionSettings {
        target_partitions: options.target_partition,
        spill_pool_size: if options.spec_use_spilling(env) {
            Some(options.spec_mem_pool_size(env) as usize)
        } else {
            None
        },
    }
}

/// Works out what a new session context for `options` is configured with.
pub fn session_settings(options: &LanceExecutionOptions, env: &EnvOverrides) -> (settings:
    SessionSettings)
    ensures
        settings == session_settings_of(*options, *env),
{
    SessionSettings {
        target_partitions: options.target_partition,
        spill_pool_size: if options.use_spilling(env) {
            Some(options.mem_pool_size(env) as usize)
        } else {
            None
        },
    }
}

/// Whether the session of `context` was created with `settings`: with the
/// target partition count that they name, if they name one; with a fair
/// spill pool of the size that they name as its memory pool, and a disk
/// manager to spill with, or with no such pool where they name none.
pub open spec fn made_with(context: SessionContext, settings: SessionSettings) -> bool {
    &&& settings.target_partitions matches Some(target_partitions)
        ==> session_target_partitions(context) == target_partitions
    &&& session_fair_pool_size(context) == settings.spill_pool_size
    &&& settings.spill_pool_size is Some ==> session_spills_to_disk(context)
}

/// The session configuration and the builder of the runtime environment
/// that `settings` ask for: the target partition count in the first, the
/// disk manager and the fair spill pool in the second.
pub fn session_parts(settings: &SessionSettings) -> (parts: (SessionConfig, RuntimeEnvBuilder))
    requires
        settings.target_partitions != Some(0usize),
    ensures
        settings.target_partitions matches Some(target_partitions) ==> config_target_partitions(
            parts.0,
        ) == target_partitions,
        !config_names_catalog_location(parts.0),
        builder_fair_pool_size(parts.1) == settings.spill_pool_size,
        builder_spills_to_disk(parts.1),
{
    let mut session_config = SessionConfig::new();
    let mut runtime_env_builder = RuntimeEnvBuilder::new();
    if let Some(target_partitions) = settings.target_partitions {
        session_config = session_config.with_target_partitions(target_partitions);
    }
    if let Some(pool_size) = settings.spill_pool_size {
        runtime_env_builder = with_fair_spill_pool(
            runtime_env_builder.with_disk_manager(DiskManagerConfig::new()),
            pool_size,
        );
    }
    (session_config, runtime_env_builder)
}

/// The session context for `session_config` and for what came of building
/// the runtime environment: a context made with both where the environment
/// was built, the failure as an error of this library where it was not.
pub fn session_context_from(
    session_config: SessionConfig,
    runtime_env: Result<Arc<RuntimeEnv>, DataFusionError>,
) -> (built: Result<SessionContext, Error>)
    requires
        !config_names_catalog_location(session_config),
    ensures
        match runtime_env {
            Ok(runtime) => {
                &&& built matches Ok(context)
                &&& session_target_partitions(context) == config_target_partitions(session_config)
                &&& session_fair_pool_size(context) == runtime_fair_pool_size(*runtime)
                &&& session_spills_to_disk(context) == runtime_spills_to_disk(*runtime)
            },
            Err(_) => built == Err::<SessionContext, Error>(Error::Runtime),
        },
{
    match runtime_env {
        Ok(runtime_env) => Ok(SessionContext::new_with_config_rt(session_config, runtime_env)),
        Err(_) => Err(Error::Runtime),
    }
}

/// Builds a session context with the given settings. The runtime
/// environment that these settings ask for can always be built.
pub fn build_session_context(settings: &SessionSettings) -> (context: SessionContext)
    requires
        settings.target_partitions != Some(0usize),
    ensures
        made_with(context, *settings),
{
    let (session_config, runtime_env_builder) = session_parts(settings);
    session_context_from(session_config, runtime_env_builder.build_arc()).unwrap()
}

/// Builds a fresh session context for `options`: with the target partition
/// count where one is given, and with a disk manager and a fair spill pool
/// of the memory pool size where spilling is in effect.
pub fn new_session_context(options: &LanceExecutionOptions, env: &EnvOverrides) -> (context:
    SessionContext)
    requires
        options.target_partition != Some(0usize),
    ensures
        made_with(context, session_settings_of(*options, *env)),
{
    let settings = session_settings(options, env);
    build_session_context(&settings)
}

/// Which session context serves an execution.
#[derive(Debug, Clone, Copy, PartialEq, Eq, Structural)]
pub enum SessionChoice {
    /// One of the two shared contexts: the one with spilling or the one
    /// without.
    Shared { spilling: bool },
    /// A context of the caller's own, built for these options.
    Fresh,
}

/// Options that resolve to the default pool size and name no partition
/// count are served by a shared context, picked by whether spilling is in
/// effect; all others by a fresh one.
pub open spec fn session_choice_of(
    options: LanceExecutionOptions,
    env: EnvOverrides,
) -> SessionChoice {
    if options.spec_mem_pool_size(env) == DEFAULT_LANCE_MEM_POOL_SIZE
        && options.target_partition is None {
        SessionChoice::Shared { spilling: options.spec_use_spilling(env) }
    } else {
        SessionChoice::Fresh
    }
}

/// Decides which session context serves an execution with `options`.
pub fn session_choice(options: &LanceExecutionOptions, env: &EnvOverrides) -> (choice:
    SessionChoice)
    ensures
        choice == session_choice_of(*options, *env),
{
    if options.mem_pool_size(env) == DEFAULT_LANCE_MEM_POOL_SIZE
        && options.target_partition.is_none() {
        SessionChoice::Shared { spilling: options.use_spilling(env) }
    } else {
        SessionChoice::Fresh
    }
}

/// The two shared session contexts, each built when it is first asked for
/// and kept from then on.
pub struct SessionContextCache {
    pub default_context: Option<SessionContext>,
    pub spilling_context: Option<SessionContext>,
}

impl SessionContextCache {
    /// The shared context with or without spilling, where it has been built.
    pub open spec fn shared(self, spilling: bool) -> Option<SessionContext> {
        if spilling {
            self.spilling_context
        } else {
            self.default_context
        }
    }

    /// A cache in which no context has been built yet.
    pub fn new() -> (cache: Self)
        ensures
            cache.default_context is None,
            cache.spilling_context is None,
    {
        SessionContextCache { default_context: None, spilling_context: None }
    }
}

/// The options that a shared context is built for: the defaults, with or
/// without spilling.
pub open spec fn shared_options(spilling: bool) -> LanceExecutionOptions {
    LanceExecutionOptions {
        use_spilling: spilling,
        mem_pool_size: None,
        batch_size: None,
        target_partition: None,
    }
}

/// What `get_session_context` does to the cache and hands back:
/// a fresh context is made with the settings of the options and leaves the
/// cache alone; a shared one is a handle to the session that the cache
/// holds, which is built first where it is missing, with the settings of
/// the default options, and never replaced.
pub open spec fn serves(
    before: SessionContextCache,
    options: LanceExecutionOptions,
    env: EnvOverrides,
    after: SessionContextCache,
    served: SessionContext,
) -> bool {
    match session_choice_of(options, env) {
        SessionChoice::Fresh => {
            &&& after == before
            &&& made_with(served, session_settings_of(options, env))
        },
        SessionChoice::Shared { spilling } => {
            &&& after.shared(!spilling) == before.shared(!spilling)
            &&& after.shared(spilling) matches Some(shared)
            &&& same_session(served, shared)
            &&& match before.shared(spilling) {
                Some(kept) => after == before,
                None => made_with(shared, session_settings_of(shared_options(spilling), env)),
            }
        },
    }
}

/// The session context for an execution with `options`: a handle to one of
/// the two shared contexts of `cache` where the options resolve to the
/// default pool size and name no partition count, else a fresh context.
pub fn get_session_context(
    cache: &mut SessionContextCache,
    options: &LanceExecutionOptions,
    env: &EnvOverrides,
) -> (served: SessionContext)
    requires
        options.target_partition != Some(0usize),
    ensures
        serves(*old(cache), *options, *env, *final(cache), served),
{
    match session_choice(options, env) {
        SessionChoice::Fresh => new_session_context(options, env),
        SessionChoice::Shared { spilling } => {
            let kept = if spilling {
                cache.spilling_context.take()
            } else {
                cache.default_context.take()
            };
            let shared = match kept {
                Some(shared) => shared,
                None => {
                    let defaults = LanceExecutionOptions {
                        use_spilling: spilling,
                        mem_pool_size: None,
                        batch_size: None,
                        target_partition: None,
                    };
                    assert(defaults == shared_options(spilling));
                    new_session_context(&defaults, env)
                },
            };
            let context = shared.clone();
            if spilling {
                cache.spilling_context = Some(shared);
            } else {
                cache.default_context = Some(shared);
            }
            context
        },
    }
}

/// Two executions that are served by the same shared context of one cache
/// get handles to one and the same session, whatever was served in
/// between: a shared context, once built, stays in the cache.
pub proof fn lemma_shared_context_is_one(
    first: SessionContextCache,
    options1: LanceExecutionOptions,
    env1: EnvOverrides,
    second: SessionContextCache,
    served1: SessionContext,
    options2: LanceExecutionOptions,
    env2: EnvOverrides,
    third: SessionContextCache,
    served2: SessionContext,
    options3: LanceExecutionOptions,
    env3: EnvOverrides,
    fourth: SessionContextCache,
    served3: SessionContext,
)
    requires
        serves(first, options1, env1, second, served1),
        serves(second, options2, env2, third, served2),
        serves(third, options3, env3, fourth, served3),
        session_choice_of(options1, env1) is Shared,
        session_choice_of(options3, env3) == session_choice_of(options1, env1),
    ensures
        same_session(served3, served1),
        session_choice_of(options2, env2) == session_choice_of(options1, env1) ==> same_session(
            served2,
            served1,
        ),
{
}

/// Default options under an environment without overrides are served by
/// the shared context without spilling; options that name a partition count
/// are always served by a fresh context, which leaves the cache as it was.
pub proof fn lemma_session_choice(options: LanceExecutionOptions, env: EnvOverrides)
    ensures
        options.mem_pool_size is None && options.target_partition is None && !(
        env.mem_pool_size is Bytes) ==> session_choice_of(options, env) == (SessionChoice::Shared {
            spilling: options.use_spilling && !env.bypass_spilling,
        }),
        options.target_partition is Some ==> session_choice_of(options, env) == SessionChoice::Fresh,
        options.spec_mem_pool_size(env) != DEFAULT_LANCE_MEM_POOL_SIZE ==> session_choice_of(
            options,
            env,
        ) == SessionChoice::Fresh,
{
}

/// The task context for one execution over `state`, a copy of a session's
/// state: its batch size is the one that `options` name, and the state's
/// own where they name none.
pub fn task_context_of(state: SessionState, options: &LanceExecutionOptions) -> (task: Arc<
    TaskContext,
>)
    ensures
        task_batch_size(*task) == (match options.batch_size {
            Some(batch_size) => batch_size as nat,
            None => state_batch_size(state),
        }),
{
    let mut state = state;
    if let Some(batch_size) = options.batch_size {
        set_batch_size(&mut state, batch_size);
    }
    state.task_ctx()
}

/// The task context for one execution in the session of `session_ctx`: made
/// from a copy of the session's state, in which the batch size is the one
/// that `options` name, where they name one.
pub fn get_task_context(session_ctx: &SessionContext, options: &LanceExecutionOptions) -> (task:
    Arc<TaskContext>)
    ensures
        options.batch_size matches Some(batch_size) ==> task_batch_size(*task) == batch_size,
{
    task_context_of(session_ctx.state(), options)
}

} // verus!
