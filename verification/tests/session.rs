use lance_exec::options::{EnvOverrides, EnvPoolSize, LanceExecutionOptions};
use lance_exec::error::Error;
use lance_exec::session::{
    build_session_context, get_session_context, get_task_context, new_session_context,
    session_choice, session_context_from, session_parts, session_settings, task_context_of,
    SessionChoice, SessionContextCache, SessionSettings,
};

fn no_overrides() -> EnvOverrides {
    EnvOverrides { mem_pool_size: EnvPoolSize::Unset, bypass_spilling: false }
}

#[test]
fn settings_follow_the_options() {
    let plain = LanceExecutionOptions::default();
    assert_eq!(
        session_settings(&plain, &no_overrides()),
        SessionSettings { target_partitions: None, spill_pool_size: None }
    );
    let asked = LanceExecutionOptions {
        use_spilling: true,
        mem_pool_size: Some(4096),
        batch_size: Some(10),
        target_partition: Some(3),
    };
    assert_eq!(
        session_settings(&asked, &no_overrides()),
        SessionSettings { target_partitions: Some(3), spill_pool_size: Some(4096) }
    );
    let spilling = LanceExecutionOptions { use_spilling: true, ..Default::default() };
    assert_eq!(
        session_settings(&spilling, &no_overrides()),
        SessionSettings { target_partitions: None, spill_pool_size: Some(100 * 1024 * 1024) }
    );
    let env = EnvOverrides { mem_pool_size: EnvPoolSize::Bytes(777), bypass_spilling: false };
    assert_eq!(session_settings(&spilling, &env).spill_pool_size, Some(777));
    let bypass = EnvOverrides { mem_pool_size: EnvPoolSize::Unset, bypass_spilling: true };
    assert_eq!(session_settings(&asked, &bypass).spill_pool_size, None);
}

#[test]
fn new_context_plans_for_the_target_partitions() {
    let options = LanceExecutionOptions { target_partition: Some(7), ..Default::default() };
    let context = new_session_context(&options, &no_overrides());
    assert_eq!(context.copied_config().target_partitions(), 7);
}

#[test]
fn new_context_spills_into_a_fair_pool_of_the_pool_size() {
    let options = LanceExecutionOptions {
        use_spilling: true,
        mem_pool_size: Some(4096),
        ..Default::default()
    };
    let context = new_session_context(&options, &no_overrides());
    let pool = format!("{:?}", context.runtime_env().memory_pool);
    assert!(pool.contains("FairSpillPool"));
    assert!(pool.contains("pool_size: 4096"));
}

#[test]
fn new_context_without_spilling_has_no_fair_pool() {
    let options = LanceExecutionOptions { mem_pool_size: Some(4096), ..Default::default() };
    let context = new_session_context(&options, &no_overrides());
    let pool = format!("{:?}", context.runtime_env().memory_pool);
    assert!(!pool.contains("FairSpillPool"));
    let bypass = EnvOverrides { mem_pool_size: EnvPoolSize::Unset, bypass_spilling: true };
    let asked = LanceExecutionOptions { use_spilling: true, ..Default::default() };
    let context = new_session_context(&asked, &bypass);
    let pool = format!("{:?}", context.runtime_env().memory_pool);
    assert!(!pool.contains("FairSpillPool"));
}

#[test]
fn context_is_built_from_settings() {
    let settings = SessionSettings { target_partitions: Some(2), spill_pool_size: Some(64) };
    let context = build_session_context(&settings);
    assert_eq!(context.copied_config().target_partitions(), 2);
    let pool = format!("{:?}", context.runtime_env().memory_pool);
    assert!(pool.contains("pool_size: 64"));
}

#[test]
fn choice_of_session() {
    let env = no_overrides();
    assert_eq!(
        session_choice(&LanceExecutionOptions::default(), &env),
        SessionChoice::Shared { spilling: false }
    );
    let spilling = LanceExecutionOptions { use_spilling: true, ..Default::default() };
    assert_eq!(session_choice(&spilling, &env), SessionChoice::Shared { spilling: true });
    let bypass = EnvOverrides { mem_pool_size: EnvPoolSize::Unset, bypass_spilling: true };
    assert_eq!(session_choice(&spilling, &bypass), SessionChoice::Shared { spilling: false });
    let partitions = LanceExecutionOptions { target_partition: Some(4), ..Default::default() };
    assert_eq!(session_choice(&partitions, &env), SessionChoice::Fresh);
    let sized = LanceExecutionOptions { mem_pool_size: Some(1), ..Default::default() };
    assert_eq!(session_choice(&sized, &env), SessionChoice::Fresh);
    let default_sized = LanceExecutionOptions {
        mem_pool_size: Some(100 * 1024 * 1024),
        batch_size: Some(5),
        ..Default::default()
    };
    assert_eq!(session_choice(&default_sized, &env), SessionChoice::Shared { spilling: false });
    let env_sized = EnvOverrides { mem_pool_size: EnvPoolSize::Bytes(5), bypass_spilling: false };
    assert_eq!(session_choice(&LanceExecutionOptions::default(), &env_sized), SessionChoice::Fresh);
}

#[test]
fn default_options_share_one_context() {
    let mut cache = SessionContextCache::new();
    let options = LanceExecutionOptions::default();
    let first = get_session_context(&mut cache, &options, &no_overrides());
    let second = get_session_context(&mut cache, &options, &no_overrides());
    assert_eq!(first.session_id(), second.session_id());
    assert!(std::sync::Arc::ptr_eq(&first.state_ref(), &second.state_ref()));
    assert!(cache.default_context.is_some());
    assert!(cache.spilling_context.is_none());
}

#[test]
fn spilling_options_share_another_context() {
    let mut cache = SessionContextCache::new();
    let plain = LanceExecutionOptions::default();
    let spilling = LanceExecutionOptions { use_spilling: true, ..Default::default() };
    let a = get_session_context(&mut cache, &spilling, &no_overrides());
    let b = get_session_context(&mut cache, &plain, &no_overrides());
    let c = get_session_context(&mut cache, &spilling, &no_overrides());
    assert_eq!(a.session_id(), c.session_id());
    assert_ne!(a.session_id(), b.session_id());
    let pool = format!("{:?}", a.runtime_env().memory_pool);
    assert!(pool.contains("FairSpillPool"));
    assert!(pool.contains("pool_size: 104857600"));
}

#[test]
fn a_target_partition_count_gets_a_context_of_its_own() {
    let mut cache = SessionContextCache::new();
    let options = LanceExecutionOptions { target_partition: Some(3), ..Default::default() };
    let first = get_session_context(&mut cache, &options, &no_overrides());
    let second = get_session_context(&mut cache, &options, &no_overrides());
    assert_ne!(first.session_id(), second.session_id());
    assert!(!std::sync::Arc::ptr_eq(&first.state_ref(), &second.state_ref()));
    assert_eq!(first.copied_config().target_partitions(), 3);
    assert!(cache.default_context.is_none());
    assert!(cache.spilling_context.is_none());
}

#[test]
fn task_context_takes_the_batch_size_and_leaves_the_session_alone() {
    let context = new_session_context(&LanceExecutionOptions::default(), &no_overrides());
    let before = context.copied_config().batch_size();
    let options = LanceExecutionOptions { batch_size: Some(17), ..Default::default() };
    let task = get_task_context(&context, &options);
    assert_eq!(task.session_config().batch_size(), 17);
    assert_eq!(context.copied_config().batch_size(), before);
    let plain = get_task_context(&context, &LanceExecutionOptions::default());
    assert_eq!(plain.session_config().batch_size(), before);
    assert_eq!(task.session_id(), context.session_id());
}

#[test]
fn parts_carry_the_settings() {
    let settings = SessionSettings { target_partitions: Some(5), spill_pool_size: Some(2048) };
    let (config, builder) = session_parts(&settings);
    assert_eq!(config.target_partitions(), 5);
    let pool = format!("{:?}", builder.memory_pool);
    assert!(pool.contains("FairSpillPool"));
    assert!(pool.contains("pool_size: 2048"));
    let plain = SessionSettings { target_partitions: None, spill_pool_size: None };
    let (_, builder) = session_parts(&plain);
    assert!(builder.memory_pool.is_none());
}

#[test]
fn context_is_made_from_the_runtime_that_was_built() {
    let settings = SessionSettings { target_partitions: Some(6), spill_pool_size: Some(512) };
    let (config, builder) = session_parts(&settings);
    let context = session_context_from(config, builder.build_arc()).unwrap();
    assert_eq!(context.copied_config().target_partitions(), 6);
    let pool = format!("{:?}", context.runtime_env().memory_pool);
    assert!(pool.contains("pool_size: 512"));
}

#[test]
fn a_runtime_that_was_not_built_is_a_runtime_error() {
    let (config, _) = session_parts(&SessionSettings {
        target_partitions: None,
        spill_pool_size: None,
    });
    let failure = datafusion_common::DataFusionError::Execution("no temp dir".to_string());
    let built = session_context_from(config, Err(failure));
    assert_eq!(built.err(), Some(Error::Runtime));
}

#[test]
fn a_spilling_context_has_a_disk_manager_to_spill_with() {
    let options = LanceExecutionOptions {
        use_spilling: true,
        mem_pool_size: Some(4096),
        ..Default::default()
    };
    let context = new_session_context(&options, &no_overrides());
    assert!(context.runtime_env().disk_manager.tmp_files_enabled());
    let (_, builder) = session_parts(&SessionSettings {
        target_partitions: None,
        spill_pool_size: Some(1),
    });
    assert!(format!("{:?}", builder.disk_manager).contains("NewOs"));
}

#[test]
fn a_pool_size_of_its_own_gets_a_context_made_for_it() {
    let mut cache = SessionContextCache::new();
    let options = LanceExecutionOptions {
        use_spilling: true,
        mem_pool_size: Some(8192),
        ..Default::default()
    };
    let first = get_session_context(&mut cache, &options, &no_overrides());
    let second = get_session_context(&mut cache, &options, &no_overrides());
    assert_ne!(first.session_id(), second.session_id());
    let pool = format!("{:?}", first.runtime_env().memory_pool);
    assert!(pool.contains("pool_size: 8192"));
    assert!(cache.default_context.is_none());
    assert!(cache.spilling_context.is_none());
    let env = EnvOverrides { mem_pool_size: EnvPoolSize::Bytes(2222), bypass_spilling: false };
    let spilling = LanceExecutionOptions { use_spilling: true, ..Default::default() };
    let third = get_session_context(&mut cache, &spilling, &env);
    let pool = format!("{:?}", third.runtime_env().memory_pool);
    assert!(pool.contains("pool_size: 2222"));
    assert!(cache.spilling_context.is_none());
}

#[test]
fn a_shared_context_is_made_for_the_default_options() {
    let mut cache = SessionContextCache::new();
    let plain = get_session_context(&mut cache, &LanceExecutionOptions::default(), &no_overrides());
    assert!(!format!("{:?}", plain.runtime_env().memory_pool).contains("FairSpillPool"));
    let asked = LanceExecutionOptions {
        use_spilling: true,
        batch_size: Some(3),
        ..Default::default()
    };
    let spilling = get_session_context(&mut cache, &asked, &no_overrides());
    assert!(format!("{:?}", spilling.runtime_env().memory_pool).contains("pool_size: 104857600"));
    assert!(spilling.runtime_env().disk_manager.tmp_files_enabled());
}

#[test]
fn task_context_of_a_state_keeps_its_batch_size_without_an_override() {
    let context = new_session_context(&LanceExecutionOptions::default(), &no_overrides());
    let mut state = context.state();
    state.config_mut().options_mut().execution.batch_size = 321;
    let plain = task_context_of(state.clone(), &LanceExecutionOptions::default());
    assert_eq!(plain.session_config().batch_size(), 321);
    let options = LanceExecutionOptions { batch_size: Some(17), ..Default::default() };
    let task = task_context_of(state, &options);
    assert_eq!(task.session_config().batch_size(), 17);
}
