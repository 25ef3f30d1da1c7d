use lance_exec::options::{
    classify_env_pool_size, read_env_pool_size, EnvOverrides, EnvPoolSize, LanceExecutionOptions,
    DEFAULT_LANCE_MEM_POOL_SIZE,
};

fn no_overrides() -> EnvOverrides {
    EnvOverrides { mem_pool_size: EnvPoolSize::Unset, bypass_spilling: false }
}

#[test]
fn default_options() {
    let options = LanceExecutionOptions::default();
    assert!(!options.use_spilling);
    assert_eq!(options.mem_pool_size, None);
    assert_eq!(options.batch_size, None);
    assert_eq!(options.target_partition, None);
}

#[test]
fn default_pool_size_is_100_mib() {
    assert_eq!(DEFAULT_LANCE_MEM_POOL_SIZE, 104857600);
    assert_eq!(
        LanceExecutionOptions::default().mem_pool_size(&no_overrides()),
        100 * 1024 * 1024
    );
}

#[test]
fn explicit_pool_size_wins_over_the_environment() {
    let options = LanceExecutionOptions { mem_pool_size: Some(4096), ..Default::default() };
    let env = EnvOverrides { mem_pool_size: EnvPoolSize::Bytes(1), bypass_spilling: false };
    assert_eq!(options.mem_pool_size(&env), 4096);
    assert_eq!(options.mem_pool_size(&no_overrides()), 4096);
}

#[test]
fn environment_pool_size_wins_over_the_default() {
    let options = LanceExecutionOptions::default();
    let env = EnvOverrides { mem_pool_size: EnvPoolSize::Bytes(12345), bypass_spilling: false };
    assert_eq!(options.mem_pool_size(&env), 12345);
}

#[test]
fn malformed_environment_pool_size_falls_back_to_the_default() {
    let options = LanceExecutionOptions::default();
    let env = EnvOverrides {
        mem_pool_size: read_env_pool_size(Some("a lot")),
        bypass_spilling: false,
    };
    assert_eq!(env.mem_pool_size, EnvPoolSize::Malformed);
    assert_eq!(options.mem_pool_size(&env), DEFAULT_LANCE_MEM_POOL_SIZE);
}

#[test]
fn pool_size_variable_is_read_as_a_decimal_number() {
    assert_eq!(read_env_pool_size(None), EnvPoolSize::Unset);
    assert_eq!(read_env_pool_size(Some("1024")), EnvPoolSize::Bytes(1024));
    assert_eq!(read_env_pool_size(Some("0")), EnvPoolSize::Bytes(0));
    assert_eq!(
        read_env_pool_size(Some("18446744073709551615")),
        EnvPoolSize::Bytes(u64::MAX)
    );
    assert_eq!(read_env_pool_size(Some("18446744073709551616")), EnvPoolSize::Malformed);
    assert_eq!(read_env_pool_size(Some("")), EnvPoolSize::Malformed);
    assert_eq!(read_env_pool_size(Some("-1")), EnvPoolSize::Malformed);
    assert_eq!(read_env_pool_size(Some(" 12")), EnvPoolSize::Malformed);
    assert_eq!(read_env_pool_size(Some("12MB")), EnvPoolSize::Malformed);
    assert_eq!(read_env_pool_size(Some("1e3")), EnvPoolSize::Malformed);
    assert_eq!(read_env_pool_size(Some("+5")), EnvPoolSize::Bytes(5));
    assert_eq!(read_env_pool_size(Some("007")), EnvPoolSize::Bytes(7));
    assert_eq!(read_env_pool_size(Some("+")), EnvPoolSize::Malformed);
    assert_eq!(read_env_pool_size(Some("++1")), EnvPoolSize::Malformed);
    assert_eq!(read_env_pool_size(Some("+-1")), EnvPoolSize::Malformed);
    assert_eq!(read_env_pool_size(Some("1_000")), EnvPoolSize::Malformed);
    assert_eq!(read_env_pool_size(Some("12 ")), EnvPoolSize::Malformed);
    assert_eq!(read_env_pool_size(Some("0x10")), EnvPoolSize::Malformed);
    assert_eq!(read_env_pool_size(Some("\u{0663}")), EnvPoolSize::Malformed);
    assert_eq!(read_env_pool_size(Some("\u{ff11}")), EnvPoolSize::Malformed);
    assert_eq!(
        read_env_pool_size(Some("00018446744073709551615")),
        EnvPoolSize::Bytes(u64::MAX)
    );
}

#[test]
fn what_was_read_is_classified() {
    assert_eq!(classify_env_pool_size(None), EnvPoolSize::Unset);
    assert_eq!(classify_env_pool_size(Some(None)), EnvPoolSize::Malformed);
    assert_eq!(classify_env_pool_size(Some(Some(5))), EnvPoolSize::Bytes(5));
}

#[test]
fn spilling_needs_the_request_and_no_bypass() {
    let bypass = EnvOverrides { mem_pool_size: EnvPoolSize::Unset, bypass_spilling: true };
    let asked = LanceExecutionOptions { use_spilling: true, ..Default::default() };
    let not_asked = LanceExecutionOptions::default();
    assert!(asked.use_spilling(&no_overrides()));
    assert!(!asked.use_spilling(&bypass));
    assert!(!not_asked.use_spilling(&no_overrides()));
    assert!(!not_asked.use_spilling(&bypass));
}
