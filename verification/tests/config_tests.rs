use serve_core::config::{
    choose_allocator, plan_engine, plan_listener, probe_memory_max_size, probe_memory_pages,
    validate, AllocatorStrategy, LimitPolicy, LinkerPlan, ServeOptions, StartupError,
    ACCEPT_BACKLOG, DEFAULT_PORT,
};

fn base_options() -> ServeOptions {
    ServeOptions {
        nn: None,
        threads: None,
        http: None,
        cli: None,
        common: None,
        component_model: None,
        guest_profiler: false,
        nn_supported: false,
        timeout: None,
        fuel: None,
        limits: LimitPolicy {
            max_memory_bytes: None,
            max_table_elements: None,
        },
    }
}

#[test]
fn default_options_validate() {
    let v = validate(base_options()).unwrap();
    assert_eq!(v.linker, LinkerPlan::ProxyOnly);
    assert!(!v.nn);
    assert!(!v.epoch_interruption);
    assert_eq!(v.timeout, None);
    assert_eq!(v.fuel, None);
}

#[test]
fn timeout_activates_epoch_interruption() {
    let mut o = base_options();
    o.timeout = Some(5_000);
    let v = validate(o).unwrap();
    assert!(v.epoch_interruption);
    assert_eq!(v.timeout, Some(5_000));
}

#[test]
fn cli_flag_selects_full_surface() {
    let mut o = base_options();
    o.cli = Some(true);
    let v = validate(o).unwrap();
    assert_eq!(v.linker, LinkerPlan::FullCli);
}

#[test]
fn deprecated_alias_selects_full_surface() {
    let mut o = base_options();
    o.common = Some(true);
    let v = validate(o).unwrap();
    assert_eq!(v.linker, LinkerPlan::FullCli);
}

#[test]
fn cli_disabled_keeps_proxy_surface() {
    let mut o = base_options();
    o.cli = Some(false);
    let v = validate(o).unwrap();
    assert_eq!(v.linker, LinkerPlan::ProxyOnly);
}

#[test]
fn alias_with_replacement_is_rejected() {
    let mut o = base_options();
    o.cli = Some(true);
    o.common = Some(true);
    assert_eq!(validate(o), Err(StartupError::CommonWithCli));
}

#[test]
fn nn_without_build_support_is_rejected() {
    let mut o = base_options();
    o.nn = Some(true);
    assert_eq!(validate(o), Err(StartupError::NnNotSupported));
}

#[test]
fn nn_with_build_support_validates() {
    let mut o = base_options();
    o.nn = Some(true);
    o.nn_supported = true;
    let v = validate(o).unwrap();
    assert!(v.nn);
}

#[test]
fn guest_profiler_is_rejected() {
    let mut o = base_options();
    o.guest_profiler = true;
    assert_eq!(validate(o), Err(StartupError::GuestProfilerUnsupported));
}

#[test]
fn threads_are_rejected() {
    let mut o = base_options();
    o.threads = Some(true);
    assert_eq!(validate(o), Err(StartupError::ThreadsUnsupported));
}

#[test]
fn disabling_http_is_rejected() {
    let mut o = base_options();
    o.http = Some(false);
    assert_eq!(validate(o), Err(StartupError::HttpDisabled));
}

#[test]
fn disabling_component_model_is_rejected() {
    let mut o = base_options();
    o.component_model = Some(false);
    assert_eq!(validate(o), Err(StartupError::ComponentModelDisabled));
}

#[test]
fn first_error_wins() {
    let mut o = base_options();
    o.guest_profiler = true;
    o.threads = Some(true);
    o.http = Some(false);
    assert_eq!(validate(o), Err(StartupError::GuestProfilerUnsupported));
}

#[test]
fn failed_probe_selects_fallback() {
    assert_eq!(choose_allocator(false), AllocatorStrategy::OnDemand);
    let v = validate(base_options()).unwrap();
    let plan = plan_engine(&v, false);
    assert_eq!(plan.allocator, AllocatorStrategy::OnDemand);
    assert!(plan.component_model);
    assert!(plan.async_support);
}

#[test]
fn successful_probe_selects_pooling() {
    assert_eq!(choose_allocator(true), AllocatorStrategy::Pooling);
    let v = validate(base_options()).unwrap();
    assert_eq!(plan_engine(&v, true).allocator, AllocatorStrategy::Pooling);
}

#[test]
fn probe_reservation_sizes() {
    assert_eq!(probe_memory_max_size(), 1u64 << 42);
    assert_eq!(probe_memory_pages(), 1u64 << 26);
    assert_eq!(probe_memory_pages() * 65_536, probe_memory_max_size());
}

#[test]
fn listener_plan_reuses_address_off_windows() {
    let unix = plan_listener(false, false);
    assert!(unix.reuse_addr);
    assert!(!unix.ipv6);
    assert_eq!(unix.backlog, ACCEPT_BACKLOG);
    let windows = plan_listener(true, true);
    assert!(!windows.reuse_addr);
    assert!(windows.ipv6);
    assert_eq!(DEFAULT_PORT, 8080);
}
