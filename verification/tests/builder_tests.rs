use openvino_provider::provider::ContextHandle;
use openvino_provider::provider::ExecutionProviderDispatch;
use openvino_provider::provider::OpenVINOExecutionProvider;

#[test]
fn defaults_match_documentation() {
    let p = OpenVINOExecutionProvider::default();
    assert_eq!(p.device_type, None);
    assert_eq!(p.device_id, None);
    assert_eq!(p.num_threads, 8);
    assert_eq!(p.cache_dir, None);
    assert_eq!(p.context.addr, 0);
    assert!(!p.enable_opencl_throttling);
    assert!(!p.enable_dynamic_shapes);
    assert!(!p.enable_vpu_fast_compile);
}

#[test]
fn null_context_handle_has_address_zero() {
    assert_eq!(ContextHandle::null().addr, 0);
}

#[test]
fn each_setter_updates_exactly_one_field() {
    let p = OpenVINOExecutionProvider::default().with_device_type("GPU_FP16");
    assert_eq!(p.device_type.as_deref(), Some("GPU_FP16"));
    assert_eq!(p.device_id, None);
    assert_eq!(p.num_threads, 8);

    let p = OpenVINOExecutionProvider::default().with_device_id("1");
    assert_eq!(p.device_id.as_deref(), Some("1"));
    assert_eq!(p.device_type, None);

    let p = OpenVINOExecutionProvider::default().with_num_threads(2);
    assert_eq!(p.num_threads, 2);
    assert_eq!(p.cache_dir, None);

    let p = OpenVINOExecutionProvider::default().with_cache_dir("/var/cache");
    assert_eq!(p.cache_dir.as_deref(), Some("/var/cache"));
    assert_eq!(p.context.addr, 0);

    let p = OpenVINOExecutionProvider::default().with_opencl_context(ContextHandle { addr: 77 });
    assert_eq!(p.context.addr, 77);
    assert!(!p.enable_opencl_throttling);

    let p = OpenVINOExecutionProvider::default().with_opencl_throttling();
    assert!(p.enable_opencl_throttling);
    assert!(!p.enable_dynamic_shapes);

    let p = OpenVINOExecutionProvider::default().with_dynamic_shapes();
    assert!(p.enable_dynamic_shapes);
    assert!(!p.enable_vpu_fast_compile);

    let p = OpenVINOExecutionProvider::default().with_vpu_fast_compile();
    assert!(p.enable_vpu_fast_compile);
    assert_eq!(p.num_threads, 8);
}

#[test]
fn last_set_value_wins_and_untouched_fields_keep_defaults() {
    let p = OpenVINOExecutionProvider::default()
        .with_device_type("CPU_FP32")
        .with_num_threads(16)
        .with_device_type("GPU_FP32")
        .with_num_threads(4);
    assert_eq!(p.device_type.as_deref(), Some("GPU_FP32"));
    assert_eq!(p.num_threads, 4);
    assert_eq!(p.device_id, None);
    assert_eq!(p.cache_dir, None);
    assert_eq!(p.context.addr, 0);
    assert!(!p.enable_opencl_throttling);
    assert!(!p.enable_dynamic_shapes);
    assert!(!p.enable_vpu_fast_compile);
}

#[test]
fn flags_stay_enabled_through_further_configuration() {
    let p = OpenVINOExecutionProvider::default()
        .with_dynamic_shapes()
        .with_device_type("CPU_FP16")
        .with_num_threads(12)
        .with_opencl_throttling()
        .with_cache_dir("/tmp/blobs");
    assert!(p.enable_dynamic_shapes);
    assert!(p.enable_opencl_throttling);
    assert!(!p.enable_vpu_fast_compile);
}

#[test]
fn display_name_is_stable() {
    let p = OpenVINOExecutionProvider::default();
    assert_eq!(p.as_str(), "OpenVINOExecutionProvider");
}

#[test]
fn build_wraps_the_record_unchanged() {
    let p = OpenVINOExecutionProvider::default()
        .with_device_type("GPU_FP16")
        .with_num_threads(3)
        .with_vpu_fast_compile();
    let expected = p.clone();
    let ExecutionProviderDispatch::OpenVINO(inner) = p.build();
    assert_eq!(inner.device_type, expected.device_type);
    assert_eq!(inner.device_id, expected.device_id);
    assert_eq!(inner.num_threads, expected.num_threads);
    assert_eq!(inner.cache_dir, expected.cache_dir);
    assert_eq!(inner.context.addr, expected.context.addr);
    assert_eq!(inner.enable_opencl_throttling, expected.enable_opencl_throttling);
    assert_eq!(inner.enable_dynamic_shapes, expected.enable_dynamic_shapes);
    assert_eq!(inner.enable_vpu_fast_compile, expected.enable_vpu_fast_compile);
}

#[test]
fn from_builds_the_same_handle_as_build() {
    let p = OpenVINOExecutionProvider::default().with_device_id("0");
    let d = ExecutionProviderDispatch::from(p);
    let ExecutionProviderDispatch::OpenVINO(inner) = d;
    assert_eq!(inner.device_id.as_deref(), Some("0"));
}

#[test]
fn round_trip_with_all_fields_set() {
    let p = OpenVINOExecutionProvider::default()
        .with_device_type("GPU_FP32")
        .with_device_id("2")
        .with_num_threads(24)
        .with_cache_dir("/opt/model-cache")
        .with_opencl_context(ContextHandle { addr: 4096 })
        .with_opencl_throttling()
        .with_dynamic_shapes()
        .with_vpu_fast_compile();
    let ExecutionProviderDispatch::OpenVINO(inner) = p.build();
    assert_eq!(inner.device_type.as_deref(), Some("GPU_FP32"));
    assert_eq!(inner.device_id.as_deref(), Some("2"));
    assert_eq!(inner.num_threads, 24);
    assert_eq!(inner.cache_dir.as_deref(), Some("/opt/model-cache"));
    assert_eq!(inner.context.addr, 4096);
    assert!(inner.enable_opencl_throttling);
    assert!(inner.enable_dynamic_shapes);
    assert!(inner.enable_vpu_fast_compile);
}
