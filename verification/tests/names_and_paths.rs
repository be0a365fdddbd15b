use aya_btf_maps::userspace::{
    ebpf_object_path, load_status, LIBBPF_OBJECT_PATH, PID_MAP_NAME, PROGRAM_NAME,
    TRACEPOINT_CATEGORY, TRACEPOINT_NAME,
};

#[test]
fn object_paths() {
    assert_eq!(ebpf_object_path(false), "target/bpfel-unknown-none/debug/fork");
    assert_eq!(ebpf_object_path(true), "target/bpfel-unknown-none/release/fork");
    assert_eq!(LIBBPF_OBJECT_PATH, "ebpf/fork-ebpf-libbpf/fork.bpf.o");
}

#[test]
fn attachment_names() {
    assert_eq!(PROGRAM_NAME, "fork");
    assert_eq!(TRACEPOINT_CATEGORY, "sched");
    assert_eq!(TRACEPOINT_NAME, "sched_process_fork");
    assert_eq!(PID_MAP_NAME, "PID_MAP");
}

#[test]
fn load_statuses() {
    assert_eq!(load_status(0), Ok(()));
    assert_eq!(load_status(-22), Err(-22));
    assert_eq!(load_status(3), Err(3));
}
