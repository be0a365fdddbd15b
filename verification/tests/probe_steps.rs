use aya_btf_maps::probe::{
    accepts, fork, fork_start, fork_step, pid_map_def, Dummy, ForkAction, ForkEvent, ProbeKind,
    CHILD_PID_OFFSET, PARENT_PID_OFFSET, PID_MAP_MAX_ENTRIES,
};

fn drive(
    kind: ProbeKind,
    parent: Result<i32, i64>,
    child: Result<i32, i64>,
    dummy: Option<u32>,
    update: i64,
) -> Vec<ForkAction> {
    let (mut state, mut action) = fork_start();
    let mut actions = vec![action];
    loop {
        let event = match action {
            ForkAction::ReadAt { offset } if offset == PARENT_PID_OFFSET => ForkEvent::Read(parent),
            ForkAction::ReadAt { .. } => ForkEvent::Read(child),
            ForkAction::LookupDummy { .. } => ForkEvent::Looked(dummy),
            ForkAction::Update { .. } => ForkEvent::Updated(update),
            ForkAction::Exit { .. } => break,
            _ => ForkEvent::Done,
        };
        assert!(accepts(&state, &event));
        let (s, a) = fork_step(kind, state, event);
        state = s;
        action = a;
        actions.push(a);
    }
    actions
}

const READ_PARENT: ForkAction = ForkAction::ReadAt { offset: 24 };
const READ_CHILD: ForkAction = ForkAction::ReadAt { offset: 44 };

#[test]
fn offsets_of_the_fork_record() {
    assert_eq!(PARENT_PID_OFFSET, 24);
    assert_eq!(CHILD_PID_OFFSET, 44);
}

#[test]
fn logging_probe_success_with_dummy_entry() {
    assert_eq!(
        drive(ProbeKind::Logging, Ok(100), Ok(200), Some(7), 0),
        vec![
            READ_PARENT,
            READ_CHILD,
            ForkAction::LogDummy { a: 0 },
            ForkAction::LookupDummy { key: 100 },
            ForkAction::LogDummy { a: 7 },
            ForkAction::Update { key: 100, value: 200, flags: 0 },
            ForkAction::Exit { code: 0 },
        ]
    );
}

#[test]
fn logging_probe_without_dummy_entry_and_failed_update() {
    assert_eq!(
        drive(ProbeKind::Logging, Ok(1), Ok(2), None, -7),
        vec![
            READ_PARENT,
            READ_CHILD,
            ForkAction::LogDummy { a: 0 },
            ForkAction::LookupDummy { key: 1 },
            ForkAction::Update { key: 1, value: 2, flags: 0 },
            ForkAction::Exit { code: 4294967289 },
        ]
    );
}

#[test]
fn logging_probe_logs_a_failed_parent_read() {
    assert_eq!(
        drive(ProbeKind::Logging, Err(-14), Ok(2), Some(1), 0),
        vec![
            READ_PARENT,
            ForkAction::LogErrorCode { code: -14 },
            ForkAction::Exit { code: 4294967282 },
        ]
    );
}

#[test]
fn logging_probe_logs_a_failed_child_read() {
    assert_eq!(
        drive(ProbeKind::Logging, Ok(1), Err(-1), Some(1), 0),
        vec![
            READ_PARENT,
            READ_CHILD,
            ForkAction::LogError { code: -1 },
            ForkAction::Exit { code: u32::MAX },
        ]
    );
}

#[test]
fn printing_probes_print_after_a_successful_update() {
    for kind in [ProbeKind::BtfMap, ProbeKind::MapDef] {
        assert_eq!(
            drive(kind, Ok(10), Ok(20), Some(1), 0),
            vec![
                READ_PARENT,
                READ_CHILD,
                ForkAction::Update { key: 10, value: 20, flags: 0 },
                ForkAction::PrintPids { parent: 10, child: 20 },
                ForkAction::Exit { code: 0 },
            ]
        );
    }
}

#[test]
fn failed_update_code_depends_on_the_probe() {
    let btf = drive(ProbeKind::BtfMap, Ok(1), Ok(2), None, -7);
    assert_eq!(
        btf,
        vec![READ_PARENT, READ_CHILD, ForkAction::Update { key: 1, value: 2, flags: 0 }, ForkAction::Exit { code: 4294967289 }]
    );
    let def = drive(ProbeKind::MapDef, Ok(1), Ok(2), None, -7);
    assert_eq!(def.last(), Some(&ForkAction::Exit { code: 0 }));
    assert!(!def.iter().any(|a| matches!(a, ForkAction::PrintPids { .. })));
}

#[test]
fn printing_probes_exit_on_read_errors_without_logging() {
    assert_eq!(
        drive(ProbeKind::MapDef, Err(-14), Ok(2), None, 0),
        vec![READ_PARENT, ForkAction::Exit { code: 4294967282 }]
    );
    assert_eq!(
        drive(ProbeKind::BtfMap, Ok(3), Err(-2), None, 0),
        vec![READ_PARENT, READ_CHILD, ForkAction::Exit { code: 4294967294 }]
    );
}

#[test]
fn exit_codes() {
    assert_eq!(fork(Ok(0)), 0);
    assert_eq!(fork(Ok(5)), 5);
    assert_eq!(fork(Err(-1)), u32::MAX);
    assert_eq!(fork(Err(-4095)), 4294963201);
    assert_eq!(fork(Err(0x1_0000_0003)), 3);
}

#[test]
fn mismatched_event_is_not_accepted() {
    let (state, _) = fork_start();
    assert!(!accepts(&state, &ForkEvent::Done));
    assert!(!accepts(&state, &ForkEvent::Updated(0)));
    assert!(accepts(&state, &ForkEvent::Read(Ok(1))));
}

#[test]
fn pid_map_definition() {
    let d = pid_map_def();
    assert_eq!(d.map_type, 1);
    assert_eq!(d.max_entries, PID_MAP_MAX_ENTRIES);
    assert_eq!(d.max_entries, 1024);
    assert_eq!(d.map_flags, 0);
}

#[test]
fn dummy_holds_its_fields() {
    let d: Dummy<u32, 1024> = Dummy { a: 0, b: [0; 1024] };
    assert_eq!(d.a, 0);
    assert_eq!(d.b.len(), 1024);
}
