//! The decisions of the fork tracepoint probe: which fields it reads from the
//! `sched_process_fork` record, what it stores in the PID map, and the code it
//! exits with. The probe itself performs the reads and the map update; each of
//! its steps hands the outcome back here.

use vstd::prelude::*;
use core::marker::PhantomData;

verus! {

/// Offset of the parent pid in the `sched_process_fork` tracepoint record.
pub const PARENT_PID_OFFSET: usize = 24;

/// Offset of the child pid in the `sched_process_fork` tracepoint record.
pub const CHILD_PID_OFFSET: usize = 44;

/// `BPF_MAP_TYPE_HASH` in the kernel's map type numbering, as the eBPF bindings
/// define it.
pub open spec fn bpf_map_type_hash_spec() -> u32 {
    1
}

/// The constant `aya_ebpf::bindings::bpf_map_type::BPF_MAP_TYPE_HASH`. Claimed:
/// it is 1, as the bindings' source defines it.
#[verifier::external_body]
fn bpf_map_type_hash() -> (t: u32)
    ensures
        t == bpf_map_type_hash_spec(),
{
    aya_ebpf::bindings::bpf_map_type::BPF_MAP_TYPE_HASH
}

/// The capacity of the PID map.
pub const PID_MAP_MAX_ENTRIES: u32 = 1024;

/// A legacy (non-BTF) map definition as placed in the `.maps` section.
#[verifier::reject_recursive_types(K)]
#[verifier::reject_recursive_types(V)]
pub struct MapDef<K, V> {
    pub map_type: u32,
    pub max_entries: u32,
    pub map_flags: u32,
    pub key: PhantomData<K>,
    pub value: PhantomData<V>,
}

/// The definition of the PID map: a hash map from parent pid to child pid.
pub fn pid_map_def() -> (d: MapDef<i32, i32>)
    ensures
        d.map_type == bpf_map_type_hash_spec(),
        d.max_entries == PID_MAP_MAX_ENTRIES,
        d.map_flags == 0,
{
    MapDef {
        map_type: bpf_map_type_hash(),
        max_entries: PID_MAP_MAX_ENTRIES,
        map_flags: 0,
        key: PhantomData,
        value: PhantomData,
    }
}

/// A value type with a generic field and a const-generic array.
pub struct Dummy<T, const N: usize> {
    pub a: T,
    pub b: [u8; N],
}

/// The three variants of the fork probe.
#[derive(Clone, Copy, Debug, PartialEq, Eq, Structural)]
pub enum ProbeKind {
    /// Aya maps with Aya logging: logs a failed read's error, and logs a dummy value
    /// and looks the parent up in the dummy map before the update.
    Logging,
    /// A map defined for BTF: prints the pids to the trace log after a successful
    /// update.
    BtfMap,
    /// A plain map definition: prints the pids to the trace log after a successful
    /// update; a failed update exits with 0.
    MapDef,
}

/// Where the probe stands.
#[derive(Clone, Copy, Debug, PartialEq, Eq, Structural)]
pub enum ForkState {
    ReadingParent,
    ReadingChild { parent: i32 },
    /// A failed read's error is being logged; the probe then exits with it.
    ReportingError { code: i64 },
    /// The dummy value is being logged; the lookup comes next.
    LoggingDummy { parent: i32, child: i32 },
    LookingUp { parent: i32, child: i32 },
    /// The dummy found in the map is being logged; the update comes next.
    LoggingFound { parent: i32, child: i32 },
    Updating { parent: i32, child: i32 },
    /// The pids are being printed; the probe then exits with 0.
    Printing,
    Finished,
}

/// The outcome of the step the probe last performed. Errors are the helpers'
/// return codes.
#[derive(Clone, Copy, Debug)]
pub enum ForkEvent {
    /// The outcome of reading a pid from the record.
    Read(Result<i32, i64>),
    /// The `a` field of the dummy map's entry for the key looked up, if any.
    Looked(Option<u32>),
    /// The return code of the map update helper (0 on success).
    Updated(i64),
    /// A log or print was made.
    Done,
}

/// What the probe does next.
#[allow(inconsistent_fields)]
#[derive(Clone, Copy, Debug, PartialEq, Eq, Structural)]
pub enum ForkAction {
    /// Read an `i32` at this offset of the record.
    ReadAt { offset: usize },
    /// Log at error level "error code: {code}" (after a failed parent read).
    LogErrorCode { code: i64 },
    /// Log at error level "error: {code}" (after a failed child read).
    LogError { code: i64 },
    /// Log at info level "dummy: {a}".
    LogDummy { a: u32 },
    /// Look `key` up in the dummy map.
    LookupDummy { key: i32 },
    /// Store `value` under `key` in the PID map, with these update flags.
    Update { key: i32, value: i32, flags: u64 },
    /// Print "fork! parent pid: {parent}, child pid: {child}" to the trace log.
    PrintPids { parent: i32, child: i32 },
    /// Leave the program with this code.
    Exit { code: u32 },
}

/// The probe's exit code for the outcome of its work: the value on success, else
/// the error truncated to 32 bits.
pub open spec fn exit_code(outcome: Result<u32, i64>) -> u32 {
    match outcome {
        Ok(v) => v,
        Err(e) => e as u32,
    }
}

/// The exit code of the probe for the outcome of its work.
pub fn fork(outcome: Result<u32, i64>) -> (code: u32)
    ensures
        code == exit_code(outcome),
{
    match outcome {
        Ok(v) => v,
        Err(e) => e as u32,
    }
}

/// The first step of the probe: read the parent pid.
pub open spec fn fork_begin() -> (ForkState, ForkAction) {
    (ForkState::ReadingParent, ForkAction::ReadAt { offset: PARENT_PID_OFFSET })
}

/// Whether `event` is the outcome of the action that `state` awaits.
pub open spec fn awaits(state: ForkState, event: ForkEvent) -> bool {
    match state {
        ForkState::ReadingParent => event is Read,
        ForkState::ReadingChild { .. } => event is Read,
        ForkState::ReportingError { .. } => event is Done,
        ForkState::LoggingDummy { .. } => event is Done,
        ForkState::LookingUp { .. } => event is Looked,
        ForkState::LoggingFound { .. } => event is Done,
        ForkState::Updating { .. } => event is Updated,
        ForkState::Printing => event is Done,
        ForkState::Finished => false,
    }
}

/// The exit code after a failed map update.
pub open spec fn update_failure_code(kind: ProbeKind, ret: i64) -> u32 {
    match kind {
        ProbeKind::MapDef => 0,
        _ => exit_code(Err(ret)),
    }
}

/// The step after a failed read with error `e`: the logging probe logs it first.
pub open spec fn read_failure(kind: ProbeKind, e: i64, log: ForkAction) -> (ForkState, ForkAction) {
    match kind {
        ProbeKind::Logging => (ForkState::ReportingError { code: e }, log),
        _ => (ForkState::Finished, ForkAction::Exit { code: exit_code(Err(e)) }),
    }
}

/// The update of the PID map.
pub open spec fn update_step(parent: i32, child: i32) -> (ForkState, ForkAction) {
    (ForkState::Updating { parent, child }, ForkAction::Update { key: parent, value: child, flags: 0 })
}

/// The probe's next state and action, given the outcome of its last action.
pub open spec fn fork_transition(kind: ProbeKind, state: ForkState, event: ForkEvent) -> (
    ForkState,
    ForkAction,
) {
    match (state, event) {
        (ForkState::ReadingParent, ForkEvent::Read(Ok(parent))) => (
            ForkState::ReadingChild { parent },
            ForkAction::ReadAt { offset: CHILD_PID_OFFSET },
        ),
        (ForkState::ReadingParent, ForkEvent::Read(Err(e))) => read_failure(
            kind,
            e,
            ForkAction::LogErrorCode { code: e },
        ),
        (ForkState::ReadingChild { parent }, ForkEvent::Read(Ok(child))) => match kind {
            ProbeKind::Logging => (
                ForkState::LoggingDummy { parent, child },
                ForkAction::LogDummy { a: 0 },
            ),
            _ => update_step(parent, child),
        },
        (ForkState::ReadingChild { .. }, ForkEvent::Read(Err(e))) => read_failure(
            kind,
            e,
            ForkAction::LogError { code: e },
        ),
        (ForkState::ReportingError { code }, _) => (
            ForkState::Finished,
            ForkAction::Exit { code: exit_code(Err(code)) },
        ),
        (ForkState::LoggingDummy { parent, child }, _) => (
            ForkState::LookingUp { parent, child },
            ForkAction::LookupDummy { key: parent },
        ),
        (ForkState::LookingUp { parent, child }, ForkEvent::Looked(Some(a))) => (
            ForkState::LoggingFound { parent, child },
            ForkAction::LogDummy { a },
        ),
        (ForkState::LookingUp { parent, child }, _) => update_step(parent, child),
        (ForkState::LoggingFound { parent, child }, _) => update_step(parent, child),
        (ForkState::Updating { parent, child }, ForkEvent::Updated(ret)) => if ret == 0 {
            match kind {
                ProbeKind::Logging => (ForkState::Finished, ForkAction::Exit { code: exit_code(Ok(0)) }),
                _ => (ForkState::Printing, ForkAction::PrintPids { parent, child }),
            }
        } else {
            (ForkState::Finished, ForkAction::Exit { code: update_failure_code(kind, ret) })
        },
        (ForkState::Printing, _) => (ForkState::Finished, ForkAction::Exit { code: exit_code(Ok(0)) }),
        _ => (ForkState::Finished, ForkAction::Exit { code: 0 }),
    }
}

/// Whether `event` is the outcome of the action that `state` awaits.
pub fn accepts(state: &ForkState, event: &ForkEvent) -> (b: bool)
    ensures
        b == awaits(*state, *event),
{
    match state {
        ForkState::ReadingParent => matches!(event, ForkEvent::Read(_)),
        ForkState::ReadingChild { .. } => matches!(event, ForkEvent::Read(_)),
        ForkState::ReportingError { .. } => matches!(event, ForkEvent::Done),
        ForkState::LoggingDummy { .. } => matches!(event, ForkEvent::Done),
        ForkState::LookingUp { .. } => matches!(event, ForkEvent::Looked(_)),
        ForkState::LoggingFound { .. } => matches!(event, ForkEvent::Done),
        ForkState::Updating { .. } => matches!(event, ForkEvent::Updated(_)),
        ForkState::Printing => matches!(event, ForkEvent::Done),
        ForkState::Finished => false,
    }
}

/// Starts the probe.
pub fn fork_start() -> (r: (ForkState, ForkAction))
    ensures
        r == fork_begin(),
{
    (ForkState::ReadingParent, ForkAction::ReadAt { offset: PARENT_PID_OFFSET })
}

/// Takes the outcome of the probe's last action and gives its next state and
/// action.
pub fn fork_step(kind: ProbeKind, state: ForkState, event: ForkEvent) -> (r: (
    ForkState,
    ForkAction,
))
    requires
        awaits(state, event),
    ensures
        r == fork_transition(kind, state, event),
{
    match state {
        ForkState::ReadingParent | ForkState::ReadingChild { .. } => match event {
            ForkEvent::Read(Ok(v)) => match state {
                ForkState::ReadingChild { parent } => match kind {
                    ProbeKind::Logging => (
                        ForkState::LoggingDummy { parent, child: v },
                        ForkAction::LogDummy { a: 0 },
                    ),
                    _ => (
                        ForkState::Updating { parent, child: v },
                        ForkAction::Update { key: parent, value: v, flags: 0 },
                    ),
                },
                _ => (
                    ForkState::ReadingChild { parent: v },
                    ForkAction::ReadAt { offset: CHILD_PID_OFFSET },
                ),
            },
            ForkEvent::Read(Err(e)) => match kind {
                ProbeKind::Logging => {
                    let log = match state {
                        ForkState::ReadingParent => ForkAction::LogErrorCode { code: e },
                        _ => ForkAction::LogError { code: e },
                    };
                    (ForkState::ReportingError { code: e }, log)
                },
                _ => (ForkState::Finished, ForkAction::Exit { code: fork(Err(e)) }),
            },
            _ => (ForkState::Finished, ForkAction::Exit { code: 0 }),
        },
        ForkState::ReportingError { code } => (
            ForkState::Finished,
            ForkAction::Exit { code: fork(Err(code)) },
        ),
        ForkState::LoggingDummy { parent, child } => (
            ForkState::LookingUp { parent, child },
            ForkAction::LookupDummy { key: parent },
        ),
        ForkState::LookingUp { parent, child } => match event {
            ForkEvent::Looked(Some(a)) => (
                ForkState::LoggingFound { parent, child },
                ForkAction::LogDummy { a },
            ),
            _ => (
                ForkState::Updating { parent, child },
                ForkAction::Update { key: parent, value: child, flags: 0 },
            ),
        },
        ForkState::LoggingFound { parent, child } => (
            ForkState::Updating { parent, child },
            ForkAction::Update { key: parent, value: child, flags: 0 },
        ),
        ForkState::Updating { parent, child } => match event {
            ForkEvent::Updated(ret) => if ret == 0 {
                match kind {
                    ProbeKind::Logging => (ForkState::Finished, ForkAction::Exit { code: fork(Ok(0)) }),
                    _ => (ForkState::Printing, ForkAction::PrintPids { parent, child }),
                }
            } else {
                let code = match kind {
                    ProbeKind::MapDef => 0,
                    _ => fork(Err(ret)),
                };
                (ForkState::Finished, ForkAction::Exit { code })
            },
            _ => (ForkState::Finished, ForkAction::Exit { code: 0 }),
        },
        ForkState::Printing => (ForkState::Finished, ForkAction::Exit { code: fork(Ok(0)) }),
        ForkState::Finished => (ForkState::Finished, ForkAction::Exit { code: 0 }),
    }
}

/// The result of the probe's work, reads and update given: the first failed read's
/// error, else the update's failure, else success with 0.
pub open spec fn fork_work(kind: ProbeKind, parent: Result<i32, i64>, child: Result<i32, i64>, update: i64) -> Result<u32, i64> {
    match parent {
        Err(e) => Err(e),
        Ok(_) => match child {
            Err(e) => Err(e),
            Ok(_) => if update == 0 {
                Ok(0)
            } else {
                match kind {
                    ProbeKind::MapDef => Err(0),
                    _ => Err(update),
                }
            },
        },
    }
}

/// The actions of the probe, in order, whose parent read gives `parent`, whose
/// child read gives `child`, whose dummy lookup finds `dummy` and whose map update
/// returns `update`.
pub open spec fn try_fork_actions(kind: ProbeKind, parent: Result<i32, i64>, child: Result<i32, i64>, dummy: Option<u32>, update: i64) -> Seq<ForkAction> {
    let exit = ForkAction::Exit { code: exit_code(fork_work(kind, parent, child, update)) };
    let read_parent = ForkAction::ReadAt { offset: PARENT_PID_OFFSET };
    let read_child = ForkAction::ReadAt { offset: CHILD_PID_OFFSET };
    match parent {
        Err(e) => if kind == ProbeKind::Logging {
            seq![read_parent, ForkAction::LogErrorCode { code: e }, exit]
        } else {
            seq![read_parent, exit]
        },
        Ok(p) => match child {
            Err(e) => if kind == ProbeKind::Logging {
                seq![read_parent, read_child, ForkAction::LogError { code: e }, exit]
            } else {
                seq![read_parent, read_child, exit]
            },
            Ok(c) => {
                let before_update = if kind == ProbeKind::Logging {
                    seq![ForkAction::LogDummy { a: 0 }, ForkAction::LookupDummy { key: p }] + match dummy {
                        Some(a) => seq![ForkAction::LogDummy { a }],
                        None => Seq::empty(),
                    }
                } else {
                    Seq::empty()
                };
                let after_update = if update == 0 && kind != ProbeKind::Logging {
                    seq![ForkAction::PrintPids { parent: p, child: c }, exit]
                } else {
                    seq![exit]
                };
                seq![read_parent, read_child] + before_update + seq![
                    ForkAction::Update { key: p, value: c, flags: 0 },
                ] + after_update
            },
        },
    }
}

/// The event that performing `action` hands back, the helpers' outcomes given.
pub open spec fn fork_event(action: ForkAction, parent: Result<i32, i64>, child: Result<i32, i64>, dummy: Option<u32>, update: i64) -> ForkEvent {
    match action {
        ForkAction::ReadAt { offset } => if offset == PARENT_PID_OFFSET {
            ForkEvent::Read(parent)
        } else {
            ForkEvent::Read(child)
        },
        ForkAction::LookupDummy { .. } => ForkEvent::Looked(dummy),
        ForkAction::Update { .. } => ForkEvent::Updated(update),
        _ => ForkEvent::Done,
    }
}

/// The actions of the probe driven from `state` and `action` for at most `fuel`
/// further steps, each action's outcome handed back to the step function.
pub open spec fn fork_drive(kind: ProbeKind, state: ForkState, action: ForkAction, parent: Result<i32, i64>, child: Result<i32, i64>, dummy: Option<u32>, update: i64, fuel: nat) -> Seq<ForkAction>
    decreases fuel,
{
    if fuel == 0 || action is Exit {
        seq![action]
    } else {
        let (s, a) = fork_transition(kind, state, fork_event(action, parent, child, dummy, update));
        seq![action] + fork_drive(kind, s, a, parent, child, dummy, update, (fuel - 1) as nat)
    }
}

/// A whole run of the probe from its start.
pub open spec fn fork_run(kind: ProbeKind, parent: Result<i32, i64>, child: Result<i32, i64>, dummy: Option<u32>, update: i64) -> Seq<ForkAction> {
    fork_drive(kind, fork_begin().0, fork_begin().1, parent, child, dummy, update, 8)
}

/// Driving the step function from its start, each action's outcome handed back,
/// performs the probe's work in the order it is written: read the parent pid, on
/// failure (logged by the logging probe) exit with the error; read the child pid,
/// likewise; the logging probe then logs the dummy value 0, looks the parent up in
/// the dummy map and logs the entry found; store the child pid under the parent
/// pid with no flags; the printing probes print the pids after a successful
/// update; exit with the code of the outcome.
pub proof fn law_fork_run(kind: ProbeKind, parent: Result<i32, i64>, child: Result<i32, i64>, dummy: Option<u32>, update: i64)
    ensures
        fork_run(kind, parent, child, dummy, update) == try_fork_actions(kind, parent, child, dummy, update),
        fork_run(kind, parent, child, dummy, update).last() == (ForkAction::Exit {
            code: exit_code(fork_work(kind, parent, child, update)),
        }),
{
    reveal_with_fuel(fork_drive, 9);
    let run = fork_run(kind, parent, child, dummy, update);
    let want = try_fork_actions(kind, parent, child, dummy, update);
    assert(run =~= want);
}

/// A helper error in the errno range (-4095 to -1) gives the exit code 2^32 + e,
/// never 0, so the probe's exit code tells such a failure from success.
pub proof fn law_errno_exit_code(e: i64)
    requires
        -4095 <= e <= -1,
    ensures
        exit_code(Err(e)) as int == 0x1_0000_0000 + e,
        exit_code(Err(e)) != 0,
{
    assert((e as u32) == ((e + 0x1_0000_0000i64) as u32)) by (bit_vector)
        requires
            -4095 <= e <= -1,
    ;
}

/// The exit code of a success is its value; an error that fits in 32 bits is its
/// own exit code.
pub proof fn law_exit_code(v: u32, e: i64)
    ensures
        exit_code(Ok(v)) == v,
        0 <= e <= 0xffff_ffff ==> exit_code(Err(e)) == e,
{
}

} // verus!
