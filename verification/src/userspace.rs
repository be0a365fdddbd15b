//! What the userspace loaders load and attach: object files, program, tracepoint
//! and map names, and how a load status is read.

use vstd::prelude::*;
use crate::xtask::{profile, profile_text, triple_text, Architecture};

verus! {

/// The name of the probe program in the object file.
pub const PROGRAM_NAME: &'static str = "fork";

/// The tracepoint category the probe attaches to.
pub const TRACEPOINT_CATEGORY: &'static str = "sched";

/// The tracepoint the probe attaches to.
pub const TRACEPOINT_NAME: &'static str = "sched_process_fork";

/// The name of the map from parent pid to child pid.
pub const PID_MAP_NAME: &'static str = "PID_MAP";

/// The object file of the C probe, built with libbpf.
pub const LIBBPF_OBJECT_PATH: &'static str = "ebpf/fork-ebpf-libbpf/fork.bpf.o";

/// The object file of the Rust probe in a profile.
pub open spec fn ebpf_object_path_text(release: bool) -> Seq<char> {
    "target/bpfel-unknown-none/"@ + profile_text(release) + "/fork"@
}

/// The object file of the Rust probe, as built in the debug or release profile.
pub fn ebpf_object_path(release: bool) -> (s: String)
    ensures
        s@ == ebpf_object_path_text(release),
{
    let mut s = String::from_str("target/bpfel-unknown-none/");
    s.append(profile(release));
    s.append("/fork");
    s
}

/// Reads the status of an object load: 0 is success, any other status is
/// handed back as the error.
pub fn load_status(res: i32) -> (r: Result<(), i32>)
    ensures
        r is Ok <==> res == 0,
        r matches Err(e) ==> e == res,
{
    if res == 0 {
        Ok(())
    } else {
        Err(res)
    }
}

/// The Rust probe's object lies where a build for the little-endian BPF target
/// puts it: under `target/`, the target's triple, then the profile (`release`
/// exactly for a release build), then `fork`.
pub proof fn law_ebpf_object_path(release: bool)
    ensures
        ebpf_object_path_text(release) == "target/"@ + triple_text(Architecture::BpfEl) + "/"@
            + (if release {
            "release"@
        } else {
            "debug"@
        }) + "/fork"@,
{
    reveal_strlit("target/");
    reveal_strlit("bpfel-unknown-none");
    reveal_strlit("/");
    reveal_strlit("release");
    reveal_strlit("debug");
    reveal_strlit("/fork");
    reveal_strlit("target/bpfel-unknown-none/");
    let p = if release { "release"@ } else { "debug"@ };
    assert(ebpf_object_path_text(release) =~= "target/"@ + triple_text(Architecture::BpfEl) + "/"@ + p + "/fork"@);
}

} // verus!
