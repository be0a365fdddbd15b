//! What the `xtask run` command builds and launches: the cargo invocations, the
//! binary that matches a choice of userspace and eBPF libraries, and the command
//! line that starts it through a runner.

use vstd::prelude::*;
use crate::text::{
    is_whitespace, join, join_strings, split_terminator, split_terminator_on, trim, trim_str,
    views, law_split_terminator_join, lemma_trim_bounds,
};

verus! {

/// A library used on one side (userspace or eBPF) of a run.
#[derive(Clone, Copy, Debug, PartialEq, Eq, Structural)]
pub enum RunLibrary {
    Aya,
    Libbpf,
}

/// The BPF target that the eBPF side is built for.
#[derive(Clone, Copy, Debug, PartialEq, Eq, Structural)]
pub enum Architecture {
    BpfEl,
    BpfEb,
}

/// The target triple that names an architecture.
pub open spec fn triple_text(a: Architecture) -> Seq<char> {
    match a {
        Architecture::BpfEl => "bpfel-unknown-none"@,
        Architecture::BpfEb => "bpfeb-unknown-none"@,
    }
}

/// The architecture named by a target triple, if any.
pub open spec fn architecture_of(t: Seq<char>) -> Option<Architecture> {
    if t == triple_text(Architecture::BpfEl) {
        Some(Architecture::BpfEl)
    } else if t == triple_text(Architecture::BpfEb) {
        Some(Architecture::BpfEb)
    } else {
        None
    }
}

impl Architecture {
    /// The target triple of this architecture.
    pub fn triple(&self) -> (s: &'static str)
        ensures
            s@ == triple_text(*self),
    {
        match self {
            Architecture::BpfEl => "bpfel-unknown-none",
            Architecture::BpfEb => "bpfeb-unknown-none",
        }
    }

    /// Reads a target triple; any other text is refused with "invalid target".
    pub fn parse(s: &str) -> (r: Result<Architecture, String>)
        ensures
            match r {
                Ok(a) => architecture_of(s@) == Some(a),
                Err(e) => architecture_of(s@) is None && e@ == "invalid target"@,
            },
    {
        let given = String::from_str(s);
        if given == String::from_str("bpfel-unknown-none") {
            Ok(Architecture::BpfEl)
        } else if given == String::from_str("bpfeb-unknown-none") {
            Ok(Architecture::BpfEb)
        } else {
            Err(String::from_str("invalid target"))
        }
    }
}

/// The two triples differ, so each architecture is read back from its own triple.
pub proof fn law_triple_parse_roundtrip(a: Architecture)
    ensures
        architecture_of(triple_text(a)) == Some(a),
{
    reveal_strlit("bpfel-unknown-none");
    reveal_strlit("bpfeb-unknown-none");
    assert("bpfel-unknown-none"@[4] != "bpfeb-unknown-none"@[4]);
}

/// The options of a run.
pub struct Options {
    /// The BPF target of the eBPF build.
    pub bpf_target: Architecture,
    /// Build and run the release profile.
    pub release: bool,
    /// The command that wraps the started binary.
    pub runner: String,
    /// Arguments handed on to the started binary.
    pub run_args: Vec<String>,
    /// The library on the userspace side.
    pub userspace_lib: RunLibrary,
    /// The library on the eBPF side.
    pub ebpf_lib: RunLibrary,
}

/// The options of the eBPF build.
pub struct BuildOptions {
    pub target: Architecture,
    pub release: bool,
}

/// The eBPF build options that a run asks for: its target and profile.
pub fn build_options(opts: &Options) -> (b: BuildOptions)
    ensures
        b.target == opts.bpf_target,
        b.release == opts.release,
{
    BuildOptions { target: opts.bpf_target, release: opts.release }
}

/// The eBPF programs that a build makes: the one asked for, else both.
pub open spec fn ebpf_libs_text(lib: Option<RunLibrary>) -> Seq<RunLibrary> {
    match lib {
        Some(l) => seq![l],
        None => seq![RunLibrary::Aya, RunLibrary::Libbpf],
    }
}

/// The eBPF programs that a build makes: the one asked for, else both.
pub fn ebpf_libs(lib: Option<RunLibrary>) -> (r: Vec<RunLibrary>)
    ensures
        r@ == ebpf_libs_text(lib),
{
    let mut r: Vec<RunLibrary> = Vec::new();
    match lib {
        Some(l) => r.push(l),
        None => {
            r.push(RunLibrary::Aya);
            r.push(RunLibrary::Libbpf);
        },
    }
    proof {
        assert(r@ =~= ebpf_libs_text(lib));
    }
    r
}

/// The directory that holds the eBPF program written with a library.
pub open spec fn ebpf_dir_text(lib: RunLibrary) -> Seq<char> {
    match lib {
        RunLibrary::Aya => "ebpf/fork-ebpf-aya"@,
        RunLibrary::Libbpf => "ebpf/fork-ebpf-libbpf"@,
    }
}

/// The directory that holds the eBPF program written with a library.
pub fn ebpf_dir(lib: RunLibrary) -> (s: &'static str)
    ensures
        s@ == ebpf_dir_text(lib),
{
    match lib {
        RunLibrary::Aya => "ebpf/fork-ebpf-aya",
        RunLibrary::Libbpf => "ebpf/fork-ebpf-libbpf",
    }
}

/// The arguments of the cargo invocation that builds the Rust eBPF program.
pub open spec fn ebpf_build_args_text(opts: BuildOptions) -> Seq<Seq<char>> {
    let base = seq![
        "+nightly"@,
        "build"@,
        "--verbose"@,
        "--target="@ + triple_text(opts.target),
        "-Z"@,
        "build-std=core"@,
    ];
    if opts.release {
        base.push("--release"@)
    } else {
        base
    }
}

/// The arguments to cargo that build the Rust eBPF program for the chosen target
/// and profile, with the nightly toolchain and `core` built from source.
pub fn ebpf_build_args(opts: &BuildOptions) -> (r: Vec<String>)
    ensures
        views(r@) == ebpf_build_args_text(*opts),
{
    let mut target = String::from_str("--target=");
    target.append(opts.target.triple());
    let mut args: Vec<String> = Vec::new();
    args.push(String::from_str("+nightly"));
    args.push(String::from_str("build"));
    args.push(String::from_str("--verbose"));
    args.push(target);
    args.push(String::from_str("-Z"));
    args.push(String::from_str("build-std=core"));
    if opts.release {
        args.push(String::from_str("--release"));
    }
    proof {
        assert(views(args@) =~= ebpf_build_args_text(*opts));
    }
    args
}

/// The arguments of the cargo invocation that builds the userspace crates.
pub open spec fn build_args_text(release: bool) -> Seq<Seq<char>> {
    if release {
        seq!["build"@, "--release"@]
    } else {
        seq!["build"@]
    }
}

/// The arguments to cargo that build the userspace crates.
pub fn build_args(release: bool) -> (r: Vec<String>)
    ensures
        views(r@) == build_args_text(release),
{
    let mut args: Vec<String> = Vec::new();
    args.push(String::from_str("build"));
    if release {
        args.push(String::from_str("--release"));
    }
    proof {
        assert(views(args@) =~= build_args_text(release));
    }
    args
}

/// The profile directory of a build.
pub open spec fn profile_text(release: bool) -> Seq<char> {
    if release {
        "release"@
    } else {
        "debug"@
    }
}

/// The profile directory of a build: `release` or `debug`.
pub fn profile(release: bool) -> (s: &'static str)
    ensures
        s@ == profile_text(release),
{
    if release {
        "release"
    } else {
        "debug"
    }
}

/// The binary that pairs a userspace library with an eBPF library.
pub open spec fn bin_name_text(userspace: RunLibrary, ebpf: RunLibrary) -> Seq<char> {
    match userspace {
        RunLibrary::Aya => match ebpf {
            RunLibrary::Aya => "userspace-aya-ebpf-aya"@,
            RunLibrary::Libbpf => "userspace-aya-ebpf-libbpf"@,
        },
        RunLibrary::Libbpf => match ebpf {
            RunLibrary::Aya => "userspace-libbpf-ebpf-aya"@,
            RunLibrary::Libbpf => "userspace-libbpf-ebpf-libbpf"@,
        },
    }
}

/// The binary that pairs a userspace library with an eBPF library.
pub fn bin_name(userspace: RunLibrary, ebpf: RunLibrary) -> (s: &'static str)
    ensures
        s@ == bin_name_text(userspace, ebpf),
{
    match userspace {
        RunLibrary::Aya => match ebpf {
            RunLibrary::Aya => "userspace-aya-ebpf-aya",
            RunLibrary::Libbpf => "userspace-aya-ebpf-libbpf",
        },
        RunLibrary::Libbpf => match ebpf {
            RunLibrary::Aya => "userspace-libbpf-ebpf-aya",
            RunLibrary::Libbpf => "userspace-libbpf-ebpf-libbpf",
        },
    }
}

/// Each pair of libraries has a binary of its own.
pub proof fn law_bin_name_distinct(u1: RunLibrary, e1: RunLibrary, u2: RunLibrary, e2: RunLibrary)
    ensures
        bin_name_text(u1, e1) == bin_name_text(u2, e2) <==> (u1 == u2 && e1 == e2),
{
    reveal_strlit("userspace-aya-ebpf-aya");
    reveal_strlit("userspace-aya-ebpf-libbpf");
    reveal_strlit("userspace-libbpf-ebpf-aya");
    reveal_strlit("userspace-libbpf-ebpf-libbpf");
    if bin_name_text(u1, e1) == bin_name_text(u2, e2) {
        let t = bin_name_text(u1, e1);
        let t2 = bin_name_text(u2, e2);
        assert(t.len() == t2.len());
        assert(t[11] == t2[11]);
        assert(t[20] == t2[20]);
    }
}

/// The pair of libraries whose binary has the name `t`, if any.
pub open spec fn pairing_of_text(t: Seq<char>) -> Option<(RunLibrary, RunLibrary)> {
    if t == bin_name_text(RunLibrary::Aya, RunLibrary::Aya) {
        Some((RunLibrary::Aya, RunLibrary::Aya))
    } else if t == bin_name_text(RunLibrary::Aya, RunLibrary::Libbpf) {
        Some((RunLibrary::Aya, RunLibrary::Libbpf))
    } else if t == bin_name_text(RunLibrary::Libbpf, RunLibrary::Aya) {
        Some((RunLibrary::Libbpf, RunLibrary::Aya))
    } else if t == bin_name_text(RunLibrary::Libbpf, RunLibrary::Libbpf) {
        Some((RunLibrary::Libbpf, RunLibrary::Libbpf))
    } else {
        None
    }
}

/// The pair of libraries whose binary has the name `name`, if any: the userspace
/// library first.
pub fn pairing_of(name: &str) -> (r: Option<(RunLibrary, RunLibrary)>)
    ensures
        r == pairing_of_text(name@),
{
    let given = String::from_str(name);
    if given == String::from_str(bin_name(RunLibrary::Aya, RunLibrary::Aya)) {
        Some((RunLibrary::Aya, RunLibrary::Aya))
    } else if given == String::from_str(bin_name(RunLibrary::Aya, RunLibrary::Libbpf)) {
        Some((RunLibrary::Aya, RunLibrary::Libbpf))
    } else if given == String::from_str(bin_name(RunLibrary::Libbpf, RunLibrary::Aya)) {
        Some((RunLibrary::Libbpf, RunLibrary::Aya))
    } else if given == String::from_str(bin_name(RunLibrary::Libbpf, RunLibrary::Libbpf)) {
        Some((RunLibrary::Libbpf, RunLibrary::Libbpf))
    } else {
        None
    }
}

/// Each binary's name is read back as the pair of libraries it was made for.
pub proof fn law_pairing_of_bin_name(u: RunLibrary, e: RunLibrary)
    ensures
        pairing_of_text(bin_name_text(u, e)) == Some((u, e)),
{
    law_bin_name_distinct(u, e, RunLibrary::Aya, RunLibrary::Aya);
    law_bin_name_distinct(u, e, RunLibrary::Aya, RunLibrary::Libbpf);
    law_bin_name_distinct(u, e, RunLibrary::Libbpf, RunLibrary::Aya);
    law_bin_name_distinct(u, e, RunLibrary::Libbpf, RunLibrary::Libbpf);
}

/// The path of the binary that a run starts.
pub open spec fn bin_path_text(release: bool, userspace: RunLibrary, ebpf: RunLibrary) -> Seq<
    char,
> {
    "target/"@ + profile_text(release) + "/"@ + bin_name_text(userspace, ebpf)
}

/// The path of the binary that pairs the two libraries, in the chosen profile.
pub fn bin_path(release: bool, userspace: RunLibrary, ebpf: RunLibrary) -> (s: String)
    ensures
        s@ == bin_path_text(release, userspace, ebpf),
{
    let mut s = String::from_str("target/");
    s.append(profile(release));
    s.append("/");
    s.append(bin_name(userspace, ebpf));
    s
}

/// The words of a runner: the runner with surrounding whitespace removed, cut at
/// each space, with no empty last word.
pub open spec fn runner_words(runner: Seq<char>) -> Seq<Seq<char>> {
    split_terminator_on(trim(runner), ' ')
}

/// The command line that a run starts: the runner's words, the binary's path, then
/// the arguments handed on.
pub open spec fn command_line_text(opts: Options) -> Seq<Seq<char>> {
    runner_words(opts.runner@) + seq![bin_path_text(opts.release, opts.userspace_lib, opts.ebpf_lib)]
        + views(opts.run_args@)
}

/// The command line that a run starts. It is never empty: its first word is the
/// program to start, the runner's first word or, for a blank runner, the binary.
pub fn command_line(opts: &Options) -> (r: Vec<String>)
    ensures
        views(r@) == command_line_text(*opts),
        r@.len() >= 1,
{
    let mut args = split_terminator(trim_str(opts.runner.as_str()), ' ');
    let ghost words = views(args@);
    let path = bin_path(opts.release, opts.userspace_lib, opts.ebpf_lib);
    args.push(path);
    let ghost with_path = views(args@);
    proof {
        assert(with_path =~= words.push(bin_path_text(opts.release, opts.userspace_lib, opts.ebpf_lib)));
    }
    let n = opts.run_args.len();
    let mut i: usize = 0;
    while i < n
        invariant
            n == opts.run_args@.len(),
            i <= n,
            views(args@) == with_path + views(opts.run_args@).take(i as int),
        decreases n - i,
    {
        let ghost before = args@;
        args.push(opts.run_args[i].clone());
        proof {
            assert(views(args@) =~= views(before).push(opts.run_args@[i as int]@));
            assert(views(opts.run_args@).take(i as int + 1) =~= views(opts.run_args@).take(
                i as int,
            ).push(opts.run_args@[i as int]@));
            assert(views(args@) =~= with_path + views(opts.run_args@).take(i as int + 1));
        }
        i = i + 1;
    }
    proof {
        assert(views(opts.run_args@).take(n as int) =~= views(opts.run_args@));
        assert(views(args@) =~= command_line_text(*opts));
    }
    args
}

/// The runner's words, joined again with single spaces, give back the runner
/// without its surrounding whitespace, and no word holds a space.
pub proof fn law_runner_words_rejoin(runner: Seq<char>)
    ensures
        join(runner_words(runner), seq![' ']) == trim(runner),
        forall|i: int|
            0 <= i < runner_words(runner).len() ==> !(#[trigger] runner_words(runner)[i]).contains(
                ' ',
            ),
{
    lemma_trim_bounds(runner);
    assert(is_whitespace(' '));
    law_split_terminator_join(trim(runner), ' ');
}

/// The message of a run whose command could not be started.
pub open spec fn run_failure_text(cmd: Seq<Seq<char>>) -> Seq<char> {
    "Failed to run `"@ + join(cmd, " "@) + "`"@
}

/// The message of a run whose command could not be started: the command, its
/// words joined with spaces, between backquotes.
pub fn run_failure_message(cmd: &Vec<String>) -> (s: String)
    ensures
        s@ == run_failure_text(views(cmd@)),
{
    let mut s = String::from_str("Failed to run `");
    let joined = join_strings(cmd, " ");
    s.append(joined.as_str());
    s.append("`");
    s
}

/// A cargo build of the Rust eBPF program uses the nightly toolchain's `build`,
/// builds `core` from source, names the chosen target's triple, and asks for the
/// release profile exactly when the options do.
pub proof fn law_ebpf_build_args(opts: BuildOptions)
    ensures
        ebpf_build_args_text(opts)[0] == "+nightly"@,
        ebpf_build_args_text(opts)[1] == "build"@,
        ebpf_build_args_text(opts).contains("--target="@ + triple_text(opts.target)),
        ebpf_build_args_text(opts).contains("-Z"@),
        ebpf_build_args_text(opts).contains("build-std=core"@),
        ebpf_build_args_text(opts).contains("--release"@) <==> opts.release,
{
    let args = ebpf_build_args_text(opts);
    reveal_strlit("+nightly");
    reveal_strlit("build");
    reveal_strlit("--verbose");
    reveal_strlit("--target=");
    reveal_strlit("-Z");
    reveal_strlit("build-std=core");
    reveal_strlit("--release");
    assert(args[3] == "--target="@ + triple_text(opts.target));
    assert(args[4] == "-Z"@);
    assert(args[5] == "build-std=core"@);
    if opts.release {
        assert(args[6] == "--release"@);
    } else {
        assert forall|i: int| 0 <= i < args.len() implies args[i] != "--release"@ by {
            if i == 3 {
                assert(args[3][2] != "--release"@[2] || args[3].len() != "--release"@.len());
            } else {
                assert(args[i].len() != "--release"@.len() || args[i][2] != "--release"@[2]);
            }
        }
    }
}

/// A cargo build of the userspace crates is a `build`, in the release profile
/// exactly when asked.
pub proof fn law_build_args(release: bool)
    ensures
        build_args_text(release)[0] == "build"@,
        build_args_text(release).contains("--release"@) <==> release,
{
    reveal_strlit("build");
    reveal_strlit("--release");
    let args = build_args_text(release);
    if release {
        assert(args[1] == "--release"@);
    } else {
        assert(args.len() == 1);
        assert(args[0].len() != "--release"@.len());
    }
}

/// With no library asked for, both eBPF programs are built, once each; with one
/// asked for, only that one.
pub proof fn law_ebpf_libs(lib: Option<RunLibrary>)
    ensures
        lib is None ==> ebpf_libs_text(lib).len() == 2 && ebpf_libs_text(lib).contains(
            RunLibrary::Aya,
        ) && ebpf_libs_text(lib).contains(RunLibrary::Libbpf),
        lib matches Some(l) ==> ebpf_libs_text(lib) == seq![l],
{
    if lib is None {
        assert(ebpf_libs_text(lib)[0] == RunLibrary::Aya);
        assert(ebpf_libs_text(lib)[1] == RunLibrary::Libbpf);
    }
}

/// The binary of a pairing lies in the profile's directory under `target`: the
/// release directory exactly for a release run, whatever the pairing, and its name
/// is `userspace-`, the userspace library, `-ebpf-`, the eBPF library.
pub proof fn law_bin_path(release: bool, userspace: RunLibrary, ebpf: RunLibrary)
    ensures
        bin_path_text(release, userspace, ebpf) == "target/"@ + (if release {
            "release"@
        } else {
            "debug"@
        }) + "/"@ + bin_name_text(userspace, ebpf),
        bin_name_text(userspace, ebpf) == "userspace-"@ + (if userspace == RunLibrary::Aya {
            "aya"@
        } else {
            "libbpf"@
        }) + "-ebpf-"@ + (if ebpf == RunLibrary::Aya {
            "aya"@
        } else {
            "libbpf"@
        }),
{
    reveal_strlit("userspace-");
    reveal_strlit("-ebpf-");
    reveal_strlit("aya");
    reveal_strlit("libbpf");
    reveal_strlit("userspace-aya-ebpf-aya");
    reveal_strlit("userspace-aya-ebpf-libbpf");
    reveal_strlit("userspace-libbpf-ebpf-aya");
    reveal_strlit("userspace-libbpf-ebpf-libbpf");
    let u = if userspace == RunLibrary::Aya { "aya"@ } else { "libbpf"@ };
    let e = if ebpf == RunLibrary::Aya { "aya"@ } else { "libbpf"@ };
    assert(bin_name_text(userspace, ebpf) =~= "userspace-"@ + u + "-ebpf-"@ + e);
}

/// A target's triple is `bpf`, its byte order (`el` little, `eb` big), then
/// `-unknown-none`.
pub proof fn law_triple_text(a: Architecture)
    ensures
        triple_text(a) == "bpf"@ + (if a == Architecture::BpfEl {
            "el"@
        } else {
            "eb"@
        }) + "-unknown-none"@,
{
    reveal_strlit("bpf");
    reveal_strlit("el");
    reveal_strlit("eb");
    reveal_strlit("-unknown-none");
    reveal_strlit("bpfel-unknown-none");
    reveal_strlit("bpfeb-unknown-none");
    let o = if a == Architecture::BpfEl { "el"@ } else { "eb"@ };
    assert(triple_text(a) =~= "bpf"@ + o + "-unknown-none"@);
}

/// A run's command line: the runner's words, each in its place, then the binary's
/// path, then each argument handed on, in its place.
pub proof fn law_command_line_layout(opts: Options)
    ensures
        ({
            let c = command_line_text(opts);
            let w = runner_words(opts.runner@);
            &&& c.len() == w.len() + 1 + opts.run_args@.len()
            &&& forall|i: int| 0 <= i < w.len() ==> c[i] == w[i]
            &&& c[w.len() as int] == bin_path_text(opts.release, opts.userspace_lib, opts.ebpf_lib)
            &&& forall|j: int|
                0 <= j < opts.run_args@.len() ==> c[w.len() + 1 + j] == opts.run_args@[j]@
        }),
{
    let c = command_line_text(opts);
    let w = runner_words(opts.runner@);
    assert forall|j: int| 0 <= j < opts.run_args@.len() implies c[w.len() + 1 + j]
        == opts.run_args@[j]@ by {
        assert(views(opts.run_args@)[j] == opts.run_args@[j]@);
    }
}

/// The failure message is the command's words joined with single spaces, between
/// "Failed to run `" and "`".
pub proof fn law_run_failure_text(cmd: Seq<Seq<char>>)
    ensures
        ({
            let m = run_failure_text(cmd);
            let p = "Failed to run `"@;
            &&& m.take(p.len() as int) == p
            &&& m.last() == '`'
            &&& m.subrange(p.len() as int, m.len() - 1) == join(cmd, seq![' '])
        }),
{
    reveal_strlit(" ");
    reveal_strlit("`");
    let m = run_failure_text(cmd);
    let p = "Failed to run `"@;
    assert(m.take(p.len() as int) =~= p);
    assert(" "@ =~= seq![' ']);
    assert(m.subrange(p.len() as int, m.len() - 1) =~= join(cmd, " "@));
}

/// A text is read as an architecture only when it is that architecture's triple.
pub proof fn law_architecture_of_only_triples(t: Seq<char>)
    ensures
        architecture_of(t) matches Some(a) ==> t == triple_text(a),
{
}

/// A name is read as a pairing only when it is that pairing's binary's name.
pub proof fn law_pairing_of_only_bin_names(t: Seq<char>)
    ensures
        pairing_of_text(t) matches Some((u, e)) ==> t == bin_name_text(u, e),
{
}

/// Each eBPF program lives in `ebpf/fork-ebpf-` followed by its library's name.
pub proof fn law_ebpf_dir(lib: RunLibrary)
    ensures
        ebpf_dir_text(lib) == "ebpf/fork-ebpf-"@ + (if lib == RunLibrary::Aya {
            "aya"@
        } else {
            "libbpf"@
        }),
{
    reveal_strlit("ebpf/fork-ebpf-");
    reveal_strlit("aya");
    reveal_strlit("libbpf");
    reveal_strlit("ebpf/fork-ebpf-aya");
    reveal_strlit("ebpf/fork-ebpf-libbpf");
    let w = if lib == RunLibrary::Aya { "aya"@ } else { "libbpf"@ };
    assert(ebpf_dir_text(lib) =~= "ebpf/fork-ebpf-"@ + w);
}

} // verus!
