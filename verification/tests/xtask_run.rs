use aya_btf_maps::xtask::{
    bin_name, bin_path, pairing_of, build_args, build_options, command_line, profile, run_failure_message,
    Architecture, Options, RunLibrary,
};

fn opts(runner: &str, release: bool, u: RunLibrary, e: RunLibrary, args: &[&str]) -> Options {
    Options {
        bpf_target: Architecture::BpfEl,
        release,
        runner: runner.to_string(),
        run_args: args.iter().map(|s| s.to_string()).collect(),
        userspace_lib: u,
        ebpf_lib: e,
    }
}

#[test]
fn bin_names_for_every_combination() {
    assert_eq!(bin_name(RunLibrary::Aya, RunLibrary::Aya), "userspace-aya-ebpf-aya");
    assert_eq!(bin_name(RunLibrary::Aya, RunLibrary::Libbpf), "userspace-aya-ebpf-libbpf");
    assert_eq!(bin_name(RunLibrary::Libbpf, RunLibrary::Aya), "userspace-libbpf-ebpf-aya");
    assert_eq!(bin_name(RunLibrary::Libbpf, RunLibrary::Libbpf), "userspace-libbpf-ebpf-libbpf");
}

#[test]
fn bin_names_are_distinct() {
    let all = [RunLibrary::Aya, RunLibrary::Libbpf];
    let mut names = Vec::new();
    for u in all {
        for e in all {
            names.push(bin_name(u, e));
        }
    }
    names.sort();
    names.dedup();
    assert_eq!(names.len(), 4);
}

#[test]
fn default_run_uses_libbpf_userspace_and_aya_ebpf() {
    let o = opts("sudo -E", false, RunLibrary::Libbpf, RunLibrary::Aya, &[]);
    assert_eq!(
        command_line(&o),
        vec!["sudo", "-E", "target/debug/userspace-libbpf-ebpf-aya"]
    );
}

#[test]
fn profiles() {
    assert_eq!(profile(false), "debug");
    assert_eq!(profile(true), "release");
}

#[test]
fn bin_path_in_each_profile() {
    assert_eq!(
        bin_path(false, RunLibrary::Aya, RunLibrary::Libbpf),
        "target/debug/userspace-aya-ebpf-libbpf"
    );
    assert_eq!(
        bin_path(true, RunLibrary::Libbpf, RunLibrary::Libbpf),
        "target/release/userspace-libbpf-ebpf-libbpf"
    );
}

#[test]
fn build_arguments() {
    assert_eq!(build_args(false), vec!["build"]);
    assert_eq!(build_args(true), vec!["build", "--release"]);
}

#[test]
fn build_options_follow_the_run() {
    let mut o = opts("sudo -E", true, RunLibrary::Aya, RunLibrary::Aya, &[]);
    o.bpf_target = Architecture::BpfEb;
    let b = build_options(&o);
    assert_eq!(b.target, Architecture::BpfEb);
    assert!(b.release);
}

#[test]
fn command_line_appends_run_args() {
    let o = opts("sudo -E", true, RunLibrary::Aya, RunLibrary::Aya, &["--foo", "bar baz"]);
    assert_eq!(
        command_line(&o),
        vec!["sudo", "-E", "target/release/userspace-aya-ebpf-aya", "--foo", "bar baz"]
    );
}

#[test]
fn command_line_trims_and_splits_the_runner_like_std() {
    for runner in ["  sudo   -E  ", "\tsudo -E\n", "env  ", " a b c ", "x"] {
        let o = opts(runner, false, RunLibrary::Libbpf, RunLibrary::Libbpf, &["z"]);
        let mut expected: Vec<String> =
            runner.trim().split_terminator(' ').map(|s| s.to_string()).collect();
        expected.push("target/debug/userspace-libbpf-ebpf-libbpf".to_string());
        expected.push("z".to_string());
        assert_eq!(command_line(&o), expected, "runner {:?}", runner);
    }
}

#[test]
fn blank_runner_starts_the_binary_itself() {
    for runner in ["", "   ", "\u{3000}\t"] {
        let o = opts(runner, false, RunLibrary::Aya, RunLibrary::Aya, &["-v"]);
        assert_eq!(command_line(&o), vec!["target/debug/userspace-aya-ebpf-aya", "-v"]);
    }
}

#[test]
fn runner_with_double_spaces_keeps_empty_words() {
    let o = opts("sudo  -E", false, RunLibrary::Aya, RunLibrary::Aya, &[]);
    assert_eq!(
        command_line(&o),
        vec!["sudo", "", "-E", "target/debug/userspace-aya-ebpf-aya"]
    );
}

#[test]
fn failure_message_quotes_the_command() {
    let cmd = vec!["sudo".to_string(), "-E".to_string(), "target/debug/x".to_string()];
    assert_eq!(run_failure_message(&cmd), "Failed to run `sudo -E target/debug/x`");
    assert_eq!(run_failure_message(&vec![]), "Failed to run ``");
}

#[test]
fn architecture_triples_round_trip() {
    for a in [Architecture::BpfEl, Architecture::BpfEb] {
        assert_eq!(Architecture::parse(a.triple()), Ok(a));
    }
    assert_eq!(Architecture::BpfEl.triple(), "bpfel-unknown-none");
    assert_eq!(Architecture::BpfEb.triple(), "bpfeb-unknown-none");
}

#[test]
fn unknown_triple_is_refused() {
    assert_eq!(Architecture::parse("x86_64-unknown-linux-gnu"), Err("invalid target".to_string()));
    assert_eq!(Architecture::parse(""), Err("invalid target".to_string()));
}

#[test]
fn binary_names_read_back_as_pairings() {
    let all = [RunLibrary::Aya, RunLibrary::Libbpf];
    for u in all {
        for e in all {
            assert_eq!(pairing_of(bin_name(u, e)), Some((u, e)));
        }
    }
    assert_eq!(pairing_of("xtask"), None);
    assert_eq!(pairing_of("userspace-aya-ebpf-ay"), None);
}
