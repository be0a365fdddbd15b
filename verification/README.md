# aya_btf_maps

Tools around a fork tracepoint probe used to compare BTF map definitions
between Aya and libbpf, on both the eBPF and the userspace side.

- `src/` — the verified library:
  - `text.rs`: `str::trim`, `str::split_terminator` and joining, specified over
    character sequences, with the law that splitting and joining again gives the
    text back.
  - `xtask.rs`: what `xtask build-ebpf` and `xtask run` build and start — cargo
    arguments, which probes to build, the binary for a pairing of libraries, the
    runner's command line, the failure message.
  - `probe.rs`: the three fork probes as one step function (reads, error logs,
    the dummy log and lookup, the PID map update, the trace print, exit code),
    with the law that a driven run performs the probes' work in order.
  - `btf.rs`: the whole expansion of `btf_map!` as text, lexed into tokens.
  - `userspace.rs`: names and paths used by the loaders.
- `app/` — the `xtask` binary (command line, cargo, make and exec, and
  `expand-btf-map`), the argument parsing of `btf_map!`, the probes' drivers and
  the userspace loaders.
- `tests/` — tests of the library against concrete values and against std.
