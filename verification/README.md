# hyperlight_host

The host side of running specially compiled guest binaries in a lightweight
hypervisor partition (KVM or the Microsoft hypervisor on Linux), written in
Verus: the memory logic, the layout of a sandbox's memory, the loading and
relocation of PE binaries, and the decisions around running a virtual CPU are
stated in `requires` / `ensures` contracts and proved.

## Layout

- `src/` — the verified library.
  - `mem/` — offsets and pointers, guest and shared memory (modelled as byte
    sequences), the sandbox memory layout and the PEB it writes, the memory
    manager, memory regions, PE parsing and base relocations.
  - `hypervisor/` — the generic vCPU exits and what the host does about each,
    register set-up for KVM and the Microsoft hypervisor, the mapping of their
    run results to exits, and the decisions of cancelling a run.
  - `sandbox/`, `sandbox_state/` — run options, the choice of hypervisor and
    the plan of a partition, the memory manager wrapper with its stack guard,
    the preparation of a new sandbox's memory with a random stack guard,
    guest-call bookkeeping, and
    the sandbox state traits with the reset and restore between calls.
  - `seccomp.rs` — the system calls and `ioctl` requests that the thread
    running guest code may make.
- `tests/` — tests that run the library with the real outside crates.
- `app/` — ordinary Rust around the library: the KVM and MSHV drivers and the
  vCPU run loop, cancellation by signals, reading binaries from files (also
  to create a sandbox's memory from them), JSON of
  host errors, metrics, and the BPF filter built with `seccompiler`.
