# bux

Decision core of the bux micro-VM sandbox, with its behaviour stated as
contracts and proved by Verus.

- `src/` is the library. It decides; it opens no file, socket or process. Where
  a decision takes several steps with outside work in between, it is a state
  machine: the caller performs the action, hands back what happened, and is told
  what to do next.
  - Command line: `run`, `secrets`, `volume`.
  - Host runtime: `runtime`, `pipeline`, `starting`, `spawn`, `jail`,
    `shim_convert`, `state`, `vm`, `rootfs_key`.
  - Shim process: `shim`, `boot`, `crash`, `exit_info`, `watchdog`.
  - Guest agent: `exec`, `user`, `container`, `oci`, `ca_trust`.
  - Network backend: `gvproxy`, `ca`.
  - Disk images: `ext2`. Isolation: `security`.
  - Shared: `text`, `path`, `json`, `error`.
- `tests/` runs the library, with the outside crates linked.
- `app/` is ordinary Rust around the library: `bux-shim` itself, and drivers for
  the machines of the library. Its traits name what the drivers need of the rest
  of the system: database, disks, images, volumes, networks, jail and terminals.

Proof functions whose names begin with `law_` state what holds across calls.
What is trusted without proof is marked `external_body` or
`assume_specification`; each such item names the function of another crate, or
of std, that it stands for.
