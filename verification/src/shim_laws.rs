//! What libkrun is told of a machine: every setting of its configuration, once,
//! as it is, and in order.

use vstd::prelude::*;
use crate::shim::{
    config_ops, config_reject, device_ops, environment_ops, exec_ops, if_set, machine_ops,
    network_ops, rlimit_ops, root_ops, share_ops, vsock_ops, KrunOp, ShimConfig, ShimNetwork,
};
use crate::shim_convert;
use crate::state::VmConfig;
use crate::text;

verus! {

/// Place of a call in the order in which a context is configured.
pub open spec fn place(op: KrunOp) -> int {
    match op {
        KrunOp::SetLogLevel(_) => 0,
        KrunOp::SetVmConfig(_, _) => 1,
        KrunOp::SetRoot(_) => 2,
        KrunOp::AddDisk(_, _, _, _) => 3,
        KrunOp::SetRootDiskRemount(_, _, _) => 4,
        KrunOp::AddVirtioFs(_, _) => 5,
        KrunOp::AddNetUnixStream(_, _) => 6,
        KrunOp::AddNetUnixGram(_, _) => 7,
        KrunOp::SetPortMap(_) => 8,
        KrunOp::SetWorkdir(_) => 9,
        KrunOp::SetExec(_, _, _) => 10,
        KrunOp::SetEnv(_) => 11,
        KrunOp::SetUid(_) => 12,
        KrunOp::SetGid(_) => 13,
        KrunOp::SetRlimits(_) => 14,
        KrunOp::SetNestedVirt(_) => 15,
        KrunOp::SetSndDevice(_) => 16,
        KrunOp::SetConsoleOutput(_) => 17,
        KrunOp::AddVsockPort(_, _, _) => 18,
    }
}

/// A place is that of one kind of call and of no other.
pub proof fn law_places_are_those_of_kinds(op: KrunOp)
    ensures
        op is SetLogLevel <==> place(op) == 0,
        op is SetVmConfig <==> place(op) == 1,
        op is SetRoot <==> place(op) == 2,
        op is AddDisk <==> place(op) == 3,
        op is SetRootDiskRemount <==> place(op) == 4,
        op is AddVirtioFs <==> place(op) == 5,
        op is AddNetUnixStream <==> place(op) == 6,
        op is AddNetUnixGram <==> place(op) == 7,
        op is SetPortMap <==> place(op) == 8,
        op is SetWorkdir <==> place(op) == 9,
        op is SetExec <==> place(op) == 10,
        op is SetEnv <==> place(op) == 11,
        op is SetUid <==> place(op) == 12,
        op is SetGid <==> place(op) == 13,
        op is SetRlimits <==> place(op) == 14,
        op is SetNestedVirt <==> place(op) == 15,
        op is SetSndDevice <==> place(op) == 16,
        op is SetConsoleOutput <==> place(op) == 17,
        op is AddVsockPort <==> place(op) == 18,
{
}

/// The calls that have the place `k`, in order.
pub open spec fn at_place(calls: Seq<KrunOp>, k: int) -> Seq<KrunOp> {
    calls.filter(|op: KrunOp| place(op) == k)
}

proof fn lemma_at_place_sum(a: Seq<KrunOp>, b: Seq<KrunOp>, k: int)
    ensures
        at_place(a + b, k) == at_place(a, k) + at_place(b, k),
{
    Seq::filter_distributes_over_add(a, b, |op: KrunOp| place(op) == k);
}

/// Calls that all have one place.
proof fn lemma_at_place_all(p: Seq<KrunOp>, at: int, k: int)
    requires
        forall|i: int| 0 <= i < p.len() ==> place(#[trigger] p[i]) == at,
    ensures
        at_place(p, k) == (if k == at {
            p
        } else {
            seq![]
        }),
    decreases p.len(),
{
    reveal(Seq::filter);
    if p.len() > 0 {
        let before = p.drop_last();
        assert forall|i: int| 0 <= i < before.len() implies place(#[trigger] before[i]) == at by {
            assert(before[i] == p[i]);
        }
        lemma_at_place_all(before, at, k);
        assert(place(p[p.len() - 1]) == at);
        assert(p =~= before.push(p.last()));
    } else {
        assert(p =~= seq![]);
    }
}

/// Whether a configuration says what to boot from, once.
pub open spec fn bootable(cfg: ShimConfig) -> bool {
    cfg.rootfs is Some != cfg.root_disk is Some
}

/// Whether calls come in order of their places.
pub open spec fn in_order(calls: Seq<KrunOp>) -> bool {
    forall|i: int, j: int|
        0 <= i < j < calls.len() ==> place(#[trigger] calls[i]) <= place(#[trigger] calls[j])
}

/// Whether the places of calls lie within bounds.
spec fn between(calls: Seq<KrunOp>, lo: int, hi: int) -> bool {
    forall|i: int| 0 <= i < calls.len() ==> lo <= #[trigger] place(calls[i]) <= hi
}

proof fn lemma_order_sum(a: Seq<KrunOp>, b: Seq<KrunOp>, lo: int, mid: int, next: int, hi: int)
    requires
        in_order(a),
        in_order(b),
        between(a, lo, mid),
        between(b, next, hi),
        lo <= next,
        mid <= next,
        mid <= hi,
    ensures
        in_order(a + b),
        between(a + b, lo, hi),
{
    let c = a + b;
    assert forall|i: int| 0 <= i < c.len() implies lo <= #[trigger] place(c[i]) <= hi by {
        if i < a.len() {
            assert(place(a[i]) <= mid);
        } else {
            assert(next <= place(b[i - a.len()]));
        }
    }
    assert forall|i: int, j: int| 0 <= i < j < c.len() implies place(#[trigger] c[i]) <= place(
        #[trigger] c[j],
    ) by {
        if j < a.len() {
            assert(place(a[i]) <= place(a[j]));
        } else if i >= a.len() {
            assert(place(b[i - a.len()]) <= place(b[j - a.len()]));
        } else {
            assert(place(a[i]) <= mid);
            assert(next <= place(b[j - a.len()]));
        }
    }
}

/// The calls of the place `k` that a configuration with something to boot from
/// comes to.
#[verifier::opaque]
spec fn piece(cfg: ShimConfig, k: int) -> Seq<KrunOp> {
    if k == 0 {
        if cfg.log_level is Some {
            seq![KrunOp::SetLogLevel(cfg.log_level->0)]
        } else {
            seq![]
        }
    } else if k == 1 {
        seq![KrunOp::SetVmConfig(cfg.vcpus, cfg.ram_mib)]
    } else if k == 2 {
        if cfg.rootfs is Some {
            seq![KrunOp::SetRoot(cfg.rootfs->0@)]
        } else {
            seq![]
        }
    } else if k == 3 {
        if cfg.root_disk is Some {
            seq![KrunOp::AddDisk("rootfs"@, cfg.root_disk->0@, cfg.disk_format, false)]
        } else {
            seq![]
        }
    } else if k == 4 {
        if cfg.root_disk is Some {
            seq![KrunOp::SetRootDiskRemount("/dev/vda"@, Some("ext4"@), None)]
        } else {
            seq![]
        }
    } else if k == 5 {
        Seq::new(
            cfg.virtiofs@.len(),
            |i: int| KrunOp::AddVirtioFs(cfg.virtiofs@[i].tag@, cfg.virtiofs@[i].path@),
        )
    } else if k == 6 {
        if cfg.network is Some && cfg.network->0.connection is UnixStream {
            seq![KrunOp::AddNetUnixStream(cfg.network->0.socket_path@, cfg.network->0.mac)]
        } else {
            seq![]
        }
    } else if k == 7 {
        if cfg.network is Some && cfg.network->0.connection is UnixDgram {
            seq![KrunOp::AddNetUnixGram(cfg.network->0.socket_path@, cfg.network->0.mac)]
        } else {
            seq![]
        }
    } else if k == 8 {
        if cfg.network is None && cfg.ports@.len() > 0 {
            seq![KrunOp::SetPortMap(text::views(cfg.ports@))]
        } else {
            seq![]
        }
    } else if k == 9 {
        if cfg.workdir is Some {
            seq![KrunOp::SetWorkdir(cfg.workdir->0@)]
        } else {
            seq![]
        }
    } else if k == 10 {
        if cfg.exec_path is Some {
            seq![KrunOp::SetExec(
                    cfg.exec_path->0@,
                    text::views(cfg.exec_args@),
                    text::opt_views(cfg.env),
                )]
        } else {
            seq![]
        }
    } else if k == 11 {
        if cfg.exec_path is None && cfg.env is Some {
            seq![KrunOp::SetEnv(text::views(cfg.env->0@))]
        } else {
            seq![]
        }
    } else if k == 12 {
        if cfg.uid is Some {
            seq![KrunOp::SetUid(cfg.uid->0)]
        } else {
            seq![]
        }
    } else if k == 13 {
        if cfg.gid is Some {
            seq![KrunOp::SetGid(cfg.gid->0)]
        } else {
            seq![]
        }
    } else if k == 14 {
        if cfg.rlimits@.len() > 0 {
            seq![KrunOp::SetRlimits(text::views(cfg.rlimits@))]
        } else {
            seq![]
        }
    } else if k == 15 {
        if cfg.nested_virt is Some {
            seq![KrunOp::SetNestedVirt(cfg.nested_virt->0)]
        } else {
            seq![]
        }
    } else if k == 16 {
        if cfg.snd_device is Some {
            seq![KrunOp::SetSndDevice(cfg.snd_device->0)]
        } else {
            seq![]
        }
    } else if k == 17 {
        if cfg.console_output is Some {
            seq![KrunOp::SetConsoleOutput(cfg.console_output->0@)]
        } else {
            seq![]
        }
    } else if k == 18 {
        Seq::new(
            cfg.vsock_ports@.len(),
            |i: int|
                KrunOp::AddVsockPort(
                    cfg.vsock_ports@[i].port,
                    cfg.vsock_ports@[i].path@,
                    cfg.vsock_ports@[i].listen,
                ),
        )
    } else {
        seq![]
    }
}

proof fn lemma_piece_place(cfg: ShimConfig, k: int)
    ensures
        forall|i: int| 0 <= i < piece(cfg, k).len() ==> place(#[trigger] piece(cfg, k)[i]) == k,
{
    reveal(piece);
}

/// The calls of the places below `n`.
spec fn below(cfg: ShimConfig, n: nat) -> Seq<KrunOp>
    decreases n,
{
    if n == 0 {
        seq![]
    } else {
        below(cfg, (n - 1) as nat) + piece(cfg, n - 1)
    }
}

proof fn lemma_below(cfg: ShimConfig, n: nat, k: int)
    requires
        k >= 0,
    ensures
        at_place(below(cfg, n), k) == (if k < n {
            piece(cfg, k)
        } else {
            seq![]
        }),
        in_order(below(cfg, n)),
        between(below(cfg, n), 0, n - 1),
    decreases n,
{
    if n > 0 {
        let a = below(cfg, (n - 1) as nat);
        let b = piece(cfg, n - 1);
        lemma_below(cfg, (n - 1) as nat, k);
        lemma_piece_place(cfg, n - 1);
        lemma_at_place_sum(a, b, k);
        lemma_at_place_all(b, n - 1, k);
        assert(a + Seq::<KrunOp>::empty() =~= a);
        assert(at_place(below(cfg, n), k) =~= (if k < n {
            piece(cfg, k)
        } else {
            seq![]
        }));
        assert(in_order(b));
        assert(between(b, n - 1, n - 1));
        lemma_order_sum(a, b, 0, n - 2, n - 1, n - 1);
    } else {
        lemma_at_place_all(below(cfg, n), 0, k);
    }
}

proof fn lemma_machine(cfg: ShimConfig)
    ensures
        machine_ops(cfg) == below(cfg, 2),
{
    reveal(piece);
    reveal_with_fuel(below, 3);
    assert(machine_ops(cfg) =~= below(cfg, 2));
}

proof fn lemma_root(cfg: ShimConfig)
    requires
        bootable(cfg),
    ensures
        root_ops(cfg) is Ok,
        root_ops(cfg)->Ok_0 == piece(cfg, 2) + piece(cfg, 3) + piece(cfg, 4),
{
    reveal(piece);
    assert(root_ops(cfg)->Ok_0 =~= piece(cfg, 2) + piece(cfg, 3) + piece(cfg, 4));
}

proof fn lemma_network(cfg: ShimConfig)
    ensures
        share_ops(cfg.virtiofs@) == piece(cfg, 5),
        network_ops(cfg) == piece(cfg, 6) + piece(cfg, 7) + piece(cfg, 8),
{
    reveal(piece);
    assert(share_ops(cfg.virtiofs@) =~= piece(cfg, 5));
    assert(network_ops(cfg) =~= piece(cfg, 6) + piece(cfg, 7) + piece(cfg, 8));
}

proof fn lemma_program(cfg: ShimConfig)
    ensures
        if_set(cfg.workdir, |p: String| KrunOp::SetWorkdir(p@)) == piece(cfg, 9),
        exec_ops(cfg) == piece(cfg, 10) + piece(cfg, 11),
{
    reveal(piece);
    assert(if_set(cfg.workdir, |p: String| KrunOp::SetWorkdir(p@)) =~= piece(cfg, 9));
    assert(exec_ops(cfg) =~= piece(cfg, 10) + piece(cfg, 11));
}

proof fn lemma_environment(cfg: ShimConfig)
    ensures
        environment_ops(cfg) == piece(cfg, 5) + piece(cfg, 6) + piece(cfg, 7) + piece(cfg, 8)
            + piece(cfg, 9) + piece(cfg, 10) + piece(cfg, 11),
{
    lemma_network(cfg);
    lemma_program(cfg);
    let n = piece(cfg, 6) + piece(cfg, 7) + piece(cfg, 8);
    let p = piece(cfg, 10) + piece(cfg, 11);
    let a = piece(cfg, 5);
    let w = piece(cfg, 9);
    assert(environment_ops(cfg) == a + n + w + p);
    assert(a + n =~= a + piece(cfg, 6) + piece(cfg, 7) + piece(cfg, 8));
    let b = a + n + w;
    assert(b + p =~= b + piece(cfg, 10) + piece(cfg, 11));
}

proof fn lemma_device(cfg: ShimConfig)
    ensures
        device_ops(cfg) == piece(cfg, 12) + piece(cfg, 13) + piece(cfg, 14) + piece(cfg, 15)
            + piece(cfg, 16) + piece(cfg, 17) + piece(cfg, 18),
{
    reveal(piece);
    assert(if_set(cfg.uid, |u: u32| KrunOp::SetUid(u)) =~= piece(cfg, 12));
    assert(if_set(cfg.gid, |g: u32| KrunOp::SetGid(g)) =~= piece(cfg, 13));
    assert(rlimit_ops(cfg) =~= piece(cfg, 14));
    assert(if_set(cfg.nested_virt, |b: bool| KrunOp::SetNestedVirt(b)) =~= piece(cfg, 15));
    assert(if_set(cfg.snd_device, |b: bool| KrunOp::SetSndDevice(b)) =~= piece(cfg, 16));
    assert(if_set(cfg.console_output, |p: String| KrunOp::SetConsoleOutput(p@)) =~= piece(cfg, 17));
    assert(vsock_ops(cfg.vsock_ports@) =~= piece(cfg, 18));
}

/// Seven lists after another one.
proof fn lemma_seven(
    x: Seq<KrunOp>,
    a: Seq<KrunOp>,
    b: Seq<KrunOp>,
    c: Seq<KrunOp>,
    d: Seq<KrunOp>,
    e: Seq<KrunOp>,
    f: Seq<KrunOp>,
    g: Seq<KrunOp>,
)
    ensures
        x + (a + b + c + d + e + f + g) == x + a + b + c + d + e + f + g,
{
    assert(x + (a + b) =~= x + a + b);
    assert(x + (a + b + c) =~= x + (a + b) + c);
    assert(x + (a + b + c + d) =~= x + (a + b + c) + d);
    assert(x + (a + b + c + d + e) =~= x + (a + b + c + d) + e);
    assert(x + (a + b + c + d + e + f) =~= x + (a + b + c + d + e) + f);
    assert(x + (a + b + c + d + e + f + g) =~= x + (a + b + c + d + e + f) + g);
}

/// A configuration comes to the calls of all places, one after the other.
proof fn lemma_all_places(cfg: ShimConfig)
    requires
        bootable(cfg),
    ensures
        config_ops(cfg) == below(cfg, 19),
{
    lemma_machine(cfg);
    lemma_root(cfg);
    lemma_environment(cfg);
    lemma_device(cfg);
    let m = below(cfg, 2);
    assert(m + (piece(cfg, 2) + piece(cfg, 3) + piece(cfg, 4)) =~= m + piece(cfg, 2) + piece(cfg, 3)
        + piece(cfg, 4));
    reveal_with_fuel(below, 8);
    let x = below(cfg, 5);
    assert(x == m + piece(cfg, 2) + piece(cfg, 3) + piece(cfg, 4));
    lemma_seven(
        x,
        piece(cfg, 5),
        piece(cfg, 6),
        piece(cfg, 7),
        piece(cfg, 8),
        piece(cfg, 9),
        piece(cfg, 10),
        piece(cfg, 11),
    );
    let y = below(cfg, 12);
    assert(y == x + environment_ops(cfg));
    lemma_seven(
        y,
        piece(cfg, 12),
        piece(cfg, 13),
        piece(cfg, 14),
        piece(cfg, 15),
        piece(cfg, 16),
        piece(cfg, 17),
        piece(cfg, 18),
    );
    assert(below(cfg, 19) == y + device_ops(cfg));
}

/// The calls of a place are those of its piece of the configuration.
proof fn lemma_pieces(cfg: ShimConfig, k: int)
    requires
        bootable(cfg),
        0 <= k < 19,
    ensures
        at_place(config_ops(cfg), k) == piece(cfg, k),
{
    lemma_all_places(cfg);
    lemma_below(cfg, 19, k);
}

/// Every shared directory is given to libkrun, in order, each with its own tag
/// and its own path, and no other is.
pub proof fn law_shares_keep_tag_and_path(cfg: ShimConfig)
    requires
        bootable(cfg),
    ensures
        at_place(config_ops(cfg), 5).len() == cfg.virtiofs@.len(),
        forall|i: int|
            0 <= i < cfg.virtiofs@.len() ==> #[trigger] at_place(config_ops(cfg), 5)[i]
                == KrunOp::AddVirtioFs(cfg.virtiofs@[i].tag@, cfg.virtiofs@[i].path@),
{
    reveal(piece);
    lemma_pieces(cfg, 5);
}

/// Every vsock port is given to libkrun, in order, each with its own number,
/// path and direction, and no other is.
pub proof fn law_vsock_ports_keep_number_path_and_direction(cfg: ShimConfig)
    requires
        bootable(cfg),
    ensures
        at_place(config_ops(cfg), 18).len() == cfg.vsock_ports@.len(),
        forall|i: int|
            0 <= i < cfg.vsock_ports@.len() ==> #[trigger] at_place(config_ops(cfg), 18)[i]
                == KrunOp::AddVsockPort(
                cfg.vsock_ports@[i].port,
                cfg.vsock_ports@[i].path@,
                cfg.vsock_ports@[i].listen,
            ),
{
    reveal(piece);
    lemma_pieces(cfg, 18);
}

/// Two configurations whose shared directories differ in a tag or a path come to
/// different calls.
pub proof fn law_different_shares_differ(a: ShimConfig, b: ShimConfig, i: int)
    requires
        bootable(a),
        bootable(b),
        0 <= i < a.virtiofs@.len(),
        i < b.virtiofs@.len(),
        a.virtiofs@[i].tag@ != b.virtiofs@[i].tag@ || a.virtiofs@[i].path@ != b.virtiofs@[i].path@,
    ensures
        config_ops(a) != config_ops(b),
{
    law_shares_keep_tag_and_path(a);
    law_shares_keep_tag_and_path(b);
    if config_ops(a) == config_ops(b) {
        assert(at_place(config_ops(a), 5)[i] == at_place(config_ops(b), 5)[i]);
    }
}

proof fn lemma_pieces_root(cfg: ShimConfig)
    requires
        bootable(cfg),
    ensures
        piece(cfg, 2) == (if cfg.rootfs is Some {
            seq![KrunOp::SetRoot(cfg.rootfs->0@)]
        } else {
            seq![]
        }),
        piece(cfg, 3) == (if cfg.root_disk is Some {
            seq![KrunOp::AddDisk("rootfs"@, cfg.root_disk->0@, cfg.disk_format, false)]
        } else {
            seq![]
        }),
        piece(cfg, 4) == (if cfg.root_disk is Some {
            seq![KrunOp::SetRootDiskRemount("/dev/vda"@, Some("ext4"@), None)]
        } else {
            seq![]
        }),
{
    reveal(piece);
}

/// A configured root directory is the root, and no other is.
pub proof fn law_root_directory_is_what_is_configured(cfg: ShimConfig)
    requires
        bootable(cfg),
    ensures
        at_place(config_ops(cfg), 2) == (if cfg.rootfs is Some {
            seq![KrunOp::SetRoot(cfg.rootfs->0@)]
        } else {
            seq![]
        }),
{
    lemma_pieces_root(cfg);
    lemma_pieces(cfg, 2);
}

/// A configured root disk is attached, writable and in its own format, and no
/// other disk is.
pub proof fn law_root_disk_is_what_is_configured(cfg: ShimConfig)
    requires
        bootable(cfg),
    ensures
        at_place(config_ops(cfg), 3) == (if cfg.root_disk is Some {
            seq![KrunOp::AddDisk("rootfs"@, cfg.root_disk->0@, cfg.disk_format, false)]
        } else {
            seq![]
        }),
{
    lemma_pieces_root(cfg);
    lemma_pieces(cfg, 3);
}

/// A root disk is mounted as root, and nothing is without one.
pub proof fn law_root_disk_is_mounted(cfg: ShimConfig)
    requires
        bootable(cfg),
    ensures
        at_place(config_ops(cfg), 4) == (if cfg.root_disk is Some {
            seq![KrunOp::SetRootDiskRemount("/dev/vda"@, Some("ext4"@), None)]
        } else {
            seq![]
        }),
{
    lemma_pieces_root(cfg);
    lemma_pieces(cfg, 4);
}

proof fn lemma_pieces_network_is_what_is_configured(cfg: ShimConfig)
    ensures
        piece(cfg, 6) == (if cfg.network is Some && cfg.network->0.connection is UnixStream {
            seq![KrunOp::AddNetUnixStream(cfg.network->0.socket_path@, cfg.network->0.mac)]
        } else {
            seq![]
        }),
        piece(cfg, 7) == (if cfg.network is Some && cfg.network->0.connection is UnixDgram {
            seq![KrunOp::AddNetUnixGram(cfg.network->0.socket_path@, cfg.network->0.mac)]
        } else {
            seq![]
        }),
        piece(cfg, 8) == (if cfg.network is None && cfg.ports@.len() > 0 {
            seq![KrunOp::SetPortMap(Seq::new(cfg.ports@.len(), |i: int| cfg.ports@[i]@))]
        } else {
            seq![]
        }),
{
    reveal(piece);
    assert(text::views(cfg.ports@) =~= Seq::new(cfg.ports@.len(), |i: int| cfg.ports@[i]@));
}

/// The network backend is connected to at its own socket with its own address,
/// as a stream or as datagrams; without one the port map, if any, is set.
pub proof fn law_network_is_what_is_configured(cfg: ShimConfig)
    requires
        bootable(cfg),
    ensures
        at_place(config_ops(cfg), 6) == (if cfg.network is Some && cfg.network->0.connection is UnixStream {
            seq![KrunOp::AddNetUnixStream(cfg.network->0.socket_path@, cfg.network->0.mac)]
        } else {
            seq![]
        }),
        at_place(config_ops(cfg), 7) == (if cfg.network is Some && cfg.network->0.connection is UnixDgram {
            seq![KrunOp::AddNetUnixGram(cfg.network->0.socket_path@, cfg.network->0.mac)]
        } else {
            seq![]
        }),
        at_place(config_ops(cfg), 8) == (if cfg.network is None && cfg.ports@.len() > 0 {
            seq![KrunOp::SetPortMap(Seq::new(cfg.ports@.len(), |i: int| cfg.ports@[i]@))]
        } else {
            seq![]
        }),
{
    lemma_pieces_network_is_what_is_configured(cfg);
    lemma_pieces(cfg, 6);
    lemma_pieces(cfg, 7);
    lemma_pieces(cfg, 8);
}

proof fn lemma_pieces_process_settings_are_what_is_configured(cfg: ShimConfig)
    ensures
        piece(cfg, 0) == (if cfg.log_level is Some {
            seq![KrunOp::SetLogLevel(cfg.log_level->0)]
        } else {
            seq![]
        }),
        piece(cfg, 1) == seq![KrunOp::SetVmConfig(cfg.vcpus, cfg.ram_mib)],
        piece(cfg, 9) == (if cfg.workdir is Some {
            seq![KrunOp::SetWorkdir(cfg.workdir->0@)]
        } else {
            seq![]
        }),
        piece(cfg, 12) == (if cfg.uid is Some {
            seq![KrunOp::SetUid(cfg.uid->0)]
        } else {
            seq![]
        }),
        piece(cfg, 13) == (if cfg.gid is Some {
            seq![KrunOp::SetGid(cfg.gid->0)]
        } else {
            seq![]
        }),
{
    reveal(piece);
}

/// Processors and memory, log level, working directory, user and group are set
/// to what is configured, each once, and left alone where nothing is.
pub proof fn law_process_settings_are_what_is_configured(cfg: ShimConfig)
    requires
        bootable(cfg),
    ensures
        at_place(config_ops(cfg), 0) == (if cfg.log_level is Some {
            seq![KrunOp::SetLogLevel(cfg.log_level->0)]
        } else {
            seq![]
        }),
        at_place(config_ops(cfg), 1) == seq![KrunOp::SetVmConfig(cfg.vcpus, cfg.ram_mib)],
        at_place(config_ops(cfg), 9) == (if cfg.workdir is Some {
            seq![KrunOp::SetWorkdir(cfg.workdir->0@)]
        } else {
            seq![]
        }),
        at_place(config_ops(cfg), 12) == (if cfg.uid is Some {
            seq![KrunOp::SetUid(cfg.uid->0)]
        } else {
            seq![]
        }),
        at_place(config_ops(cfg), 13) == (if cfg.gid is Some {
            seq![KrunOp::SetGid(cfg.gid->0)]
        } else {
            seq![]
        }),
{
    lemma_pieces_process_settings_are_what_is_configured(cfg);
    lemma_pieces(cfg, 0);
    lemma_pieces(cfg, 1);
    lemma_pieces(cfg, 9);
    lemma_pieces(cfg, 12);
    lemma_pieces(cfg, 13);
}

proof fn lemma_pieces_device_settings_are_what_is_configured(cfg: ShimConfig)
    ensures
        piece(cfg, 14) == (if cfg.rlimits@.len() > 0 {
            seq![KrunOp::SetRlimits(Seq::new(cfg.rlimits@.len(), |i: int| cfg.rlimits@[i]@))]
        } else {
            seq![]
        }),
        piece(cfg, 15) == (if cfg.nested_virt is Some {
            seq![KrunOp::SetNestedVirt(cfg.nested_virt->0)]
        } else {
            seq![]
        }),
        piece(cfg, 16) == (if cfg.snd_device is Some {
            seq![KrunOp::SetSndDevice(cfg.snd_device->0)]
        } else {
            seq![]
        }),
        piece(cfg, 17) == (if cfg.console_output is Some {
            seq![KrunOp::SetConsoleOutput(cfg.console_output->0@)]
        } else {
            seq![]
        }),
{
    reveal(piece);
    assert(text::views(cfg.rlimits@) =~= Seq::new(cfg.rlimits@.len(), |i: int| cfg.rlimits@[i]@));
}

/// Limits, nested virtualisation, sound and console are set to what is
/// configured, each once, and left alone where nothing is.
pub proof fn law_device_settings_are_what_is_configured(cfg: ShimConfig)
    requires
        bootable(cfg),
    ensures
        at_place(config_ops(cfg), 14) == (if cfg.rlimits@.len() > 0 {
            seq![KrunOp::SetRlimits(Seq::new(cfg.rlimits@.len(), |i: int| cfg.rlimits@[i]@))]
        } else {
            seq![]
        }),
        at_place(config_ops(cfg), 15) == (if cfg.nested_virt is Some {
            seq![KrunOp::SetNestedVirt(cfg.nested_virt->0)]
        } else {
            seq![]
        }),
        at_place(config_ops(cfg), 16) == (if cfg.snd_device is Some {
            seq![KrunOp::SetSndDevice(cfg.snd_device->0)]
        } else {
            seq![]
        }),
        at_place(config_ops(cfg), 17) == (if cfg.console_output is Some {
            seq![KrunOp::SetConsoleOutput(cfg.console_output->0@)]
        } else {
            seq![]
        }),
{
    lemma_pieces_device_settings_are_what_is_configured(cfg);
    lemma_pieces(cfg, 14);
    lemma_pieces(cfg, 15);
    lemma_pieces(cfg, 16);
    lemma_pieces(cfg, 17);
}

proof fn lemma_pieces_program_is_what_is_configured(cfg: ShimConfig)
    ensures
        cfg.exec_path is Some ==> {
            &&& piece(cfg, 11).len() == 0
            &&& piece(cfg, 10).len() == 1
            &&& piece(cfg, 10)[0] matches KrunOp::SetExec(path, args, env) && {
                &&& path == cfg.exec_path->0@
                &&& args.len() == cfg.exec_args@.len()
                &&& forall|i: int|
                    0 <= i < args.len() ==> #[trigger] args[i] == cfg.exec_args@[i]@
                &&& env is Some == cfg.env is Some
                &&& env is Some ==> env->0.len() == cfg.env->0@.len() && forall|i: int|
                    0 <= i < env->0.len() ==> #[trigger] env->0[i] == cfg.env->0@[i]@
            }
        },
        cfg.exec_path is None ==> {
            &&& piece(cfg, 10).len() == 0
            &&& cfg.env is None ==> piece(cfg, 11).len() == 0
            &&& cfg.env is Some ==> {
                &&& piece(cfg, 11).len() == 1
                &&& piece(cfg, 11)[0] matches KrunOp::SetEnv(env) && env.len()
                    == cfg.env->0@.len() && forall|i: int|
                    0 <= i < env.len() ==> #[trigger] env[i] == cfg.env->0@[i]@
            }
        },
{
    reveal(piece);
}

/// The guest's program is set once with all its arguments in order and with the
/// environment; without a program the environment, if any, is set alone.
pub proof fn law_program_is_what_is_configured(cfg: ShimConfig)
    requires
        bootable(cfg),
    ensures
        cfg.exec_path is Some ==> {
            &&& at_place(config_ops(cfg), 11).len() == 0
            &&& at_place(config_ops(cfg), 10).len() == 1
            &&& at_place(config_ops(cfg), 10)[0] matches KrunOp::SetExec(path, args, env) && {
                &&& path == cfg.exec_path->0@
                &&& args.len() == cfg.exec_args@.len()
                &&& forall|i: int|
                    0 <= i < args.len() ==> #[trigger] args[i] == cfg.exec_args@[i]@
                &&& env is Some == cfg.env is Some
                &&& env is Some ==> env->0.len() == cfg.env->0@.len() && forall|i: int|
                    0 <= i < env->0.len() ==> #[trigger] env->0[i] == cfg.env->0@[i]@
            }
        },
        cfg.exec_path is None ==> {
            &&& at_place(config_ops(cfg), 10).len() == 0
            &&& cfg.env is None ==> at_place(config_ops(cfg), 11).len() == 0
            &&& cfg.env is Some ==> {
                &&& at_place(config_ops(cfg), 11).len() == 1
                &&& at_place(config_ops(cfg), 11)[0] matches KrunOp::SetEnv(env) && env.len()
                    == cfg.env->0@.len() && forall|i: int|
                    0 <= i < env.len() ==> #[trigger] env[i] == cfg.env->0@[i]@
            }
        },
{
    lemma_pieces_program_is_what_is_configured(cfg);
    lemma_pieces(cfg, 10);
    lemma_pieces(cfg, 11);
}

/// A configuration is refused exactly where it does not say what to boot from,
/// or says it twice, and nothing but log level, processors and memory is set
/// before that is found.
pub proof fn law_what_is_refused(cfg: ShimConfig)
    ensures
        config_reject(cfg) is None <==> bootable(cfg),
        cfg.rootfs is Some && cfg.root_disk is Some ==> config_reject(cfg) == Some(
            "ShimConfig: rootfs and root_disk are mutually exclusive"@,
        ),
        cfg.rootfs is None && cfg.root_disk is None ==> config_reject(cfg) == Some(
            "ShimConfig: need rootfs or root_disk"@,
        ),
        !bootable(cfg) ==> config_ops(cfg).len() <= 2 && forall|i: int|
            0 <= i < config_ops(cfg).len() ==> #[trigger] config_ops(cfg)[i] is SetLogLevel
                || config_ops(cfg)[i] is SetVmConfig,
{
}

/// A context is configured in order: log level, processors and memory, root
/// filesystem, shares, network, working directory, program, user, group,
/// limits, devices and vsock ports.
pub proof fn law_calls_come_in_order(cfg: ShimConfig)
    requires
        bootable(cfg),
    ensures
        in_order(config_ops(cfg)),
{
    lemma_all_places(cfg);
    lemma_below(cfg, 19, 0);
}

/// What the shim is told of a machine is what the machine's configuration says,
/// setting by setting; the formats keep their names, and with a network backend
/// no port is mapped.
pub proof fn law_shim_is_told_the_configuration(
    r: ShimConfig,
    vm_id: Seq<char>,
    c: VmConfig,
    network: Option<ShimNetwork>,
)
    requires
        shim_convert::converts(r, vm_id, c@, network),
    ensures
        r.vm_id@ == vm_id,
        r.vcpus == c.vcpus,
        r.ram_mib == c.ram_mib,
        r.rootfs is Some == c.rootfs is Some,
        r.rootfs is Some ==> r.rootfs->0@ == c.rootfs->0@,
        r.root_disk is Some == c.root_disk is Some,
        r.root_disk is Some ==> r.root_disk->0@ == c.root_disk->0@,
        r.disk_format is Raw == c.disk_format is Raw,
        r.virtiofs@.len() == c.virtiofs@.len(),
        forall|i: int|
            0 <= i < c.virtiofs@.len() ==> (#[trigger] r.virtiofs@[i]).tag@ == c.virtiofs@[i].tag@
                && r.virtiofs@[i].path@ == c.virtiofs@[i].path@,
        r.vsock_ports@.len() == c.vsock_ports@.len(),
        forall|i: int|
            0 <= i < c.vsock_ports@.len() ==> (#[trigger] r.vsock_ports@[i]).port
                == c.vsock_ports@[i].port && r.vsock_ports@[i].path@ == c.vsock_ports@[i].path@
                && r.vsock_ports@[i].listen == c.vsock_ports@[i].listen,
        network is Some ==> r.ports@.len() == 0,
        network is None ==> r.ports@.len() == c.ports@.len() && forall|i: int|
            0 <= i < c.ports@.len() ==> (#[trigger] r.ports@[i])@ == c.ports@[i]@,
        r.network == network,
        r.log_level == c.log_level,
        r.exec_path is Some == c.exec_path is Some,
        r.exec_path is Some ==> r.exec_path->0@ == c.exec_path->0@,
        r.exec_args@.len() == c.exec_args@.len(),
        forall|i: int|
            0 <= i < c.exec_args@.len() ==> (#[trigger] r.exec_args@[i])@ == c.exec_args@[i]@,
        r.env is Some == c.env is Some,
        r.env is Some ==> r.env->0@.len() == c.env->0@.len() && forall|i: int|
            0 <= i < c.env->0@.len() ==> (#[trigger] r.env->0@[i])@ == c.env->0@[i]@,
        r.workdir is Some == c.workdir is Some,
        r.workdir is Some ==> r.workdir->0@ == c.workdir->0@,
        r.uid == c.uid,
        r.gid == c.gid,
        r.rlimits@.len() == c.rlimits@.len(),
        forall|i: int|
            0 <= i < c.rlimits@.len() ==> (#[trigger] r.rlimits@[i])@ == c.rlimits@[i]@,
        r.nested_virt == c.nested_virt,
        r.snd_device == c.snd_device,
        r.console_output is Some == c.console_output is Some,
        r.console_output is Some ==> r.console_output->0@ == c.console_output->0@,
{
    let a = shim_convert::share_views(r.virtiofs@);
    let b = shim_convert::vsock_views(r.vsock_ports@);
    assert(a == c@.virtiofs);
    assert(b == c@.vsock_ports);
    assert(a.len() == c.virtiofs@.len());
    assert(b.len() == c.vsock_ports@.len());
    assert forall|i: int| 0 <= i < c.virtiofs@.len() implies (#[trigger] r.virtiofs@[i]).tag@
        == c.virtiofs@[i].tag@ && r.virtiofs@[i].path@ == c.virtiofs@[i].path@ by {
        assert(a[i] == c@.virtiofs[i]);
    }
    assert forall|i: int| 0 <= i < c.vsock_ports@.len() implies (#[trigger] r.vsock_ports@[i]).port
        == c.vsock_ports@[i].port && r.vsock_ports@[i].path@ == c.vsock_ports@[i].path@
        && r.vsock_ports@[i].listen == c.vsock_ports@[i].listen by {
        assert(b[i] == c@.vsock_ports[i]);
    }
    lemma_texts(r.ports@, if network is Some { seq![] } else { c.ports@ });
    lemma_texts(r.exec_args@, c.exec_args@);
    lemma_texts(r.rlimits@, c.rlimits@);
    if r.env is Some && c.env is Some {
        lemma_texts(r.env->0@, c.env->0@);
    }
}

proof fn lemma_texts(a: Seq<String>, b: Seq<String>)
    ensures
        text::views(a) == text::views(b) ==> a.len() == b.len() && forall|i: int|
            0 <= i < a.len() ==> (#[trigger] a[i])@ == b[i]@,
        text::views(Seq::<String>::empty()) == Seq::<Seq<char>>::empty(),
{
    assert(text::views(Seq::<String>::empty()) =~= Seq::<Seq<char>>::empty());
    assert(text::views(a).len() == a.len());
    assert(text::views(b).len() == b.len());
    if text::views(a) == text::views(b) {
        assert forall|i: int| 0 <= i < a.len() implies (#[trigger] a[i])@ == b[i]@ by {
            assert(text::views(a)[i] == text::views(b)[i]);
        }
    }
}

} // verus!
