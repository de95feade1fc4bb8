//! Preparing, spawning and burying shim processes.

use vstd::prelude::*;
use crate::error::{Error, Fault, IoFault};
use crate::exit_info::ExitInfo;
use crate::exit_info;
use crate::state::{VmConfig, VmConfigV};
use crate::state;
use crate::text;
use crate::user;

verus! {

// ---------------------------------------------------------------------------
// Diagnostics
// ---------------------------------------------------------------------------

/// The last five lines of a text, or all of them.
pub open spec fn tail_lines(ls: Seq<Seq<char>>) -> Seq<Seq<char>> {
    if ls.len() > 5 {
        ls.skip(ls.len() - 5)
    } else {
        ls
    }
}

/// What the shim wrote to its standard error, as an indented paragraph.
pub open spec fn stderr_hint(stderr: Option<Seq<char>>) -> Seq<char> {
    match stderr {
        Some(s) => if s.len() == 0 {
            seq![]
        } else {
            "\n  stderr:\n    "@ + text::join(tail_lines(text::lines(s)), "\n    "@)
        },
        None => seq![],
    }
}

/// Why the shim ended, as far as it is on record.
pub open spec fn death_detail(info: Option<ExitInfo>) -> Seq<char> {
    match info {
        Some(i) => exit_info::summary_text(i),
        None => "unknown reason"@,
    }
}

/// Describes the death of a shim before its guest was ready, from its exit
/// record and the last lines that it wrote.
pub fn shim_death_message(pid: i32, info: Option<ExitInfo>, stderr: Option<String>) -> (r: String)
    ensures
        r@ == "VM process (pid "@ + text::dec_int(pid as int) + ") died before ready: "@
            + death_detail(info) + stderr_hint(text::opt_view(stderr)),
{
    let detail = match &info {
        Some(i) => i.summary(),
        None => "unknown reason".to_owned(),
    };
    let hint = match &stderr {
        Some(s) => {
            if s.as_str().is_empty() {
                String::new()
            } else {
                let ls = text::split_lines(s.as_str());
                let skip: usize = if ls.len() > 5 {
                    ls.len() - 5
                } else {
                    0
                };
                let tail = text::join_from(&ls, skip, "\n    ");
                assert(text::views(ls@).skip(skip as int) =~= tail_lines(text::views(ls@)));
                text::cat2("\n  stderr:\n    ", tail.as_str())
            }
        },
        None => String::new(),
    };
    assert(hint@ =~= stderr_hint(text::opt_view(stderr)));
    let number = text::dec_i64(pid as i64);
    let head = text::cat3("VM process (pid ", number.as_str(), ") died before ready: ");
    text::cat3(head.as_str(), detail.as_str(), hint.as_str())
}

/// A file that belongs to a machine.
#[derive(Debug, Clone, Copy, PartialEq, Eq, Structural)]
pub enum VmFile {
    /// The socket itself.
    Socket,
    /// The exit record.
    Exit,
    /// The configuration.
    Config,
    /// The captured standard error.
    Stderr,
}

/// Extension by which a file of a machine differs from its socket.
pub open spec fn file_extension(f: VmFile) -> Option<Seq<char>> {
    match f {
        VmFile::Socket => None,
        VmFile::Exit => Some("exit"@),
        VmFile::Config => Some("json"@),
        VmFile::Stderr => Some("stderr"@),
    }
}

impl VmFile {
    /// The extension to give the socket's path; none for the socket itself.
    pub fn extension(self) -> (r: Option<&'static str>)
        ensures
            match r {
                Some(e) => file_extension(self) == Some(e@),
                None => file_extension(self) is None,
            },
    {
        match self {
            VmFile::Socket => None,
            VmFile::Exit => Some("exit"),
            VmFile::Config => Some("json"),
            VmFile::Stderr => Some("stderr"),
        }
    }
}

/// The transient files of a machine, to be removed in this order. Whether each
/// removal succeeds does not matter.
pub fn clean_vm_files() -> (r: Vec<VmFile>)
    ensures
        r@ == seq![VmFile::Socket, VmFile::Exit, VmFile::Config, VmFile::Stderr],
{
    let mut v: Vec<VmFile> = Vec::new();
    v.push(VmFile::Socket);
    v.push(VmFile::Exit);
    v.push(VmFile::Config);
    v.push(VmFile::Stderr);
    assert(v@ =~= seq![VmFile::Socket, VmFile::Exit, VmFile::Config, VmFile::Stderr]);
    v
}

/// What is known of a process that is waited for.
#[derive(Debug, Clone, Copy, PartialEq, Eq, Structural)]
pub enum WaitOutcome {
    /// It has exited or was killed by a signal.
    Ended,
    /// Waiting said something else or failed, as it does for a process that is
    /// no child.
    Unclear,
    /// It is alive.
    Alive,
    /// It is not alive.
    Gone,
}

/// What to do about a process that is waited for.
#[derive(Debug, Clone, Copy, PartialEq, Eq, Structural)]
pub enum WaitStep {
    /// Stop waiting.
    Return,
    /// Find out whether it is alive.
    Probe,
    /// Sleep for these milliseconds, then find out whether it is alive.
    SleepThenProbe(u64),
}

/// Waits for a process: as a child if it is one, and else by looking again
/// every fifty milliseconds.
pub fn wait_for_exit(outcome: WaitOutcome) -> (r: WaitStep)
    ensures
        r == (match outcome {
            WaitOutcome::Ended => WaitStep::Return,
            WaitOutcome::Unclear => WaitStep::Probe,
            WaitOutcome::Alive => WaitStep::SleepThenProbe(50),
            WaitOutcome::Gone => WaitStep::Return,
        }),
{
    match outcome {
        WaitOutcome::Ended => WaitStep::Return,
        WaitOutcome::Unclear => WaitStep::Probe,
        WaitOutcome::Alive => WaitStep::SleepThenProbe(50),
        WaitOutcome::Gone => WaitStep::Return,
    }
}

// ---------------------------------------------------------------------------
// Preparing a managed configuration
// ---------------------------------------------------------------------------

/// What is wrong with a configuration for a managed machine.
pub open spec fn managed_fault(c: VmConfigV, guest_path: Seq<char>) -> Option<Fault> {
    if c.exec_path is Some && c.exec_path->0 != guest_path {
        Some(
            Fault::InvalidConfig(
                "managed runtime no longer supports boot-time exec; start the VM, then run commands through bux exec"@,
            ),
        )
    } else if c.root_disk is Some && c.rootfs is None && c.base_disk is None {
        Some(
            Fault::InvalidConfig(
                "managed runtime does not yet support direct root_disk boot without a managed guest-rootfs preparation step"@,
            ),
        )
    } else {
        None
    }
}

/// Checks a configuration for a managed machine, whose guest agent is the
/// program `guest_path`. Gives the root directory into which the agent has to
/// be put, if there is one.
pub fn prepare_managed_config(config: &VmConfig, guest_path: &str) -> (r: Result<
    Option<String>,
    Error,
>)
    ensures
        match managed_fault(config@, guest_path@) {
            Some(f) => r matches Err(e) && e@ == f,
            None => r matches Ok(p) && p == config.rootfs,
        },
{
    match &config.exec_path {
        Some(p) => {
            if !text::same_text(p.as_str(), guest_path) {
                return Err(
                    Error::InvalidConfig(
                        "managed runtime no longer supports boot-time exec; start the VM, then run commands through bux exec".to_owned(),
                    ),
                );
            }
        },
        None => {},
    }
    if config.root_disk.is_some() && config.rootfs.is_none() && config.base_disk.is_none() {
        return Err(
            Error::InvalidConfig(
                "managed runtime does not yet support direct root_disk boot without a managed guest-rootfs preparation step".to_owned(),
            ),
        );
    }
    Ok(text::clone_opt(&config.rootfs))
}

/// What an assignment to the guest agent's own variable begins with.
pub open spec fn boot_env_prefix() -> Seq<char> {
    "BUX_GUEST_CONFIG="@
}

/// The assignments that are not to the guest agent's own variable.
pub open spec fn workload_only(env: Seq<Seq<char>>) -> Seq<Seq<char>>
    decreases env.len(),
{
    if env.len() == 0 {
        seq![]
    } else {
        let before = workload_only(env.drop_last());
        if text::starts_with(env.last(), boot_env_prefix()) {
            before
        } else {
            before.push(env.last())
        }
    }
}

/// User and group id as a user specification.
pub open spec fn user_text(uid: Option<u32>, gid: Option<u32>) -> Option<Seq<char>> {
    match (uid, gid) {
        (Some(u), Some(g)) => Some(text::dec(u as nat) + ":"@ + text::dec(g as nat)),
        (Some(u), None) => Some(text::dec(u as nat)),
        (None, Some(g)) => Some("0:"@ + text::dec(g as nat)),
        (None, None) => None,
    }
}

/// A configuration whose boot identity has become the identity of commands.
/// What commands were given before comes first, and the guest agent's own
/// variable is never theirs.
pub open spec fn routed(c: VmConfigV) -> VmConfigV {
    VmConfigV {
        env: None,
        workload_env: if c.env is Some && c.workload_env.len() == 0 {
            workload_only(c.env->0)
        } else {
            c.workload_env
        },
        workload_workdir: if c.workload_workdir is None {
            c.workdir
        } else {
            c.workload_workdir
        },
        workdir: if c.workload_workdir is None {
            None
        } else {
            c.workdir
        },
        workload_user: if c.workload_user is None {
            user_text(c.uid, c.gid)
        } else {
            c.workload_user
        },
        ..c
    }
}

/// The assignments that are not to the guest agent's own variable.
fn drop_boot_env(env: &Vec<String>) -> (r: Vec<String>)
    ensures
        text::views(r@) == workload_only(text::views(env@)),
{
    let prefix = text::cat2(state::GUEST_BOOT_CONFIG_ENV, "=");
    proof {
        reveal_strlit("BUX_GUEST_CONFIG");
        reveal_strlit("=");
        reveal_strlit("BUX_GUEST_CONFIG=");
        assert(prefix@ =~= boot_env_prefix());
    }
    let ghost all = text::views(env@);
    let mut out: Vec<String> = Vec::new();
    let mut i: usize = 0;
    assert(text::views(out@) =~= workload_only(all.take(0)));
    while i < env.len()
        invariant
            i <= env.len(),
            all == text::views(env@),
            prefix@ == boot_env_prefix(),
            text::views(out@) == workload_only(all.take(i as int)),
        decreases env.len() - i,
    {
        let ghost before = text::views(out@);
        assert(all.take(i + 1).drop_last() =~= all.take(i as int));
        assert(all.take(i + 1).last() == env@[i as int]@);
        if !text::has_prefix(env[i].as_str(), prefix.as_str()) {
            out.push(env[i].clone());
            assert(text::views(out@) =~= before.push(env@[i as int]@));
        }
        i = i + 1;
    }
    assert(all.take(env.len() as int) =~= all);
    out
}

/// Turns the boot identity of a configuration into the identity of commands.
#[verifier::rlimit(40)]
pub fn route_workload_identity(config: &mut VmConfig)
    ensures
        final(config)@ == routed(old(config)@),
{
    let ghost start = config@;
    let env = config.env.take();
    match env {
        Some(e) => {
            if config.workload_env.len() == 0 {
                let workload = drop_boot_env(&e);
                config.workload_env = workload;
            }
        },
        None => {},
    }
    assert(config@ =~= (VmConfigV {
        env: None,
        workload_env: routed(start).workload_env,
        ..start
    }));
    if config.workload_workdir.is_none() {
        let dir = config.workdir.take();
        config.workload_workdir = dir;
    }
    if config.workload_user.is_none() {
        match (config.uid, config.gid) {
            (Some(u), Some(g)) => {
                let u = text::dec_u64(u as u64);
                let g = text::dec_u64(g as u64);
                config.workload_user = Some(text::cat3(u.as_str(), ":", g.as_str()));
            },
            (Some(u), None) => {
                config.workload_user = Some(text::dec_u64(u as u64));
            },
            (None, Some(g)) => {
                let g = text::dec_u64(g as u64);
                config.workload_user = Some(text::cat2("0:", g.as_str()));
            },
            (None, None) => {},
        }
    }
    assert(config@ =~= routed(start));
}

/// A configuration that boots the guest agent and nothing else.
pub open spec fn settled(c: VmConfigV, guest_path: Seq<char>) -> VmConfigV {
    VmConfigV {
        exec_path: Some(guest_path),
        exec_args: seq![],
        env: None,
        workdir: None,
        uid: None,
        gid: None,
        ..routed(c)
    }
}

/// Finishes a checked configuration: its identity goes to commands, and the
/// machine boots the guest agent.
pub fn settle_managed_config(config: &mut VmConfig, guest_path: &str)
    ensures
        final(config)@ == settled(old(config)@, guest_path@),
{
    route_workload_identity(config);
    config.exec_path = Some(guest_path.to_owned());
    config.exec_args = Vec::new();
    config.env = None;
    config.workdir = None;
    config.uid = None;
    config.gid = None;
    assert(config@.exec_args =~= seq![]);
}

/// Whether the guest has a network.
#[derive(Debug, Clone, Copy, PartialEq, Eq, Structural)]
pub enum GuestNetworkMode {
    /// It has.
    Enabled,
    /// It has not.
    Disabled,
}

/// Boot settings of the guest agent.
#[derive(Debug)]
pub struct GuestBootConfig {
    /// Name of the machine.
    pub vm_id: String,
    /// Whether there is a network.
    pub network: GuestNetworkMode,
    /// Certificate that the guest has to trust.
    pub mitm_ca_pem: Option<String>,
}

/// The boot settings of a machine's guest agent.
pub fn guest_boot_config(config: &VmConfig, vm_id: &str, mitm_ca_pem: Option<String>) -> (r:
    GuestBootConfig)
    ensures
        r.vm_id@ == vm_id@,
        r.network == (if config.virtio_net {
            GuestNetworkMode::Enabled
        } else {
            GuestNetworkMode::Disabled
        }),
        r.mitm_ca_pem == mitm_ca_pem,
{
    GuestBootConfig {
        vm_id: vm_id.to_owned(),
        network: if config.virtio_net {
            GuestNetworkMode::Enabled
        } else {
            GuestNetworkMode::Disabled
        },
        mitm_ca_pem,
    }
}

/// A configuration whose boot environment is one assignment.
pub open spec fn with_boot_env(c: VmConfigV, entry: Seq<char>) -> VmConfigV {
    VmConfigV { env: Some(seq![entry]), ..c }
}

/// Puts the encoded boot settings in the boot environment, alone. Settings that
/// could not be encoded are an error.
pub fn inject_guest_boot_env(config: &mut VmConfig, assignment: Result<String, String>) -> (r:
    Result<(), Error>)
    ensures
        match assignment {
            Ok(entry) => r is Ok && final(config)@ == with_boot_env(old(config)@, entry@),
            Err(m) => (r matches Err(e) && e@ == Fault::InvalidConfig(m@)) && final(config)@ == old(
                config,
            )@,
        },
{
    match assignment {
        Ok(entry) => {
            let mut v: Vec<String> = Vec::new();
            let ghost ev = entry@;
            v.push(entry);
            assert(text::views(v@) =~= seq![ev]);
            config.env = Some(v);
            Ok(())
        },
        Err(m) => Err(Error::InvalidConfig(m)),
    }
}

// ---------------------------------------------------------------------------
// What preparing keeps
// ---------------------------------------------------------------------------

/// No assignment to the guest agent's own variable is left.
proof fn lemma_workload_only(env: Seq<Seq<char>>)
    ensures
        forall|i: int|
            0 <= i < workload_only(env).len() ==> !text::starts_with(
                #[trigger] workload_only(env)[i],
                boot_env_prefix(),
            ),
    decreases env.len(),
{
    if env.len() > 0 {
        let before = workload_only(env.drop_last());
        lemma_workload_only(env.drop_last());
        assert forall|i: int| 0 <= i < workload_only(env).len() implies !text::starts_with(
            #[trigger] workload_only(env)[i],
            boot_env_prefix(),
        ) by {
            if i < before.len() {
                assert(workload_only(env)[i] == before[i]);
            }
        }
    }
}

/// The guest agent's own variable never becomes part of the environment of
/// commands.
pub proof fn law_boot_settings_stay_out_of_the_workload(c: VmConfigV)
    requires
        forall|i: int|
            0 <= i < c.workload_env.len() ==> !text::starts_with(
                #[trigger] c.workload_env[i],
                boot_env_prefix(),
            ),
    ensures
        forall|i: int|
            0 <= i < routed(c).workload_env.len() ==> !text::starts_with(
                #[trigger] routed(c).workload_env[i],
                boot_env_prefix(),
            ),
{
    if c.env is Some {
        lemma_workload_only(c.env->0);
    }
}

/// What commands were given explicitly wins over the boot identity.
pub proof fn law_explicit_workload_wins(c: VmConfigV)
    ensures
        c.workload_env.len() > 0 ==> routed(c).workload_env == c.workload_env,
        c.workload_workdir is Some ==> routed(c).workload_workdir == c.workload_workdir,
        c.workload_user is Some ==> routed(c).workload_user == c.workload_user,
{
}

/// Routing twice is routing once.
pub proof fn law_routing_settles(c: VmConfigV)
    ensures
        routed(routed(c)) == routed(c),
{
    assert(routed(routed(c)) =~= routed(c));
}

/// A restart keeps the identity of commands: preparing a configuration again
/// after the guest agent's settings were put in its boot environment changes
/// nothing but that environment.
pub proof fn law_restart_keeps_the_workload(c: VmConfigV, guest_path: Seq<char>, entry: Seq<char>)
    requires
        text::starts_with(entry, boot_env_prefix()),
    ensures
        settled(with_boot_env(settled(c, guest_path), entry), guest_path) == settled(c, guest_path),
        managed_fault(c, guest_path) is None ==> managed_fault(
            with_boot_env(settled(c, guest_path), entry),
            guest_path,
        ) is None,
{
    let once = settled(c, guest_path);
    reveal_with_fuel(workload_only, 2);
    assert(seq![entry].drop_last() =~= Seq::<Seq<char>>::empty());
    assert(workload_only(seq![entry]) =~= Seq::<Seq<char>>::empty());
    assert(settled(with_boot_env(once, entry), guest_path) =~= once);
}

/// The user that commands get from boot ids stands for exactly those ids: a
/// missing user id for root, and a missing group for the user's own.
#[verifier::rlimit(40)]
pub proof fn law_boot_ids_resolve_back(
    c: VmConfigV,
    passwd: Result<Seq<char>, IoFault>,
    group: Result<Seq<char>, IoFault>,
)
    requires
        c.workload_user is None,
    ensures
        c.gid is Some ==> user::credentials_of(
            routed(c).workload_user->0,
            passwd,
            group,
        ) == Ok::<(u32, u32), IoFault>(
            (
                if c.uid is Some {
                    c.uid->0
                } else {
                    0
                },
                c.gid->0,
            ),
        ),
        c.gid is None && c.uid is Some ==> user::credentials_of(
            routed(c).workload_user->0,
            passwd,
            group,
        ) is Ok && user::credentials_of(routed(c).workload_user->0, passwd, group)->Ok_0.0
            == c.uid->0,
        c.gid is None && c.uid is None ==> routed(c).workload_user is None,
{
    reveal_strlit(":");
    reveal_strlit("0:");
    assert(":"@ =~= seq![':']);
    if c.gid is Some {
        let uid: u32 = if c.uid is Some {
            c.uid->0
        } else {
            0
        };
        user::law_numeric_credentials(uid, c.gid->0, passwd, group);
        if c.uid is None {
            assert(text::dec(0) =~= seq!['0']);
            assert("0:"@ =~= text::dec(0) + seq![':']);
        }
    } else if c.uid is Some {
        user::law_numeric_uid(c.uid->0, passwd, group);
    }
}

/// Commands get every assignment of a boot environment but those to the guest
/// agent's own variable, in order.
pub proof fn law_commands_get_the_other_assignments(env: Seq<Seq<char>>)
    ensures
        workload_only(env) == env.filter(
            |e: Seq<char>| !text::starts_with(e, "BUX_GUEST_CONFIG="@),
        ),
    decreases env.len(),
{
    reveal(Seq::filter);
    if env.len() > 0 {
        law_commands_get_the_other_assignments(env.drop_last());
    } else {
        assert(workload_only(env) =~= env);
    }
}

/// Where nothing is said of commands themselves they get what was meant for the
/// machine's own program: its environment, directory and ids. Everything else
/// about the machine stays as it is.
pub proof fn law_commands_inherit_what_is_not_given(c: VmConfigV)
    ensures
        c.workload_workdir is None ==> routed(c).workload_workdir == c.workdir,
        c.workload_env.len() == 0 && c.env is None ==> routed(c).workload_env.len() == 0,
        c.workload_env.len() == 0 && c.env is Some ==> routed(c).workload_env == workload_only(
            c.env->0,
        ),
        c.workload_user is None ==> {
            &&& routed(c).workload_user is None <==> c.uid is None && c.gid is None
            &&& c.uid is Some && c.gid is None ==> routed(c).workload_user == Some(
                text::dec(c.uid->0 as nat),
            )
        },
        settled(c, seq![]) == (VmConfigV {
            exec_path: Some(seq![]),
            exec_args: seq![],
            env: None,
            workdir: None,
            uid: None,
            gid: None,
            workload_env: routed(c).workload_env,
            workload_workdir: routed(c).workload_workdir,
            workload_user: routed(c).workload_user,
            ..c
        }),
{
}

/// A managed machine is refused exactly where it boots a program other than the
/// guest agent, or boots from a disk with no root directory or base disk to put
/// the agent in; the first of these is named first.
pub proof fn law_what_cannot_be_managed(c: VmConfigV, guest_path: Seq<char>)
    ensures
        ({
            let other = c.exec_path is Some && c.exec_path->0 != guest_path;
            let bare_disk = c.root_disk is Some && c.rootfs is None && c.base_disk is None;
            &&& managed_fault(c, guest_path) is None <==> !other && !bare_disk
            &&& other ==> managed_fault(c, guest_path) == Some(
                Fault::InvalidConfig(
                    "managed runtime no longer supports boot-time exec; start the VM, then run commands through bux exec"@,
                ),
            )
            &&& !other && bare_disk ==> managed_fault(c, guest_path) == Some(
                Fault::InvalidConfig(
                    "managed runtime does not yet support direct root_disk boot without a managed guest-rootfs preparation step"@,
                ),
            )
        }),
{
}

/// What is shown of a shim's errors is the end of them: the last five lines, or
/// all where there are fewer, each on an indented line of its own; and nothing
/// where there are none.
pub proof fn law_last_errors_are_shown(stderr: Seq<char>)
    ensures
        ({
            let all = text::lines(stderr);
            let shown = tail_lines(all);
            &&& shown.len() <= 5
            &&& shown.len() == all.len() || shown.len() == 5
            &&& shown.len() <= all.len()
            &&& forall|i: int|
                0 <= i < shown.len() ==> #[trigger] shown[i] == all[all.len() - shown.len() + i]
            &&& stderr.len() == 0 ==> stderr_hint(Some(stderr)).len() == 0
            &&& stderr.len() > 0 ==> stderr_hint(Some(stderr)) == "\n  stderr:\n    "@ + text::join(
                shown,
                "\n    "@,
            )
        }),
        stderr_hint(None).len() == 0,
{
    let all = text::lines(stderr);
    if stderr.len() == 0 {
        assert(all.len() == 0);
    }
}

} // verus!
