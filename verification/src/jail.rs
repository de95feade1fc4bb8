//! Where the shim is found, how it is jailed, and what its failure to start
//! means.

use vstd::prelude::*;
use crate::error::{Error, Fault, IoError, IoFault, IoKind};
use crate::path;
use crate::state::VmConfig;
use crate::state;
use crate::text;

verus! {

// ---------------------------------------------------------------------------
// Finding the shim
// ---------------------------------------------------------------------------

/// Name of the shim program.
pub const SHIM_NAME: &'static str = "bux-shim";

/// The shim in each of a list of directories.
pub open spec fn in_dirs(dirs: Seq<Seq<char>>) -> Seq<Seq<char>> {
    Seq::new(dirs.len(), |i: int| path::joined(dirs[i], "bux-shim"@))
}

/// One path, where there is one.
pub open spec fn one(o: Option<Seq<char>>) -> Seq<Seq<char>> {
    match o {
        Some(p) => seq![p],
        None => seq![],
    }
}

/// Places to look for the shim, in order: the override, next to the running
/// program, and the search path.
pub fn shim_candidates(
    override_path: Option<String>,
    sibling: Option<String>,
    path_dirs: &Vec<String>,
) -> (r: Vec<String>)
    ensures
        text::views(r@) == one(text::opt_view(override_path)) + one(text::opt_view(sibling))
            + in_dirs(text::views(path_dirs@)),
{
    let mut out: Vec<String> = Vec::new();
    let ghost a = one(text::opt_view(override_path));
    let ghost b = one(text::opt_view(sibling));
    match override_path {
        Some(p) => {
            out.push(p);
        },
        None => {},
    }
    assert(text::views(out@) =~= a);
    match sibling {
        Some(p) => {
            out.push(p);
        },
        None => {},
    }
    assert(text::views(out@) =~= a + b);
    let ghost all = in_dirs(text::views(path_dirs@));
    let mut i: usize = 0;
    assert(a + b + all.take(0) =~= a + b);
    while i < path_dirs.len()
        invariant
            i <= path_dirs.len(),
            all == in_dirs(text::views(path_dirs@)),
            text::views(out@) == a + b + all.take(i as int),
        decreases path_dirs.len() - i,
    {
        let ghost before = text::views(out@);
        let p = path::join(path_dirs[i].as_str(), SHIM_NAME);
        let ghost pv = p@;
        out.push(p);
        assert(text::views(out@) =~= before.push(pv));
        i = i + 1;
        assert(all.take(i as int) =~= all.take(i - 1).push(pv));
        assert(a + b + all.take(i as int) =~= before.push(pv));
    }
    assert(all.take(i as int) =~= all);
    out
}

/// Position of the first place that holds a file, or the number of places.
pub open spec fn first_file(is_file: Seq<bool>) -> int
    decreases is_file.len(),
{
    if is_file.len() == 0 {
        0
    } else if is_file[0] {
        0
    } else {
        1 + first_file(is_file.drop_first())
    }
}

/// Picks the first candidate that is a file.
pub fn find_shim(candidates: &Vec<String>, is_file: &Vec<bool>) -> (r: Result<String, IoError>)
    requires
        candidates.len() == is_file.len(),
    ensures
        0 <= first_file(is_file@) <= is_file.len(),
        if first_file(is_file@) < is_file.len() {
            r matches Ok(p) && p == candidates@[first_file(is_file@)]
        } else {
            r matches Err(e) && e@ == (IoFault {
                kind: IoKind::NotFound,
                message:
                    "'bux-shim' not found; install it next to the bux binary or in $PATH"@,
            })
        },
{
    let mut i: usize = 0;
    assert(is_file@.skip(0) =~= is_file@);
    while i < is_file.len()
        invariant
            i <= is_file.len(),
            candidates.len() == is_file.len(),
            first_file(is_file@) == i + first_file(is_file@.skip(i as int)),
        decreases is_file.len() - i,
    {
        if is_file[i] {
            assert(is_file@.skip(i as int)[0]);
            return Ok(candidates[i].clone());
        }
        assert(!is_file@.skip(i as int)[0]);
        assert(is_file@.skip(i as int).drop_first() =~= is_file@.skip(i + 1));
        i = i + 1;
    }
    Err(
        IoError::new(
            IoKind::NotFound,
            "'bux-shim' not found; install it next to the bux binary or in $PATH",
        ),
    )
}

/// A library and the second name under which the shim loads it.
#[derive(Debug)]
pub struct DylibAlias {
    /// Name of the library.
    pub source: &'static str,
    /// Its second name.
    pub alias: &'static str,
}

/// The libraries that need a second name next to the shim.
pub fn dylib_aliases() -> (r: Vec<DylibAlias>)
    ensures
        r@.len() == 2,
        r@[0].source@ == "libkrun.dylib"@,
        r@[0].alias@ == "libkrun.1.dylib"@,
        r@[1].source@ == "libkrunfw.dylib"@,
        r@[1].alias@ == "libkrunfw.5.dylib"@,
{
    let mut v: Vec<DylibAlias> = Vec::new();
    v.push(DylibAlias { source: "libkrun.dylib", alias: "libkrun.1.dylib" });
    v.push(DylibAlias { source: "libkrunfw.dylib", alias: "libkrunfw.5.dylib" });
    v
}

/// What is known of a library's second name.
#[derive(Debug, Clone, Copy, PartialEq, Eq, Structural)]
pub enum AliasEvent {
    /// Whether the second name and the library are there.
    Found {
        /// Whether the second name is there.
        alias: bool,
        /// Whether the library is there.
        source: bool,
    },
    /// A link was made.
    Linked,
    /// A link could not be made, because something is there by now.
    LinkExists,
    /// A link could not be made for another reason.
    LinkFailed,
}

/// What to do about a library's second name.
#[derive(Debug, Clone, Copy, PartialEq, Eq, Structural)]
pub enum AliasStep {
    /// Nothing.
    Skip,
    /// Make a symbolic link.
    Link,
    /// Copy the library.
    Copy,
}

/// Gives a library its second name: by a link, or where none can be made by a
/// copy. What is there is left alone, and so is what cannot be helped.
pub fn ensure_shim_dylib_aliases(event: AliasEvent) -> (r: AliasStep)
    ensures
        r == (match event {
            AliasEvent::Found { alias, source } => if !alias && source {
                AliasStep::Link
            } else {
                AliasStep::Skip
            },
            AliasEvent::Linked => AliasStep::Skip,
            AliasEvent::LinkExists => AliasStep::Skip,
            AliasEvent::LinkFailed => AliasStep::Copy,
        }),
{
    match event {
        AliasEvent::Found { alias, source } => {
            if !alias && source {
                AliasStep::Link
            } else {
                AliasStep::Skip
            }
        },
        AliasEvent::Linked => AliasStep::Skip,
        AliasEvent::LinkExists => AliasStep::Skip,
        AliasEvent::LinkFailed => AliasStep::Copy,
    }
}

// ---------------------------------------------------------------------------
// The jail
// ---------------------------------------------------------------------------

/// Which sandbox to use.
#[derive(Debug, Clone, Copy, PartialEq, Eq, Structural)]
pub enum SandboxChoice {
    /// The one that the platform has.
    Detect,
    /// None.
    Noop,
}

/// How to jail a shim.
#[derive(Debug)]
pub struct JailPlan {
    /// Root directory of the machine.
    pub rootfs: Option<String>,
    /// Root disk of the machine.
    pub root_disk: Option<String>,
    /// Files that may only be read.
    pub readonly_paths: Vec<String>,
    /// Directory of the sockets.
    pub socks_dir: String,
    /// Directories shared with the guest.
    pub virtiofs_paths: Vec<String>,
    /// Which sandbox to use.
    pub sandbox: SandboxChoice,
    /// Whether to use Landlock.
    pub landlock: bool,
    /// Whether to go on where a layer is unavailable.
    pub allow_degraded_security: bool,
}

/// Host directories of shared directories.
pub open spec fn share_paths(v: Seq<state::VirtioFs>) -> Seq<Seq<char>> {
    Seq::new(v.len(), |i: int| v[i].path@)
}

/// How to jail the shim of a machine. `readonly_paths` are the files under its
/// root disk.
pub fn jail_plan(config: &VmConfig, socks_dir: &str, readonly_paths: Vec<String>) -> (r: JailPlan)
    ensures
        r.rootfs == config.rootfs,
        r.root_disk == config.root_disk,
        r.readonly_paths == readonly_paths,
        r.socks_dir@ == socks_dir@,
        text::views(r.virtiofs_paths@) == share_paths(config.virtiofs@),
        r.sandbox == (if config.security.jailer {
            SandboxChoice::Detect
        } else {
            SandboxChoice::Noop
        }),
        r.landlock == config.security.landlock,
        r.allow_degraded_security == config.security.allow_degraded,
{
    let mut paths: Vec<String> = Vec::new();
    let mut i: usize = 0;
    while i < config.virtiofs.len()
        invariant
            i <= config.virtiofs.len(),
            text::views(paths@) == share_paths(config.virtiofs@).take(i as int),
        decreases config.virtiofs.len() - i,
    {
        let ghost before = text::views(paths@);
        paths.push(config.virtiofs[i].path.clone());
        assert(text::views(paths@) =~= before.push(config.virtiofs@[i as int].path@));
        i = i + 1;
        assert(text::views(paths@) =~= share_paths(config.virtiofs@).take(i as int));
    }
    assert(share_paths(config.virtiofs@).take(i as int) =~= share_paths(config.virtiofs@));
    JailPlan {
        rootfs: text::clone_opt(&config.rootfs),
        root_disk: text::clone_opt(&config.root_disk),
        readonly_paths,
        socks_dir: socks_dir.to_owned(),
        virtiofs_paths: paths,
        sandbox: if config.security.jailer {
            SandboxChoice::Detect
        } else {
            SandboxChoice::Noop
        },
        landlock: config.security.landlock,
        allow_degraded_security: config.security.allow_degraded,
    }
}

/// Why a jail could not be set up.
#[derive(Debug)]
pub enum JailError {
    /// Landlock is required and unavailable.
    LandlockUnavailable,
    /// Landlock refused its rules.
    Landlock(String),
    /// An input or output failure.
    Io(IoError),
    /// Anything else.
    Other(String),
}

/// What a jail's failure means. A required layer that is missing stays an error
/// of its own: nothing runs without it.
pub open spec fn jail_fault(e: JailError, shim: Seq<char>) -> Fault {
    match e {
        JailError::LandlockUnavailable => Fault::SecurityUnavailable(
            "landlock required but unavailable on this kernel (set SecurityOptions.allow_degraded to proceed)"@,
        ),
        JailError::Landlock(m) => Fault::SecurityUnavailable("landlock ruleset failed: "@ + m@),
        JailError::Io(io) => Fault::Io(
            IoFault {
                kind: io.kind,
                message: "failed to spawn "@ + shim + ": "@ + io.message@,
            },
        ),
        JailError::Other(m) => Fault::Jail(m@),
    }
}

/// Maps the failure of a jail.
pub fn map_jail_error(e: JailError, shim: &str) -> (r: Error)
    ensures
        r@ == jail_fault(e, shim@),
{
    match e {
        JailError::LandlockUnavailable => Error::SecurityUnavailable(
            "landlock required but unavailable on this kernel (set SecurityOptions.allow_degraded to proceed)".to_owned(),
        ),
        JailError::Landlock(m) => Error::SecurityUnavailable(
            text::cat2("landlock ruleset failed: ", m.as_str()),
        ),
        JailError::Io(io) => {
            let head = text::cat3("failed to spawn ", shim, ": ");
            Error::Io(
                IoError { kind: io.kind, message: text::cat2(head.as_str(), io.message.as_str()) },
            )
        },
        JailError::Other(m) => Error::Jail(m),
    }
}

// ---------------------------------------------------------------------------
// Spawning, step by step
// ---------------------------------------------------------------------------

/// A step in spawning a shim.
#[derive(Debug, Clone, Copy, PartialEq, Eq, Structural)]
pub enum ShimStep {
    /// Encode the configuration.
    Encode,
    /// Write it to its file.
    WriteConfig,
    /// Create the file for the shim's standard error.
    CaptureStderr,
    /// Make the pipe through which the shim watches its parent.
    MakeWatchdog,
    /// Find the shim program.
    FindShim,
    /// Start it in its jail.
    Jail,
    /// Remove the configuration file after the jail has failed.
    RemoveConfig,
    /// The shim runs.
    Spawned,
    /// The failed step's error is the result.
    Failed,
}

/// The step after a step that succeeded or failed.
pub open spec fn step_after(step: ShimStep, ok: bool, watch_parent: bool) -> ShimStep {
    match step {
        ShimStep::Encode => if ok {
            ShimStep::WriteConfig
        } else {
            ShimStep::Failed
        },
        ShimStep::WriteConfig => if ok {
            ShimStep::CaptureStderr
        } else {
            ShimStep::Failed
        },
        ShimStep::CaptureStderr => if !ok {
            ShimStep::Failed
        } else if watch_parent {
            ShimStep::MakeWatchdog
        } else {
            ShimStep::FindShim
        },
        ShimStep::MakeWatchdog => if ok {
            ShimStep::FindShim
        } else {
            ShimStep::Failed
        },
        ShimStep::FindShim => if ok {
            ShimStep::Jail
        } else {
            ShimStep::Failed
        },
        ShimStep::Jail => if ok {
            ShimStep::Spawned
        } else {
            ShimStep::RemoveConfig
        },
        ShimStep::RemoveConfig => ShimStep::Failed,
        ShimStep::Spawned => ShimStep::Spawned,
        ShimStep::Failed => ShimStep::Failed,
    }
}

/// The next step in spawning a shim. Only a shim that is watched for gets a
/// watchdog, and a failed jail takes the configuration file with it.
pub fn spawn_shim(step: ShimStep, ok: bool, watch_parent: bool) -> (r: ShimStep)
    ensures
        r == step_after(step, ok, watch_parent),
{
    match step {
        ShimStep::Encode => if ok {
            ShimStep::WriteConfig
        } else {
            ShimStep::Failed
        },
        ShimStep::WriteConfig => if ok {
            ShimStep::CaptureStderr
        } else {
            ShimStep::Failed
        },
        ShimStep::CaptureStderr => if !ok {
            ShimStep::Failed
        } else if watch_parent {
            ShimStep::MakeWatchdog
        } else {
            ShimStep::FindShim
        },
        ShimStep::MakeWatchdog => if ok {
            ShimStep::FindShim
        } else {
            ShimStep::Failed
        },
        ShimStep::FindShim => if ok {
            ShimStep::Jail
        } else {
            ShimStep::Failed
        },
        ShimStep::Jail => if ok {
            ShimStep::Spawned
        } else {
            ShimStep::RemoveConfig
        },
        ShimStep::RemoveConfig => ShimStep::Failed,
        ShimStep::Spawned => ShimStep::Spawned,
        ShimStep::Failed => ShimStep::Failed,
    }
}

/// The step after a run of outcomes.
pub open spec fn steps_after(outcomes: Seq<bool>, watch_parent: bool) -> ShimStep
    decreases outcomes.len(),
{
    if outcomes.len() == 0 {
        ShimStep::Encode
    } else {
        step_after(steps_after(outcomes.drop_last(), watch_parent), outcomes.last(), watch_parent)
    }
}

/// A shim is never spawned past a failed step, and a watchdog is made for
/// watched shims only.
pub proof fn law_spawn_steps(outcomes: Seq<bool>, watch_parent: bool)
    ensures
        steps_after(outcomes, watch_parent) is Spawned ==> outcomes.len() >= 5 && forall|i: int|
            0 <= i < (if watch_parent {
                6int
            } else {
                5int
            }) ==> #[trigger] outcomes[i],
        steps_after(outcomes, watch_parent) is MakeWatchdog ==> watch_parent,
    decreases outcomes.len(),
{
    lemma_spawn_steps(outcomes, watch_parent);
}

/// How many outcomes a step has behind it.
spec fn depth(step: ShimStep, watch_parent: bool) -> int {
    let w = if watch_parent {
        1int
    } else {
        0int
    };
    match step {
        ShimStep::Encode => 0,
        ShimStep::WriteConfig => 1,
        ShimStep::CaptureStderr => 2,
        ShimStep::MakeWatchdog => 3,
        ShimStep::FindShim => 3 + w,
        ShimStep::Jail => 4 + w,
        ShimStep::Spawned => 5 + w,
        _ => 0,
    }
}

proof fn lemma_spawn_steps(outcomes: Seq<bool>, watch_parent: bool)
    ensures
        ({
            let step = steps_after(outcomes, watch_parent);
            &&& outcomes.len() >= depth(step, watch_parent)
            &&& forall|i: int| 0 <= i < depth(step, watch_parent) ==> #[trigger] outcomes[i]
            &&& !(step is Spawned) && !(step is Failed) && !(step is RemoveConfig)
                ==> outcomes.len() == depth(step, watch_parent)
            &&& step is MakeWatchdog ==> watch_parent
        }),
    decreases outcomes.len(),
{
    if outcomes.len() > 0 {
        let before = outcomes.drop_last();
        lemma_spawn_steps(before, watch_parent);
        let step = steps_after(outcomes, watch_parent);
        let prev = steps_after(before, watch_parent);
        assert forall|i: int| 0 <= i < depth(step, watch_parent) implies #[trigger] outcomes[i] by {
            if i < depth(prev, watch_parent) {
                assert(before[i]);
            }
        }
    }
}

/// A process id as a signed number: ids beyond its range come out negative.
pub fn signed_pid(id: u32) -> (r: i32)
    ensures
        r == (if id < 0x8000_0000 {
            id as int
        } else {
            id - 0x1_0000_0000
        }),
{
    if id < 0x8000_0000 {
        id as i32
    } else {
        (id as i64 - 0x1_0000_0000) as i32
    }
}

/// The first place that holds a file is taken: it holds one, and no place
/// before it does. Where none does, none is taken.
pub proof fn law_first_file_is_taken(is_file: Seq<bool>)
    ensures
        0 <= first_file(is_file) <= is_file.len(),
        first_file(is_file) < is_file.len() ==> is_file[first_file(is_file)],
        forall|j: int| 0 <= j < first_file(is_file) ==> !(#[trigger] is_file[j]),
    decreases is_file.len(),
{
    if is_file.len() > 0 && !is_file[0] {
        let rest = is_file.drop_first();
        law_first_file_is_taken(rest);
        assert forall|j: int| 0 <= j < first_file(is_file) implies !(#[trigger] is_file[j]) by {
            if j > 0 {
                assert(rest[j - 1] == is_file[j]);
            }
        }
    }
}

/// A missing layer of the jail is told apart from every other failure, a failure
/// of the host keeps its kind, and what the jail or the host said is kept to the
/// end.
pub proof fn law_jail_failures_keep_what_was_said(e: JailError, shim: Seq<char>)
    ensures
        jail_fault(e, shim) is SecurityUnavailable <==> e is LandlockUnavailable || e is Landlock,
        e matches JailError::Landlock(m) ==> (jail_fault(e, shim) matches Fault::SecurityUnavailable(
            t,
        ) && text::ends_with(t, m@)),
        e matches JailError::Io(io) ==> (jail_fault(e, shim) matches Fault::Io(f) && f.kind
            == io.kind && text::ends_with(f.message, io.message@) && text::holds(f.message, shim)),
        e matches JailError::Other(m) ==> jail_fault(e, shim) == Fault::Jail(m@),
{
    match e {
        JailError::Landlock(m) => {
            let t = "landlock ruleset failed: "@ + m@;
            assert(t.skip(t.len() - m@.len()) =~= m@);
        },
        JailError::Io(io) => {
            let t = "failed to spawn "@ + shim + ": "@ + io.message@;
            assert(t.skip(t.len() - io.message@.len()) =~= io.message@);
            assert(t =~= "failed to spawn "@ + shim + (": "@ + io.message@));
        },
        _ => {},
    }
}

/// A step that succeeds leads on: the configuration is encoded and written, the
/// shim's errors are caught, a watchdog is made exactly where the parent is to
/// be watched, the shim is found and jailed, and then it runs.
pub proof fn law_steps_lead_to_the_shim(watch_parent: bool, outcomes: Seq<bool>)
    requires
        forall|i: int| 0 <= i < outcomes.len() ==> #[trigger] outcomes[i],
        outcomes.len() <= 6,
    ensures
        ({
            let step = steps_after(outcomes, watch_parent);
            let n = outcomes.len();
            &&& n == 0 ==> step is Encode
            &&& n == 1 ==> step is WriteConfig
            &&& n == 2 ==> step is CaptureStderr
            &&& watch_parent && n == 3 ==> step is MakeWatchdog
            &&& watch_parent && n == 4 ==> step is FindShim
            &&& watch_parent && n == 5 ==> step is Jail
            &&& watch_parent && n == 6 ==> step is Spawned
            &&& !watch_parent && n == 3 ==> step is FindShim
            &&& !watch_parent && n == 4 ==> step is Jail
            &&& !watch_parent && n >= 5 ==> step is Spawned
        }),
    decreases outcomes.len(),
{
    if outcomes.len() > 0 {
        law_steps_lead_to_the_shim(watch_parent, outcomes.drop_last());
        assert(outcomes[outcomes.len() - 1]);
    }
}

/// A step that fails ends the start, and where the configuration was to be used
/// by the jail it is removed first.
pub proof fn law_failed_step_ends_the_start(step: ShimStep, watch_parent: bool)
    ensures
        step is Jail ==> step_after(step, false, watch_parent) is RemoveConfig,
        !(step is Jail || step is Spawned) ==> step_after(step, false, watch_parent) is Failed,
        step is RemoveConfig ==> step_after(step, true, watch_parent) is Failed,
{
}

/// The shim is looked for in every directory of the search path, in order, under
/// its own name.
pub proof fn law_shim_is_looked_for_by_name(dirs: Seq<Seq<char>>, p: Option<Seq<char>>)
    ensures
        in_dirs(dirs).len() == dirs.len(),
        forall|i: int|
            0 <= i < dirs.len() ==> #[trigger] in_dirs(dirs)[i] == path::joined(
                dirs[i],
                "bux-shim"@,
            ),
        p is None ==> one(p).len() == 0,
        p is Some ==> one(p) == seq![p->0],
{
}

/// The jail is told the host's directory of each share, in order.
pub proof fn law_jail_is_told_the_shared_paths(v: Seq<state::VirtioFs>)
    ensures
        share_paths(v).len() == v.len(),
        forall|i: int| 0 <= i < v.len() ==> #[trigger] share_paths(v)[i] == v[i].path@,
{
}

} // verus!
