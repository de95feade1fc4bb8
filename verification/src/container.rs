//! The primary container, in which commands of the guest run.

use vstd::prelude::*;
use crate::error;
use crate::error::{IoError, IoFault, IoKind};
use crate::path;
use crate::text;

verus! {

/// Directory of everything that belongs to containers.
pub const RUN_BUX: &'static str = "/run/bux";

/// Name of the primary container.
pub const PRIMARY_ID: &'static str = "primary";

/// The primary container.
#[derive(Debug)]
pub struct PrimaryContainer {
    /// Process id of its init.
    pub init_pid: i32,
    /// Where its state is kept.
    pub state_root: String,
    /// Its bundle.
    pub bundle_path: String,
}

/// Holds the primary container once it runs. It is set once.
#[derive(Debug)]
pub struct Primary {
    container: Option<PrimaryContainer>,
}

impl View for Primary {
    type V = Option<PrimaryContainer>;

    closed spec fn view(&self) -> Option<PrimaryContainer> {
        self.container
    }
}

/// Refusal of a command that has to run in a container where there is none.
pub open spec fn no_container() -> IoFault {
    IoFault {
        kind: IoKind::Other,
        message: "in_container=true requested but Phase B primary container is not available"@,
    }
}

/// Whether a command runs in the container: as it asks for, and else wherever
/// there is one.
pub open spec fn uses_container(ready: bool, in_container: Option<bool>) -> Result<bool, IoFault> {
    match in_container {
        Some(true) => if ready {
            Ok(true)
        } else {
            Err(no_container())
        },
        Some(false) => Ok(false),
        None => Ok(ready),
    }
}

/// Arguments that enter the namespaces of a process and run a command there.
pub open spec fn entering(pid: i32, cmd: Seq<char>, args: Seq<Seq<char>>) -> Seq<Seq<char>> {
    seq!["-t"@, text::dec_int(pid as int), "-m"@, "-u"@, "-i"@, "-p"@, "--"@, cmd] + args
}

/// Program and arguments for a command.
pub open spec fn exec_argv(
    primary: Option<PrimaryContainer>,
    cmd: Seq<char>,
    args: Seq<Seq<char>>,
    in_container: Option<bool>,
) -> Result<(Seq<char>, Seq<Seq<char>>), IoFault> {
    match uses_container(primary is Some, in_container) {
        Err(e) => Err(e),
        Ok(false) => Ok((cmd, args)),
        Ok(true) => Ok(("nsenter"@, entering(primary->0.init_pid, cmd, args))),
    }
}

/// What to do about the primary container at boot.
#[derive(Debug)]
pub enum PrimaryStep {
    /// Start it.
    Start,
    /// Only report this.
    Report(String),
}

impl Primary {
    /// No container yet.
    pub fn new() -> (r: Self)
        ensures
            r@ is None,
    {
        Primary { container: None }
    }

    /// Takes in how starting the primary container went, and says what to
    /// report. A failure is no reason to stop: commands then run without a
    /// container. A second container does not replace the first.
    pub fn started(&mut self, outcome: Result<PrimaryContainer, String>) -> (r: String)
        ensures
            match outcome {
                Ok(pc) => if old(self)@ is Some {
                    final(self)@ == old(self)@ && r@
                        == "[bux-guest] primary container already set"@
                } else {
                    final(self)@ == Some(pc) && r@
                        == "[bux-guest] Phase B primary container ready (init_pid="@
                        + text::dec_int(pc.init_pid as int) + ")"@
                },
                Err(m) => final(self)@ == old(self)@ && r@
                    == "[bux-guest] Phase B primary container failed: "@ + m@
                    + "; continuing Phase A"@,
            },
    {
        match outcome {
            Ok(pc) => {
                if self.container.is_some() {
                    "[bux-guest] primary container already set".to_owned()
                } else {
                    let pid = text::dec_i64(pc.init_pid as i64);
                    self.container = Some(pc);
                    text::cat3(
                        "[bux-guest] Phase B primary container ready (init_pid=",
                        pid.as_str(),
                        ")",
                    )
                }
            },
            Err(m) => text::cat3(
                "[bux-guest] Phase B primary container failed: ",
                m.as_str(),
                "; continuing Phase A",
            ),
        }
    }
}

/// Name of how commands are isolated.
pub fn workload_isolation(primary: &Primary) -> (r: &'static str)
    ensures
        r@ == (if primary@ is Some {
            "phase_b"@
        } else {
            "phase_a"@
        }),
{
    if primary.container.is_some() {
        "phase_b"
    } else {
        "phase_a"
    }
}

/// Whether the primary container runs.
pub fn phase_b_ready(primary: &Primary) -> (r: bool)
    ensures
        r == (primary@ is Some),
{
    primary.container.is_some()
}

/// Whether a command runs in the container.
pub fn should_use_container(primary: &Primary, in_container: Option<bool>) -> (r: Result<bool, IoError>)
    ensures
        error::outcome(r) == uses_container(primary@ is Some, in_container),
{
    match in_container {
        Some(true) => {
            if phase_b_ready(primary) {
                Ok(true)
            } else {
                Err(
                    IoError::other(
                        "in_container=true requested but Phase B primary container is not available",
                    ),
                )
            }
        },
        Some(false) => Ok(false),
        None => Ok(phase_b_ready(primary)),
    }
}

/// Program and arguments for a command, which enter the container where the
/// command runs in it.
pub fn resolve_exec_argv(
    primary: &Primary,
    cmd: &str,
    args: &Vec<String>,
    in_container: Option<bool>,
) -> (r: Result<(String, Vec<String>), IoError>)
    ensures
        match exec_argv(primary@, cmd@, text::views(args@), in_container) {
            Ok((program, argv)) => r matches Ok((p, a)) && p@ == program && text::views(a@)
                == argv,
            Err(f) => r matches Err(e) && e@ == f,
        },
{
    let inside = match should_use_container(primary, in_container) {
        Ok(b) => b,
        Err(e) => {
            return Err(e);
        },
    };
    if !inside {
        return Ok((cmd.to_owned(), text::clone_strings(args)));
    }
    match &primary.container {
        None => Err(IoError::other("primary container not ready")),
        Some(pc) => {
            let mut v: Vec<String> = Vec::new();
            v.push("-t".to_owned());
            v.push(text::dec_i64(pc.init_pid as i64));
            v.push("-m".to_owned());
            v.push("-u".to_owned());
            v.push("-i".to_owned());
            v.push("-p".to_owned());
            v.push("--".to_owned());
            v.push(cmd.to_owned());
            let ghost head = seq![
                "-t"@,
                text::dec_int(pc.init_pid as int),
                "-m"@,
                "-u"@,
                "-i"@,
                "-p"@,
                "--"@,
                cmd@,
            ];
            assert(text::views(v@) =~= head);
            let ghost all = text::views(args@);
            let mut i: usize = 0;
            assert(head + all.take(0) =~= head);
            while i < args.len()
                invariant
                    i <= args.len(),
                    all == text::views(args@),
                    text::views(v@) == head + all.take(i as int),
                decreases args.len() - i,
            {
                let ghost before = text::views(v@);
                v.push(args[i].clone());
                assert(text::views(v@) =~= before.push(args@[i as int]@));
                assert(head + all.take(i + 1) =~= before.push(all[i as int]));
                i = i + 1;
            }
            assert(all.take(args.len() as int) =~= all);
            Ok(("nsenter".to_owned(), v))
        },
    }
}

/// Whether the primary container is to be started at boot.
pub fn try_start_primary(enabled: bool) -> (r: PrimaryStep)
    ensures
        enabled ==> r is Start,
        !enabled ==> (r matches PrimaryStep::Report(m) && m@
            == "[bux-guest] primary container disabled by boot config"@),
{
    if enabled {
        PrimaryStep::Start
    } else {
        PrimaryStep::Report("[bux-guest] primary container disabled by boot config".to_owned())
    }
}

/// Where the primary container's state and bundle are.
pub fn start_primary() -> (r: (String, String))
    ensures
        r.0@ == path::joined(RUN_BUX@, "state"@),
        r.1@ == path::joined(path::joined(RUN_BUX@, "containers"@), PRIMARY_ID@),
{
    let containers = path::join(RUN_BUX, "containers");
    (path::join(RUN_BUX, "state"), path::join(containers.as_str(), PRIMARY_ID))
}

/// The primary container that was started. One without an init is a failure.
pub fn started_container(pid: Option<i32>, state_root: String, bundle_path: String) -> (r: Result<
    PrimaryContainer,
    IoError,
>)
    ensures
        match pid {
            Some(p) => r == Ok::<PrimaryContainer, IoError>(
                PrimaryContainer { init_pid: p, state_root, bundle_path },
            ),
            None => r matches Err(e) && e@ == (IoFault {
                kind: IoKind::Other,
                message: "primary container has no init pid after start"@,
            }),
        },
{
    match pid {
        Some(init_pid) => Ok(PrimaryContainer { init_pid, state_root, bundle_path }),
        None => Err(IoError::other("primary container has no init pid after start")),
    }
}

/// Programs that can be the init of a container, in order of preference.
pub open spec fn pause_programs() -> Seq<Seq<char>> {
    seq!["/usr/bin/sleep"@, "/bin/sleep"@, "/usr/bin/pause"@, "/bin/pause"@, "/bin/busybox"@]
}

/// Programs that can be the init of a container, in order of preference.
pub fn pause_candidates() -> (r: Vec<String>)
    ensures
        text::views(r@) == pause_programs(),
{
    let mut v: Vec<String> = Vec::new();
    v.push("/usr/bin/sleep".to_owned());
    v.push("/bin/sleep".to_owned());
    v.push("/usr/bin/pause".to_owned());
    v.push("/bin/pause".to_owned());
    v.push("/bin/busybox".to_owned());
    assert(text::views(v@) =~= pause_programs());
    v
}

/// Picks the init of a container: the first candidate that is a file. `is_file`
/// answers for each candidate in order.
pub fn find_pause_binary(is_file: &Vec<bool>) -> (r: Result<String, IoError>)
    requires
        is_file@.len() == pause_programs().len(),
    ensures
        match r {
            Ok(p) => exists|i: int|
                0 <= i < is_file@.len() && #[trigger] is_file@[i] && p@ == pause_programs()[i] && (
                forall|j: int| 0 <= j < i ==> !is_file@[j]),
            Err(e) => (forall|j: int| 0 <= j < is_file@.len() ==> !is_file@[j]) && e@ == (IoFault {
                kind: IoKind::Other,
                message: "no pause/sleep binary found for primary container init"@,
            }),
        },
{
    let candidates = pause_candidates();
    let mut i: usize = 0;
    while i < is_file.len()
        invariant
            i <= is_file.len(),
            is_file@.len() == pause_programs().len(),
            text::views(candidates@) == pause_programs(),
            forall|j: int| 0 <= j < i ==> !is_file@[j],
        decreases is_file.len() - i,
    {
        assert(text::views(candidates@).len() == candidates@.len());
        if is_file[i] {
            let p = candidates[i].clone();
            assert(text::views(candidates@)[i as int] == p@);
            assert(is_file@[i as int]);
            return Ok(p);
        }
        i = i + 1;
    }
    Err(IoError::other("no pause/sleep binary found for primary container init"))
}

/// Command that keeps a container alive: `sleep` needs to be told how long, and
/// `busybox` which program to be.
pub open spec fn pause_command(program: Seq<char>) -> Seq<Seq<char>> {
    if text::ends_with(program, "sleep"@) {
        seq![program, "infinity"@]
    } else if text::ends_with(program, "busybox"@) {
        seq![program, "sleep"@, "infinity"@]
    } else {
        seq![program]
    }
}

/// Command that keeps a container alive.
pub fn pause_args(program: &str) -> (r: Vec<String>)
    ensures
        text::views(r@) == pause_command(program@),
{
    let mut v: Vec<String> = Vec::new();
    v.push(program.to_owned());
    if text::has_suffix(program, "sleep") {
        v.push("infinity".to_owned());
    } else if text::has_suffix(program, "busybox") {
        v.push("sleep".to_owned());
        v.push("infinity".to_owned());
    }
    assert(text::views(v@) =~= pause_command(program@));
    v
}

/// A command that asks for the container never runs outside it, and one that
/// asks to stay outside never runs in it.
pub proof fn law_container_choice_is_kept(
    primary: Option<PrimaryContainer>,
    cmd: Seq<char>,
    args: Seq<Seq<char>>,
)
    ensures
        exec_argv(primary, cmd, args, Some(true)) matches Ok((p, _)) ==> primary is Some && p
            == "nsenter"@,
        primary is None ==> exec_argv(primary, cmd, args, Some(true)) is Err,
        exec_argv(primary, cmd, args, Some(false)) == Ok::<
            (Seq<char>, Seq<Seq<char>>),
            IoFault,
        >((cmd, args)),
        exec_argv(primary, cmd, args, None) is Ok,
{
}

/// The command and its arguments come last and unchanged, whether or not a
/// container is entered.
pub proof fn law_entering_keeps_the_command(pid: i32, cmd: Seq<char>, args: Seq<Seq<char>>)
    ensures
        entering(pid, cmd, args).skip(7) == seq![cmd] + args,
{
    assert(entering(pid, cmd, args).skip(7) =~= seq![cmd] + args);
}

/// A command in the container is the given one, word for word, run in the
/// mounts, name, messages and processes of the container's first process;
/// outside it is the given one as it is.
pub proof fn law_command_is_run_as_given(
    primary: Option<PrimaryContainer>,
    cmd: Seq<char>,
    args: Seq<Seq<char>>,
    in_container: Option<bool>,
)
    ensures
        exec_argv(primary, cmd, args, in_container) matches Ok((program, words)) ==> {
            let inside = primary is Some && in_container != Some(false);
            &&& !inside ==> program == cmd && words == args
            &&& inside ==> {
                &&& program == "nsenter"@
                &&& words.len() == args.len() + 8
                &&& words[0] == "-t"@
                &&& words[1] == text::dec_int(primary->0.init_pid as int)
                &&& words.subrange(2, 7) == seq!["-m"@, "-u"@, "-i"@, "-p"@, "--"@]
                &&& words[7] == cmd
                &&& forall|i: int| 0 <= i < args.len() ==> #[trigger] words[i + 8] == args[i]
            }
        },
        exec_argv(primary, cmd, args, in_container) is Err <==> in_container == Some(true)
            && primary is None,
{
    if primary is Some {
        let words = entering(primary->0.init_pid, cmd, args);
        assert(words.subrange(2, 7) =~= seq!["-m"@, "-u"@, "-i"@, "-p"@, "--"@]);
    }
}

/// Whatever keeps a container alive is started by its own path, and sleeps
/// without end where it has to be told so.
pub proof fn law_pause_never_ends(program: Seq<char>)
    ensures
        pause_command(program)[0] == program,
        text::ends_with(program, "sleep"@) ==> pause_command(program).len() == 2
            && pause_command(program)[1] == "infinity"@,
        text::ends_with(program, "busybox"@) ==> pause_command(program).len() == 3
            && pause_command(program)[1] == "sleep"@ && pause_command(program)[2] == "infinity"@,
        !text::ends_with(program, "sleep"@) && !text::ends_with(program, "busybox"@)
            ==> pause_command(program).len() == 1,
{
    reveal_strlit("sleep");
    reveal_strlit("busybox");
    if text::ends_with(program, "sleep"@) && text::ends_with(program, "busybox"@) {
        let n = program.len();
        assert(program.skip(n - 5)[4] == program[n - 1]);
        assert(program.skip(n - 7)[6] == program[n - 1]);
        assert("sleep"@[4] == 'p');
        assert("busybox"@[6] == 'x');
    }
}

/// Programs that can keep a container alive are named by their whole path; those
/// that sleep are preferred to those that pause, and either to `busybox`, which
/// comes last.
pub proof fn law_sleeping_is_preferred(i: int)
    requires
        0 <= i < pause_programs().len(),
    ensures
        pause_programs().len() == 5,
        text::starts_with(pause_programs()[i], "/"@),
        i < 2 <==> text::ends_with(pause_programs()[i], "/sleep"@),
        i == 2 || i == 3 <==> text::ends_with(pause_programs()[i], "/pause"@),
        i == 4 <==> text::ends_with(pause_programs()[i], "/busybox"@),
        i == 0 || i == 2 <==> text::starts_with(pause_programs()[i], "/usr/bin/"@),
{
    reveal_strlit("/usr/bin/sleep");
    reveal_strlit("/bin/sleep");
    reveal_strlit("/usr/bin/pause");
    reveal_strlit("/bin/pause");
    reveal_strlit("/bin/busybox");
    reveal_strlit("/");
    reveal_strlit("/sleep");
    reveal_strlit("/pause");
    reveal_strlit("/busybox");
    reveal_strlit("/usr/bin/");
    let p = pause_programs()[i];
    let n = p.len();
    assert(p.take(1) =~= "/"@);
    if i == 0 || i == 2 {
        assert(p.take(9) =~= "/usr/bin/"@);
    } else {
        assert(p[1] == 'b');
        assert(n >= 9 ==> p.take(9)[1] == 'b');
        assert("/usr/bin/"@[1] == 'u');
    }
    if i < 2 {
        assert(p.skip(n - 6) =~= "/sleep"@);
    } else if i < 4 {
        assert(p.skip(n - 6) =~= "/pause"@);
    } else {
        assert(p.skip(n - 8) =~= "/busybox"@);
    }
    assert(p.skip(n - 6)[5] == p[n - 1]);
    assert(n >= 8 ==> p.skip(n - 8)[7] == p[n - 1]);
    assert("/sleep"@[5] == 'p');
    assert("/pause"@[5] == 'e');
    assert("/busybox"@[7] == 'x');
}

} // verus!
