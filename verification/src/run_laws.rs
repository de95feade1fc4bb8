//! What a machine that is run from the command line takes from its arguments
//! and from its image.

use vstd::prelude::*;
use crate::run::{
    draft_fault, drafts, first_bad, launch_fault, launches, BootRoot, Launch, LaunchMode, RunArgs,
    RunDraft, RunFault,
};
use crate::secrets;
use crate::state::VirtioFs;
use crate::text;
use crate::vm::ImageConfig;

verus! {

proof fn lemma_views(v: Seq<String>)
    ensures
        text::views(v).len() == v.len(),
        forall|i: int| 0 <= i < v.len() ==> #[trigger] text::views(v)[i] == v[i]@,
{
}

/// An entry point stands first in the command and the arguments follow it, all
/// of them and nothing else: no word of the image's own command is taken, also
/// where there are no arguments.
pub proof fn law_entry_point_replaces_the_image_command(
    a: RunArgs,
    root: BootRoot,
    image: Option<ImageConfig>,
    file_env: Seq<Seq<char>>,
    d: RunDraft,
)
    requires
        drafts(a, root, image, file_env, d),
        a.entrypoint is Some,
    ensures
        d.cmd@.len() == a.command@.len() + 1,
        d.cmd@[0]@ == a.entrypoint->0@,
        forall|i: int| 0 <= i < a.command@.len() ==> (#[trigger] d.cmd@[i + 1])@ == a.command@[i]@,
{
    lemma_views(d.cmd@);
    lemma_views(a.command@);
    assert forall|i: int| 0 <= i < a.command@.len() implies (#[trigger] d.cmd@[i + 1])@
        == a.command@[i]@ by {
        assert(text::views(d.cmd@)[i + 1] == text::views(a.command@)[i]);
    }
    assert(text::views(d.cmd@)[0] == a.entrypoint->0@);
}

/// With an entry point or with arguments, the command is the same whatever the
/// image.
pub proof fn law_given_command_does_not_depend_on_the_image(
    a: RunArgs,
    root: BootRoot,
    one: Option<ImageConfig>,
    two: Option<ImageConfig>,
    file_env: Seq<Seq<char>>,
    d: RunDraft,
    e: RunDraft,
)
    requires
        a.entrypoint is Some || a.command@.len() > 0,
        drafts(a, root, one, file_env, d),
        drafts(a, root, two, file_env, e),
    ensures
        d.cmd@.len() == e.cmd@.len(),
        forall|i: int| 0 <= i < d.cmd@.len() ==> (#[trigger] d.cmd@[i])@ == e.cmd@[i]@,
{
    lemma_views(d.cmd@);
    lemma_views(e.cmd@);
    lemma_views(a.command@);
    assert forall|i: int| 0 <= i < d.cmd@.len() implies (#[trigger] d.cmd@[i])@ == e.cmd@[i]@ by {
        assert(text::views(d.cmd@)[i] == text::views(e.cmd@)[i]);
    }
}

/// Without an entry point the arguments are the command; where there are none,
/// the image's command is, and an image without one leaves none.
pub proof fn law_command_without_entry_point(
    a: RunArgs,
    root: BootRoot,
    image: Option<ImageConfig>,
    file_env: Seq<Seq<char>>,
    d: RunDraft,
)
    requires
        drafts(a, root, image, file_env, d),
        a.entrypoint is None,
    ensures
        a.command@.len() > 0 ==> d.cmd@.len() == a.command@.len() && forall|i: int|
            0 <= i < a.command@.len() ==> (#[trigger] d.cmd@[i])@ == a.command@[i]@,
        a.command@.len() == 0 && image is None ==> d.cmd@.len() == 0,
        a.command@.len() == 0 && image is Some ==> d.cmd@.len() == image->0.command@.len()
            && forall|i: int|
            0 <= i < d.cmd@.len() ==> (#[trigger] d.cmd@[i])@ == image->0.command@[i]@,
{
    lemma_views(d.cmd@);
    lemma_views(a.command@);
    if image is Some {
        lemma_views(image->0.command@);
    }
    assert forall|i: int| 0 <= i < d.cmd@.len() implies (#[trigger] d.cmd@[i])@ == text::views(
        d.cmd@,
    )[i] by {}
}

/// The environment is that of the image, then that of the files, then that of
/// the arguments, each whole and in order: what comes later has the last word.
pub proof fn law_environment_comes_in_layers(
    a: RunArgs,
    root: BootRoot,
    image: Option<ImageConfig>,
    file_env: Seq<Seq<char>>,
    d: RunDraft,
)
    requires
        drafts(a, root, image, file_env, d),
    ensures
        ({
            let of_image: Seq<String> = if image is Some && image->0.env is Some {
                image->0.env->0@
            } else {
                seq![]
            };
            let n = of_image.len() as int;
            let m = n + file_env.len();
            &&& d.env@.len() == m + a.env@.len()
            &&& forall|i: int| 0 <= i < n ==> (#[trigger] d.env@[i])@ == of_image[i]@
            &&& forall|i: int| n <= i < m ==> (#[trigger] d.env@[i])@ == file_env[i - n]
            &&& forall|i: int|
                m <= i < m + a.env@.len() ==> (#[trigger] d.env@[i])@ == a.env@[i - m]@
        }),
{
    lemma_views(d.env@);
    lemma_views(a.env@);
    if image is Some && image->0.env is Some {
        lemma_views(image->0.env->0@);
    }
    assert forall|i: int| 0 <= i < d.env@.len() implies (#[trigger] d.env@[i])@ == text::views(
        d.env@,
    )[i] by {}
}

/// A working directory that is given is the command's, and an empty one means
/// none; where none is given, the image's is, unless it is empty.
pub proof fn law_given_directory_comes_first(
    a: RunArgs,
    root: BootRoot,
    image: Option<ImageConfig>,
    file_env: Seq<Seq<char>>,
    d: RunDraft,
)
    requires
        drafts(a, root, image, file_env, d),
    ensures
        d.workdir is Some ==> d.workdir->0@.len() > 0,
        a.workdir is Some && a.workdir->0@.len() > 0 ==> d.workdir is Some && d.workdir->0@
            == a.workdir->0@,
        a.workdir is Some && a.workdir->0@.len() == 0 ==> d.workdir is None,
        a.workdir is None && image is Some && image->0.working_dir is Some
            && image->0.working_dir->0@.len() > 0 ==> d.workdir is Some && d.workdir->0@
            == image->0.working_dir->0@,
        a.workdir is None && (image is None || image->0.working_dir is None) ==> d.workdir is None,
{
}

/// A machine that is run has each setting from the argument of that name, boots
/// from what it was given to boot from, and has nothing else set. What holds of
/// the draft holds of the machine that is launched from it, whose shared
/// directories are those of its volumes.
pub proof fn law_launched_machine_has_each_setting(
    a: RunArgs,
    root: BootRoot,
    image: Option<ImageConfig>,
    file_env: Seq<Seq<char>>,
    d: RunDraft,
    shares: Vec<VirtioFs>,
    l: Launch,
)
    requires
        drafts(a, root, image, file_env, d),
        launches(d, shares, l),
    ensures
        l.builder.vcpus == Some(a.cpus),
        l.builder.ram_mib == Some(a.memory),
        l.builder.log_level == Some(a.log_level),
        root matches BootRoot::BaseDisk(p) ==> l.builder.base_disk == Some(p)
            && l.builder.root is None,
        root matches BootRoot::Directory(p) ==> l.builder.root == Some(p)
            && l.builder.base_disk is None,
        l.builder.ports@ == a.publish@,
        l.builder.allow_net@ == a.allow_net@,
        l.builder.virtio_net == Some(a.network@ != "none"@),
        l.builder.virtiofs == shares,
        l.builder.rlimits@ == a.ulimit@,
        l.builder.nested_virt is Some == a.nested_virt,
        a.nested_virt ==> l.builder.nested_virt == Some(true),
        l.builder.snd_device is Some == a.snd,
        a.snd ==> l.builder.snd_device == Some(true),
        l.builder.console_output == a.console_output,
        d.volumes@ == a.volume@,
        l.image == a.image,
        l.name == a.name,
        l.auto_remove == a.rm,
        l.mode is Detached == a.detach,
{
}

/// A machine in the foreground runs the draft's command word for word, with the
/// user, terminal and input of the arguments, and runs none exactly where the
/// draft has none. A machine in the background runs none.
pub proof fn law_launched_command_is_the_drafted_one(
    a: RunArgs,
    root: BootRoot,
    image: Option<ImageConfig>,
    file_env: Seq<Seq<char>>,
    d: RunDraft,
    shares: Vec<VirtioFs>,
    l: Launch,
)
    requires
        drafts(a, root, image, file_env, d),
        launches(d, shares, l),
    ensures
        l.mode is Detached ==> d.cmd@.len() == 0,
        l.mode matches LaunchMode::Foreground { request, interactive } ==> {
            &&& interactive == a.interactive
            &&& request is Some == (d.cmd@.len() > 0)
            &&& request matches Some(e) ==> {
                &&& e.cmd@ == d.cmd@[0]@
                &&& e.args@.len() == d.cmd@.len() - 1
                &&& forall|i: int|
                    0 <= i < e.args@.len() ==> (#[trigger] e.args@[i])@ == d.cmd@[i + 1]@
                &&& e.env == d.env
                &&& e.workdir == d.workdir
                &&& e.user == a.user
                &&& e.interactive == a.interactive
                &&& e.tty == a.tty
            }
        },
{
    match l.mode {
        LaunchMode::Foreground { request, interactive } => {
            if request is Some {
                let e = request->0;
                lemma_views(e.args@);
                lemma_views(d.cmd@);
                assert(text::views(e.args@).len() == d.cmd@.len() - 1);
                assert forall|i: int| 0 <= i < e.args@.len() implies (#[trigger] e.args@[i])@
                    == d.cmd@[i + 1]@ by {
                    assert(text::views(e.args@)[i] == text::views(d.cmd@)[i + 1]);
                }
            }
        },
        LaunchMode::Detached => {},
    }
}

proof fn lemma_first_bad(ok: Seq<bool>)
    ensures
        0 <= first_bad(ok) <= ok.len(),
        first_bad(ok) < ok.len() ==> !ok[first_bad(ok)],
        forall|j: int| 0 <= j < first_bad(ok) ==> #[trigger] ok[j],
    decreases ok.len(),
{
    if ok.len() > 0 && ok[0] {
        let rest = ok.skip(1);
        lemma_first_bad(rest);
        assert forall|j: int| 0 <= j < first_bad(ok) implies #[trigger] ok[j] by {
            if j > 0 {
                assert(rest[j - 1] == ok[j]);
            }
        }
    }
}

/// Arguments are refused for the first port that is wrong, by its text; else for
/// secrets without a network; else for a secret that is wrong; and for nothing
/// else.
pub proof fn law_what_is_refused(a: RunArgs, ports_ok: Seq<bool>)
    requires
        ports_ok.len() == a.publish@.len(),
    ensures
        forall|k: int|
            0 <= k < ports_ok.len() && !(#[trigger] ports_ok[k]) && (forall|j: int|
                0 <= j < k ==> #[trigger] ports_ok[j]) ==> draft_fault(a, ports_ok) == Some(
                RunFault::Publish(a.publish@[k]@),
            ),
        (forall|j: int| 0 <= j < ports_ok.len() ==> #[trigger] ports_ok[j]) ==> {
            let found = secrets::secrets_of(text::views(a.secrets@), text::views(a.allow_net@));
            &&& a.secrets@.len() > 0 && a.network@ == "none"@ ==> draft_fault(a, ports_ok) == Some(
                RunFault::SecretWithoutNetwork,
            )
            &&& a.secrets@.len() == 0 || a.network@ != "none"@ ==> match found {
                Ok(_) => draft_fault(a, ports_ok) is None,
                Err(e) => draft_fault(a, ports_ok) == Some(RunFault::Secret(e)),
            }
        },
{
    lemma_first_bad(ports_ok);
    lemma_views(a.publish@);
    lemma_views(a.secrets@);
    assert forall|k: int|
        0 <= k < ports_ok.len() && !(#[trigger] ports_ok[k]) && (forall|j: int|
            0 <= j < k ==> #[trigger] ports_ok[j]) implies draft_fault(a, ports_ok) == Some(
        RunFault::Publish(a.publish@[k]@),
    ) by {
        assert(first_bad(ports_ok) == k) by {
            if first_bad(ports_ok) < k {
                assert(ports_ok[first_bad(ports_ok)]);
            } else if k < first_bad(ports_ok) {
                assert(ports_ok[k]);
            }
        }
    }
}

/// A draft is not launched where it asks for what only a command can have and
/// has no command, or asks for a terminal or a command in the background.
pub proof fn law_what_is_not_launched(d: RunDraft)
    ensures
        ({
            let asks = d.env@.len() > 0 || d.workdir is Some || d.user is Some || d.interactive
                || d.tty;
            let attached = d.interactive || d.tty;
            &&& launch_fault(d) is None <==> {
                &&& d.cmd@.len() > 0 || !asks
                &&& !d.detach || d.cmd@.len() == 0 && !attached
            }
            &&& d.cmd@.len() == 0 && asks ==> launch_fault(d) == Some(
                RunFault::OptionsWithoutCommand,
            )
            &&& d.detach && attached && d.cmd@.len() > 0 ==> launch_fault(d) == Some(
                RunFault::DetachedTerminal,
            )
            &&& d.detach && !attached && d.cmd@.len() > 0 ==> launch_fault(d) == Some(
                RunFault::DetachedCommand,
            )
        }),
{
}

} // verus!
