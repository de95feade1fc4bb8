//! Configuration file of the primary container.

use vstd::prelude::*;
use crate::container;
use crate::error::{IoError, IoFault, IoKind};
use crate::path;
use crate::text;

verus! {

// ---------------------------------------------------------------------------
// What is asked for
// ---------------------------------------------------------------------------

/// A namespace that a container has for itself.
#[derive(Debug, Clone, Copy, PartialEq, Eq, Structural)]
pub enum Namespace {
    /// Process ids.
    Pid,
    /// Inter-process communication.
    Ipc,
    /// Host name.
    Uts,
    /// Mounts.
    Mount,
}

/// What a container is to be.
#[derive(Debug)]
pub struct OciProfile {
    /// Version of the configuration format.
    pub version: String,
    /// Root directory.
    pub root: String,
    /// Whether the root is read-only.
    pub readonly: bool,
    /// User id.
    pub uid: u32,
    /// Group id.
    pub gid: u32,
    /// Command.
    pub args: Vec<String>,
    /// Environment.
    pub env: Vec<String>,
    /// Working directory.
    pub cwd: String,
    /// Namespaces.
    pub namespaces: Vec<Namespace>,
    /// Host name.
    pub hostname: String,
}

/// An [`OciProfile`] with its texts.
#[verifier::ext_equal]
pub struct OciProfileV {
    pub version: Seq<char>,
    pub root: Seq<char>,
    pub readonly: bool,
    pub uid: u32,
    pub gid: u32,
    pub args: Seq<Seq<char>>,
    pub env: Seq<Seq<char>>,
    pub cwd: Seq<char>,
    pub namespaces: Seq<Namespace>,
    pub hostname: Seq<char>,
}

impl View for OciProfile {
    type V = OciProfileV;

    open spec fn view(&self) -> OciProfileV {
        OciProfileV {
            version: self.version@,
            root: self.root@,
            readonly: self.readonly,
            uid: self.uid,
            gid: self.gid,
            args: text::views(self.args@),
            env: text::views(self.env@),
            cwd: self.cwd@,
            namespaces: self.namespaces@,
            hostname: self.hostname@,
        }
    }
}

/// The primary container: the machine's own root, with processes and mounts of
/// its own, kept alive by the given command.
pub open spec fn primary(command: Seq<Seq<char>>) -> OciProfileV {
    OciProfileV {
        version: "1.0.2"@,
        root: "/"@,
        readonly: false,
        uid: 0,
        gid: 0,
        args: command,
        env: seq![
            "PATH=/usr/local/sbin:/usr/local/bin:/usr/sbin:/usr/bin:/sbin:/bin"@,
            "TERM=xterm"@,
        ],
        cwd: "/"@,
        namespaces: seq![Namespace::Pid, Namespace::Ipc, Namespace::Uts, Namespace::Mount],
        hostname: "bux"@,
    }
}

/// The primary container, kept alive by a program.
pub fn primary_profile(pause: &str) -> (r: OciProfile)
    ensures
        r@ == primary(container::pause_command(pause@)),
{
    let mut env: Vec<String> = Vec::new();
    env.push("PATH=/usr/local/sbin:/usr/local/bin:/usr/sbin:/usr/bin:/sbin:/bin".to_owned());
    env.push("TERM=xterm".to_owned());
    let mut namespaces: Vec<Namespace> = Vec::new();
    namespaces.push(Namespace::Pid);
    namespaces.push(Namespace::Ipc);
    namespaces.push(Namespace::Uts);
    namespaces.push(Namespace::Mount);
    let r = OciProfile {
        version: "1.0.2".to_owned(),
        root: "/".to_owned(),
        readonly: false,
        uid: 0,
        gid: 0,
        args: container::pause_args(pause),
        env,
        cwd: "/".to_owned(),
        namespaces,
        hostname: "bux".to_owned(),
    };
    assert(r@ =~= primary(container::pause_command(pause@)));
    r
}

// ---------------------------------------------------------------------------
// oci-spec and serde_json
// ---------------------------------------------------------------------------

/// A namespace of a container configuration.
#[verifier::external_type_specification]
#[verifier::external_body]
pub struct ExLinuxNamespace(oci_spec::runtime::LinuxNamespace);

/// A container configuration.
#[verifier::external_type_specification]
#[verifier::external_body]
pub struct ExSpec(oci_spec::runtime::Spec);

/// A failure of oci-spec.
#[verifier::external_type_specification]
#[verifier::external_body]
pub struct ExOciSpecError(oci_spec::OciSpecError);

/// Which namespace a namespace entry is for, as `LinuxNamespace::typ` gives it.
pub uninterp spec fn entry_namespace(n: oci_spec::runtime::LinuxNamespace) -> Namespace;

/// What the getters of a `Spec` give for the fields of an [`OciProfile`].
pub uninterp spec fn spec_fields(s: oci_spec::runtime::Spec) -> OciProfileV;

/// Whether a namespace entry is for a new namespace, in place of one that is
/// joined: `LinuxNamespace::path` gives nothing.
pub uninterp spec fn is_new(n: oci_spec::runtime::LinuxNamespace) -> bool;

/// Whether the getters of a `Spec` give oci-spec's defaults for everything that
/// is no field of an [`OciProfile`], new namespaces only, and texts for its root
/// and its working directory.
pub uninterp spec fn rest_is_default(s: oci_spec::runtime::Spec) -> bool;

/// Whether `serde_json::to_string_pretty` can give this text for a `Spec` with
/// these fields and everything else at its default. There is more than one such
/// text, since sets of capabilities are written in no particular order.
pub uninterp spec fn config_text(fields: OciProfileV, json: Seq<char>) -> bool;

/// The fields that a configuration says, where it is one that can be written.
pub open spec fn read_fields(json: Seq<char>) -> Option<OciProfileV> {
    if exists|p: OciProfileV| config_text(p, json) {
        Some(choose|p: OciProfileV| config_text(p, json))
    } else {
        None
    }
}

/// `LinuxNamespaceBuilder::build`: an entry for a new namespace of this kind,
/// and of no existing one. It does not fail, since the builder checks nothing
/// and has a default for every field that is not set.
#[verifier::external_body]
fn namespace_entry(n: Namespace) -> (r: Result<
    oci_spec::runtime::LinuxNamespace,
    oci_spec::OciSpecError,
>)
    ensures
        r is Ok,
        entry_namespace(r->Ok_0) == n,
        is_new(r->Ok_0),
{
    let typ = match n {
        Namespace::Pid => oci_spec::runtime::LinuxNamespaceType::Pid,
        Namespace::Ipc => oci_spec::runtime::LinuxNamespaceType::Ipc,
        Namespace::Uts => oci_spec::runtime::LinuxNamespaceType::Uts,
        Namespace::Mount => oci_spec::runtime::LinuxNamespaceType::Mount,
    };
    oci_spec::runtime::LinuxNamespaceBuilder::default().typ(typ).build()
}

/// `SpecBuilder::build`, on parts that are built from plain values: a
/// configuration with these fields. Everything else is at oci-spec's defaults.
/// It does not fail, since none of the builders checks anything, and each has a
/// default for every field that is not set.
#[verifier::external_body]
fn build_spec(
    p: OciProfile,
    namespaces: Vec<oci_spec::runtime::LinuxNamespace>,
) -> (r: Result<oci_spec::runtime::Spec, oci_spec::OciSpecError>)
    requires
        forall|i: int| 0 <= i < namespaces@.len() ==> is_new(#[trigger] namespaces@[i]),
    ensures
        r is Ok,
        spec_fields(r->Ok_0) == (OciProfileV {
            namespaces: namespaces@.map_values(
                |n: oci_spec::runtime::LinuxNamespace| entry_namespace(n),
            ),
            ..p@
        }),
        rest_is_default(r->Ok_0),
{
    let root = oci_spec::runtime::RootBuilder::default().path(p.root).readonly(p.readonly);
    let user = oci_spec::runtime::UserBuilder::default().uid(p.uid).gid(p.gid).build()?;
    let process = oci_spec::runtime::ProcessBuilder::default().user(user).args(p.args).env(p.env);
    let linux = oci_spec::runtime::LinuxBuilder::default().namespaces(namespaces).build()?;
    let spec = oci_spec::runtime::SpecBuilder::default().version(p.version).root(root.build()?);
    spec.process(process.cwd(p.cwd).build()?).linux(linux).hostname(p.hostname).build()
}

/// `serde_json::to_string_pretty`, on a configuration that has nothing but
/// defaults beside these fields: one of the texts that say these fields, and no
/// others, since each is written under a key of its own. It does not fail, since
/// all paths are texts and all keys of maps are.
#[verifier::external_body]
fn pretty_json(spec: &oci_spec::runtime::Spec) -> (r: Result<String, String>)
    requires
        rest_is_default(*spec),
    ensures
        r is Ok,
        config_text(spec_fields(*spec), r->Ok_0@),
        forall|p: OciProfileV| config_text(p, r->Ok_0@) ==> p == spec_fields(*spec),
{
    serde_json::to_string_pretty(spec).map_err(|e| e.to_string())
}

// ---------------------------------------------------------------------------
// The file
// ---------------------------------------------------------------------------

/// A file to write.
#[derive(Debug)]
pub struct ConfigFile {
    /// Path.
    pub path: String,
    /// Contents.
    pub contents: String,
}

/// The failure to build a configuration.
pub fn build_failure(reason: &str) -> (e: IoError)
    ensures
        e@ == (IoFault { kind: IoKind::Other, message: reason@ }),
{
    IoError::other(reason)
}

/// The failure to write a configuration as JSON.
pub fn json_failure(reason: &str) -> (e: IoError)
    ensures
        e@ == (IoFault {
            kind: IoKind::Other,
            message: "serialize oci config: "@ + reason@,
        }),
{
    let message = text::cat2("serialize oci config: ", reason);
    IoError { kind: IoKind::Other, message }
}

/// Entries for a list of namespaces: a new one for each, in the same order.
fn namespace_entries(list: &Vec<Namespace>) -> (r: Result<
    Vec<oci_spec::runtime::LinuxNamespace>,
    oci_spec::OciSpecError,
>)
    ensures
        r matches Ok(v) && v@.map_values(
            |n: oci_spec::runtime::LinuxNamespace| entry_namespace(n),
        ) == list@ && forall|i: int| 0 <= i < v@.len() ==> is_new(#[trigger] v@[i]),
{
    let mut v: Vec<oci_spec::runtime::LinuxNamespace> = Vec::new();
    let mut i: usize = 0;
    while i < list.len()
        invariant
            i <= list.len(),
            v@.len() == i,
            forall|j: int| 0 <= j < i ==> entry_namespace(#[trigger] v@[j]) == list@[j],
            forall|j: int| 0 <= j < i ==> is_new(#[trigger] v@[j]),
        decreases list.len() - i,
    {
        match namespace_entry(list[i]) {
            Ok(e) => {
                v.push(e);
            },
            Err(e) => {
                return Err(e);
            },
        }
        i = i + 1;
    }
    assert(v@.map_values(|n: oci_spec::runtime::LinuxNamespace| entry_namespace(n)) =~= list@);
    Ok(v)
}

/// The configuration of the primary container, kept alive by the program
/// `pause`, as a file of its bundle. It says exactly what is asked for.
pub fn write_oci_config(bundle: &str, pause: &str) -> (r: Result<ConfigFile, IoError>)
    ensures
        r matches Ok(f) && f.path@ == path::joined(bundle@, "config.json"@) && read_fields(
            f.contents@,
        ) == Some(primary(container::pause_command(pause@))),
{
    let profile = primary_profile(pause);
    let ghost asked = profile@;
    let namespaces = match namespace_entries(&profile.namespaces) {
        Ok(n) => n,
        Err(e) => {
            let reason = e.to_string();
            return Err(build_failure(reason.as_str()));
        },
    };
    let spec = match build_spec(profile, namespaces) {
        Ok(s) => s,
        Err(e) => {
            let reason = e.to_string();
            return Err(build_failure(reason.as_str()));
        },
    };
    assert(spec_fields(spec) =~= asked);
    match pretty_json(&spec) {
        Ok(contents) => Ok(ConfigFile { path: path::join(bundle, "config.json"), contents }),
        Err(reason) => Err(json_failure(reason.as_str())),
    }
}

/// The primary container runs the given command and no other, as the first user,
/// in the machine's own root, with processes, messages, host name and mounts of
/// its own; whatever its command, all else about it is the same.
pub proof fn law_container_differs_in_its_command_alone(a: Seq<Seq<char>>, b: Seq<Seq<char>>)
    ensures
        primary(a).args == a,
        primary(b) == (OciProfileV { args: b, ..primary(a) }),
        primary(a).uid == 0 && primary(a).gid == 0,
        primary(a).root == "/"@ && primary(a).cwd == "/"@ && !primary(a).readonly,
        primary(a).namespaces.len() == 4,
        primary(a).namespaces.contains(Namespace::Pid),
        primary(a).namespaces.contains(Namespace::Ipc),
        primary(a).namespaces.contains(Namespace::Uts),
        primary(a).namespaces.contains(Namespace::Mount),
{
    let n = primary(a).namespaces;
    assert(n[0] == Namespace::Pid);
    assert(n[1] == Namespace::Ipc);
    assert(n[2] == Namespace::Uts);
    assert(n[3] == Namespace::Mount);
}

} // verus!
