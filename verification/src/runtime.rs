//! Lifecycle of managed machines: starting, listing, renaming and removing.

use vstd::prelude::*;
use crate::error::{Error, Fault, IoError, IoFault, IoKind};
use crate::path;
use crate::pipeline;
use crate::pipeline::{Create, CreateAction, VmOptions, VmOptionsV};
use crate::spawn;
use crate::spawn::VmFile;
use crate::starting;
use crate::starting::{Spawn, SpawnAction, SpawnRequest};
use crate::state;
use crate::state::{Status, VmConfig, VmState};
use crate::text;
use crate::vm;
use crate::vm::{VmBuilder, VmBuilderV};

verus! {

/// Health of a machine.
#[derive(Debug, Clone, Copy, PartialEq, Eq, Structural)]
#[non_exhaustive]
pub enum HealthStatus {
    /// The process is alive, and the guest agent has not responded yet.
    Starting,
    /// The guest agent responded to a ping.
    Healthy,
    /// The guest agent did not respond in time.
    Unhealthy,
    /// The process has exited.
    Dead,
}

/// Options of a run of an image.
#[derive(Debug, Clone, Copy, PartialEq, Eq, Structural)]
#[non_exhaustive]
pub struct RunOptions {
    /// Whether the machine is removed once it stops.
    pub auto_remove: bool,
    /// Time in nanoseconds to wait for the guest agent; zero not to wait.
    pub ready_timeout: u128,
}

impl Default for RunOptions {
    /// Keep the machine, and wait for thirty seconds.
    fn default() -> (r: Self)
        ensures
            !r.auto_remove,
            r.ready_timeout == 30_000_000_000,
    {
        RunOptions { auto_remove: false, ready_timeout: 30_000_000_000 }
    }
}

/// Directory in which everything is kept: the one that `$BUX_HOME` names, or
/// else `bux` in the platform's data directory, or else `bux` in the working
/// directory.
pub fn default_data_dir(bux_home: Option<String>, platform_dir: Option<String>) -> (r: String)
    ensures
        r@ == (match (bux_home, platform_dir) {
            (Some(home), _) => home@,
            (None, Some(dir)) => path::joined(dir@, "bux"@),
            (None, None) => "bux"@,
        }),
{
    match (bux_home, platform_dir) {
        (Some(home), _) => home,
        (None, Some(dir)) => path::join(dir.as_str(), "bux"),
        (None, None) => "bux".to_owned(),
    }
}

/// Where a runtime keeps what it manages.
#[derive(Debug)]
pub struct Runtime {
    /// Data directory.
    pub base: String,
    /// Lock that keeps other runtimes out.
    pub lock_file: String,
    /// Directory of sockets and of the files beside them.
    pub socks_dir: String,
    /// Database of machines.
    pub db_file: String,
}

// ---------------------------------------------------------------------------
// Listing
// ---------------------------------------------------------------------------

/// A machine once its process was looked at: one that should have a live
/// process and has none is stopped.
pub open spec fn reconciled(vm: VmState, alive: bool) -> VmState {
    if state::active(vm.status) && !alive {
        VmState { status: Status::Stopped, ..vm }
    } else {
        vm
    }
}

/// Whether a machine is to be removed once it was looked at.
pub open spec fn expires(vm: VmState) -> bool {
    vm.status is Stopped && vm.config.auto_remove
}

/// A change that listing makes. Whether it succeeds does not matter.
#[derive(Debug)]
pub enum ListChange {
    /// Record that this machine is stopped.
    MarkStopped(String),
    /// Remove this socket.
    RemoveSocket(String),
    /// Remove the disk of this machine.
    RemoveDisk(String),
    /// Delete the record of this machine.
    DeleteRecord(String),
}

/// A [`ListChange`] with its text.
pub enum Change {
    MarkStopped(Seq<char>),
    RemoveSocket(Seq<char>),
    RemoveDisk(Seq<char>),
    DeleteRecord(Seq<char>),
}

impl View for ListChange {
    type V = Change;

    open spec fn view(&self) -> Change {
        match *self {
            ListChange::MarkStopped(id) => Change::MarkStopped(id@),
            ListChange::RemoveSocket(s) => Change::RemoveSocket(s@),
            ListChange::RemoveDisk(id) => Change::RemoveDisk(id@),
            ListChange::DeleteRecord(id) => Change::DeleteRecord(id@),
        }
    }
}

/// The changes of a list.
pub open spec fn change_views(v: Seq<ListChange>) -> Seq<Change> {
    Seq::new(v.len(), |i: int| v[i]@)
}

/// What changes about one machine.
pub open spec fn changes_of(vm: VmState, alive: bool) -> Seq<Change> {
    let marked = if state::active(vm.status) && !alive {
        seq![Change::MarkStopped(vm.id@)]
    } else {
        seq![]
    };
    if expires(reconciled(vm, alive)) {
        marked + seq![
            Change::RemoveSocket(vm.socket@),
            Change::RemoveDisk(vm.id@),
            Change::DeleteRecord(vm.id@),
        ]
    } else {
        marked
    }
}

/// The machines that stay.
pub open spec fn kept(vms: Seq<VmState>, alive: Seq<bool>) -> Seq<VmState>
    decreases vms.len(),
{
    if vms.len() == 0 {
        seq![]
    } else {
        let before = kept(vms.drop_last(), alive);
        let vm = reconciled(vms.last(), alive[vms.len() - 1]);
        if expires(vm) {
            before
        } else {
            before.push(vm)
        }
    }
}

/// Everything that changes, in order.
pub open spec fn changes(vms: Seq<VmState>, alive: Seq<bool>) -> Seq<Change>
    decreases vms.len(),
{
    if vms.len() == 0 {
        seq![]
    } else {
        changes(vms.drop_last(), alive) + changes_of(vms.last(), alive[vms.len() - 1])
    }
}

/// What listing comes to.
#[derive(Debug)]
pub struct Listing {
    /// The machines that stay.
    pub keep: Vec<VmState>,
    /// What changes, in order.
    pub changes: Vec<ListChange>,
}

/// Marks a machine as stopped where its process is gone.
fn reconcile(vm: VmState, alive: bool) -> (r: (VmState, Option<String>))
    ensures
        r.0 == reconciled(vm, alive),
        text::opt_view(r.1) == (if state::active(vm.status) && !alive {
            Some(vm.id@)
        } else {
            None
        }),
{
    let mut vm = vm;
    if vm.status.is_active() && !alive {
        vm.status = Status::Stopped;
        let id = vm.id.clone();
        (vm, Some(id))
    } else {
        (vm, None)
    }
}

// ---------------------------------------------------------------------------
// Looking up, renaming and removing
// ---------------------------------------------------------------------------

/// Where to look for a machine next.
#[derive(Debug)]
pub enum Lookup {
    /// It is found.
    Found(VmState),
    /// Look for an id that begins so.
    ByIdPrefix(String),
}

/// A step of a removal.
#[derive(Debug)]
pub enum RemoveStep {
    /// Remove the socket and the files beside it; each as far as that succeeds.
    CleanFiles(Vec<VmFile>),
    /// Stop the network backend.
    StopNetwork,
    /// Forget live secrets.
    DropSecrets,
    /// Detach volumes, as far as that succeeds.
    UnlinkVolumes,
    /// Remove the disk, as far as that succeeds.
    RemoveDisk,
    /// Delete the record. Where that fails the removal fails.
    DeleteRecord,
    /// Announce the removal.
    Announce,
}

/// Refusal to remove a machine.
pub open spec fn remove_fault(vm: VmState) -> Fault {
    Fault::InvalidState(
        "VM "@ + vm.id@ + " cannot be removed (status: "@ + state::status_name(vm.status)
            + "); stop it first"@,
    )
}

/// A base disk that nothing uses.
#[derive(Debug)]
pub struct BaseDisk {
    /// Name in the database.
    pub id: String,
    /// Digest of its contents.
    pub digest: String,
}

/// A collection of unused base disks in progress.
#[derive(Debug)]
pub struct Gc {
    /// The disks.
    orphans: Vec<BaseDisk>,
    /// How many are deleted.
    done: usize,
    /// Why the next one could not be.
    failure: Option<Error>,
}

impl Gc {
    /// The disks to delete.
    pub closed spec fn orphans(&self) -> Seq<BaseDisk> {
        self.orphans@
    }

    /// How many are deleted.
    pub closed spec fn done(&self) -> nat {
        self.done as nat
    }

    /// Why the next one could not be deleted, which ends the collection.
    pub closed spec fn failure(&self) -> Option<Error> {
        self.failure
    }

    /// No more are deleted than there are, a disk that could not be deleted is
    /// not among them, and they can be counted.
    pub closed spec fn wf(&self) -> bool {
        &&& self.done <= self.orphans@.len() <= u32::MAX
        &&& self.failure is Some ==> self.done < self.orphans@.len()
    }

    /// The next disk to delete: its image, then its record. After a failure
    /// there is none.
    pub fn next(&self) -> (r: Option<&BaseDisk>)
        requires
            self.wf(),
        ensures
            match r {
                Some(d) => {
                    &&& self.failure() is None
                    &&& self.done() < self.orphans().len()
                    &&& *d == self.orphans()[self.done() as int]
                },
                None => self.failure() is Some || self.done() == self.orphans().len(),
            },
    {
        if self.failure.is_none() && self.done < self.orphans.len() {
            Some(&self.orphans[self.done])
        } else {
            None
        }
    }

    /// Notes that the next disk is deleted, both its image and its record.
    pub fn deleted(&mut self)
        requires
            old(self).wf(),
            old(self).failure() is None,
            old(self).done() < old(self).orphans().len(),
        ensures
            final(self).wf(),
            final(self).orphans() == old(self).orphans(),
            final(self).done() == old(self).done() + 1,
            final(self).failure() is None,
    {
        self.done = self.done + 1;
    }

    /// Notes that the image or the record of the next disk could not be
    /// deleted. The disk does not count, and nothing more is deleted.
    pub fn failed(&mut self, e: Error)
        requires
            old(self).wf(),
            old(self).failure() is None,
            old(self).done() < old(self).orphans().len(),
        ensures
            final(self).wf(),
            final(self).orphans() == old(self).orphans(),
            final(self).done() == old(self).done(),
            final(self).failure() == Some(e),
    {
        self.failure = Some(e);
    }

    /// How many disks were deleted, or why one could not be.
    pub fn removed(self) -> (r: Result<u32, Error>)
        requires
            self.wf(),
        ensures
            match self.failure() {
                Some(e) => r == Err::<u32, Error>(e),
                None => r matches Ok(n) && n == self.done() && n <= self.orphans().len(),
            },
    {
        match self.failure {
            Some(e) => Err(e),
            None => Ok(self.done as u32),
        }
    }
}

/// A clone that is ready to be made.
pub struct ClonePlan {
    /// The machine whose disk is flattened.
    pub source_id: String,
    /// Where the flattened disk goes.
    pub base_path: String,
    /// Settings of the clone.
    pub builder: VmBuilder,
    /// Container image reference.
    pub image: Option<String>,
    /// Name of the clone.
    pub name: Option<String>,
    /// Whether the clone is removed once it stops.
    pub auto_remove: bool,
}

/// What is announced of a new machine.
#[derive(Debug)]
pub struct BoxCreated {
    /// Name of the machine.
    pub id: String,
    /// Image that it was made from.
    pub image: Option<String>,
    /// Whom it belongs to.
    pub tenant: String,
}

impl Runtime {
    /// Lays out a data directory.
    pub fn open(data_dir: &str) -> (r: Runtime)
        ensures
            r.base@ == data_dir@,
            r.lock_file@ == path::joined(data_dir@, "bux.lock"@),
            r.socks_dir@ == path::joined(data_dir@, "socks"@),
            r.db_file@ == path::joined(data_dir@, "bux.db"@),
    {
        Runtime {
            base: data_dir.to_owned(),
            lock_file: path::join(data_dir, "bux.lock"),
            socks_dir: path::join(data_dir, "socks"),
            db_file: path::join(data_dir, "bux.db"),
        }
    }

    /// The failure to lock a data directory, for the given reason.
    pub fn locked_out(&self, reason: &str) -> (e: Error)
        ensures
            e@ == Fault::Io(
                IoFault {
                    kind: IoKind::AlreadyExists,
                    message: "another bux runtime is using "@ + self.base@ + ": "@ + reason@,
                },
            ),
    {
        let head = text::cat3("another bux runtime is using ", self.base.as_str(), ": ");
        let message = text::cat2(head.as_str(), reason);
        Error::Io(IoError { kind: IoKind::AlreadyExists, message })
    }

    /// Begins to start a machine that ends with this process.
    pub fn spawn(
        &self,
        config: VmConfig,
        staged_secrets: bool,
        image: Option<String>,
        name: Option<String>,
        auto_remove: bool,
        agent_port: u32,
    ) -> (r: (Spawn, SpawnAction))
        ensures
            (r.0@, r.1@) == starting::starting(
                (SpawnRequest { config, staged_secrets, image, name, auto_remove, watch_parent: true }),
                self.socks_dir@,
                agent_port,
            ),
    {
        Spawn::new(
            SpawnRequest { config, staged_secrets, image, name, auto_remove, watch_parent: true },
            self.socks_dir.as_str(),
            agent_port,
        )
    }

    /// Begins to start a machine that outlives this process.
    pub fn spawn_detached(
        &self,
        config: VmConfig,
        staged_secrets: bool,
        image: Option<String>,
        name: Option<String>,
        auto_remove: bool,
        agent_port: u32,
    ) -> (r: (Spawn, SpawnAction))
        ensures
            (r.0@, r.1@) == starting::starting(
                (SpawnRequest { config, staged_secrets, image, name, auto_remove, watch_parent: false }),
                self.socks_dir@,
                agent_port,
            ),
    {
        Spawn::new(
            SpawnRequest { config, staged_secrets, image, name, auto_remove, watch_parent: false },
            self.socks_dir.as_str(),
            agent_port,
        )
    }

    /// Begins to create and start a machine from product options.
    pub fn create(opts: VmOptions) -> (r: (Create, CreateAction))
        ensures
            pipeline::takes(pipeline::beginning(opts@, false), r.0@, r.1),
    {
        pipeline::create(opts)
    }

    /// Like [`create`](Self::create); the progress that each action brings goes
    /// to the caller.
    pub fn create_with(opts: VmOptions) -> (r: (Create, CreateAction))
        ensures
            pipeline::takes(pipeline::beginning(opts@, false), r.0@, r.1),
    {
        pipeline::create(opts)
    }

    /// The same as [`create`](Self::create), which already waits for the guest.
    pub fn run(opts: VmOptions) -> (r: (Create, CreateAction))
        ensures
            pipeline::takes(pipeline::beginning(opts@, false), r.0@, r.1),
    {
        Self::create(opts)
    }

    /// Begins to run an image whose settings the caller has a hand in. `image`
    /// are the options of that image with nothing else asked for.
    pub fn run_image(image: VmOptions, name: Option<String>, opts: &RunOptions) -> (r: (
        Create,
        CreateAction,
    ))
        ensures
            pipeline::takes(
                pipeline::beginning(
                    (VmOptionsV {
                        auto_remove: opts.auto_remove,
                        ready_timeout: opts.ready_timeout,
                        name: if name is Some {
                            text::opt_view(name)
                        } else {
                            image@.name
                        },
                        ..image@
                    }),
                    true,
                ),
                r.0@,
                r.1,
            ),
    {
        pipeline::create_from_oci(image, name, opts.auto_remove, opts.ready_timeout)
    }

    /// What to announce of a machine that was just put on record.
    pub fn created(vm: &VmState) -> (r: BoxCreated)
        ensures
            r.id == vm.id,
            r.image == vm.image,
            r.tenant@ == "default"@,
    {
        BoxCreated {
            id: vm.id.clone(),
            image: text::clone_opt(&vm.image),
            tenant: "default".to_owned(),
        }
    }

    /// Lists machines: one whose process is gone counts as stopped, and a
    /// stopped one that is to be removed is. `alive` says of each machine
    /// whether its process is alive.
    pub fn list(vms: Vec<VmState>, alive: &Vec<bool>) -> (r: Listing)
        requires
            vms@.len() == alive@.len(),
        ensures
            r.keep@ == kept(vms@, alive@),
            change_views(r.changes@) == changes(vms@, alive@),
    {
        let ghost all = vms@;
        let mut vms = vms;
        let mut keep: Vec<VmState> = Vec::new();
        let mut done: Vec<ListChange> = Vec::new();
        let mut i: usize = 0;
        assert(keep@ =~= kept(all.take(0), alive@));
        assert(change_views(done@) =~= changes(all.take(0), alive@));
        while i < alive.len()
            invariant
                i <= alive.len(),
                all.len() == alive@.len(),
                vms@ == all.skip(i as int),
                keep@ == kept(all.take(i as int), alive@),
                change_views(done@) == changes(all.take(i as int), alive@),
            decreases alive.len() - i,
        {
            let ghost before = change_views(done@);
            let vm = vms.remove(0);
            proof {
                assert(vm == all[i as int]);
                assert(all.skip(i as int).remove(0) =~= all.skip(i + 1));
                assert(all.take(i + 1).drop_last() =~= all.take(i as int));
                assert(all.take(i + 1).last() == all[i as int]);
            }
            let ghost start = vm;
            let (vm, stopped) = reconcile(vm, alive[i]);
            match stopped {
                Some(id) => {
                    done.push(ListChange::MarkStopped(id));
                    assert(change_views(done@) =~= before + seq![
                        Change::MarkStopped(start.id@),
                    ]);
                },
                None => {
                    assert(change_views(done@) =~= before + seq![]);
                },
            }
            let ghost marked = change_views(done@);
            let is_stopped = match &vm.status {
                Status::Stopped => true,
                _ => false,
            };
            if is_stopped && vm.config.auto_remove {
                done.push(ListChange::RemoveSocket(vm.socket.clone()));
                done.push(ListChange::RemoveDisk(vm.id.clone()));
                done.push(ListChange::DeleteRecord(vm.id.clone()));
                assert(change_views(done@) =~= marked + seq![
                    Change::RemoveSocket(start.socket@),
                    Change::RemoveDisk(start.id@),
                    Change::DeleteRecord(start.id@),
                ]);
                assert(change_views(done@) =~= before + changes_of(start, alive@[i as int]));
            } else {
                assert(change_views(done@) =~= before + changes_of(start, alive@[i as int]));
                keep.push(vm);
            }
            i = i + 1;
        }
        assert(all.take(alive.len() as int) =~= all);
        Listing { keep, changes: done }
    }

    /// Where a machine of this name or id is found: by its name first, and else
    /// by how its id begins.
    pub fn look_up(id_or_name: &str, by_name: Option<VmState>) -> (r: Lookup)
        ensures
            match by_name {
                Some(vm) => r == Lookup::Found(vm),
                None => r matches Lookup::ByIdPrefix(p) && p@ == id_or_name@,
            },
    {
        match by_name {
            Some(vm) => Lookup::Found(vm),
            None => Lookup::ByIdPrefix(id_or_name.to_owned()),
        }
    }

    /// A machine that was found, marked as stopped where its process is gone.
    /// Its id comes with it where that is to be recorded.
    pub fn get(found: VmState, alive: bool) -> (r: (VmState, Option<String>))
        ensures
            r.0 == reconciled(found, alive),
            text::opt_view(r.1) == (if state::active(found.status) && !alive {
                Some(found.id@)
            } else {
                None
            }),
    {
        reconcile(found, alive)
    }

    /// Whether a machine may be renamed: not to a name that another machine
    /// has. `holder` is the id of the machine that has the new name.
    pub fn rename(id: &str, holder: &Option<String>, new_name: &str) -> (r: Result<(), Error>)
        ensures
            match *holder {
                Some(h) => if h@ == id@ {
                    r is Ok
                } else {
                    r matches Err(e) && e@ == starting::name_fault(new_name@)
                },
                None => r is Ok,
            },
    {
        match holder {
            Some(h) => {
                if text::same_text(h.as_str(), id) {
                    Ok(())
                } else {
                    Err(starting::name_taken(new_name))
                }
            },
            None => Ok(()),
        }
    }

    /// The steps of removing a machine, in order; refused where its status does
    /// not allow it.
    pub fn remove(vm: &VmState) -> (r: Result<Vec<RemoveStep>, Error>)
        ensures
            if state::removable(vm.status) {
                r matches Ok(steps) && {
                    &&& steps@.len() == 7
                    &&& steps@[0] matches RemoveStep::CleanFiles(files) && files@ == seq![
                        VmFile::Socket,
                        VmFile::Exit,
                        VmFile::Config,
                        VmFile::Stderr,
                    ]
                    &&& steps@[1] is StopNetwork
                    &&& steps@[2] is DropSecrets
                    &&& steps@[3] is UnlinkVolumes
                    &&& steps@[4] is RemoveDisk
                    &&& steps@[5] is DeleteRecord
                    &&& steps@[6] is Announce
                }
            } else {
                r matches Err(e) && e@ == remove_fault(*vm)
            },
    {
        if !vm.status.can_remove() {
            let label = vm.status.name();
            let head = text::cat3("VM ", vm.id.as_str(), " cannot be removed (status: ");
            return Err(
                Error::InvalidState(
                    text::cat3(head.as_str(), label.as_str(), "); stop it first"),
                ),
            );
        }
        let mut steps: Vec<RemoveStep> = Vec::new();
        steps.push(RemoveStep::CleanFiles(spawn::clean_vm_files()));
        steps.push(RemoveStep::StopNetwork);
        steps.push(RemoveStep::DropSecrets);
        steps.push(RemoveStep::UnlinkVolumes);
        steps.push(RemoveStep::RemoveDisk);
        steps.push(RemoveStep::DeleteRecord);
        steps.push(RemoveStep::Announce);
        Ok(steps)
    }

    /// Begins to collect base disks that nothing uses.
    pub fn gc(orphans: Vec<BaseDisk>) -> (r: Gc)
        requires
            orphans@.len() <= u32::MAX,
        ensures
            r.wf(),
            r.orphans() == orphans@,
            r.done() == 0,
            r.failure() is None,
    {
        Gc { orphans, done: 0, failure: None }
    }

    /// Plans a clone: the source's disk is flattened to a base disk of its own,
    /// and the clone gets the source's size and image.
    pub fn clone_box(
        source: &VmState,
        clone_id: &str,
        bases_dir: &str,
        name: Option<String>,
        opts: &RunOptions,
    ) -> (r: ClonePlan)
        ensures
            r.source_id == source.id,
            r.base_path@ == path::joined(bases_dir@, "clone-"@ + clone_id@ + ".raw"@),
            r.builder@ == (VmBuilderV {
                base_disk: Some(r.base_path@),
                vcpus: Some(source.config.vcpus),
                ram_mib: Some(source.config.ram_mib),
                ..vm::cleared()
            }),
            r.image == source.image,
            r.name == name,
            r.auto_remove == opts.auto_remove,
    {
        let file = text::cat3("clone-", clone_id, ".raw");
        let base_path = path::join(bases_dir, file.as_str());
        let mut builder = VmBuilder::new();
        builder.base_disk = Some(base_path.clone());
        builder.vcpus = Some(source.config.vcpus);
        builder.ram_mib = Some(source.config.ram_mib);
        ClonePlan {
            source_id: source.id.clone(),
            base_path,
            builder,
            image: text::clone_opt(&source.image),
            name,
            auto_remove: opts.auto_remove,
        }
    }
}

// ---------------------------------------------------------------------------
// What listing keeps
// ---------------------------------------------------------------------------

/// A listed machine that should have a process has a live one, and no stopped
/// machine that is to be removed is listed.
pub proof fn law_listed_machines_are_live_or_stopped(vms: Seq<VmState>, alive: Seq<bool>)
    requires
        vms.len() <= alive.len(),
    ensures
        kept(vms, alive).len() <= vms.len(),
        forall|j: int|
            0 <= j < kept(vms, alive).len() ==> !expires(#[trigger] kept(vms, alive)[j]) && (
            state::active(kept(vms, alive)[j].status) ==> exists|i: int|
                0 <= i < vms.len() && alive[i] && #[trigger] vms[i] == kept(vms, alive)[j]),
    decreases vms.len(),
{
    if vms.len() > 0 {
        let fewer = vms.drop_last();
        law_listed_machines_are_live_or_stopped(fewer, alive);
        let before = kept(fewer, alive);
        let all = kept(vms, alive);
        assert forall|j: int| 0 <= j < all.len() implies !expires(#[trigger] all[j]) && (
        state::active(all[j].status) ==> exists|i: int|
            0 <= i < vms.len() && alive[i] && #[trigger] vms[i] == all[j]) by {
            if j < before.len() {
                assert(all[j] == before[j]);
                if state::active(all[j].status) {
                    let i = choose|i: int|
                        0 <= i < fewer.len() && alive[i] && #[trigger] fewer[i] == before[j];
                    assert(vms[i] == all[j]);
                }
            } else {
                if state::active(all[j].status) {
                    assert(vms[vms.len() - 1] == all[j]);
                }
            }
        }
    }
}

/// Whether looking at a machine changes nothing about it.
pub open spec fn steady(vm: VmState, alive: bool) -> bool {
    !(state::active(vm.status) && !alive) && !expires(vm)
}

/// A list of machines about which nothing changes is listed as it is, and
/// nothing is changed.
pub proof fn law_steady_machines_stay(vms: Seq<VmState>, alive: Seq<bool>)
    requires
        forall|i: int| 0 <= i < vms.len() ==> steady(#[trigger] vms[i], alive[i]),
    ensures
        kept(vms, alive) == vms,
        changes(vms, alive).len() == 0,
    decreases vms.len(),
{
    if vms.len() > 0 {
        let fewer = vms.drop_last();
        assert forall|i: int| 0 <= i < fewer.len() implies steady(#[trigger] fewer[i], alive[i]) by {
            assert(fewer[i] == vms[i]);
        }
        law_steady_machines_stay(fewer, alive);
        assert(steady(vms[vms.len() - 1], alive[vms.len() - 1]));
        assert(vms =~= fewer.push(vms.last()));
    }
}

/// A machine that was looked at once is steady or to be removed: looking again
/// changes nothing more about it.
pub proof fn law_looking_twice_is_looking_once(vm: VmState, alive: bool)
    ensures
        reconciled(reconciled(vm, alive), alive) == reconciled(vm, alive),
        expires(reconciled(vm, alive)) || steady(reconciled(vm, alive), alive),
{
}

/// Whether a change is due for a machine: one that should have a process and has
/// none is marked stopped, and one that is stopped and to be removed loses its
/// socket, its disk and its record.
pub open spec fn due(vm: VmState, alive: bool, c: Change) -> bool {
    let dead = match vm.status {
        Status::Running => !alive,
        Status::Stopped => false,
        Status::Other { active, .. } => active && !alive,
    };
    let gone = vm.config.auto_remove && (vm.status is Stopped || dead);
    match c {
        Change::MarkStopped(id) => dead && id == vm.id@,
        Change::RemoveSocket(p) => gone && p == vm.socket@,
        Change::RemoveDisk(id) => gone && id == vm.id@,
        Change::DeleteRecord(id) => gone && id == vm.id@,
    }
}

proof fn lemma_changes_of(vm: VmState, alive: bool, c: Change)
    ensures
        changes_of(vm, alive).contains(c) <==> due(vm, alive, c),
{
    let all = changes_of(vm, alive);
    let dead = state::active(vm.status) && !alive;
    let n: int = if dead { 1 } else { 0 };
    if dead {
        assert(all[0] == Change::MarkStopped(vm.id@));
    }
    if expires(reconciled(vm, alive)) {
        assert(all[n] == Change::RemoveSocket(vm.socket@));
        assert(all[n + 1] == Change::RemoveDisk(vm.id@));
        assert(all[n + 2] == Change::DeleteRecord(vm.id@));
        assert(all.len() == n + 3);
    } else {
        assert(all.len() == n);
    }
    if all.contains(c) {
        let i = choose|i: int| 0 <= i < all.len() && all[i] == c;
        assert(all[i] == c);
    }
}

/// Listing changes what is due for the machines it looks at, and nothing else.
pub proof fn law_listing_changes_what_is_due(vms: Seq<VmState>, alive: Seq<bool>, c: Change)
    ensures
        changes(vms, alive).contains(c) <==> exists|i: int|
            0 <= i < vms.len() && due(#[trigger] vms[i], alive[i], c),
    decreases vms.len(),
{
    if vms.len() > 0 {
        let fewer = vms.drop_last();
        let n = vms.len() - 1;
        let a = changes(fewer, alive);
        let b = changes_of(vms.last(), alive[n]);
        law_listing_changes_what_is_due(fewer, alive, c);
        lemma_changes_of(vms.last(), alive[n], c);
        if changes(vms, alive).contains(c) {
            let i = choose|i: int| 0 <= i < (a + b).len() && (a + b)[i] == c;
            if i < a.len() {
                assert(a[i] == c);
                let j = choose|j: int| 0 <= j < fewer.len() && due(#[trigger] fewer[j], alive[j], c);
                assert(vms[j] == fewer[j]);
            } else {
                assert(b[i - a.len()] == c);
                assert(vms[n] == vms.last());
            }
        }
        if exists|i: int| 0 <= i < vms.len() && due(#[trigger] vms[i], alive[i], c) {
            let i = choose|i: int| 0 <= i < vms.len() && due(#[trigger] vms[i], alive[i], c);
            if i < n {
                assert(fewer[i] == vms[i]);
                let k = choose|k: int| 0 <= k < a.len() && a[k] == c;
                assert((a + b)[k] == c);
            } else {
                let k = choose|k: int| 0 <= k < b.len() && b[k] == c;
                assert((a + b)[a.len() + k] == c);
            }
        }
    } else {
        assert(changes(vms, alive).len() == 0);
    }
}

/// A machine that is removed loses its record last, after its socket and its
/// disk.
pub proof fn law_record_goes_last(vm: VmState, alive: bool)
    requires
        expires(reconciled(vm, alive)),
    ensures
        changes_of(vm, alive).last() == Change::DeleteRecord(vm.id@),
        changes_of(vm, alive).contains(Change::RemoveSocket(vm.socket@)),
        changes_of(vm, alive).contains(Change::RemoveDisk(vm.id@)),
{
    lemma_changes_of(vm, alive, Change::RemoveSocket(vm.socket@));
    lemma_changes_of(vm, alive, Change::RemoveDisk(vm.id@));
}

/// Looking at a machine changes nothing about it but that one without the
/// process that it should have is stopped.
pub proof fn law_looking_changes_the_status_alone(vm: VmState, alive: bool)
    ensures
        reconciled(vm, alive) == (VmState { status: reconciled(vm, alive).status, ..vm }),
        alive ==> reconciled(vm, alive) == vm,
        vm.status is Stopped ==> reconciled(vm, alive) == vm,
        vm.status is Running && !alive ==> reconciled(vm, alive).status is Stopped,
        (vm.status matches Status::Other { active, .. } && active && !alive) ==> reconciled(
            vm,
            alive,
        ).status is Stopped,
        (vm.status matches Status::Other { active, .. } && !active) ==> reconciled(vm, alive) == vm,
{
}

/// Every machine that is not to be removed is listed, as it is after the look at
/// it; and a machine that stays because it is not to be removed when it stops is
/// listed also once it has stopped.
pub proof fn law_every_staying_machine_is_listed(vms: Seq<VmState>, alive: Seq<bool>, i: int)
    requires
        0 <= i < vms.len(),
        !(reconciled(vms[i], alive[i]).status is Stopped) || !vms[i].config.auto_remove,
    ensures
        kept(vms, alive).contains(reconciled(vms[i], alive[i])),
    decreases vms.len(),
{
    let n = vms.len() - 1;
    let before = kept(vms.drop_last(), alive);
    let all = kept(vms, alive);
    if i < n {
        law_every_staying_machine_is_listed(vms.drop_last(), alive, i);
        assert(vms.drop_last()[i] == vms[i]);
        let vm = reconciled(vms[i], alive[i]);
        let k = choose|k: int| 0 <= k < before.len() && before[k] == vm;
        assert(all[k] == vm);
    } else {
        assert(all[all.len() - 1] == reconciled(vms[i], alive[i]));
    }
}

/// A refusal to remove a machine names the machine and its status.
pub proof fn law_refusal_names_machine_and_status(vm: VmState)
    ensures
        remove_fault(vm) matches Fault::InvalidState(m) && {
            &&& text::starts_with(m, "VM "@ + vm.id@)
            &&& text::holds(m, state::status_name(vm.status))
            &&& m.len() == ("VM "@ + vm.id@).len() + " cannot be removed (status: "@.len()
                + state::status_name(vm.status).len() + "); stop it first"@.len()
        },
{
    let m = "VM "@ + vm.id@ + " cannot be removed (status: "@ + state::status_name(vm.status)
        + "); stop it first"@;
    let a = "VM "@ + vm.id@;
    assert(m.take(a.len() as int) =~= a);
    assert(m == (a + " cannot be removed (status: "@) + state::status_name(vm.status)
        + "); stop it first"@);
}

/// What listing changes is seen with the text that it carries, in order.
pub proof fn law_changes_are_seen_as_they_are(v: Seq<ListChange>)
    ensures
        change_views(v).len() == v.len(),
        forall|i: int|
            0 <= i < v.len() ==> match v[i] {
                ListChange::MarkStopped(id) => #[trigger] change_views(v)[i] == Change::MarkStopped(
                    id@,
                ),
                ListChange::RemoveSocket(p) => change_views(v)[i] == Change::RemoveSocket(p@),
                ListChange::RemoveDisk(id) => change_views(v)[i] == Change::RemoveDisk(id@),
                ListChange::DeleteRecord(id) => change_views(v)[i] == Change::DeleteRecord(id@),
            },
{
}

} // verus!
