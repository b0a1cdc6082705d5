//! A single managed MicroVM: how it is started, booted or restored, and what it
//! may be asked in each state.

pub mod client;
pub mod state;

use vstd::prelude::*;

use crate::error::{CofferError, ErrorView};
use crate::guest::option_value;
use crate::text::{cat3, join_path, joined, push_text, strs, Text};
use crate::vm::client::{Action, ActionType, BootSource, Drive, FirecrackerClient, MachineConfig, MemBackend,
    MemBackendType, Method, NetworkInterface, SnapshotCreate, SnapshotLoad, SnapshotType, VmBody, VmCall,
    VmState, VmStateEnum, Vsock};
use crate::vm::state::{allowed, state_name, transition_error, StateMachine, VmLifecycle};

verus! {

broadcast use vstd::string::group_string_axioms;

/// Configuration for a single VM.
#[derive(Debug, Clone)]
pub struct VmConfig {
    pub kernel_path: String,
    pub rootfs_path: String,
    pub vcpus: u32,
    pub memory_mib: u32,
    pub tap_name: String,
    pub guest_mac: String,
    pub guest_ip: String,
    pub vsock_uds_path: String,
    pub is_rootfs_writable: bool,
}

/// A single Firecracker microVM instance.
#[derive(Debug)]
pub struct FirecrackerVm {
    pub id: String,
    pub config: VmConfig,
    pub state: StateMachine,
    pub client: FirecrackerClient,
    pub socket_path: String,
    pub vsock_path: String,
    pub snapshot_mem_path: Option<String>,
    pub snapshot_state_path: Option<String>,
}

// ---------------------------------------------------------------------
// Starting the process
// ---------------------------------------------------------------------

/// The arguments with which the process of a VM is started.
pub open spec fn process_args(socket: Text, id: Text) -> Seq<Text> {
    seq!["--api-sock"@, socket, "--id"@, id]
}

/// The arguments with which the process of a VM is started.
pub fn vm_process_args(socket: &str, id: &str) -> (r: Vec<String>)
    ensures
        strs(r@) == process_args(socket@, id@),
{
    let mut a: Vec<String> = Vec::new();
    push_text(&mut a, "--api-sock");
    push_text(&mut a, socket);
    push_text(&mut a, "--id");
    push_text(&mut a, id);
    assert(strs(a@) =~= process_args(socket@, id@));
    a
}

/// What to do while the socket of a VM is awaited.
#[derive(Debug)]
pub enum SocketWait {
    /// The socket is there.
    Ready,
    /// Look again a little later.
    Again,
    /// Too long: kill the process and report the error.
    GiveUp(CofferError),
}

/// What to do while the socket of a VM is awaited, given whether it is there and
/// the whole seconds that have passed.
pub fn await_socket(id: &str, exists: bool, elapsed_secs: u64) -> (r: SocketWait)
    ensures
        exists ==> r is Ready,
        !exists && elapsed_secs <= 10 ==> r is Again,
        !exists && elapsed_secs > 10 ==> (r matches SocketWait::GiveUp(e) && e@ == (
        ErrorView::VmTimeout { id: id@, dur_ms: 10000 })),
{
    if exists {
        SocketWait::Ready
    } else if elapsed_secs > 10 {
        SocketWait::GiveUp(CofferError::VmTimeout { id: id.to_owned(), dur_ms: 10000 })
    } else {
        SocketWait::Again
    }
}

// ---------------------------------------------------------------------
// Cold start
// ---------------------------------------------------------------------

/// Where the boot of a VM stands.
#[derive(Debug, Clone, Copy, PartialEq, Eq, Structural)]
pub enum BootStage {
    BootSource,
    Machine,
    RootDrive,
    Network,
    Vsock,
    Start,
    Booted,
}

/// The kernel command line of a VM that boots from scratch.
pub open spec fn boot_args() -> Text {
    "console=ttyS0 reboot=k panic=1 pci=off nomodules"@
}

/// The call that a stage of the boot makes.
pub open spec fn is_boot_call(c: VmCall, stage: BootStage, config: VmConfig, vsock_path: Text) -> bool {
    &&& c.method == Method::Put
    &&& match stage {
        BootStage::BootSource => {
            &&& c.path@ == "/boot-source"@
            &&& c.body matches VmBody::BootSource(b)
            &&& b.kernel_image_path@ == config.kernel_path@
            &&& b.boot_args matches Some(a)
            &&& a@ == boot_args()
            &&& b.initrd_path is None
        },
        BootStage::Machine => {
            &&& c.path@ == "/machine-config"@
            &&& c.body matches VmBody::Machine(m)
            &&& m.vcpu_count == config.vcpus
            &&& m.mem_size_mib == config.memory_mib
            &&& m.smt == Some(false)
            &&& m.track_dirty_pages == Some(true)
            &&& m.huge_pages is None
        },
        BootStage::RootDrive => {
            &&& c.path@ == "/drives/"@ + "rootfs"@
            &&& c.body matches VmBody::Drive(d)
            &&& d.drive_id@ == "rootfs"@
            &&& d.path_on_host@ == config.rootfs_path@
            &&& d.is_root_device
            &&& d.is_read_only == !config.is_rootfs_writable
            &&& d.cache_type matches Some(t)
            &&& t@ == "Unsafe"@
            &&& d.partuuid is None
        },
        BootStage::Network => {
            &&& c.path@ == "/network-interfaces/"@ + "eth0"@
            &&& c.body matches VmBody::NetworkInterface(n)
            &&& n.iface_id@ == "eth0"@
            &&& n.host_dev_name@ == config.tap_name@
            &&& n.guest_mac@ == config.guest_mac@
        },
        BootStage::Vsock => {
            &&& c.path@ == "/vsock"@
            &&& c.body matches VmBody::Vsock(v)
            &&& v.guest_cid == 3
            &&& v.uds_path@ == vsock_path
        },
        BootStage::Start => {
            &&& c.path@ == "/actions"@
            &&& c.body == VmBody::Action(Action { action_type: ActionType::InstanceStart })
        },
        BootStage::Booted => false,
    }
}

/// The stage after a stage.
pub open spec fn next_stage(stage: BootStage) -> BootStage {
    match stage {
        BootStage::BootSource => BootStage::Machine,
        BootStage::Machine => BootStage::RootDrive,
        BootStage::RootDrive => BootStage::Network,
        BootStage::Network => BootStage::Vsock,
        BootStage::Vsock => BootStage::Start,
        BootStage::Start => BootStage::Booted,
        BootStage::Booted => BootStage::Booted,
    }
}

/// The state to which a VM goes when the call of a stage has succeeded, if it
/// goes to another one.
pub open spec fn stage_target(stage: BootStage) -> Option<VmLifecycle> {
    match stage {
        BootStage::BootSource => Some(VmLifecycle::Configured),
        BootStage::Start => Some(VmLifecycle::Running),
        _ => None,
    }
}

/// Two VMs that differ in their state alone.
pub open spec fn same_but_state(a: FirecrackerVm, b: FirecrackerVm) -> bool {
    &&& a.id == b.id
    &&& a.config == b.config
    &&& a.client == b.client
    &&& a.socket_path == b.socket_path
    &&& a.vsock_path == b.vsock_path
    &&& a.snapshot_mem_path == b.snapshot_mem_path
    &&& a.snapshot_state_path == b.snapshot_state_path
}

/// The error of an operation that is not allowed in a state.
pub open spec fn wrong_state(id: Text, expected: Text, actual: VmLifecycle) -> ErrorView {
    ErrorView::InvalidVmState { id, expected, actual: state_name(actual) }
}

impl FirecrackerVm {
    /// A VM whose process was started below `run_dir` to boot from scratch.
    pub fn create_and_boot(id: String, config: VmConfig, run_dir: &str) -> (r: FirecrackerVm)
        ensures
            r.id == id,
            r.config == config,
            r.state@ == VmLifecycle::Unconfigured,
            r.socket_path@ == joined(run_dir@, "vm-"@ + id@ + ".sock"@),
            r.client.socket_path@ == r.socket_path@,
            r.vsock_path == config.vsock_uds_path,
            r.snapshot_mem_path is None,
            r.snapshot_state_path is None,
    {
        let socket_path = join_path(run_dir, cat3("vm-", id.as_str(), ".sock").as_str());
        let vsock_path = config.vsock_uds_path.clone();
        FirecrackerVm {
            id,
            config,
            state: StateMachine::new(),
            client: FirecrackerClient::new(socket_path.as_str()),
            socket_path,
            vsock_path,
            snapshot_mem_path: None,
            snapshot_state_path: None,
        }
    }

    /// The call that a stage of the boot makes.
    pub fn boot_call(&self, stage: BootStage) -> (r: VmCall)
        requires
            stage != BootStage::Booted,
        ensures
            is_boot_call(r, stage, self.config, self.vsock_path@),
    {
        match stage {
            BootStage::BootSource => self.client.put_boot_source(
                BootSource {
                    kernel_image_path: self.config.kernel_path.clone(),
                    boot_args: Some("console=ttyS0 reboot=k panic=1 pci=off nomodules".to_owned()),
                    initrd_path: None,
                },
            ),
            BootStage::Machine => self.client.put_machine_config(
                MachineConfig {
                    vcpu_count: self.config.vcpus,
                    mem_size_mib: self.config.memory_mib,
                    smt: Some(false),
                    track_dirty_pages: Some(true),
                    huge_pages: None,
                },
            ),
            BootStage::RootDrive => self.client.put_drive(
                "rootfs",
                Drive {
                    drive_id: "rootfs".to_owned(),
                    path_on_host: self.config.rootfs_path.clone(),
                    is_root_device: true,
                    is_read_only: !self.config.is_rootfs_writable,
                    cache_type: Some("Unsafe".to_owned()),
                    partuuid: None,
                },
            ),
            BootStage::Network => self.client.put_network_interface(
                "eth0",
                NetworkInterface {
                    iface_id: "eth0".to_owned(),
                    host_dev_name: self.config.tap_name.clone(),
                    guest_mac: self.config.guest_mac.clone(),
                },
            ),
            BootStage::Vsock => self.client.put_vsock(
                Vsock { guest_cid: 3, uds_path: self.vsock_path.clone() },
            ),
            _ => self.client.put_action(Action { action_type: ActionType::InstanceStart }),
        }
    }

    /// Takes the success of the call of a stage: the VM is configured once its
    /// boot source is set, and runs once it was started.
    pub fn boot_done(&mut self, stage: BootStage) -> (r: Result<BootStage, CofferError>)
        ensures
            same_but_state(*final(self), *old(self)),
            match stage_target(stage) {
                Some(t) => if allowed(old(self).state@, t) {
                    r == Ok::<BootStage, CofferError>(next_stage(stage)) && final(self).state@ == t
                } else {
                    final(self).state@ == old(self).state@ && (r matches Err(e) && e@
                        == transition_error(old(self).state@, t))
                },
                None => r == Ok::<BootStage, CofferError>(next_stage(stage)) && final(self).state@
                    == old(self).state@,
            },
    {
        match stage {
            BootStage::BootSource => match self.state.transition(VmLifecycle::Configured) {
                Ok(_) => Ok(BootStage::Machine),
                Err(e) => Err(e),
            },
            BootStage::Machine => Ok(BootStage::RootDrive),
            BootStage::RootDrive => Ok(BootStage::Network),
            BootStage::Network => Ok(BootStage::Vsock),
            BootStage::Vsock => Ok(BootStage::Start),
            BootStage::Start => match self.state.transition(VmLifecycle::Running) {
                Ok(_) => Ok(BootStage::Booted),
                Err(e) => Err(e),
            },
            BootStage::Booted => Ok(BootStage::Booted),
        }
    }

    // -----------------------------------------------------------------
    // Restoring
    // -----------------------------------------------------------------

    /// A VM whose process was started below `run_dir` to be restored from a
    /// snapshot, and the call that loads the snapshot without resuming it.
    pub fn from_snapshot(
        id: String,
        config: VmConfig,
        snapshot_state: &str,
        snapshot_mem: &str,
        run_dir: &str,
    ) -> (r: (FirecrackerVm, VmCall))
        ensures
            r.0.id == id,
            r.0.config == config,
            r.0.state@ == VmLifecycle::SnapshotCreated,
            r.0.socket_path@ == joined(run_dir@, "vm-"@ + id@ + "-resume.sock"@),
            r.0.client.socket_path@ == r.0.socket_path@,
            r.0.vsock_path == config.vsock_uds_path,
            r.0.snapshot_mem_path matches Some(p) && p@ == snapshot_mem@,
            r.0.snapshot_state_path matches Some(p) && p@ == snapshot_state@,
            r.1.method == Method::Put,
            r.1.path@ == "/snapshot/load"@,
            r.1.body matches VmBody::SnapshotLoad(l) && l.snapshot_path@ == snapshot_state@
                && l.mem_backend.backend_type == MemBackendType::File && l.mem_backend.backend_path@
                == snapshot_mem@ && l.track_dirty_pages == Some(true) && l.resume_vm == Some(false)
                && l.enable_diff_snapshots == Some(false),
    {
        let socket_path = join_path(run_dir, cat3("vm-", id.as_str(), "-resume.sock").as_str());
        let vsock_path = config.vsock_uds_path.clone();
        let client = FirecrackerClient::new(socket_path.as_str());
        let call = client.load_snapshot(
            SnapshotLoad {
                snapshot_path: snapshot_state.to_owned(),
                mem_backend: MemBackend {
                    backend_type: MemBackendType::File,
                    backend_path: snapshot_mem.to_owned(),
                },
                track_dirty_pages: Some(true),
                resume_vm: Some(false),
                enable_diff_snapshots: Some(false),
            },
        );
        let vm = FirecrackerVm {
            id,
            config,
            state: StateMachine::from_snapshot(),
            client,
            socket_path,
            vsock_path,
            snapshot_mem_path: Some(snapshot_mem.to_owned()),
            snapshot_state_path: Some(snapshot_state.to_owned()),
        };
        (vm, call)
    }

    /// Takes the success of the call that loads the snapshot.
    pub fn snapshot_loaded(&mut self) -> (r: Result<(), CofferError>)
        ensures
            same_but_state(*final(self), *old(self)),
            r is Ok <==> old(self).state@ == VmLifecycle::SnapshotCreated,
            r is Ok ==> final(self).state@ == VmLifecycle::SnapshotLoaded,
            r matches Err(e) ==> final(self).state@ == old(self).state@ && e@ == transition_error(
                old(self).state@,
                VmLifecycle::SnapshotLoaded,
            ),
    {
        self.state.transition(VmLifecycle::SnapshotLoaded)
    }

    // -----------------------------------------------------------------
    // Operations
    // -----------------------------------------------------------------

    fn refuse(&self, expected: &str) -> (r: CofferError)
        ensures
            r@ == wrong_state(self.id@, expected@, self.state@),
    {
        CofferError::InvalidVmState {
            id: self.id.clone(),
            expected: expected.to_owned(),
            actual: self.state.state().name().to_owned(),
        }
    }

    /// The call that resumes a VM that is paused or was restored.
    pub fn resume(&self) -> (r: Result<VmCall, CofferError>)
        ensures
            r is Ok <==> (self.state@ == VmLifecycle::Paused || self.state@
                == VmLifecycle::SnapshotLoaded),
            r matches Ok(c) ==> c.method == Method::Patch && c.path@ == "/vm"@ && c.body
                == VmBody::State(VmState { state: VmStateEnum::Resumed }),
            r matches Err(e) ==> e@ == wrong_state(
                self.id@,
                "paused or snapshot_loaded"@,
                self.state@,
            ),
    {
        match self.state.state() {
            VmLifecycle::Paused | VmLifecycle::SnapshotLoaded => Ok(
                self.client.patch_vm_state(VmState { state: VmStateEnum::Resumed }),
            ),
            _ => Err(self.refuse("paused or snapshot_loaded")),
        }
    }

    /// Takes the success of that call: the VM runs.
    pub fn resumed(&mut self) -> (r: Result<(), CofferError>)
        ensures
            same_but_state(*final(self), *old(self)),
            r is Ok <==> allowed(old(self).state@, VmLifecycle::Running),
            r is Ok ==> final(self).state@ == VmLifecycle::Running,
            r matches Err(e) ==> final(self).state@ == old(self).state@ && e@ == transition_error(
                old(self).state@,
                VmLifecycle::Running,
            ),
    {
        self.state.transition(VmLifecycle::Running)
    }

    /// The call that pauses a running VM.
    pub fn pause(&self) -> (r: Result<VmCall, CofferError>)
        ensures
            r is Ok <==> self.state@ == VmLifecycle::Running,
            r matches Ok(c) ==> c.method == Method::Patch && c.path@ == "/vm"@ && c.body
                == VmBody::State(VmState { state: VmStateEnum::Paused }),
            r matches Err(e) ==> e@ == wrong_state(self.id@, "running"@, self.state@),
    {
        match self.state.state() {
            VmLifecycle::Running => Ok(
                self.client.patch_vm_state(VmState { state: VmStateEnum::Paused }),
            ),
            _ => Err(self.refuse("running")),
        }
    }

    /// Takes the success of that call: the VM is paused.
    pub fn paused(&mut self) -> (r: Result<(), CofferError>)
        ensures
            same_but_state(*final(self), *old(self)),
            r is Ok <==> old(self).state@ == VmLifecycle::Running,
            r is Ok ==> final(self).state@ == VmLifecycle::Paused,
            r matches Err(e) ==> final(self).state@ == old(self).state@ && e@ == transition_error(
                old(self).state@,
                VmLifecycle::Paused,
            ),
    {
        self.state.transition(VmLifecycle::Paused)
    }

    /// The call that takes a full snapshot of a paused VM.
    pub fn create_snapshot(&self, state_path: &str, mem_path: &str) -> (r: Result<
        VmCall,
        CofferError,
    >)
        ensures
            r is Ok <==> self.state@ == VmLifecycle::Paused,
            r matches Ok(c) ==> c.method == Method::Put && c.path@ == "/snapshot/create"@ && (
            c.body matches VmBody::SnapshotCreate(s) && s.snapshot_type == SnapshotType::Full
                && s.snapshot_path@ == state_path@ && s.mem_file_path@ == mem_path@),
            r matches Err(e) ==> e@ == wrong_state(self.id@, "paused"@, self.state@),
    {
        match self.state.state() {
            VmLifecycle::Paused => Ok(
                self.client.create_snapshot(
                    SnapshotCreate {
                        snapshot_type: SnapshotType::Full,
                        snapshot_path: state_path.to_owned(),
                        mem_file_path: mem_path.to_owned(),
                    },
                ),
            ),
            _ => Err(self.refuse("paused")),
        }
    }

    /// Takes the success of that call: the VM remembers where its snapshot is.
    pub fn snapshot_created(&mut self, state_path: &str, mem_path: &str) -> (r: Result<
        (),
        CofferError,
    >)
        ensures
            final(self).snapshot_state_path matches Some(p) && p@ == state_path@,
            final(self).snapshot_mem_path matches Some(p) && p@ == mem_path@,
            final(self).id == old(self).id,
            final(self).config == old(self).config,
            final(self).client == old(self).client,
            final(self).socket_path == old(self).socket_path,
            final(self).vsock_path == old(self).vsock_path,
            r is Ok <==> old(self).state@ == VmLifecycle::Paused,
            r is Ok ==> final(self).state@ == VmLifecycle::SnapshotCreated,
            r matches Err(e) ==> final(self).state@ == old(self).state@ && e@ == transition_error(
                old(self).state@,
                VmLifecycle::SnapshotCreated,
            ),
    {
        self.snapshot_state_path = Some(state_path.to_owned());
        self.snapshot_mem_path = Some(mem_path.to_owned());
        self.state.transition(VmLifecycle::SnapshotCreated)
    }

    /// The call that asks the guest to shut down. It has ten seconds; then its
    /// process is killed.
    pub fn shutdown(&self) -> (r: VmCall)
        ensures
            r.method == Method::Put,
            r.path@ == "/actions"@,
            r.body == VmBody::Action(Action { action_type: ActionType::SendCtrlAltDel }),
    {
        self.client.put_action(Action { action_type: ActionType::SendCtrlAltDel })
    }

    /// Takes the end of the process, whether the guest shut down or it was
    /// killed.
    pub fn kill(&mut self) -> (r: Result<(), CofferError>)
        ensures
            same_but_state(*final(self), *old(self)),
            r is Ok <==> allowed(old(self).state@, VmLifecycle::Exited),
            r is Ok ==> final(self).state@ == VmLifecycle::Exited,
            r matches Err(e) ==> final(self).state@ == old(self).state@ && e@ == transition_error(
                old(self).state@,
                VmLifecycle::Exited,
            ),
    {
        self.state.transition(VmLifecycle::Exited)
    }
}

// ---------------------------------------------------------------------
// Laws
// ---------------------------------------------------------------------

/// The state of a VM after the calls of all stages before `stage` succeeded.
pub open spec fn state_at(stage: BootStage) -> VmLifecycle {
    match stage {
        BootStage::BootSource => VmLifecycle::Unconfigured,
        BootStage::Booted => VmLifecycle::Running,
        _ => VmLifecycle::Configured,
    }
}

/// A new VM goes through all stages of its boot without a refusal: in each stage
/// it is in the state that the next transition needs, and at the end it runs.
pub proof fn law_boot_succeeds(stage: BootStage)
    requires
        stage != BootStage::Booted,
    ensures
        match stage_target(stage) {
            Some(t) => allowed(state_at(stage), t) && state_at(next_stage(stage)) == t,
            None => state_at(next_stage(stage)) == state_at(stage),
        },
        state_at(BootStage::BootSource) == VmLifecycle::Unconfigured,
        state_at(BootStage::Booted) == VmLifecycle::Running,
{
}

/// Whenever a VM may be asked to resume, pause or take a snapshot, the success
/// of the call leads to the new state.
pub proof fn law_checked_operations_succeed(s: VmLifecycle)
    ensures
        s == VmLifecycle::Paused || s == VmLifecycle::SnapshotLoaded ==> allowed(
            s,
            VmLifecycle::Running,
        ),
        s == VmLifecycle::Running ==> allowed(s, VmLifecycle::Paused),
        s == VmLifecycle::Paused ==> allowed(s, VmLifecycle::SnapshotCreated),
{
}

/// The process of a VM opens the socket that its client calls, under the name of
/// the VM; a VM that is restored has a socket of its own beside that of a VM that
/// boots.
pub proof fn law_process_opens_the_called_socket(
    id: String,
    config: VmConfig,
    run_dir: &str,
    state: &str,
    mem: &str,
    booting: FirecrackerVm,
    restoring: (FirecrackerVm, VmCall),
    vm: FirecrackerVm,
    socket: &str,
    name: &str,
    args: Vec<String>,
)
    requires
        call_ensures(FirecrackerVm::create_and_boot, (id, config, run_dir), booting),
        call_ensures(FirecrackerVm::from_snapshot, (id, config, state, mem, run_dir), restoring),
        vm == booting || vm == restoring.0,
        socket@ == vm.client.socket_path@,
        name@ == id@,
        call_ensures(vm_process_args, (socket, name), args),
    ensures
        vm.socket_path@ == socket@,
        vm.id@ == id@,
        vm.config == config,
        vm.vsock_path@ == config.vsock_uds_path@,
        option_value(strs(args@), "--api-sock"@, vm.socket_path@),
        option_value(strs(args@), "--id"@, id@),
        booting.state@ == VmLifecycle::Unconfigured,
        id@.len() > 0 ==> booting.socket_path@ != restoring.0.socket_path@,
{
    let a = strs(args@);
    assert(a[0] == "--api-sock"@);
    assert(a[2] == "--id"@);
    if id@.len() > 0 {
        reveal_strlit("vm-");
        reveal_strlit(".sock");
        reveal_strlit("-resume.sock");
        let x = "vm-"@ + id@ + ".sock"@;
        let y = "vm-"@ + id@ + "-resume.sock"@;
        assert(x[0] == 'v' && y[0] == 'v');
        assert(x.len() != y.len());
        assert(booting.socket_path@.len() != restoring.0.socket_path@.len());
    }
}

/// A socket is waited for until it is there, ten seconds at most.
pub proof fn law_vm_socket_is_awaited(id: &str, found: bool, elapsed_secs: u64, r: SocketWait)
    requires
        call_ensures(await_socket, (id, found, elapsed_secs), r),
    ensures
        r is Ready <==> found,
        r is GiveUp <==> !found && elapsed_secs > 10,
        r matches SocketWait::GiveUp(e) ==> e@ == (ErrorView::VmTimeout { id: id@, dur_ms: 10000 }),
{
}

/// The boot goes through every stage once: six stages that all differ lie between
/// its begin and its end, the first sets the kernel and the last starts the VM.
pub proof fn law_boot_visits_every_stage(
    v0: &mut FirecrackerVm,
    v1: &mut FirecrackerVm,
    v2: &mut FirecrackerVm,
    v3: &mut FirecrackerVm,
    v4: &mut FirecrackerVm,
    v5: &mut FirecrackerVm,
    s1: BootStage,
    s2: BootStage,
    s3: BootStage,
    s4: BootStage,
    s5: BootStage,
    end: BootStage,
)
    requires
        call_ensures(
            FirecrackerVm::boot_done,
            (v0, BootStage::BootSource),
            Ok::<BootStage, CofferError>(s1),
        ),
        call_ensures(FirecrackerVm::boot_done, (v1, s1), Ok::<BootStage, CofferError>(s2)),
        call_ensures(FirecrackerVm::boot_done, (v2, s2), Ok::<BootStage, CofferError>(s3)),
        call_ensures(FirecrackerVm::boot_done, (v3, s3), Ok::<BootStage, CofferError>(s4)),
        call_ensures(FirecrackerVm::boot_done, (v4, s4), Ok::<BootStage, CofferError>(s5)),
        call_ensures(FirecrackerVm::boot_done, (v5, s5), Ok::<BootStage, CofferError>(end)),
    ensures
        end == BootStage::Booted,
        s5 == BootStage::Start,
        seq![BootStage::BootSource, s1, s2, s3, s4, s5].no_duplicates(),
        !seq![BootStage::BootSource, s1, s2, s3, s4, s5].contains(BootStage::Booted),
{
    let all = seq![BootStage::BootSource, s1, s2, s3, s4, s5];
    assert(all[0] == BootStage::BootSource && all[1] == s1 && all[2] == s2 && all[3] == s3 && all[4]
        == s4 && all[5] == s5);
}

/// An operation that is refused names the VM and the state that it is in.
pub proof fn law_refusals_name_the_state(
    vm: &FirecrackerVm,
    pause: Result<VmCall, CofferError>,
    resume: Result<VmCall, CofferError>,
    path: &str,
    shot: Result<VmCall, CofferError>,
    state: VmLifecycle,
    name: &'static str,
)
    requires
        state == vm.state@,
        call_ensures(FirecrackerVm::pause, (vm,), pause),
        call_ensures(FirecrackerVm::resume, (vm,), resume),
        call_ensures(FirecrackerVm::create_snapshot, (vm, path, path), shot),
        call_ensures(VmLifecycle::name, (&state,), name),
    ensures
        pause matches Err(e) ==> (e@ matches ErrorView::InvalidVmState { id, actual, .. } && id
            == vm.id@ && actual == name@),
        resume matches Err(e) ==> (e@ matches ErrorView::InvalidVmState { id, actual, .. } && id
            == vm.id@ && actual == name@),
        shot matches Err(e) ==> (e@ matches ErrorView::InvalidVmState { id, actual, .. } && id
            == vm.id@ && actual == name@),
        pause is Ok <==> state == VmLifecycle::Running,
        resume is Ok <==> state == VmLifecycle::Paused || state == VmLifecycle::SnapshotLoaded,
        shot is Ok <==> state == VmLifecycle::Paused,
{
}

} // verus!
