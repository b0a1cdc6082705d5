//! Main runtime orchestrator: acquire sandboxes from warm pool or cold start.

use vstd::prelude::*;

use crate::agent::{download_answer, upload_answer, UploadOutcome};
use crate::config::{JailerConfig, RuntimeConfig};
use crate::error::{CofferError, ErrorView};
use crate::firecracker::{changes_state, is_kernel_call, is_load_call, is_machine_call, is_network_call,
    is_root_drive_call, is_vsock_call, triggers, ApiBody, ApiCall, FirecrackerClient};
use crate::guest::option_value;
use crate::net::{NetworkConfig, NetworkManager, NetworkState};
use crate::numeric::{dec, dec_text};
use crate::platform::{fresh_uuid, is_short_id, is_uuid_text, short_id};
use crate::pool::{acquired, guest_mac, mac_text, released, CidCounter, PoolState, PooledVm, WarmPool};
use crate::proto::{distinct_names, pairs, AgentRequest, AgentResponse, BodyView, ErrorCode, RequestView, ResponseBody,
    ResponseView};
use crate::protocol::{exec_error, exec_request, is_exec_request};
use crate::template::{firecracker_args, spawn_firecracker, ManagerState, Template, TemplateManager};
use crate::text::{cat2, cat3, copy_texts, join_path, joined, push_text, strs, Text};

verus! {

broadcast use vstd::string::group_string_axioms;

// ---------------------------------------------------------------------
// Starting the process of a VM
// ---------------------------------------------------------------------

/// How the process of a VM is started (Firecracker itself, or the jailer).
#[derive(Debug)]
pub struct VmProcess {
    /// Directories that have to exist, in this order.
    pub make_dirs: Vec<String>,
    pub program: String,
    pub args: Vec<String>,
    /// The socket path on the *host* side that the Firecracker API listens on.
    pub host_socket_path: String,
}

/// The root directory of the jail of a VM.
pub open spec fn jail_root(base: Text, vm_id: Text) -> Text {
    joined(joined(base, vm_id), "root"@)
}

/// The arguments of the jailer before the separator.
pub open spec fn jailer_args(j: JailerConfig, vm_id: Text, firecracker: Text) -> Seq<Text> {
    seq![
        "--id"@,
        vm_id,
        "--uid"@,
        dec(j.uid as nat),
        "--gid"@,
        dec(j.gid as nat),
        "--chroot-base-dir"@,
        j.chroot_base_dir@,
        "--exec-file"@,
        firecracker,
    ] + (match j.netns {
        Some(n) => seq!["--netns"@, n@],
        None => seq![],
    }) + (if j.daemonize {
        seq!["--daemonize"@]
    } else {
        seq![]
    }) + (if j.new_pid_ns {
        seq!["--new-pid-ns"@]
    } else {
        seq![]
    })
}

/// The process of a VM in a jail.
pub open spec fn is_jailed_process(
    p: VmProcess,
    j: JailerConfig,
    jailer: Text,
    firecracker: Text,
    vm_id: Text,
    socket_name: Text,
    log_name: Text,
) -> bool {
    let root = jail_root(j.chroot_base_dir@, vm_id);
    &&& strs(p.make_dirs@) == seq![root, joined(root, "run"@)]
    &&& p.program@ == jailer
    &&& strs(p.args@) == jailer_args(j, vm_id, firecracker) + seq!["--"@] + firecracker_args(
        joined("/run"@, socket_name),
        joined("/run"@, log_name),
    )
    &&& p.host_socket_path@ == joined(joined(root, "run"@), socket_name)
}

/// The process of a VM without a jail.
pub open spec fn is_plain_process(
    p: VmProcess,
    socket_dir: Text,
    firecracker: Text,
    socket_name: Text,
    log_name: Text,
) -> bool {
    &&& p.make_dirs@.len() == 0
    &&& p.program@ == firecracker
    &&& strs(p.args@) == firecracker_args(joined(socket_dir, socket_name), joined(socket_dir, log_name))
    &&& p.host_socket_path@ == joined(socket_dir, socket_name)
}

/// How the process of a VM is started: through the jailer where one is
/// configured, which then needs its path.
pub fn spawn_vm_process(config: &RuntimeConfig, vm_id: &str, socket_name: &str, log_name: &str) -> (r:
    Result<VmProcess, CofferError>)
    ensures
        match (config.jailer, config.jailer_path) {
            (Some(j), Some(path)) => r matches Ok(p) && is_jailed_process(
                p,
                j,
                path@,
                config.firecracker_path@,
                vm_id@,
                socket_name@,
                log_name@,
            ),
            (Some(_), None) => r matches Err(e) && e@ == ErrorView::Config(
                "jailer_path not set but jailer config present"@,
            ),
            (None, _) => r matches Ok(p) && is_plain_process(
                p,
                config.socket_dir@,
                config.firecracker_path@,
                socket_name@,
                log_name@,
            ),
        },
{
    match &config.jailer {
        Some(j) => {
            let jailer = match &config.jailer_path {
                Some(p) => p,
                None => {
                    return Err(
                        CofferError::Config(
                            "jailer_path not set but jailer config present".to_owned(),
                        ),
                    );
                },
            };
            let root = join_path(join_path(j.chroot_base_dir.as_str(), vm_id).as_str(), "root");
            let run = join_path(root.as_str(), "run");
            let host_socket_path = join_path(run.as_str(), socket_name);
            let mut make_dirs: Vec<String> = Vec::new();
            make_dirs.push(root);
            make_dirs.push(run);
            assert(strs(make_dirs@) =~= seq![root@, run@]);
            let mut args: Vec<String> = Vec::new();
            push_text(&mut args, "--id");
            push_text(&mut args, vm_id);
            push_text(&mut args, "--uid");
            push_text(&mut args, dec_text(j.uid as u64).as_str());
            push_text(&mut args, "--gid");
            push_text(&mut args, dec_text(j.gid as u64).as_str());
            push_text(&mut args, "--chroot-base-dir");
            push_text(&mut args, j.chroot_base_dir.as_str());
            push_text(&mut args, "--exec-file");
            push_text(&mut args, config.firecracker_path.as_str());
            match &j.netns {
                Some(n) => {
                    push_text(&mut args, "--netns");
                    push_text(&mut args, n.as_str());
                },
                None => {},
            }
            if j.daemonize {
                push_text(&mut args, "--daemonize");
            }
            if j.new_pid_ns {
                push_text(&mut args, "--new-pid-ns");
            }
            assert(strs(args@) =~= jailer_args(*j, vm_id@, config.firecracker_path@));
            push_text(&mut args, "--");
            let ghost before = args@;
            let socket = join_path("/run", socket_name);
            let log = join_path("/run", log_name);
            let mut tail = spawn_firecracker(socket.as_str(), log.as_str());
            let ghost more = tail@;
            args.append(&mut tail);
            assert(strs(args@) =~= strs(before) + strs(more));
            assert(strs(args@) =~= jailer_args(*j, vm_id@, config.firecracker_path@) + seq!["--"@]
                + firecracker_args(socket@, log@));
            Ok(VmProcess { make_dirs, program: jailer.clone(), args, host_socket_path })
        },
        None => {
            let socket = join_path(config.socket_dir.as_str(), socket_name);
            let log = join_path(config.socket_dir.as_str(), log_name);
            let args = spawn_firecracker(socket.as_str(), log.as_str());
            Ok(
                VmProcess {
                    make_dirs: Vec::new(),
                    program: config.firecracker_path.clone(),
                    args,
                    host_socket_path: socket,
                },
            )
        },
    }
}

/// The socket that the host awaits is the one that Firecracker opens inside the
/// jail.
pub proof fn law_jail_sockets_agree(root: Text, name: Text)
    requires
        root.len() > 0,
        root.last() != '/',
        name.len() > 0,
        name[0] != '/',
    ensures
        joined(joined(root, "run"@), name) == root + joined("/run"@, name),
{
    reveal_strlit("run");
    reveal_strlit("/run");
    assert(joined(joined(root, "run"@), name) =~= root + joined("/run"@, name));
}

// ---------------------------------------------------------------------
// Configuring a VM
// ---------------------------------------------------------------------

/// The calls that configure a VM of a template, in order.
pub open spec fn are_configure_calls(
    calls: Seq<ApiCall>,
    vcpus: u32,
    memory_mib: u32,
    rootfs: Text,
    tap: Text,
    cid: u32,
    vsock: Text,
) -> bool {
    &&& calls.len() == 4
    &&& is_machine_call(calls[0], vcpus, memory_mib)
    &&& is_root_drive_call(calls[1], rootfs)
    &&& is_network_call(calls[2], mac_text(cid), tap)
    &&& is_vsock_call(calls[3], cid, vsock)
}

/// The calls that configure a VM of a template, in order.
pub fn configure_calls(template: &Template, tap: &str, cid: u32, vsock_path: &str) -> (r: Vec<ApiCall>)
    ensures
        are_configure_calls(
            r@,
            template.vcpus,
            template.memory_mib,
            template.rootfs_path@,
            tap@,
            cid,
            vsock_path@,
        ),
{
    let fc = FirecrackerClient::new(String::new());
    let mac = guest_mac(cid);
    let mut calls: Vec<ApiCall> = Vec::new();
    calls.push(fc.machine_call(template.vcpus, template.memory_mib));
    calls.push(fc.root_drive_call(template.rootfs_path.as_str()));
    calls.push(fc.network_call(mac.as_str(), tap));
    calls.push(fc.vsock_call(cid, vsock_path));
    calls
}

/// The calls that start a VM of a template: from its snapshot where both files
/// of it exist, else from its kernel.
pub open spec fn are_start_calls(
    calls: Seq<ApiCall>,
    t: Template,
    has_snapshot: bool,
    resume: bool,
) -> bool {
    if has_snapshot {
        &&& calls.len() == 1
        &&& is_load_call(calls[0], t.snapshot_state_path@, t.snapshot_mem_path@, resume)
    } else {
        &&& calls.len() == 2
        &&& is_kernel_call(calls[0], t.kernel_path@, t.kernel_args@)
        &&& triggers(calls[1], "InstanceStart"@)
    }
}

/// The calls that start a VM of a template, given which files of its snapshot
/// exist and whether a snapshot is to run at once.
pub fn start_calls(template: &Template, mem_exists: bool, state_exists: bool, resume: bool) -> (r: Vec<
    ApiCall,
>)
    ensures
        are_start_calls(r@, *template, mem_exists && state_exists, resume),
{
    let fc = FirecrackerClient::new(String::new());
    let mut calls: Vec<ApiCall> = Vec::new();
    if mem_exists && state_exists {
        calls.push(
            fc.load_call(
                template.snapshot_state_path.as_str(),
                template.snapshot_mem_path.as_str(),
                resume,
            ),
        );
    } else {
        calls.push(fc.kernel_call(template.kernel_path.as_str(), template.kernel_args.as_str()));
        calls.push(fc.start_microvm());
    }
    calls
}

// ---------------------------------------------------------------------
// Warming a VM
// ---------------------------------------------------------------------

/// A VM that is about to be started.
#[derive(Debug)]
pub struct NewVm {
    pub template: Template,
    pub vm_id: String,
    pub vsock_path: String,
    pub socket_name: String,
    pub log_name: String,
}

/// A VM of a template with a random identifier behind a prefix.
pub open spec fn is_new_vm(v: NewVm, prefix: Text, vsock_dir: Text) -> bool {
    &&& exists|tail: Text| is_short_id(tail) && v.vm_id@ == prefix + tail
    &&& v.vsock_path@ == joined(vsock_dir, v.vm_id@ + ".sock"@)
    &&& v.socket_name@ == v.vm_id@ + ".sock"@
    &&& v.log_name@ == v.vm_id@ + ".log"@
}

fn new_vm(template: Template, prefix: &str, vsock_dir: &str) -> (r: NewVm)
    ensures
        r.template == template,
        is_new_vm(r, prefix@, vsock_dir@),
{
    let tail = short_id();
    let vm_id = cat2(prefix, tail.as_str());
    let socket_name = cat2(vm_id.as_str(), ".sock");
    let vsock_path = join_path(vsock_dir, socket_name.as_str());
    let log_name = cat2(vm_id.as_str(), ".log");
    NewVm { template, vm_id, vsock_path, socket_name, log_name }
}

/// Begins to warm a VM of a template for the pool. Its vsock lies below the
/// directory of the sockets.
pub fn warm_one(config: &RuntimeConfig, templates: &TemplateManager, template_id: &str) -> (r: Result<
    NewVm,
    CofferError,
>)
    requires
        templates.wf(),
    ensures
        r is Ok <==> templates@.templates.dom().contains(template_id@),
        r matches Ok(v) ==> v.template@ == templates@.templates[template_id@] && is_new_vm(
            v,
            "coffer-pool-"@,
            joined(config.socket_dir@, "vsock"@),
        ),
        r matches Err(e) ==> e@ == ErrorView::TemplateNotFound(template_id@),
{
    let template = match templates.get(template_id) {
        Ok(t) => t,
        Err(e) => return Err(e),
    };
    let dir = join_path(config.socket_dir.as_str(), "vsock");
    Ok(new_vm(template, "coffer-pool-", dir.as_str()))
}

// ---------------------------------------------------------------------
// Launching a VM
// ---------------------------------------------------------------------

/// How a VM is launched. The steps come in the order of the fields, and each
/// must succeed.
#[derive(Debug)]
pub struct LaunchPlan {
    pub process: VmProcess,
    /// How long the socket of the API is awaited.
    pub socket_timeout_ms: u64,
    /// The calls that configure and start the VM, in order.
    pub calls: Vec<ApiCall>,
    /// How long the agent is awaited, if it is.
    pub agent_timeout_ms: Option<u64>,
    /// The call that pauses the VM, if it is to wait in the pool.
    pub pause: Option<ApiCall>,
}

/// The process of a VM, with the socket and the log that bear its name.
pub open spec fn is_process_of(p: VmProcess, config: RuntimeConfig, vm: NewVm) -> bool {
    match config.jailer {
        Some(j) => config.jailer_path matches Some(path) && is_jailed_process(
            p,
            j,
            path@,
            config.firecracker_path@,
            vm.vm_id@,
            vm.socket_name@,
            vm.log_name@,
        ),
        None => is_plain_process(
            p,
            config.socket_dir@,
            config.firecracker_path@,
            vm.socket_name@,
            vm.log_name@,
        ),
    }
}

/// The calls that configure and start a VM.
pub open spec fn are_launch_calls(
    calls: Seq<ApiCall>,
    vm: NewVm,
    tap: Text,
    cid: u32,
    has_snapshot: bool,
    resume: bool,
) -> bool {
    &&& calls.len() >= 4
    &&& are_configure_calls(
        calls.take(4),
        vm.template.vcpus,
        vm.template.memory_mib,
        vm.template.rootfs_path@,
        tap,
        cid,
        vm.vsock_path@,
    )
    &&& are_start_calls(calls.skip(4), vm.template, has_snapshot, resume)
}

/// A jailer is configured without a path to it.
pub open spec fn lacks_jailer(config: RuntimeConfig) -> bool {
    config.jailer is Some && config.jailer_path is None
}

fn launch(
    config: &RuntimeConfig,
    vm: &NewVm,
    tap: &str,
    cid: u32,
    mem_exists: bool,
    state_exists: bool,
    resume: bool,
) -> (r: Result<(VmProcess, Vec<ApiCall>), CofferError>)
    ensures
        r is Ok <==> !lacks_jailer(*config),
        r matches Ok(p) ==> is_process_of(p.0, *config, *vm) && are_launch_calls(
            p.1@,
            *vm,
            tap@,
            cid,
            mem_exists && state_exists,
            resume,
        ),
        r matches Err(e) ==> e@ == ErrorView::Config(
            "jailer_path not set but jailer config present"@,
        ),
{
    let process = match spawn_vm_process(
        config,
        vm.vm_id.as_str(),
        vm.socket_name.as_str(),
        vm.log_name.as_str(),
    ) {
        Ok(p) => p,
        Err(e) => return Err(e),
    };
    let mut calls = configure_calls(&vm.template, tap, cid, vm.vsock_path.as_str());
    let ghost first = calls@;
    let mut start = start_calls(&vm.template, mem_exists, state_exists, resume);
    let ghost second = start@;
    calls.append(&mut start);
    assert(calls@.take(4) =~= first);
    assert(calls@.skip(4) =~= second);
    Ok((process, calls))
}

/// How a VM is launched to wait in the pool: paused, and once its agent was ready
/// where it boots from its kernel. A snapshot is loaded without running.
pub fn warm_plan(
    config: &RuntimeConfig,
    vm: &NewVm,
    tap: &str,
    cid: u32,
    mem_exists: bool,
    state_exists: bool,
) -> (r: Result<LaunchPlan, CofferError>)
    ensures
        r is Ok <==> !lacks_jailer(*config),
        r matches Ok(p) ==> {
            &&& is_process_of(p.process, *config, *vm)
            &&& p.socket_timeout_ms == 2000
            &&& are_launch_calls(p.calls@, *vm, tap@, cid, mem_exists && state_exists, false)
            &&& p.agent_timeout_ms == if mem_exists && state_exists {
                None
            } else {
                Some(30000u64)
            }
            &&& p.pause matches Some(c)
            &&& changes_state(c, "Paused"@)
        },
        r matches Err(e) ==> e@ == ErrorView::Config(
            "jailer_path not set but jailer config present"@,
        ),
{
    match launch(config, vm, tap, cid, mem_exists, state_exists, false) {
        Ok((process, calls)) => {
            let fc = FirecrackerClient::new(process.host_socket_path.clone());
            let agent_timeout_ms: Option<u64> = if mem_exists && state_exists {
                None
            } else {
                Some(30000)
            };
            Ok(
                LaunchPlan {
                    process,
                    socket_timeout_ms: 2000,
                    calls,
                    agent_timeout_ms,
                    pause: Some(fc.pause()),
                },
            )
        },
        Err(e) => Err(e),
    }
}

/// How a VM is launched to be used at once: running, and once its agent is ready.
pub fn cold_plan(
    config: &RuntimeConfig,
    vm: &NewVm,
    tap: &str,
    cid: u32,
    mem_exists: bool,
    state_exists: bool,
) -> (r: Result<LaunchPlan, CofferError>)
    ensures
        r is Ok <==> !lacks_jailer(*config),
        r matches Ok(p) ==> {
            &&& is_process_of(p.process, *config, *vm)
            &&& p.socket_timeout_ms == 2000
            &&& are_launch_calls(p.calls@, *vm, tap@, cid, mem_exists && state_exists, true)
            &&& p.agent_timeout_ms == Some(READY_TIMEOUT_MS)
            &&& p.pause is None
        },
        r matches Err(e) ==> e@ == ErrorView::Config(
            "jailer_path not set but jailer config present"@,
        ),
{
    match launch(config, vm, tap, cid, mem_exists, state_exists, true) {
        Ok((process, calls)) => Ok(
            LaunchPlan {
                process,
                socket_timeout_ms: 2000,
                calls,
                agent_timeout_ms: Some(READY_TIMEOUT_MS),
                pause: None,
            },
        ),
        Err(e) => Err(e),
    }
}

/// The VM that waits in the pool once it was launched.
pub fn pooled_vm(vm: NewVm, plan: &LaunchPlan) -> (r: PooledVm)
    ensures
        r@ == (vm.vm_id@, plan.process.host_socket_path@, vm.vsock_path@),
{
    PooledVm {
        vm_id: vm.vm_id,
        socket_path: plan.process.host_socket_path.clone(),
        vsock_path: vm.vsock_path,
    }
}

// ---------------------------------------------------------------------
// The runtime
// ---------------------------------------------------------------------

/// The state of the runtime.
pub struct RuntimeState {
    pub templates: ManagerState,
    pub pool: PoolState,
    pub network: NetworkState,
    pub vsock_dir: Text,
    pub next_cid: u32,
}

/// The main Coffer runtime.
pub struct Runtime {
    pub config: RuntimeConfig,
    pub templates: TemplateManager,
    pub pool: WarmPool,
    pub network: NetworkManager,
    /// Host-side vsock UDS directory.
    pub vsock_dir: String,
    /// The context identifiers of new VMs.
    pub cids: CidCounter,
}

/// How long the agent of a sandbox is awaited before it is handed out.
pub const READY_TIMEOUT_MS: u64 = 5000;

/// How a sandbox comes about.
#[derive(Debug)]
pub enum Acquisition {
    /// A VM of the pool: resume it with this call, then wait so long for its
    /// agent.
    Warm { vm: PooledVm, resume: ApiCall, agent_timeout_ms: u64 },
    /// A new VM.
    Cold(NewVm),
}

impl Runtime {
    /// The state of the runtime.
    pub closed spec fn state(&self) -> RuntimeState {
        RuntimeState {
            templates: self.templates@,
            pool: self.pool@,
            network: self.network@,
            vsock_dir: self.vsock_dir@,
            next_cid: self.cids@,
        }
    }

    /// A runtime without templates, with an empty pool and no bridge yet.
    pub fn new(config: RuntimeConfig) -> (r: Runtime)
        ensures
            r.config == config,
            r.templates.wf(),
            r.state() == (RuntimeState {
                templates: ManagerState {
                    template_dir: config.template_dir@,
                    kernel_path: config.kernel_path@,
                    firecracker_path: config.firecracker_path@,
                    agent_bin: None,
                    templates: Map::empty(),
                },
                pool: PoolState {
                    size: config.pool.warm_pool_size,
                    available: Map::empty(),
                    in_use: Map::empty(),
                },
                network: NetworkState {
                    bridge_name: config.network.bridge_name@,
                    subnet: config.network.subnet@,
                    tap_prefix: config.network.tap_prefix@,
                    taps: Map::empty(),
                    bridge_setup: false,
                },
                vsock_dir: joined(config.socket_dir@, "vsock"@),
                next_cid: 1024,
            }),
            r.templates@ == r.state().templates,
            r.pool@ == r.state().pool,
            r.network@ == r.state().network,
            r.vsock_dir@ == r.state().vsock_dir,
    {
        let templates = TemplateManager::new(
            config.template_dir.clone(),
            config.kernel_path.clone(),
            config.firecracker_path.clone(),
        );
        let network = NetworkManager::new(
            NetworkConfig {
                bridge_name: config.network.bridge_name.clone(),
                subnet: config.network.subnet.clone(),
                tap_prefix: config.network.tap_prefix.clone(),
            },
        );
        let pool = WarmPool::new(config.pool.warm_pool_size);
        let vsock_dir = join_path(config.socket_dir.as_str(), "vsock");
        Runtime { config, templates, pool, network, vsock_dir, cids: CidCounter::new() }
    }

    /// Acquire a sandbox: a VM of the warm pool where one waits, else a new one.
    pub fn acquire(&mut self, template_id: &str) -> (r: Result<Acquisition, CofferError>)
        requires
            old(self).templates.wf(),
        ensures
            final(self).config == old(self).config,
            final(self).templates == old(self).templates,
            final(self).network == old(self).network,
            final(self).vsock_dir == old(self).vsock_dir,
            final(self).state().next_cid == old(self).state().next_cid,
            final(self).pool@ == acquired(old(self).pool@, template_id@).0,
            match acquired(old(self).pool@, template_id@).1 {
                Some(vm) => r matches Ok(Acquisition::Warm { vm: p, resume, agent_timeout_ms })
                    && p@ == vm && changes_state(resume, "Resumed"@) && agent_timeout_ms
                    == READY_TIMEOUT_MS,
                None => {
                    &&& r is Ok <==> old(self).templates@.templates.dom().contains(template_id@)
                    &&& r matches Ok(a) ==> (a matches Acquisition::Cold(v) && v.template@ == old(
                        self,
                    ).templates@.templates[template_id@] && is_new_vm(
                        v,
                        "coffer-"@,
                        old(self).vsock_dir@,
                    ))
                    &&& r matches Err(e) ==> e@ == ErrorView::TemplateNotFound(template_id@)
                },
            },
    {
        match self.pool.acquire(template_id) {
            Some(pooled) => {
                let fc = FirecrackerClient::new(pooled.socket_path.clone());
                let resume = fc.resume();
                Ok(
                    Acquisition::Warm {
                        vm: pooled,
                        resume,
                        agent_timeout_ms: READY_TIMEOUT_MS,
                    },
                )
            },
            None => match self.create_cold(template_id) {
                Ok(v) => Ok(Acquisition::Cold(v)),
                Err(e) => Err(e),
            },
        }
    }

    /// Begins to create a sandbox from scratch.
    pub fn create_cold(&self, template_id: &str) -> (r: Result<NewVm, CofferError>)
        requires
            self.templates.wf(),
        ensures
            r is Ok <==> self.templates@.templates.dom().contains(template_id@),
            r matches Ok(v) ==> v.template@ == self.templates@.templates[template_id@] && is_new_vm(
                v,
                "coffer-"@,
                self.vsock_dir@,
            ),
            r matches Err(e) ==> e@ == ErrorView::TemplateNotFound(template_id@),
    {
        let template = match self.templates.get(template_id) {
            Ok(t) => t,
            Err(e) => return Err(e),
        };
        Ok(new_vm(template, "coffer-", self.vsock_dir.as_str()))
    }

    /// The context identifier of the next VM.
    pub fn next_cid(&mut self) -> (r: u32)
        ensures
            r == old(self).state().next_cid,
            final(self).state() == (RuntimeState {
                next_cid: crate::pool::following(old(self).state().next_cid),
                ..old(self).state()
            }),
            final(self).config == old(self).config,
            final(self).templates == old(self).templates,
            final(self).pool == old(self).pool,
            final(self).network == old(self).network,
            final(self).vsock_dir == old(self).vsock_dir,
    {
        self.cids.take()
    }

    /// The templates that sandboxes are made from.
    pub fn templates(&self) -> (r: &TemplateManager)
        ensures
            *r == self.templates,
    {
        &self.templates
    }

    /// The handle of a sandbox of a template whose agent is ready. From now on
    /// its VM is in use.
    pub fn build_handle(
        &mut self,
        template_id: &str,
        vm_id: String,
        socket_path: String,
        vsock_path: String,
    ) -> (r: SandboxHandle)
        ensures
            final(self).config == old(self).config,
            final(self).templates == old(self).templates,
            final(self).network == old(self).network,
            final(self).vsock_dir == old(self).vsock_dir,
            final(self).cids == old(self).cids,
            final(self).pool@ == (PoolState {
                in_use: old(self).pool@.in_use.insert(vm_id@, template_id@),
                ..old(self).pool@
            }),
            r.id_text() == vm_id@,
            r.inner().vm_id == vm_id,
            r.inner().socket_path == socket_path,
            r.inner().vsock_path == vsock_path,
            r.inner().pooled,
    {
        self.pool.lend(template_id, vm_id.as_str());
        SandboxHandle {
            vm_id: vm_id.clone(),
            sandbox: Sandbox { vm_id, socket_path, vsock_path, pooled: true },
        }
    }

    /// Takes a paused sandbox back into the warm pool, and says whether it waits
    /// there; one that does not has to be ended.
    pub fn take_back(&mut self, sandbox: &Sandbox) -> (r: bool)
        ensures
            final(self).config == old(self).config,
            final(self).templates == old(self).templates,
            final(self).network == old(self).network,
            final(self).vsock_dir == old(self).vsock_dir,
            final(self).cids == old(self).cids,
            final(self).pool@ == released(old(self).pool@, sandbox.row()).0,
            r == released(old(self).pool@, sandbox.row()).1,
    {
        let vm = PooledVm {
            vm_id: sandbox.vm_id.clone(),
            socket_path: sandbox.socket_path.clone(),
            vsock_path: sandbox.vsock_path.clone(),
        };
        self.pool.release(vm).is_none()
    }
}

// ---------------------------------------------------------------------
// Sandboxes
// ---------------------------------------------------------------------

/// An active sandbox wrapping a Firecracker MicroVM.
#[derive(Debug)]
pub struct Sandbox {
    pub vm_id: String,
    pub socket_path: String,
    pub vsock_path: String,
    /// Whether there is a warm pool to return to.
    pub pooled: bool,
}

/// The answer to a request other than an exec means an error.
pub open spec fn refused(resp: ResponseView, otherwise: Text) -> ErrorView {
    match resp {
        ResponseView::Error { code, message, .. } => exec_error(code, message),
        _ => ErrorView::AgentCommunication(otherwise),
    }
}

/// What the answer to an upload means: any success is one.
pub open spec fn upload_outcome(resp: ResponseView) -> Result<(), ErrorView> {
    match resp {
        ResponseView::Success { .. } => Ok(()),
        _ => Err(refused(resp, "Unexpected upload response"@)),
    }
}

/// What the answer to a download means: the content of the file.
pub open spec fn download_outcome(resp: ResponseView) -> Result<Seq<u8>, ErrorView> {
    match resp {
        ResponseView::Success { body: BodyView::Download { data }, .. } => Ok(data),
        _ => Err(refused(resp, "Unexpected download response"@)),
    }
}

fn refusal(resp: AgentResponse, otherwise: &str) -> (r: CofferError)
    ensures
        r@ == refused(resp@, otherwise@),
{
    match resp {
        AgentResponse::Error { message, code, .. } => CofferError::AgentExec {
            message: cat3(code.name(), ": ", message.as_str()),
            exit_code: None,
        },
        _ => CofferError::AgentCommunication(otherwise.to_owned()),
    }
}

/// How a sandbox comes to its end: a call, and then the removal of its TAP
/// device, unless the call had to succeed and did not.
#[derive(Debug)]
pub struct Ending {
    pub call: ApiCall,
    pub call_must_succeed: bool,
}

impl Sandbox {
    /// The sandbox as the pool knows it.
    pub open spec fn row(&self) -> (Text, Text, Text) {
        (self.vm_id@, self.socket_path@, self.vsock_path@)
    }

    pub fn vm_id(&self) -> (r: &str)
        ensures
            r@ == self.vm_id@,
    {
        self.vm_id.as_str()
    }

    pub fn vsock_path(&self) -> (r: &str)
        ensures
            r@ == self.vsock_path@,
    {
        self.vsock_path.as_str()
    }

    /// The request that executes a command inside the sandbox.
    pub fn exec(&self, cmd: &Vec<String>, env: Vec<(String, String)>, timeout_ms: u64) -> (r:
        AgentRequest)
        ensures
            is_exec_request(
                r@,
                strs(cmd@),
                pairs(env@),
                None,
                None,
                Some(timeout_ms),
                false,
                false,
                None,
            ),
            distinct_names(pairs(env@)) ==> r@.valid(),
    {
        exec_request(copy_texts(cmd), env, None, None, Some(timeout_ms))
    }

    /// The request that uploads a file, which its owner may change and everybody
    /// may read.
    pub fn upload_file(&self, guest_path: &str, data: Vec<u8>) -> (r: AgentRequest)
        ensures
            r@ matches RequestView::Upload { request_id, guest_path: p, data: d, mode } && is_uuid_text(
                request_id,
            ) && p == guest_path@ && d == data@ && mode == Some(0o644u32),
    {
        AgentRequest::Upload {
            request_id: fresh_uuid(),
            guest_path: guest_path.to_owned(),
            data,
            mode: Some(0o644),
        }
    }

    /// What the answer to an upload means.
    pub fn upload_result(resp: AgentResponse) -> (r: Result<(), CofferError>)
        ensures
            match r {
                Ok(_) => upload_outcome(resp@) is Ok,
                Err(e) => upload_outcome(resp@) == Err::<(), ErrorView>(e@),
            },
    {
        match resp {
            AgentResponse::Success { .. } => Ok(()),
            other => Err(refusal(other, "Unexpected upload response")),
        }
    }

    /// The request that downloads a file.
    pub fn download_file(&self, guest_path: &str) -> (r: AgentRequest)
        ensures
            r@ matches RequestView::Download { request_id, guest_path: p } && is_uuid_text(request_id)
                && p == guest_path@,
    {
        AgentRequest::Download { request_id: fresh_uuid(), guest_path: guest_path.to_owned() }
    }

    /// What the answer to a download means.
    pub fn download_result(resp: AgentResponse) -> (r: Result<Vec<u8>, CofferError>)
        ensures
            match r {
                Ok(d) => download_outcome(resp@) == Ok::<Seq<u8>, ErrorView>(d@),
                Err(e) => download_outcome(resp@) == Err::<Seq<u8>, ErrorView>(e@),
            },
    {
        match resp {
            AgentResponse::Success { body: ResponseBody::Download { data }, .. } => Ok(data),
            other => Err(refusal(other, "Unexpected download response")),
        }
    }

    /// The call that pauses the sandbox.
    pub fn pause(&self) -> (r: ApiCall)
        ensures
            changes_state(r, "Paused"@),
    {
        FirecrackerClient::new(self.socket_path.clone()).pause()
    }

    /// The call that resumes the sandbox.
    pub fn resume(&self) -> (r: ApiCall)
        ensures
            changes_state(r, "Resumed"@),
    {
        FirecrackerClient::new(self.socket_path.clone()).resume()
    }

    /// Gracefully shutdown the sandbox: its network is taken away once it was
    /// asked to shut down.
    pub fn shutdown(&self) -> (r: Ending)
        ensures
            triggers(r.call, "SendCtrlAltDel"@),
            r.call_must_succeed,
    {
        let call = FirecrackerClient::new(self.socket_path.clone()).shutdown();
        Ending { call, call_must_succeed: true }
    }

    /// Destroy the VM and clean up all resources, whether or not it can still be
    /// asked to shut down.
    pub fn destroy(&self) -> (r: Ending)
        ensures
            triggers(r.call, "SendCtrlAltDel"@),
            !r.call_must_succeed,
    {
        let call = FirecrackerClient::new(self.socket_path.clone()).shutdown();
        Ending { call, call_must_succeed: false }
    }

    /// The call that precedes the return to the warm pool; without a pool there
    /// is no return.
    pub fn return_to_pool(&self) -> (r: Result<ApiCall, CofferError>)
        ensures
            r is Ok <==> self.pooled,
            r matches Ok(c) ==> changes_state(c, "Paused"@),
            r matches Err(e) ==> e@ == ErrorView::Pool("No warm pool configured"@),
    {
        if self.pooled {
            Ok(self.pause())
        } else {
            Err(CofferError::Pool("No warm pool configured".to_owned()))
        }
    }
}

/// Handle that returns the sandbox to the pool when it is given up, unless
/// `into_inner` is called.
#[derive(Debug)]
pub struct SandboxHandle {
    vm_id: String,
    sandbox: Sandbox,
}

/// What becomes of a sandbox whose handle was given up.
#[derive(Debug, Clone, Copy, PartialEq, Eq, Structural)]
pub enum GiveUp {
    /// Return it to the pool.
    ReturnToPool,
    /// It could not be returned: destroy it.
    Destroy,
    Done,
}

impl GiveUp {
    /// What follows, given whether the last step succeeded. A sandbox that cannot
    /// be returned is destroyed, as far as it can be.
    pub fn next(self, success: bool) -> (r: GiveUp)
        ensures
            r == match self {
                GiveUp::ReturnToPool => if success {
                    GiveUp::Done
                } else {
                    GiveUp::Destroy
                },
                _ => GiveUp::Done,
            },
    {
        match self {
            GiveUp::ReturnToPool => {
                if success {
                    GiveUp::Done
                } else {
                    GiveUp::Destroy
                }
            },
            _ => GiveUp::Done,
        }
    }
}

impl SandboxHandle {
    /// The sandbox behind the handle.
    pub closed spec fn inner(&self) -> Sandbox {
        self.sandbox
    }

    pub fn vm_id(&self) -> (r: &str)
        ensures
            r@ == self.id_text(),
    {
        self.vm_id.as_str()
    }

    /// The identifier of the VM.
    pub closed spec fn id_text(&self) -> Text {
        self.vm_id@
    }

    pub fn sandbox(&self) -> (r: &Sandbox)
        ensures
            *r == self.inner(),
    {
        &self.sandbox
    }

    /// Consume the handle and return the underlying sandbox (caller takes
    /// ownership, and nothing is returned to the pool).
    pub fn into_inner(self) -> (r: Sandbox)
        ensures
            r == self.inner(),
    {
        self.sandbox
    }

    /// Give up the handle: the sandbox, and what becomes of it first.
    pub fn give_up(self) -> (r: (Sandbox, GiveUp))
        ensures
            r.0 == self.inner(),
            r.1 == GiveUp::ReturnToPool,
    {
        (self.sandbox, GiveUp::ReturnToPool)
    }
}

// ---------------------------------------------------------------------
// Laws
// ---------------------------------------------------------------------

/// Acquiring never loses a VM: what is handed out was the one that waited last,
/// and only an empty queue leads to a new VM.
pub proof fn law_warm_before_cold(s: PoolState, template_id: Text)
    ensures
        acquired(s, template_id).1 is None <==> s.waiting(template_id).len() == 0,
        s.waiting(template_id).len() > 0 ==> acquired(s, template_id).1 == Some(
            s.waiting(template_id).last(),
        ),
{
}

/// A sandbox that was handed out is returned to the warm pool when it is given
/// up: where there is room, the next caller that asks for its template gets it.
pub proof fn law_given_up_sandbox_waits(s: PoolState, template_id: Text, vm: (Text, Text, Text))
    requires
        s.waiting(template_id).len() < s.size,
    ensures
        ({
            let lent = PoolState { in_use: s.in_use.insert(vm.0, template_id), ..s };
            &&& released(lent, vm).1
            &&& acquired(released(lent, vm).0, template_id).1 == Some(vm)
        }),
{
}

/// The root file system of a launched VM is the one of its template, and no call
/// gives the VM a drive that it may write to.
pub proof fn law_rootfs_is_read_only(
    calls: Seq<ApiCall>,
    vm: NewVm,
    tap: Text,
    cid: u32,
    has_snapshot: bool,
    resume: bool,
)
    requires
        are_launch_calls(calls, vm, tap, cid, has_snapshot, resume),
    ensures
        forall|i: int|
            0 <= i < calls.len() ==> ((#[trigger] calls[i]).body matches ApiBody::Drive(d)
                ==> d.is_read_only && d.is_root_device && d.path_on_host@
                == vm.template.rootfs_path@),
        exists|i: int| 0 <= i < calls.len() && (#[trigger] calls[i]).body is Drive,
{
    let front = calls.take(4);
    let back = calls.skip(4);
    assert forall|i: int| 0 <= i < calls.len() implies ((#[trigger] calls[i]).body matches ApiBody::Drive(
        d,
    ) ==> d.is_read_only && d.is_root_device && d.path_on_host@ == vm.template.rootfs_path@) by {
        if i < 4 {
            assert(calls[i] == front[i]);
        } else {
            assert(calls[i] == back[i - 4]);
        }
    }
    assert(calls[1] == front[1]);
}

/// A call that makes the guest run.
pub open spec fn starts_guest(c: ApiCall) -> bool {
    c.body is LoadSnapshot || (c.body matches ApiBody::Action(a) && a@ == "InstanceStart"@)
}

/// A VM is configured before it starts, and it starts once, with the last call.
pub proof fn law_started_last(
    calls: Seq<ApiCall>,
    vm: NewVm,
    tap: Text,
    cid: u32,
    has_snapshot: bool,
    resume: bool,
)
    requires
        are_launch_calls(calls, vm, tap, cid, has_snapshot, resume),
    ensures
        forall|i: int|
            0 <= i < calls.len() ==> (starts_guest(#[trigger] calls[i]) <==> i == calls.len() - 1),
{
    let front = calls.take(4);
    let back = calls.skip(4);
    assert forall|i: int| 0 <= i < calls.len() implies (starts_guest(#[trigger] calls[i]) <==> i
        == calls.len() - 1) by {
        if i < 4 {
            assert(calls[i] == front[i]);
        } else {
            assert(calls[i] == back[i - 4]);
        }
    }
}

/// Host and agent agree on files: a download gives the caller exactly the bytes
/// that the agent read, or its reason; an upload succeeds for the caller if and
/// only if the agent wrote the file.
pub proof fn law_files_understood(
    id: Text,
    content: Result<Seq<u8>, Text>,
    outcome: UploadOutcome,
    len: u64,
)
    ensures
        match content {
            Ok(data) => download_outcome(download_answer(id, content)) == Ok::<Seq<u8>, ErrorView>(
                data,
            ),
            Err(e) => download_outcome(download_answer(id, content)) == Err::<Seq<u8>, ErrorView>(
                exec_error(ErrorCode::IoError, "Read failed: "@ + e),
            ),
        },
        upload_outcome(upload_answer(id, outcome, len)) is Ok <==> outcome is Written,
{
}

/// The process of a VM opens the socket on which the host awaits it. Without a
/// jail it is Firecracker itself; in one it is the jailer, which is told who the
/// VM is, as whom and where it runs, and what it runs, and the socket lies at the
/// same place seen from inside the jail.
pub proof fn law_process_opens_the_awaited_socket(
    config: &RuntimeConfig,
    vm_id: &str,
    socket_name: &str,
    log_name: &str,
    r: Result<VmProcess, CofferError>,
)
    requires
        call_ensures(spawn_vm_process, (config, vm_id, socket_name, log_name), r),
    ensures
        r is Ok <==> config.jailer is None || config.jailer_path is Some,
        r matches Ok(p) ==> {
            let args = strs(p.args@);
            match config.jailer {
                None => {
                    &&& p.program@ == config.firecracker_path@
                    &&& option_value(args, "--api-sock"@, p.host_socket_path@)
                    &&& option_value(args, "--log-path"@, joined(config.socket_dir@, log_name@))
                    &&& p.host_socket_path@ == joined(config.socket_dir@, socket_name@)
                    &&& p.make_dirs@.len() == 0
                },
                Some(j) => {
                    let root = joined(joined(j.chroot_base_dir@, vm_id@), "root"@);
                    &&& p.program@ == config.jailer_path->Some_0@
                    &&& option_value(args, "--id"@, vm_id@)
                    &&& option_value(args, "--uid"@, dec(j.uid as nat))
                    &&& option_value(args, "--gid"@, dec(j.gid as nat))
                    &&& option_value(args, "--chroot-base-dir"@, j.chroot_base_dir@)
                    &&& option_value(args, "--exec-file"@, config.firecracker_path@)
                    &&& j.netns matches Some(n) ==> option_value(args, "--netns"@, n@)
                    &&& j.daemonize ==> args.contains("--daemonize"@)
                    &&& j.new_pid_ns ==> args.contains("--new-pid-ns"@)
                    &&& args.len() == 17 + (if j.netns is Some {
                        2int
                    } else {
                        0int
                    }) + (if j.daemonize {
                        1int
                    } else {
                        0int
                    }) + (if j.new_pid_ns {
                        1int
                    } else {
                        0int
                    })
                    &&& args[args.len() - 7] == "--"@
                    &&& option_value(args.skip(args.len() - 6), "--api-sock"@, joined("/run"@, socket_name@))
                    &&& option_value(args.skip(args.len() - 6), "--log-path"@, joined("/run"@, log_name@))
                    &&& p.host_socket_path@ == joined(joined(root, "run"@), socket_name@)
                    &&& strs(p.make_dirs@).contains(joined(root, "run"@))
                },
            }
        },
{
    if r is Ok {
        let p = r->Ok_0;
        let args = strs(p.args@);
        match config.jailer {
            None => {
                assert(args[0] == "--api-sock"@);
                assert(args[2] == "--log-path"@);
            },
            Some(j) => {
                let head = jailer_args(j, vm_id@, config.firecracker_path@);
                let tail = firecracker_args(joined("/run"@, socket_name@), joined("/run"@, log_name@));
                let n = head.len() as int;
                assert(args.len() == n + 7);
                assert(args[0] == "--id"@);
                assert(args[2] == "--uid"@);
                assert(args[4] == "--gid"@);
                assert(args[6] == "--chroot-base-dir"@);
                assert(args[8] == "--exec-file"@);
                if j.netns is Some {
                    assert(args[10] == "--netns"@);
                }
                if j.new_pid_ns {
                    assert(args[n - 1] == "--new-pid-ns"@);
                }
                if j.daemonize {
                    let at = if j.new_pid_ns {
                        n - 2
                    } else {
                        n - 1
                    };
                    assert(args[at] == "--daemonize"@);
                }
                assert(args[n] == "--"@);
                assert(args.skip(args.len() - 6) =~= tail);
                assert(tail[0] == "--api-sock"@);
                assert(tail[2] == "--log-path"@);
                assert(strs(p.make_dirs@)[1] == joined(jail_root(j.chroot_base_dir@, vm_id@), "run"@));
            },
        }
    }
}

/// A sandbox that was handed out and is given up is the one that waits: where
/// there is room, the next caller that asks for its template gets the very VM,
/// with its sockets.
pub proof fn law_given_up_sandbox_is_handed_out_again(
    lent: &mut Runtime,
    template_id: &str,
    vm_id: String,
    socket_path: String,
    vsock_path: String,
    handle: SandboxHandle,
    left: (Sandbox, GiveUp),
    back: &mut Runtime,
    waits: bool,
    again: &mut Runtime,
    got: Result<Acquisition, CofferError>,
)
    requires
        old(lent).pool@.waiting(template_id@).len() < old(lent).pool@.size,
        call_ensures(
            Runtime::build_handle,
            (lent, template_id, vm_id, socket_path, vsock_path),
            handle,
        ),
        call_ensures(SandboxHandle::give_up, (handle,), left),
        *old(back) == *final(lent),
        call_ensures(Runtime::take_back, (back, &left.0), waits),
        *old(again) == *final(back),
        call_ensures(Runtime::acquire, (again, template_id), got),
    ensures
        left.1 == GiveUp::ReturnToPool,
        final(lent).pool@.in_use.dom().contains(vm_id@),
        waits,
        !final(back).pool@.in_use.dom().contains(vm_id@),
        got matches Ok(Acquisition::Warm { vm, .. }) && vm.vm_id@ == vm_id@ && vm.socket_path@
            == socket_path@ && vm.vsock_path@ == vsock_path@,
{
    assert(left.0.row() == (vm_id@, socket_path@, vsock_path@));
}

/// What is given up is returned to the pool, destroyed only where that fails, and
/// left alone after that.
pub proof fn law_giving_up(success: bool, r: GiveUp, end: GiveUp, done: GiveUp)
    requires
        call_ensures(GiveUp::next, (GiveUp::ReturnToPool, success), r),
        call_ensures(GiveUp::next, (GiveUp::Destroy, success), end),
        call_ensures(GiveUp::next, (GiveUp::Done, success), done),
    ensures
        r is Destroy <==> !success,
        r is Done <==> success,
        end is Done,
        done is Done,
{
}

/// A new VM has a name of its own, and its sockets and its log bear that name.
pub proof fn law_new_vm_is_named(
    runtime: &Runtime,
    template_id: &str,
    cold: Result<NewVm, CofferError>,
    config: &RuntimeConfig,
    templates: &TemplateManager,
    warm: Result<NewVm, CofferError>,
)
    requires
        call_ensures(Runtime::create_cold, (runtime, template_id), cold),
        call_ensures(warm_one, (config, templates, template_id), warm),
    ensures
        cold matches Ok(v) ==> {
            &&& "coffer-"@.is_prefix_of(v.vm_id@)
            &&& v.vm_id@.len() == "coffer-"@.len() + 8
            &&& forall|i: int|
                "coffer-"@.len() <= i < v.vm_id@.len() ==> ('0' <= #[trigger] v.vm_id@[i]
                    && v.vm_id@[i] <= '9') || ('a' <= v.vm_id@[i] && v.vm_id@[i] <= 'f')
            &&& v.vsock_path@ == joined(runtime.vsock_dir@, v.socket_name@)
            &&& v.socket_name@ == v.vm_id@ + ".sock"@
            &&& v.log_name@ == v.vm_id@ + ".log"@
            &&& v.template@ == runtime.templates@.templates[template_id@]
        },
        warm matches Ok(v) ==> {
            &&& "coffer-pool-"@.is_prefix_of(v.vm_id@)
            &&& v.vm_id@.len() == "coffer-pool-"@.len() + 8
            &&& forall|i: int|
                "coffer-pool-"@.len() <= i < v.vm_id@.len() ==> ('0' <= #[trigger] v.vm_id@[i]
                    && v.vm_id@[i] <= '9') || ('a' <= v.vm_id@[i] && v.vm_id@[i] <= 'f')
            &&& v.vsock_path@ == joined(joined(config.socket_dir@, "vsock"@), v.socket_name@)
            &&& v.socket_name@ == v.vm_id@ + ".sock"@
            &&& v.log_name@ == v.vm_id@ + ".log"@
            &&& v.template@ == templates@.templates[template_id@]
        },
{
    if cold is Ok {
        let id = cold->Ok_0.vm_id@;
        let p = "coffer-"@;
        let tail = choose|tail: Text| is_short_id(tail) && id == p + tail;
        assert(id.subrange(0, p.len() as int) =~= p);
        assert forall|i: int| p.len() <= i < id.len() implies ('0' <= #[trigger] id[i] && id[i]
            <= '9') || ('a' <= id[i] && id[i] <= 'f') by {
            assert(id[i] == tail[i - p.len()]);
        }
    }
    if warm is Ok {
        let id = warm->Ok_0.vm_id@;
        let p = "coffer-pool-"@;
        let tail = choose|tail: Text| is_short_id(tail) && id == p + tail;
        assert(id.subrange(0, p.len() as int) =~= p);
        assert forall|i: int| p.len() <= i < id.len() implies ('0' <= #[trigger] id[i] && id[i]
            <= '9') || ('a' <= id[i] && id[i] <= 'f') by {
            assert(id[i] == tail[i - p.len()]);
        }
    }
}

} // verus!
