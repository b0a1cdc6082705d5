//! What the calls of the Firecracker API do to a VM, and what the operations of
//! the library make of a VM by their calls.

use vstd::prelude::*;

use crate::config::RuntimeConfig;
use crate::error::CofferError;
use crate::firecracker::{ApiBody, ApiCall};
use crate::pool::{guest_mac, PooledVm};
use crate::runtime::{cold_plan, pooled_vm, spawn_vm_process, warm_plan, Acquisition, Ending, LaunchPlan, NewVm,
    Runtime, Sandbox, VmProcess};
use crate::template::builder::BuildOutput;
use crate::template::{BuildPlan, SnapshotPlan, Template, TemplateManager};
use crate::text::{joined, strs, Text};
use crate::vm::client::{ActionType, MemBackendType, Method, SnapshotType, VmBody, VmCall, VmStateEnum};
use crate::vm::state::VmLifecycle;
use crate::vm::{BootStage, FirecrackerVm, VmConfig};

verus! {

broadcast use vstd::string::group_string_axioms;

// ---------------------------------------------------------------------
// A guest
// ---------------------------------------------------------------------

/// Whether a guest was started, and whether it runs.
pub enum Power {
    Off,
    Running,
    Paused,
}

/// A drive of a guest.
pub struct GuestDrive {
    pub path: Text,
    pub root: bool,
    pub read_only: bool,
}

/// A guest, as the calls of the API see it.
#[verifier::ext_equal]
pub struct Guest {
    pub vcpus: int,
    pub memory_mib: int,
    /// Whether a processor runs two threads at once.
    pub smt: bool,
    /// Whether it is noted which pages were written.
    pub tracks_pages: bool,
    /// The image of the kernel, and its arguments.
    pub kernel: Option<(Text, Text)>,
    pub drives: Map<Text, GuestDrive>,
    /// Of each interface, the hardware address and the device of the host.
    pub nics: Map<Text, (Text, Text)>,
    /// The context identifier, and the socket of the host.
    pub vsock: Option<(int, Text)>,
    pub power: Power,
    /// The state file and the memory file that the guest was restored from.
    pub restored: Option<(Text, Text)>,
    /// The snapshots that were taken, each by its state file and memory file.
    pub taken: Seq<(Text, Text)>,
    /// Whether the guest was asked to shut down.
    pub ending: bool,
}

/// A guest that nothing is known of yet.
pub open spec fn fresh() -> Guest {
    Guest {
        vcpus: 0,
        memory_mib: 0,
        smt: false,
        tracks_pages: false,
        kernel: None,
        drives: Map::empty(),
        nics: Map::empty(),
        vsock: None,
        power: Power::Off,
        restored: None,
        taken: seq![],
        ending: false,
    }
}

/// A guest that starts: it needs a kernel.
pub open spec fn booted(g: Guest) -> Guest {
    if g.power is Off && g.kernel is Some {
        Guest { power: Power::Running, ..g }
    } else {
        g
    }
}

/// A guest that is restored from a snapshot.
pub open spec fn restored(g: Guest, state: Text, mem: Text, resume: bool) -> Guest {
    if g.power is Off {
        Guest {
            restored: Some((state, mem)),
            power: if resume {
                Power::Running
            } else {
                Power::Paused
            },
            ..g
        }
    } else {
        g
    }
}

/// A guest that is paused, if it was started.
pub open spec fn halted(g: Guest) -> Guest {
    if g.power is Off {
        g
    } else {
        Guest { power: Power::Paused, ..g }
    }
}

/// A guest that goes on, if it was started.
pub open spec fn woken(g: Guest) -> Guest {
    if g.power is Off {
        g
    } else {
        Guest { power: Power::Running, ..g }
    }
}

/// A guest of which a snapshot is taken, for which it must stand still.
pub open spec fn captured(g: Guest, state: Text, mem: Text) -> Guest {
    if g.power is Paused {
        Guest { taken: g.taken.push((state, mem)), ..g }
    } else {
        g
    }
}

/// A guest that is configured, which is possible until it was started.
pub open spec fn configured(g: Guest, with: Guest) -> Guest {
    if g.power is Off {
        with
    } else {
        g
    }
}

/// The guest after a call, which changes nothing where its method, its path and
/// its body do not belong together.
pub open spec fn after_call(g: Guest, c: ApiCall) -> Guest {
    match c.body {
        ApiBody::Machine(m) => if c.method@ == "PUT"@ && c.path@ == "/machine-config"@ {
            configured(
                g,
                Guest {
                    vcpus: m.vcpu_count as int,
                    memory_mib: m.mem_size_mib as int,
                    smt: m.smt,
                    tracks_pages: m.track_dirty_pages,
                    ..g
                },
            )
        } else {
            g
        },
        ApiBody::Kernel(k) => if c.method@ == "PUT"@ && c.path@ == "/boot-source"@ {
            configured(g, Guest { kernel: Some((k.kernel_image_path@, k.boot_args@)), ..g })
        } else {
            g
        },
        ApiBody::Drive(d) => if c.method@ == "PUT"@ && c.path@ == "/drives/"@ + d.drive_id@ {
            configured(
                g,
                Guest {
                    drives: g.drives.insert(
                        d.drive_id@,
                        GuestDrive {
                            path: d.path_on_host@,
                            root: d.is_root_device,
                            read_only: d.is_read_only,
                        },
                    ),
                    ..g
                },
            )
        } else {
            g
        },
        ApiBody::NetworkInterface(n) => if c.method@ == "PUT"@ && c.path@
            == "/network-interfaces/"@ + n.iface_id@ {
            configured(
                g,
                Guest { nics: g.nics.insert(n.iface_id@, (n.guest_mac@, n.host_dev_name@)), ..g },
            )
        } else {
            g
        },
        ApiBody::Vsock(v) => if c.method@ == "PUT"@ && c.path@ == "/vsock"@ {
            configured(g, Guest { vsock: Some((v.guest_cid as int, v.uds_path@)), ..g })
        } else {
            g
        },
        ApiBody::Action(a) => if c.method@ == "PUT"@ && c.path@ == "/actions"@ {
            if a@ == "InstanceStart"@ {
                booted(g)
            } else if a@ == "SendCtrlAltDel"@ {
                Guest { ending: true, ..g }
            } else {
                g
            }
        } else {
            g
        },
        ApiBody::State(s) => if c.method@ == "PATCH"@ && c.path@ == "/vm"@ {
            if s@ == "Paused"@ {
                halted(g)
            } else if s@ == "Resumed"@ {
                woken(g)
            } else {
                g
            }
        } else {
            g
        },
        ApiBody::LoadSnapshot(l) => if c.method@ == "PUT"@ && c.path@ == "/snapshot/load"@
            && l.mem_backend.backend_type@ == "File"@ {
            restored(g, l.snapshot_path@, l.mem_backend.backend_path@, l.resume_vm)
        } else {
            g
        },
        ApiBody::CreateSnapshot(s) => if c.method@ == "PUT"@ && c.path@ == "/snapshot/create"@
            && s.snapshot_type@ == "Full"@ {
            captured(g, s.snapshot_path@, s.mem_file_path@)
        } else {
            g
        },
    }
}

/// The guest after some calls, in order.
pub open spec fn after_calls(g: Guest, calls: Seq<ApiCall>) -> Guest
    decreases calls.len(),
{
    if calls.len() == 0 {
        g
    } else {
        after_call(after_calls(g, calls.drop_last()), calls.last())
    }
}

/// The guest after a call of a managed VM.
pub open spec fn after_vm_call(g: Guest, c: VmCall) -> Guest {
    match c.body {
        VmBody::Machine(m) => if c.method == Method::Put && c.path@ == "/machine-config"@ {
            configured(
                g,
                Guest {
                    vcpus: m.vcpu_count as int,
                    memory_mib: m.mem_size_mib as int,
                    smt: m.smt == Some(true),
                    tracks_pages: m.track_dirty_pages == Some(true),
                    ..g
                },
            )
        } else {
            g
        },
        VmBody::BootSource(b) => if c.method == Method::Put && c.path@ == "/boot-source"@ {
            configured(
                g,
                Guest {
                    kernel: Some(
                        (
                            b.kernel_image_path@,
                            match b.boot_args {
                                Some(a) => a@,
                                None => seq![],
                            },
                        ),
                    ),
                    ..g
                },
            )
        } else {
            g
        },
        VmBody::Drive(d) => if c.method == Method::Put && c.path@ == "/drives/"@ + d.drive_id@ {
            configured(
                g,
                Guest {
                    drives: g.drives.insert(
                        d.drive_id@,
                        GuestDrive {
                            path: d.path_on_host@,
                            root: d.is_root_device,
                            read_only: d.is_read_only,
                        },
                    ),
                    ..g
                },
            )
        } else {
            g
        },
        VmBody::NetworkInterface(n) => if c.method == Method::Put && c.path@
            == "/network-interfaces/"@ + n.iface_id@ {
            configured(
                g,
                Guest { nics: g.nics.insert(n.iface_id@, (n.guest_mac@, n.host_dev_name@)), ..g },
            )
        } else {
            g
        },
        VmBody::Vsock(v) => if c.method == Method::Put && c.path@ == "/vsock"@ {
            configured(g, Guest { vsock: Some((v.guest_cid as int, v.uds_path@)), ..g })
        } else {
            g
        },
        VmBody::Action(a) => if c.method == Method::Put && c.path@ == "/actions"@ {
            match a.action_type {
                ActionType::InstanceStart => booted(g),
                ActionType::SendCtrlAltDel => Guest { ending: true, ..g },
                ActionType::FlushMetrics => g,
            }
        } else {
            g
        },
        VmBody::State(s) => if c.method == Method::Patch && c.path@ == "/vm"@ {
            match s.state {
                VmStateEnum::Paused => halted(g),
                VmStateEnum::Resumed => woken(g),
            }
        } else {
            g
        },
        VmBody::SnapshotLoad(l) => if c.method == Method::Put && c.path@ == "/snapshot/load"@
            && l.mem_backend.backend_type == MemBackendType::File {
            restored(
                g,
                l.snapshot_path@,
                l.mem_backend.backend_path@,
                l.resume_vm == Some(true),
            )
        } else {
            g
        },
        VmBody::SnapshotCreate(s) => if c.method == Method::Put && c.path@ == "/snapshot/create"@
            && s.snapshot_type == SnapshotType::Full {
            captured(g, s.snapshot_path@, s.mem_file_path@)
        } else {
            g
        },
        VmBody::Nothing => g,
    }
}

proof fn lemma_words()
    ensures
        "/drives/"@ + "rootfs"@ == "/drives/rootfs"@,
        "/network-interfaces/"@ + "eth0"@ == "/network-interfaces/eth0"@,
        "Paused"@ != "Resumed"@,
        "InstanceStart"@ != "SendCtrlAltDel"@,
{
    reveal_strlit("/drives/");
    reveal_strlit("rootfs");
    reveal_strlit("/drives/rootfs");
    reveal_strlit("/network-interfaces/");
    reveal_strlit("eth0");
    reveal_strlit("/network-interfaces/eth0");
    reveal_strlit("Paused");
    reveal_strlit("Resumed");
    reveal_strlit("InstanceStart");
    reveal_strlit("SendCtrlAltDel");
    assert("/drives/"@ + "rootfs"@ =~= "/drives/rootfs"@);
    assert("/network-interfaces/"@ + "eth0"@ =~= "/network-interfaces/eth0"@);
    assert("Paused"@.len() != "Resumed"@.len());
    assert("InstanceStart"@.len() != "SendCtrlAltDel"@.len());
}

proof fn lemma_one_more(g: Guest, calls: Seq<ApiCall>, n: int)
    requires
        0 < n <= calls.len(),
    ensures
        after_calls(g, calls.take(n)) == after_call(after_calls(g, calls.take(n - 1)), calls[n - 1]),
{
    assert(calls.take(n).drop_last() =~= calls.take(n - 1));
}

// ---------------------------------------------------------------------
// Launched VMs
// ---------------------------------------------------------------------

/// The guest that the calls of a launch make: it has the processors, the memory,
/// the root file system, the network device, the context identifier and the
/// socket that it was launched with, and it comes from the snapshot of its
/// template where there is one, else from its kernel.
pub open spec fn comes_from(
    g: Guest,
    vm: NewVm,
    tap: Text,
    cid: u32,
    mac: Text,
    has_snapshot: bool,
) -> bool {
    &&& g.vcpus == vm.template.vcpus % 256
    &&& g.memory_mib == vm.template.memory_mib
    &&& !g.smt
    &&& g.tracks_pages
    &&& g.drives.dom() == set!["rootfs"@]
    &&& g.drives["rootfs"@].path == vm.template.rootfs_path@
    &&& g.drives["rootfs"@].root
    &&& g.drives["rootfs"@].read_only
    &&& g.nics.dom() == set!["eth0"@]
    &&& g.nics["eth0"@] == (mac, tap)
    &&& g.vsock == Some((cid as int, vm.vsock_path@))
    &&& has_snapshot ==> g.restored == Some(
        (vm.template.snapshot_state_path@, vm.template.snapshot_mem_path@),
    ) && g.kernel is None
    &&& !has_snapshot ==> g.restored is None && g.kernel == Some(
        (vm.template.kernel_path@, vm.template.kernel_args@),
    )
    &&& g.taken.len() == 0
    &&& !g.ending
}

proof fn lemma_launch(
    calls: Seq<ApiCall>,
    vm: NewVm,
    tap: Text,
    cid: u32,
    has_snapshot: bool,
    resume: bool,
)
    requires
        crate::runtime::are_launch_calls(calls, vm, tap, cid, has_snapshot, resume),
    ensures
        ({
            let g = after_calls(fresh(), calls);
            &&& comes_from(g, vm, tap, cid, crate::pool::mac_text(cid), has_snapshot)
            &&& g.power == if has_snapshot && !resume {
                Power::Paused
            } else {
                Power::Running
            }
        }),
{
    lemma_words();
    let front = calls.take(4);
    let back = calls.skip(4);
    assert(forall|i: int| 0 <= i < 4 ==> calls[i] == front[i]);
    assert(forall|i: int| 0 <= i < back.len() ==> calls[4 + i] == back[i]);
    let g = fresh();
    assert(calls.take(0) =~= Seq::<ApiCall>::empty());
    lemma_one_more(g, calls, 1);
    lemma_one_more(g, calls, 2);
    lemma_one_more(g, calls, 3);
    lemma_one_more(g, calls, 4);
    lemma_one_more(g, calls, 5);
    if !has_snapshot {
        lemma_one_more(g, calls, 6);
    }
    assert(calls.take(calls.len() as int) =~= calls);
    let v = vm.template.vcpus;
    assert(v as u8 == v % 256) by (bit_vector);
    let end = after_calls(g, calls);
    assert(end.drives.dom() =~= set!["rootfs"@]);
    assert(end.nics.dom() =~= set!["eth0"@]);
}

/// A VM that is launched to be used at once runs after its calls, whether it comes
/// from a snapshot or from its kernel, and is what it was launched to be.
pub proof fn law_cold_vm_runs(
    config: &RuntimeConfig,
    vm: &NewVm,
    tap: &str,
    cid: u32,
    mem_exists: bool,
    state_exists: bool,
    r: Result<LaunchPlan, CofferError>,
    mac: String,
)
    requires
        call_ensures(cold_plan, (config, vm, tap, cid, mem_exists, state_exists), r),
        call_ensures(guest_mac, (cid,), mac),
        r is Ok,
    ensures
        after_calls(fresh(), r->Ok_0.calls@).power is Running,
        comes_from(
            after_calls(fresh(), r->Ok_0.calls@),
            *vm,
            tap@,
            cid,
            mac@,
            mem_exists && state_exists,
        ),
        mem_exists && state_exists ==> (r->Ok_0.calls@.last().body matches ApiBody::LoadSnapshot(l)
            && l.resume_vm),
        r->Ok_0.pause is None,
        r->Ok_0.agent_timeout_ms == Some(5000u64),
        r->Ok_0.socket_timeout_ms == 2000,
{
    let calls = r->Ok_0.calls@;
    lemma_launch(calls, *vm, tap@, cid, mem_exists && state_exists, true);
    if mem_exists && state_exists {
        assert(calls.last() == calls.skip(4)[0]);
    }
}

/// A VM that is launched to wait in the pool does not run once its plan was
/// carried out: a snapshot is loaded without running, and a kernel that booted is
/// paused once the agent was awaited. It is what it was launched to be.
pub proof fn law_warm_vm_waits(
    config: &RuntimeConfig,
    vm: &NewVm,
    tap: &str,
    cid: u32,
    mem_exists: bool,
    state_exists: bool,
    r: Result<LaunchPlan, CofferError>,
    mac: String,
)
    requires
        call_ensures(warm_plan, (config, vm, tap, cid, mem_exists, state_exists), r),
        call_ensures(guest_mac, (cid,), mac),
        r is Ok,
    ensures
        r->Ok_0.pause is Some,
        after_call(after_calls(fresh(), r->Ok_0.calls@), r->Ok_0.pause->Some_0).power is Paused,
        comes_from(
            after_call(after_calls(fresh(), r->Ok_0.calls@), r->Ok_0.pause->Some_0),
            *vm,
            tap@,
            cid,
            mac@,
            mem_exists && state_exists,
        ),
        mem_exists && state_exists ==> after_calls(fresh(), r->Ok_0.calls@).power is Paused,
        mem_exists && state_exists ==> (r->Ok_0.calls@.last().body matches ApiBody::LoadSnapshot(l)
            && !l.resume_vm),
        !(mem_exists && state_exists) ==> after_calls(fresh(), r->Ok_0.calls@).power is Running,
        !(mem_exists && state_exists) <==> r->Ok_0.agent_timeout_ms is Some,
        r->Ok_0.agent_timeout_ms matches Some(ms) ==> ms == 30000,
        r->Ok_0.socket_timeout_ms == 2000,
{
    let calls = r->Ok_0.calls@;
    lemma_words();
    lemma_launch(calls, *vm, tap@, cid, mem_exists && state_exists, false);
    if mem_exists && state_exists {
        assert(calls.last() == calls.skip(4)[0]);
    }
}

/// Warm and cold differ in nothing but that one waits and the other runs: the same
/// VM is launched as the same process, and comes to be the same guest.
pub proof fn law_warm_and_cold_agree(
    config: &RuntimeConfig,
    vm: &NewVm,
    tap: &str,
    cid: u32,
    mem_exists: bool,
    state_exists: bool,
    warm: Result<LaunchPlan, CofferError>,
    cold: Result<LaunchPlan, CofferError>,
)
    requires
        call_ensures(warm_plan, (config, vm, tap, cid, mem_exists, state_exists), warm),
        call_ensures(cold_plan, (config, vm, tap, cid, mem_exists, state_exists), cold),
    ensures
        warm is Ok <==> cold is Ok,
        warm is Ok ==> {
            let w = after_calls(fresh(), warm->Ok_0.calls@);
            let c = after_calls(fresh(), cold->Ok_0.calls@);
            &&& woken(w) == c
            &&& halted(c) == halted(w)
            &&& warm->Ok_0.process.program@ == cold->Ok_0.process.program@
            &&& strs(warm->Ok_0.process.args@) == strs(cold->Ok_0.process.args@)
            &&& warm->Ok_0.process.host_socket_path@ == cold->Ok_0.process.host_socket_path@
        },
{
    if warm is Ok {
        let s = mem_exists && state_exists;
        lemma_launch(warm->Ok_0.calls@, *vm, tap@, cid, s, false);
        lemma_launch(cold->Ok_0.calls@, *vm, tap@, cid, s, true);
        let w = after_calls(fresh(), warm->Ok_0.calls@);
        let c = after_calls(fresh(), cold->Ok_0.calls@);
        assert(w.drives =~= c.drives);
        assert(w.nics =~= c.nics);
        assert(w.taken =~= c.taken);
    }
}

/// A VM of the pool that is acquired runs again once it is resumed, and is reached
/// where it was launched.
pub proof fn law_acquired_vm_runs(
    runtime: &mut Runtime,
    template_id: &str,
    r: Result<Acquisition, CofferError>,
    g: Guest,
)
    requires
        call_ensures(Runtime::acquire, (runtime, template_id), r),
        g.power is Paused,
    ensures
        r matches Ok(Acquisition::Warm { vm, resume, agent_timeout_ms }) ==> {
            &&& after_call(g, resume) == (Guest { power: Power::Running, ..g })
            &&& old(runtime).pool@.waiting(template_id@).len() > 0
            &&& vm@ == old(runtime).pool@.waiting(template_id@).last()
            &&& agent_timeout_ms == 5000
        },
        old(runtime).pool@.waiting(template_id@).len() > 0 ==> r is Ok && r->Ok_0 is Warm,
        r matches Ok(Acquisition::Cold(v)) ==> {
            &&& old(runtime).templates@.templates.dom().contains(template_id@)
            &&& v.template@ == old(runtime).templates@.templates[template_id@]
        },
        old(runtime).pool@.waiting(template_id@).len() == 0 ==> (r is Err <==> !old(
            runtime,
        ).templates@.templates.dom().contains(template_id@)),
{
    lemma_words();
}

/// The VM of the pool bears the name and the sockets of the one that was launched.
pub proof fn law_pooled_vm_is_the_launched_one(vm: NewVm, plan: &LaunchPlan, r: PooledVm)
    requires
        call_ensures(pooled_vm, (vm, plan), r),
    ensures
        r.vm_id@ == vm.vm_id@,
        r.socket_path@ == plan.process.host_socket_path@,
        r.vsock_path@ == vm.vsock_path@,
{
}

/// A sandbox that goes back to the pool stands still, and one that is resumed
/// runs; nothing else about the guest changes.
pub proof fn law_sandbox_pauses_and_resumes(
    s: &Sandbox,
    pause: ApiCall,
    resume: ApiCall,
    back: Result<ApiCall, CofferError>,
    g: Guest,
)
    requires
        call_ensures(Sandbox::pause, (s,), pause),
        call_ensures(Sandbox::resume, (s,), resume),
        call_ensures(Sandbox::return_to_pool, (s,), back),
        g.power is Running,
    ensures
        after_call(g, pause) == (Guest { power: Power::Paused, ..g }),
        after_call(after_call(g, pause), resume) == g,
        back is Ok <==> s.pooled,
        back is Ok ==> after_call(g, back->Ok_0) == (Guest { power: Power::Paused, ..g }),
{
    lemma_words();
}

/// A sandbox that is shut down or destroyed is asked to shut down; only the
/// former depends on it.
pub proof fn law_sandbox_ends(s: &Sandbox, shutdown: Ending, destroy: Ending, g: Guest)
    requires
        call_ensures(Sandbox::shutdown, (s,), shutdown),
        call_ensures(Sandbox::destroy, (s,), destroy),
    ensures
        after_call(g, shutdown.call) == (Guest { ending: true, ..g }),
        after_call(g, destroy.call) == (Guest { ending: true, ..g }),
        shutdown.call_must_succeed,
        !destroy.call_must_succeed,
{
    lemma_words();
}

// ---------------------------------------------------------------------
// Snapshots of templates
// ---------------------------------------------------------------------

/// The word that follows an option.
pub open spec fn option_value(args: Seq<Text>, option: Text, value: Text) -> bool {
    exists|i: int| 0 <= i < args.len() - 1 && (#[trigger] args[i]) == option && args[i + 1] == value
}

/// The snapshot of a template is taken of a guest that has booted the given kernel
/// with the given arguments from the given root file system, once, while it stands
/// still, and into the given files; then the guest is asked to shut down.
pub proof fn law_snapshot_is_of_the_booted_guest(
    m: &TemplateManager,
    vm_id: &str,
    kernel: &str,
    rootfs: &str,
    args: &str,
    state: &str,
    mem: &str,
    r: SnapshotPlan,
)
    requires
        call_ensures(
            TemplateManager::create_snapshot,
            (m, vm_id, kernel, rootfs, args, state, mem),
            r,
        ),
    ensures
        ({
            let up = after_calls(fresh(), r.boot@);
            let end = after_calls(up, r.capture@);
            &&& up.power is Running
            &&& up.kernel == Some((kernel@, args@))
            &&& up.drives.dom() == set!["rootfs"@]
            &&& up.drives["rootfs"@].path == rootfs@
            &&& up.drives["rootfs"@].root
            &&& up.drives["rootfs"@].read_only
            &&& up.vsock is Some
            &&& up.vsock->Some_0.1 == r.vsock_path@
            &&& r.agent_path@ == r.vsock_path@ + "_1024"@
            &&& up.vcpus == 1
            &&& up.memory_mib == 256
            &&& !up.smt
            &&& up.tracks_pages
            &&& up.vsock->Some_0.0 == 100
            &&& up.taken.len() == 0
            &&& end == (Guest { power: Power::Paused, taken: seq![(state@, mem@)], ..up })
            &&& after_call(end, r.shutdown) == (Guest { ending: true, ..end })
        }),
        forall|i: int|
            0 <= i < r.boot@.len() ==> ((#[trigger] r.boot@[i]).body matches ApiBody::Kernel(k)
                ==> k.kernel_image_path@ == kernel@ && k.boot_args@ == args@),
        forall|i: int|
            0 <= i < r.boot@.len() ==> ((#[trigger] r.boot@[i]).body matches ApiBody::Drive(d)
                ==> d.path_on_host@ == rootfs@ && d.is_read_only),
        option_value(strs(r.process_args@), "--api-sock"@, r.socket_path@),
        option_value(strs(r.process_args@), "--log-path"@, r.log_path@),
        option_value(strs(r.process_args@), "--level"@, "Warn"@),
        r.socket_path@ == joined(m@.template_dir, "snap-"@ + vm_id@ + ".sock"@),
        r.log_path@ == joined(m@.template_dir, "snap-"@ + vm_id@ + ".log"@),
        r.vsock_path@ == joined(m@.template_dir, "snap-"@ + vm_id@ + ".vsock"@),
        r.agent_timeout_ms == 30000,
        r.socket_timeout_ms == 2000,
{
    lemma_words();
    let calls = r.boot@;
    assert(calls.take(0) =~= Seq::<ApiCall>::empty());
    lemma_one_more(fresh(), calls, 1);
    lemma_one_more(fresh(), calls, 2);
    lemma_one_more(fresh(), calls, 3);
    lemma_one_more(fresh(), calls, 4);
    lemma_one_more(fresh(), calls, 5);
    assert(calls.take(5) =~= calls);
    let up = after_calls(fresh(), calls);
    assert(up.drives.dom() =~= set!["rootfs"@]);
    let cap = r.capture@;
    assert(cap.take(0) =~= Seq::<ApiCall>::empty());
    lemma_one_more(up, cap, 1);
    lemma_one_more(up, cap, 2);
    assert(cap.take(2) =~= cap);
    let end = after_calls(up, cap);
    assert(end.taken =~= seq![(state@, mem@)]);
    let a = strs(r.process_args@);
    assert(a[0] == "--api-sock"@);
    assert(a[2] == "--log-path"@);
    assert(a[4] == "--level"@);
}

/// What a build takes its snapshot into is what a VM of the built template is
/// restored from: the snapshot that was taken into the files of a plan is the one
/// that a sandbox of the finished template loads.
pub proof fn law_template_is_restored_from_its_snapshot(
    m: &TemplateManager,
    plan: BuildPlan,
    id: &str,
    kernel: &str,
    rootfs: &str,
    args: &str,
    state: &str,
    mem: &str,
    snap: SnapshotPlan,
    config: &RuntimeConfig,
    vm: &NewVm,
    tap: &str,
    cid: u32,
    cold: Result<LaunchPlan, CofferError>,
    output: BuildOutput,
    after: &mut TemplateManager,
    t: Template,
)
    requires
        call_ensures(
            TemplateManager::create_snapshot,
            (m, id, kernel, rootfs, args, state, mem),
            snap,
        ),
        kernel@ == plan.kernel@,
        rootfs@ == plan.rootfs@,
        state@ == plan.snapshot_state@,
        mem@ == plan.snapshot_mem@,
        call_ensures(TemplateManager::finish_build, (after, plan, output), t),
        vm.template@ == t@,
        call_ensures(cold_plan, (config, vm, tap, cid, true, true), cold),
        cold is Ok,
    ensures
        ({
            let shot = after_calls(after_calls(fresh(), snap.boot@), snap.capture@);
            let g = after_calls(fresh(), cold->Ok_0.calls@);
            &&& shot.taken.len() == 1
            &&& g.restored == Some(shot.taken[0])
            &&& g.drives["rootfs"@].path == shot.drives["rootfs"@].path
            &&& g.vcpus == shot.vcpus
            &&& g.memory_mib == shot.memory_mib
            &&& g.power is Running
        }),
{
    law_snapshot_is_of_the_booted_guest(m, id, kernel, rootfs, args, state, mem, snap);
    lemma_launch(cold->Ok_0.calls@, *vm, tap@, cid, true, true);
}

// ---------------------------------------------------------------------
// Managed VMs
// ---------------------------------------------------------------------

/// A managed VM that boots from scratch runs after the calls of all stages, in
/// order, with what it was configured with.
pub proof fn law_managed_vm_boots(
    vm: &FirecrackerVm,
    c0: VmCall,
    c1: VmCall,
    c2: VmCall,
    c3: VmCall,
    c4: VmCall,
    c5: VmCall,
)
    requires
        call_ensures(FirecrackerVm::boot_call, (vm, BootStage::BootSource), c0),
        call_ensures(FirecrackerVm::boot_call, (vm, BootStage::Machine), c1),
        call_ensures(FirecrackerVm::boot_call, (vm, BootStage::RootDrive), c2),
        call_ensures(FirecrackerVm::boot_call, (vm, BootStage::Network), c3),
        call_ensures(FirecrackerVm::boot_call, (vm, BootStage::Vsock), c4),
        call_ensures(FirecrackerVm::boot_call, (vm, BootStage::Start), c5),
    ensures
        ({
            let g = after_vm_call(
                after_vm_call(
                    after_vm_call(
                        after_vm_call(after_vm_call(after_vm_call(fresh(), c0), c1), c2),
                        c3,
                    ),
                    c4,
                ),
                c5,
            );
            &&& g.power is Running
            &&& g.kernel is Some
            &&& g.kernel->Some_0.0 == vm.config.kernel_path@
            &&& g.kernel->Some_0.1 == "console=ttyS0 reboot=k panic=1 pci=off nomodules"@
            &&& !g.smt
            &&& g.tracks_pages
            &&& g.vcpus == vm.config.vcpus
            &&& g.memory_mib == vm.config.memory_mib
            &&& g.drives.dom() == set!["rootfs"@]
            &&& g.drives["rootfs"@].path == vm.config.rootfs_path@
            &&& g.drives["rootfs"@].root
            &&& g.drives["rootfs"@].read_only == !vm.config.is_rootfs_writable
            &&& g.nics.dom() == set!["eth0"@]
            &&& g.nics["eth0"@] == (vm.config.guest_mac@, vm.config.tap_name@)
            &&& g.vsock is Some
            &&& g.vsock->Some_0.0 == 3
            &&& g.vsock->Some_0.1 == vm.vsock_path@
            &&& g.restored is None
        }),
        c0.body matches VmBody::BootSource(b) && b.initrd_path is None,
        c1.body matches VmBody::Machine(m) && m.huge_pages is None,
        c2.body matches VmBody::Drive(d) && d.partuuid is None && (d.cache_type matches Some(t) && t@
            == "Unsafe"@),
{
    let g = after_vm_call(
        after_vm_call(
            after_vm_call(after_vm_call(after_vm_call(after_vm_call(fresh(), c0), c1), c2), c3),
            c4,
        ),
        c5,
    );
    assert(g.drives.dom() =~= set!["rootfs"@]);
    assert(g.nics.dom() =~= set!["eth0"@]);
}

/// Whether what is known of a VM is what its guest is.
pub open spec fn state_agrees(s: VmLifecycle, g: Guest) -> bool {
    match s {
        VmLifecycle::Unconfigured => g.power is Off && g.kernel is None,
        VmLifecycle::Configured => g.power is Off && g.kernel is Some,
        VmLifecycle::Running => g.power is Running,
        VmLifecycle::Paused => g.power is Paused,
        VmLifecycle::SnapshotLoaded => g.power is Paused && g.restored is Some,
        _ => true,
    }
}

/// What is known of a VM that boots stays true of its guest: each call, once it
/// has succeeded, does to the guest what its success does to the state.
pub proof fn law_boot_state_agrees(
    vm: &FirecrackerVm,
    after: &mut FirecrackerVm,
    stage: BootStage,
    c: VmCall,
    r: Result<BootStage, CofferError>,
    g: Guest,
)
    requires
        stage != BootStage::Booted,
        call_ensures(FirecrackerVm::boot_call, (vm, stage), c),
        *old(after) == *vm,
        call_ensures(FirecrackerVm::boot_done, (after, stage), r),
        r is Ok,
        state_agrees(vm.state@, g),
        vm.state@ == VmLifecycle::Unconfigured || vm.state@ == VmLifecycle::Configured,
    ensures
        state_agrees(final(after).state@, after_vm_call(g, c)),
        r->Ok_0 == BootStage::Booted <==> final(after).state@ == VmLifecycle::Running,
{
}

/// A VM that is restored stands still until it is resumed, and its guest comes
/// from the given files.
pub proof fn law_managed_vm_is_restored(
    id: String,
    config: VmConfig,
    state: &str,
    mem: &str,
    dir: &str,
    r: (FirecrackerVm, VmCall),
    loaded: &mut FirecrackerVm,
    ok: Result<(), CofferError>,
)
    requires
        call_ensures(FirecrackerVm::from_snapshot, (id, config, state, mem, dir), r),
        *old(loaded) == r.0,
        call_ensures(FirecrackerVm::snapshot_loaded, (loaded,), ok),
    ensures
        ok is Ok,
        ({
            let g = after_vm_call(fresh(), r.1);
            &&& g.power is Paused
            &&& g.restored == Some((state@, mem@))
            &&& state_agrees(final(loaded).state@, g)
        }),
        final(loaded).snapshot_state_path is Some,
        final(loaded).snapshot_state_path->Some_0@ == state@,
        final(loaded).snapshot_mem_path is Some,
        final(loaded).snapshot_mem_path->Some_0@ == mem@,
{
}

/// What is known of a VM that is paused or resumed stays true of its guest.
pub proof fn law_pause_and_resume_agree(
    vm: &FirecrackerVm,
    pause: Result<VmCall, CofferError>,
    resume: Result<VmCall, CofferError>,
    paused: &mut FirecrackerVm,
    resumed: &mut FirecrackerVm,
    p: Result<(), CofferError>,
    q: Result<(), CofferError>,
    g: Guest,
)
    requires
        call_ensures(FirecrackerVm::pause, (vm,), pause),
        call_ensures(FirecrackerVm::resume, (vm,), resume),
        *old(paused) == *vm,
        *old(resumed) == *vm,
        call_ensures(FirecrackerVm::paused, (paused,), p),
        call_ensures(FirecrackerVm::resumed, (resumed,), q),
        state_agrees(vm.state@, g),
    ensures
        vm.state@ == VmLifecycle::Running <==> pause is Ok,
        pause is Ok ==> p is Ok && state_agrees(
            final(paused).state@,
            after_vm_call(g, pause->Ok_0),
        ) && after_vm_call(g, pause->Ok_0).power is Paused,
        resume is Ok ==> q is Ok && state_agrees(
            final(resumed).state@,
            after_vm_call(g, resume->Ok_0),
        ) && after_vm_call(g, resume->Ok_0).power is Running,
        g.power is Paused && vm.state@ == VmLifecycle::Paused ==> resume is Ok,
{
}

/// A snapshot of a managed VM is taken while it stands still, into the given
/// files, and the VM remembers them.
pub proof fn law_managed_vm_is_captured(
    vm: &FirecrackerVm,
    state: &str,
    mem: &str,
    r: Result<VmCall, CofferError>,
    after: &mut FirecrackerVm,
    ok: Result<(), CofferError>,
    g: Guest,
)
    requires
        call_ensures(FirecrackerVm::create_snapshot, (vm, state, mem), r),
        r is Ok,
        *old(after) == *vm,
        call_ensures(FirecrackerVm::snapshot_created, (after, state, mem), ok),
        state_agrees(vm.state@, g),
    ensures
        ok is Ok,
        after_vm_call(g, r->Ok_0) == (Guest { taken: g.taken.push((state@, mem@)), ..g }),
        final(after).snapshot_state_path is Some,
        final(after).snapshot_state_path->Some_0@ == state@,
        final(after).snapshot_mem_path is Some,
        final(after).snapshot_mem_path->Some_0@ == mem@,
        final(after).config == vm.config,
{
}

/// A managed VM that is shut down is asked to do so, and a VM whose process ended
/// is never asked to run, pause or be captured again.
pub proof fn law_managed_vm_ends(
    vm: &FirecrackerVm,
    c: VmCall,
    killed: &mut FirecrackerVm,
    ok: Result<(), CofferError>,
    gone: &FirecrackerVm,
    pause: Result<VmCall, CofferError>,
    resume: Result<VmCall, CofferError>,
    shot: Result<VmCall, CofferError>,
    path: &str,
    g: Guest,
)
    requires
        call_ensures(FirecrackerVm::shutdown, (vm,), c),
        *old(killed) == *vm,
        call_ensures(FirecrackerVm::kill, (killed,), ok),
        ok is Ok,
        *gone == *final(killed),
        call_ensures(FirecrackerVm::pause, (gone,), pause),
        call_ensures(FirecrackerVm::resume, (gone,), resume),
        call_ensures(FirecrackerVm::create_snapshot, (gone, path, path), shot),
    ensures
        after_vm_call(g, c) == (Guest { ending: true, ..g }),
        pause is Err,
        resume is Err,
        shot is Err,
{
}

/// What is launched is the process of the VM, with its own socket and its own log,
/// whether it is to wait or to run.
pub proof fn law_launch_starts_the_process(
    config: &RuntimeConfig,
    vm: &NewVm,
    tap: &str,
    cid: u32,
    mem_exists: bool,
    state_exists: bool,
    warm: Result<LaunchPlan, CofferError>,
    cold: Result<LaunchPlan, CofferError>,
    id: &str,
    socket: &str,
    log: &str,
    process: Result<VmProcess, CofferError>,
)
    requires
        call_ensures(warm_plan, (config, vm, tap, cid, mem_exists, state_exists), warm),
        call_ensures(cold_plan, (config, vm, tap, cid, mem_exists, state_exists), cold),
        id@ == vm.vm_id@,
        socket@ == vm.socket_name@,
        log@ == vm.log_name@,
        call_ensures(spawn_vm_process, (config, id, socket, log), process),
    ensures
        warm is Ok <==> process is Ok,
        cold is Ok <==> process is Ok,
        process matches Ok(p) ==> {
            let w = warm->Ok_0.process;
            let c = cold->Ok_0.process;
            &&& w.program@ == p.program@ && c.program@ == p.program@
            &&& strs(w.args@) == strs(p.args@) && strs(c.args@) == strs(p.args@)
            &&& strs(w.make_dirs@) == strs(p.make_dirs@) && strs(c.make_dirs@) == strs(p.make_dirs@)
            &&& w.host_socket_path@ == p.host_socket_path@ && c.host_socket_path@
                == p.host_socket_path@
        },
{
    if process is Ok && config.jailer is None {
        assert(strs(process->Ok_0.make_dirs@) =~= Seq::<Text>::empty());
        assert(strs(warm->Ok_0.process.make_dirs@) =~= Seq::<Text>::empty());
        assert(strs(cold->Ok_0.process.make_dirs@) =~= Seq::<Text>::empty());
    }
}

} // verus!
