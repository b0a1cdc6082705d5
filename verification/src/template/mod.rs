//! Template management: build, store, and version VM templates.

pub mod builder;

use vstd::prelude::*;

use crate::error::{CofferError, ErrorView};
use crate::firecracker::{changes_state, is_kernel_call, is_machine_call, is_root_drive_call, is_snapshot_call,
    is_vsock_call, triggers, ApiCall, FirecrackerClient};
use crate::platform::{is_short_id, short_id};
use crate::proto::{opt_text, pairs};
use crate::template::builder::{build_steps, BuildOutput, BuildStep, BuildStepView, ImageBuilder};
use crate::text::{cat2, cat3, join_path, joined, push_text, same_text, strs, Text};

verus! {

broadcast use vstd::string::group_string_axioms;

/// Specification for building a new template.
#[derive(Debug, Clone)]
pub struct TemplateSpec {
    pub id: String,
    pub name: String,
    pub kernel_path: String,
    pub rootfs_path: String,
    pub kernel_args: String,
    pub vcpus: u32,
    pub memory_mib: u32,
    pub init_commands: Vec<String>,
}

/// A template is a pre-built VM image (kernel + rootfs + snapshot) that can be
/// cloned to create sandboxes.
#[derive(Debug)]
pub struct Template {
    pub id: String,
    pub name: String,
    pub kernel_path: String,
    pub rootfs_path: String,
    pub snapshot_state_path: String,
    pub snapshot_mem_path: String,
    pub kernel_args: String,
    pub vcpus: u32,
    pub memory_mib: u32,
    pub metadata: Vec<(String, String)>,
}

pub struct TemplateView {
    pub id: Text,
    pub name: Text,
    pub kernel_path: Text,
    pub rootfs_path: Text,
    pub snapshot_state_path: Text,
    pub snapshot_mem_path: Text,
    pub kernel_args: Text,
    pub vcpus: u32,
    pub memory_mib: u32,
    pub metadata: Seq<(Text, Text)>,
}

impl View for Template {
    type V = TemplateView;

    open spec fn view(&self) -> TemplateView {
        TemplateView {
            id: self.id@,
            name: self.name@,
            kernel_path: self.kernel_path@,
            rootfs_path: self.rootfs_path@,
            snapshot_state_path: self.snapshot_state_path@,
            snapshot_mem_path: self.snapshot_mem_path@,
            kernel_args: self.kernel_args@,
            vcpus: self.vcpus,
            memory_mib: self.memory_mib,
            metadata: pairs(self.metadata@),
        }
    }
}

fn copy_pairs(v: &Vec<(String, String)>) -> (r: Vec<(String, String)>)
    ensures
        pairs(r@) == pairs(v@),
{
    let mut out: Vec<(String, String)> = Vec::new();
    let mut i: usize = 0;
    while i < v.len()
        invariant
            i <= v@.len(),
            pairs(out@) == pairs(v@).take(i as int),
        decreases v@.len() - i,
    {
        let ghost before = out@;
        out.push((v[i].0.clone(), v[i].1.clone()));
        assert(pairs(out@) =~= pairs(before).push(pairs(v@)[i as int]));
        assert(pairs(v@).take(i + 1) =~= pairs(v@).take(i as int).push(pairs(v@)[i as int]));
        i = i + 1;
    }
    assert(pairs(v@).take(i as int) =~= pairs(v@));
    out
}

impl Clone for Template {
    fn clone(&self) -> (r: Template)
        ensures
            r@ == self@,
    {
        Template {
            id: self.id.clone(),
            name: self.name.clone(),
            kernel_path: self.kernel_path.clone(),
            rootfs_path: self.rootfs_path.clone(),
            snapshot_state_path: self.snapshot_state_path.clone(),
            snapshot_mem_path: self.snapshot_mem_path.clone(),
            kernel_args: self.kernel_args.clone(),
            vcpus: self.vcpus,
            memory_mib: self.memory_mib,
            metadata: copy_pairs(&self.metadata),
        }
    }
}

// ---------------------------------------------------------------------
// Storage
// ---------------------------------------------------------------------

/// The templates that a manager holds, by their identifiers, and its paths.
pub struct ManagerState {
    pub template_dir: Text,
    pub kernel_path: Text,
    pub firecracker_path: Text,
    pub agent_bin: Option<Text>,
    pub templates: Map<Text, TemplateView>,
}

/// Whether a sequence holds a template with an identifier.
pub open spec fn has_id(v: Seq<Template>, id: Text) -> bool {
    exists|i: int| 0 <= i < v.len() && (#[trigger] v[i]).id@ == id
}

/// The place of the template with an identifier.
pub open spec fn place_of(v: Seq<Template>, id: Text) -> int {
    choose|i: int| 0 <= i < v.len() && (#[trigger] v[i]).id@ == id
}

/// No two templates have the same identifier.
pub open spec fn distinct_ids(v: Seq<Template>) -> bool {
    forall|i: int, j: int| 0 <= i < j < v.len() ==> (#[trigger] v[i]).id@ != (#[trigger] v[j]).id@
}

/// The templates of a sequence by their identifiers.
pub open spec fn by_id(v: Seq<Template>) -> Map<Text, TemplateView> {
    Map::new(|id: Text| has_id(v, id), |id: Text| v[place_of(v, id)]@)
}

proof fn lemma_place(v: Seq<Template>, i: int)
    requires
        distinct_ids(v),
        0 <= i < v.len(),
    ensures
        has_id(v, v[i].id@),
        place_of(v, v[i].id@) == i,
        by_id(v).dom().contains(v[i].id@),
        by_id(v)[v[i].id@] == v[i]@,
{
    let id = v[i].id@;
    assert(has_id(v, id));
    let k = place_of(v, id);
    assert(v[k].id@ == v[i].id@);
}

proof fn lemma_push(v: Seq<Template>, t: Template)
    requires
        distinct_ids(v),
        !has_id(v, t.id@),
    ensures
        distinct_ids(v.push(t)),
        by_id(v.push(t)) == by_id(v).insert(t.id@, t@),
{
    let w = v.push(t);
    assert(distinct_ids(w)) by {
        assert forall|i: int, j: int| 0 <= i < j < w.len() implies (#[trigger] w[i]).id@ != (
        #[trigger] w[j]).id@ by {
            assert(w[i] == v[i]);
            if j == v.len() {
                assert(v[i].id@ != t.id@);
            } else {
                assert(w[j] == v[j]);
            }
        }
    }
    let a = by_id(w);
    let b = by_id(v).insert(t.id@, t@);
    assert forall|id: Text| #[trigger] a.dom().contains(id) <==> b.dom().contains(id) by {
        if has_id(v, id) {
            let k = place_of(v, id);
            assert(w[k] == v[k]);
        }
        if id == t.id@ {
            assert(w[v.len() as int].id@ == id);
        }
        if has_id(w, id) && id != t.id@ {
            let k = place_of(w, id);
            assert(v[k] == w[k]);
        }
    }
    assert forall|id: Text| a.dom().contains(id) implies #[trigger] a[id] == b[id] by {
        let k = place_of(w, id);
        lemma_place(w, k);
        if k < v.len() {
            assert(w[k] == v[k]);
            lemma_place(v, k);
        }
    }
    assert(a =~= b);
}

proof fn lemma_remove(v: Seq<Template>, k: int)
    requires
        distinct_ids(v),
        0 <= k < v.len(),
    ensures
        distinct_ids(v.remove(k)),
        !has_id(v.remove(k), v[k].id@),
        by_id(v.remove(k)) == by_id(v).remove(v[k].id@),
{
    let w = v.remove(k);
    assert forall|i: int| 0 <= i < w.len() implies #[trigger] w[i] == (if i < k {
        v[i]
    } else {
        v[i + 1]
    }) by {}
    assert(distinct_ids(w)) by {
        assert forall|i: int, j: int| 0 <= i < j < w.len() implies (#[trigger] w[i]).id@ != (
        #[trigger] w[j]).id@ by {
            let x = if i < k {
                i
            } else {
                i + 1
            };
            let y = if j < k {
                j
            } else {
                j + 1
            };
            assert(v[x].id@ != v[y].id@);
        }
    }
    assert(!has_id(w, v[k].id@)) by {
        if has_id(w, v[k].id@) {
            let i = place_of(w, v[k].id@);
            let x = if i < k {
                i
            } else {
                i + 1
            };
            assert(w[i] == v[x]);
            assert(v[x].id@ == v[k].id@);
        }
    }
    let a = by_id(w);
    let b = by_id(v).remove(v[k].id@);
    assert forall|id: Text| #[trigger] a.dom().contains(id) <==> b.dom().contains(id) by {
        if has_id(w, id) {
            let i = place_of(w, id);
            let x = if i < k {
                i
            } else {
                i + 1
            };
            assert(w[i] == v[x]);
            assert(v[x].id@ == id);
        }
        if has_id(v, id) && id != v[k].id@ {
            let x = place_of(v, id);
            let i = if x < k {
                x
            } else {
                x - 1
            };
            assert(w[i] == v[x]);
        }
    }
    assert forall|id: Text| a.dom().contains(id) implies #[trigger] a[id] == b[id] by {
        let i = place_of(w, id);
        lemma_place(w, i);
        let x = if i < k {
            i
        } else {
            i + 1
        };
        assert(w[i] == v[x]);
        lemma_place(v, x);
    }
    assert(a =~= b);
}

/// Manages template storage and retrieval.
#[derive(Debug)]
pub struct TemplateManager {
    template_dir: String,
    kernel_path: String,
    firecracker_path: String,
    agent_bin: Option<String>,
    templates: Vec<Template>,
}

impl View for TemplateManager {
    type V = ManagerState;

    closed spec fn view(&self) -> ManagerState {
        ManagerState {
            template_dir: self.template_dir@,
            kernel_path: self.kernel_path@,
            firecracker_path: self.firecracker_path@,
            agent_bin: opt_text(self.agent_bin),
            templates: by_id(self.templates@),
        }
    }
}

/// A directory that may hold a template, and which of its files exist.
#[derive(Debug)]
pub struct TemplateDir {
    pub path: String,
    pub name: String,
    pub has_kernel: bool,
    pub has_rootfs: bool,
    pub has_snapshot_state: bool,
    pub has_snapshot_mem: bool,
}

/// The kernel arguments of a template that was found on disk.
pub open spec fn stored_kernel_args() -> Text {
    "console=ttyS0 reboot=k panic=1 pci=off init=/sbin/coffer-init"@
}

/// The template that a directory with all files holds.
pub open spec fn stored_template(path: Text, name: Text) -> TemplateView {
    TemplateView {
        id: name,
        name,
        kernel_path: joined(path, "kernel"@),
        rootfs_path: joined(path, "rootfs.erofs"@),
        snapshot_state_path: joined(path, "snapshot.state"@),
        snapshot_mem_path: joined(path, "snapshot.mem"@),
        kernel_args: stored_kernel_args(),
        vcpus: 1,
        memory_mib: 256,
        metadata: seq![],
    }
}

impl TemplateManager {
    /// No two templates have the same identifier.
    pub closed spec fn wf(&self) -> bool {
        distinct_ids(self.templates@)
    }

    /// A manager that holds no templates yet.
    pub fn new(template_dir: String, kernel_path: String, firecracker_path: String) -> (r:
        TemplateManager)
        ensures
            r.wf(),
            r@ == (ManagerState {
                template_dir: template_dir@,
                kernel_path: kernel_path@,
                firecracker_path: firecracker_path@,
                agent_bin: None,
                templates: Map::empty(),
            }),
    {
        let r = TemplateManager {
            template_dir,
            kernel_path,
            firecracker_path,
            agent_bin: None,
            templates: Vec::new(),
        };
        assert(by_id(r.templates@) =~= Map::<Text, TemplateView>::empty());
        r
    }

    pub fn with_agent_bin(self, path: String) -> (r: TemplateManager)
        requires
            self.wf(),
        ensures
            r.wf(),
            r@ == (ManagerState { agent_bin: Some(path@), ..self@ }),
    {
        let mut m = self;
        m.agent_bin = Some(path);
        m
    }

    /// The place of a template.
    fn find(&self, id: &str) -> (r: Option<usize>)
        requires
            self.wf(),
        ensures
            match r {
                Some(i) => i < self.templates@.len() && self.templates@[i as int].id@ == id@,
                None => !has_id(self.templates@, id@),
            },
    {
        let mut i: usize = 0;
        while i < self.templates.len()
            invariant
                i <= self.templates@.len(),
                forall|j: int| 0 <= j < i ==> (#[trigger] self.templates@[j]).id@ != id@,
            decreases self.templates@.len() - i,
        {
            if same_text(self.templates[i].id.as_str(), id) {
                return Some(i);
            }
            i = i + 1;
        }
        None
    }

    /// Register a new template (built externally), in place of an earlier one
    /// with the same identifier.
    pub fn register(&mut self, template: Template)
        requires
            old(self).wf(),
        ensures
            final(self).wf(),
            final(self)@ == (ManagerState {
                templates: old(self)@.templates.insert(template.id@, template@),
                ..old(self)@
            }),
    {
        match self.find(template.id.as_str()) {
            Some(i) => {
                proof {
                    lemma_remove(self.templates@, i as int);
                }
                self.templates.remove(i);
                proof {
                    let m = by_id(old(self).templates@);
                    assert(m.remove(template.id@).insert(template.id@, template@) =~= m.insert(
                        template.id@,
                        template@,
                    ));
                }
            },
            None => {},
        }
        proof {
            lemma_push(self.templates@, template);
        }
        self.templates.push(template);
    }

    /// Get a template by ID.
    pub fn get(&self, id: &str) -> (r: Result<Template, CofferError>)
        requires
            self.wf(),
        ensures
            r is Ok <==> self@.templates.dom().contains(id@),
            r matches Ok(t) ==> t@ == self@.templates[id@],
            r matches Err(e) ==> e@ == ErrorView::TemplateNotFound(id@),
    {
        match self.find(id) {
            Some(i) => {
                proof {
                    lemma_place(self.templates@, i as int);
                }
                Ok(self.templates[i].clone())
            },
            None => Err(CofferError::TemplateNotFound(id.to_owned())),
        }
    }

    /// List all templates: each is listed once, in no particular order.
    pub fn list(&self) -> (r: Vec<Template>)
        requires
            self.wf(),
        ensures
            distinct_ids(r@),
            by_id(r@) == self@.templates,
    {
        let mut out: Vec<Template> = Vec::new();
        let mut i: usize = 0;
        while i < self.templates.len()
            invariant
                i <= self.templates@.len(),
                out@.len() == i,
                forall|j: int| 0 <= j < i ==> (#[trigger] out@[j])@ == self.templates@[j]@,
            decreases self.templates@.len() - i,
        {
            out.push(self.templates[i].clone());
            i = i + 1;
        }
        proof {
            let v = self.templates@;
            let w = out@;
            assert forall|j: int| 0 <= j < w.len() implies (#[trigger] w[j]).id@ == v[j].id@ by {
                assert(w[j]@ == v[j]@);
            }
            assert(distinct_ids(w)) by {
                assert forall|j: int, k: int| 0 <= j < k < w.len() implies (#[trigger] w[j]).id@
                    != (#[trigger] w[k]).id@ by {
                    assert(v[j].id@ != v[k].id@);
                }
            }
            let a = by_id(w);
            let b = by_id(v);
            assert forall|id: Text| #[trigger] a.dom().contains(id) <==> b.dom().contains(id) by {
                if has_id(w, id) {
                    let k = place_of(w, id);
                    assert(v[k].id@ == id);
                }
                if has_id(v, id) {
                    let k = place_of(v, id);
                    assert(w[k].id@ == id);
                }
            }
            assert forall|id: Text| a.dom().contains(id) implies #[trigger] a[id] == b[id] by {
                let k = place_of(w, id);
                lemma_place(w, k);
                assert(v[k].id@ == id);
                lemma_place(v, k);
            }
            assert(a =~= b);
        }
        out
    }

    /// Takes up the template that a directory holds; one that lacks a file holds
    /// none.
    pub fn load(&mut self, dir: &TemplateDir)
        requires
            old(self).wf(),
        ensures
            final(self).wf(),
            final(self)@ == if dir.has_kernel && dir.has_rootfs && dir.has_snapshot_state
                && dir.has_snapshot_mem {
                ManagerState {
                    templates: old(self)@.templates.insert(
                        dir.name@,
                        stored_template(dir.path@, dir.name@),
                    ),
                    ..old(self)@
                }
            } else {
                old(self)@
            },
    {
        if dir.has_kernel && dir.has_rootfs && dir.has_snapshot_state && dir.has_snapshot_mem {
            let path = dir.path.as_str();
            let t = Template {
                id: dir.name.clone(),
                name: dir.name.clone(),
                kernel_path: join_path(path, "kernel"),
                rootfs_path: join_path(path, "rootfs.erofs"),
                snapshot_state_path: join_path(path, "snapshot.state"),
                snapshot_mem_path: join_path(path, "snapshot.mem"),
                kernel_args: "console=ttyS0 reboot=k panic=1 pci=off init=/sbin/coffer-init".to_owned(),
                vcpus: 1,
                memory_mib: 256,
                metadata: Vec::new(),
            };
            assert(pairs(t.metadata@) =~= Seq::<(Text, Text)>::empty());
            assert(t@ == stored_template(dir.path@, dir.name@));
            self.register(t);
        }
    }
}

// ---------------------------------------------------------------------
// Building
// ---------------------------------------------------------------------

/// What has to be done to build a template from an image: run the builder, put
/// the files into their places, take the snapshot, and finish.
#[derive(Debug)]
pub struct BuildPlan {
    pub id: String,
    pub name: String,
    pub dir: String,
    pub builder: ImageBuilder,
    pub kernel_args: Option<String>,
    /// The kernel of the template.
    pub kernel: String,
    /// The root file system of the template.
    pub rootfs: String,
    pub snapshot_state: String,
    pub snapshot_mem: String,
}

/// A plan for the given name, image and kernel arguments. Its identifier is the
/// name with a random end.
pub open spec fn is_build_plan(
    p: BuildPlan,
    m: ManagerState,
    name: Text,
    image: Text,
    kernel_args: Option<Text>,
) -> bool {
    &&& exists|tail: Text| is_short_id(tail) && p.id@ == name + "-"@ + tail
    &&& p.name@ == name
    &&& p.dir@ == joined(m.template_dir, p.id@)
    &&& p.builder.work_dir@ == joined(p.dir@, "build"@)
    &&& p.builder.image@ == image
    &&& p.builder.kernel_path@ == m.kernel_path
    &&& p.builder.kernel_args@ == match kernel_args {
        Some(a) => a,
        None => "console=ttyS0 reboot=k panic=1 pci=off"@,
    }
    &&& p.builder.args_given == (kernel_args is Some)
    &&& opt_text(p.builder.agent_bin) == m.agent_bin
    &&& p.builder.enable_overlay
    &&& opt_text(p.kernel_args) == kernel_args
    &&& p.kernel@ == joined(p.dir@, "kernel"@)
    &&& p.rootfs@ == joined(p.dir@, "rootfs.erofs"@)
    &&& p.snapshot_state@ == joined(p.dir@, "snapshot.state"@)
    &&& p.snapshot_mem@ == joined(p.dir@, "snapshot.mem"@)
}

/// The steps that put what the builder made into its place.
pub open spec fn place_steps(p: BuildPlan, output: BuildOutput) -> Seq<BuildStepView> {
    seq![
        BuildStepView::Move { src: output.rootfs_path@, dst: p.rootfs@ },
        BuildStepView::Copy { src: output.kernel_path@, dst: p.kernel@ },
    ]
}

impl BuildPlan {
    /// The steps that put what the builder made into its place: a later process
    /// looks for the files of a template in its directory.
    pub fn place(&self, output: &BuildOutput) -> (r: Vec<BuildStep>)
        ensures
            build_steps(r@) == place_steps(*self, *output),
    {
        let mut out: Vec<BuildStep> = Vec::new();
        out.push(BuildStep::Move { src: output.rootfs_path.clone(), dst: self.rootfs.clone() });
        out.push(BuildStep::Copy { src: output.kernel_path.clone(), dst: self.kernel.clone() });
        assert(build_steps(out@) =~= place_steps(*self, *output));
        out
    }
}

/// The template that a finished build adds.
pub open spec fn built_template(p: BuildPlan, output: BuildOutput) -> TemplateView {
    TemplateView {
        id: p.id@,
        name: p.name@,
        kernel_path: p.kernel@,
        rootfs_path: p.rootfs@,
        snapshot_state_path: p.snapshot_state@,
        snapshot_mem_path: p.snapshot_mem@,
        kernel_args: match p.kernel_args {
            Some(a) => a@,
            None => output.kernel_args@,
        },
        vcpus: 1,
        memory_mib: 256,
        metadata: seq![],
    }
}

/// How the snapshot of a template is taken.
#[derive(Debug)]
pub struct SnapshotPlan {
    pub socket_path: String,
    pub log_path: String,
    pub vsock_path: String,
    /// The arguments of the Firecracker process.
    pub process_args: Vec<String>,
    /// The calls that configure and start the VM, in order.
    pub boot: Vec<ApiCall>,
    /// How long the socket of the API is awaited.
    pub socket_timeout_ms: u64,
    /// The socket on which the agent is awaited.
    pub agent_path: String,
    /// How long the agent may be silent.
    pub agent_timeout_ms: u64,
    /// The calls that pause the VM and take the snapshot.
    pub capture: Vec<ApiCall>,
    /// The call that ends the VM; it may fail.
    pub shutdown: ApiCall,
}

/// The plan for the snapshot of a VM.
pub open spec fn is_snapshot_plan(
    p: SnapshotPlan,
    template_dir: Text,
    vm_id: Text,
    kernel: Text,
    rootfs: Text,
    args: Text,
    state: Text,
    mem: Text,
) -> bool {
    &&& p.socket_path@ == joined(template_dir, "snap-"@ + vm_id + ".sock"@)
    &&& p.log_path@ == joined(template_dir, "snap-"@ + vm_id + ".log"@)
    &&& p.vsock_path@ == joined(template_dir, "snap-"@ + vm_id + ".vsock"@)
    &&& strs(p.process_args@) == firecracker_args(p.socket_path@, p.log_path@)
    &&& p.boot@.len() == 5
    &&& is_machine_call(p.boot@[0], 1, 256)
    &&& is_kernel_call(p.boot@[1], kernel, args)
    &&& is_root_drive_call(p.boot@[2], rootfs)
    &&& is_vsock_call(p.boot@[3], 100, p.vsock_path@)
    &&& triggers(p.boot@[4], "InstanceStart"@)
    &&& p.socket_timeout_ms == 2000
    &&& p.agent_path@ == p.vsock_path@ + "_1024"@
    &&& p.agent_timeout_ms == 30000
    &&& p.capture@.len() == 2
    &&& changes_state(p.capture@[0], "Paused"@)
    &&& is_snapshot_call(p.capture@[1], state, mem)
    &&& triggers(p.shutdown, "SendCtrlAltDel"@)
}

/// The arguments of a Firecracker process with its socket and its log.
pub open spec fn firecracker_args(socket: Text, log: Text) -> Seq<Text> {
    seq!["--api-sock"@, socket, "--log-path"@, log, "--level"@, "Warn"@]
}

/// The arguments of a Firecracker process with its socket and its log.
pub fn spawn_firecracker(socket: &str, log: &str) -> (r: Vec<String>)
    ensures
        strs(r@) == firecracker_args(socket@, log@),
{
    let mut a: Vec<String> = Vec::new();
    push_text(&mut a, "--api-sock");
    push_text(&mut a, socket);
    push_text(&mut a, "--log-path");
    push_text(&mut a, log);
    push_text(&mut a, "--level");
    push_text(&mut a, "Warn");
    assert(strs(a@) =~= firecracker_args(socket@, log@));
    a
}

impl TemplateManager {
    /// What has to be done to build a template from an image.
    pub fn build_from_image(&self, name: &str, image: &str, kernel_args: Option<String>) -> (r:
        BuildPlan)
        ensures
            is_build_plan(r, self@, name@, image@, opt_text(kernel_args)),
    {
        let tail = short_id();
        let id = cat3(name, "-", tail.as_str());
        let dir = join_path(self.template_dir.as_str(), id.as_str());
        let mut builder = ImageBuilder::new(
            join_path(dir.as_str(), "build"),
            image.to_owned(),
            self.kernel_path.clone(),
        );
        match &kernel_args {
            Some(a) => {
                builder = builder.with_kernel_args(a.clone());
            },
            None => {},
        }
        match &self.agent_bin {
            Some(a) => {
                builder = builder.with_agent_bin(a.clone());
            },
            None => {},
        }
        let snapshot_state = join_path(dir.as_str(), "snapshot.state");
        let snapshot_mem = join_path(dir.as_str(), "snapshot.mem");
        let kernel = join_path(dir.as_str(), "kernel");
        let rootfs = join_path(dir.as_str(), "rootfs.erofs");
        BuildPlan {
            id,
            name: name.to_owned(),
            dir,
            builder,
            kernel_args,
            kernel,
            rootfs,
            snapshot_state,
            snapshot_mem,
        }
    }

    /// Adds the template of a build whose steps and whose snapshot succeeded.
    pub fn finish_build(&mut self, plan: BuildPlan, output: BuildOutput) -> (r: Template)
        requires
            old(self).wf(),
        ensures
            final(self).wf(),
            r@ == built_template(plan, output),
            final(self)@ == (ManagerState {
                templates: old(self)@.templates.insert(plan.id@, built_template(plan, output)),
                ..old(self)@
            }),
    {
        let args = match plan.kernel_args {
            Some(a) => a,
            None => output.kernel_args,
        };
        let t = Template {
            id: plan.id,
            name: plan.name,
            kernel_path: plan.kernel,
            rootfs_path: plan.rootfs,
            snapshot_state_path: plan.snapshot_state,
            snapshot_mem_path: plan.snapshot_mem,
            kernel_args: args,
            vcpus: 1,
            memory_mib: 256,
            metadata: Vec::new(),
        };
        assert(pairs(t.metadata@) =~= Seq::<(Text, Text)>::empty());
        let copy = t.clone();
        self.register(t);
        copy
    }

    /// How a snapshot is taken: start a VM, wait for its agent, pause it, take
    /// the snapshot, and end it.
    pub fn create_snapshot(
        &self,
        vm_id: &str,
        kernel_path: &str,
        rootfs_path: &str,
        kernel_args: &str,
        snapshot_state_path: &str,
        snapshot_mem_path: &str,
    ) -> (r: SnapshotPlan)
        ensures
            is_snapshot_plan(
                r,
                self@.template_dir,
                vm_id@,
                kernel_path@,
                rootfs_path@,
                kernel_args@,
                snapshot_state_path@,
                snapshot_mem_path@,
            ),
    {
        let dir = self.template_dir.as_str();
        let socket_path = join_path(dir, cat3("snap-", vm_id, ".sock").as_str());
        let log_path = join_path(dir, cat3("snap-", vm_id, ".log").as_str());
        let vsock_path = join_path(dir, cat3("snap-", vm_id, ".vsock").as_str());
        let process_args = spawn_firecracker(socket_path.as_str(), log_path.as_str());
        let fc = FirecrackerClient::new(socket_path.clone());
        let mut boot: Vec<ApiCall> = Vec::new();
        boot.push(fc.machine_call(1, 256));
        boot.push(fc.kernel_call(kernel_path, kernel_args));
        boot.push(fc.root_drive_call(rootfs_path));
        boot.push(fc.vsock_call(100, vsock_path.as_str()));
        boot.push(fc.start_microvm());
        let agent_path = cat2(vsock_path.as_str(), "_1024");
        let mut capture: Vec<ApiCall> = Vec::new();
        capture.push(fc.pause());
        capture.push(fc.snapshot_call(snapshot_state_path, snapshot_mem_path));
        let shutdown = fc.shutdown();
        SnapshotPlan {
            socket_path,
            log_path,
            vsock_path,
            process_args,
            boot,
            socket_timeout_ms: 2000,
            agent_path,
            agent_timeout_ms: 30000,
            capture,
            shutdown,
        }
    }
}

// ---------------------------------------------------------------------
// Laws
// ---------------------------------------------------------------------

/// A registered template is found again, and registering it changes no other.
pub proof fn law_register_then_get(m: ManagerState, t: TemplateView, other: Text)
    ensures
        m.templates.insert(t.id, t).dom().contains(t.id),
        m.templates.insert(t.id, t)[t.id] == t,
        other != t.id ==> (m.templates.insert(t.id, t).dom().contains(other)
            <==> m.templates.dom().contains(other)),
        other != t.id && m.templates.dom().contains(other) ==> m.templates.insert(t.id, t)[other]
            == m.templates[other],
{
}

/// A built template is found again: once its files are in their places, the
/// directory of the template holds it for a later process, with the same files
/// and resources, and with the same kernel arguments unless others were given.
pub proof fn law_built_template_is_found_again(
    p: BuildPlan,
    output: BuildOutput,
    m: ManagerState,
    name: Text,
    image: Text,
    kernel_args: Option<Text>,
)
    requires
        is_build_plan(p, m, name, image, kernel_args),
        output.kernel_args@ == p.builder.guest_args(),
    ensures
        stored_template(p.dir@, p.id@).id == built_template(p, output).id,
        stored_template(p.dir@, p.id@).rootfs_path == built_template(p, output).rootfs_path,
        stored_template(p.dir@, p.id@).kernel_path == built_template(p, output).kernel_path,
        stored_template(p.dir@, p.id@).snapshot_state_path == built_template(
            p,
            output,
        ).snapshot_state_path,
        stored_template(p.dir@, p.id@).snapshot_mem_path == built_template(
            p,
            output,
        ).snapshot_mem_path,
        stored_template(p.dir@, p.id@).vcpus == built_template(p, output).vcpus,
        stored_template(p.dir@, p.id@).memory_mib == built_template(p, output).memory_mib,
        kernel_args is None ==> stored_template(p.dir@, p.id@).kernel_args == built_template(
            p,
            output,
        ).kernel_args,
        place_steps(p, output)[0] == (BuildStepView::Move {
            src: output.rootfs_path@,
            dst: stored_template(p.dir@, p.id@).rootfs_path,
        }),
        place_steps(p, output)[1] == (BuildStepView::Copy {
            src: output.kernel_path@,
            dst: stored_template(p.dir@, p.id@).kernel_path,
        }),
{
    if kernel_args is None {
        reveal_strlit("console=ttyS0 reboot=k panic=1 pci=off");
        reveal_strlit(" init=/sbin/coffer-init");
        reveal_strlit("console=ttyS0 reboot=k panic=1 pci=off init=/sbin/coffer-init");
        assert(p.builder.guest_args() =~= stored_kernel_args());
    }
}

/// Every template that was registered under its own identifier keeps it: what is
/// found under an identifier carries it.
pub proof fn law_found_under_own_id(v: Seq<Template>, id: Text)
    requires
        by_id(v).dom().contains(id),
    ensures
        by_id(v)[id].id == id,
{
    let k = place_of(v, id);
    assert(v[k].id@ == id);
}

/// A build is planned for what was asked for: it takes the image, with the kernel
/// and the agent of the manager and the given kernel arguments, into a directory
/// of its own below that of the templates; the finished template bears its name
/// and is found again.
pub proof fn law_build_is_planned_as_asked(
    m: &TemplateManager,
    name: &str,
    image: &str,
    kernel_args: Option<String>,
    plan: BuildPlan,
    after: &mut TemplateManager,
    output: BuildOutput,
    t: Template,
    found: &TemplateManager,
    id: &str,
    r: Result<Template, CofferError>,
)
    requires
        call_ensures(TemplateManager::build_from_image, (m, name, image, kernel_args), plan),
        call_ensures(TemplateManager::finish_build, (after, plan, output), t),
        *found == *final(after),
        id@ == plan.id@,
        call_ensures(TemplateManager::get, (found, id), r),
    ensures
        (name@ + "-"@).is_prefix_of(plan.id@),
        plan.id@.len() == name@.len() + 9,
        plan.dir@ == joined(m@.template_dir, plan.id@),
        plan.builder.image@ == image@,
        plan.builder.kernel_path@ == m@.kernel_path,
        opt_text(plan.builder.agent_bin) == m@.agent_bin,
        kernel_args matches Some(a) ==> plan.builder.kernel_args@ == a@ && plan.builder.args_given,
        kernel_args is None ==> !plan.builder.args_given,
        t.name@ == name@,
        t.id@ == plan.id@,
        t.kernel_args@ == match kernel_args {
            Some(a) => a@,
            None => output.kernel_args@,
        },
        r matches Ok(u) && u@ == t@,
        forall|other: Text|
            other != plan.id@ && #[trigger] old(after)@.templates.dom().contains(other)
                ==> final(after)@.templates.dom().contains(other)
                && final(after)@.templates[other] == old(after)@.templates[other],
{
    reveal_strlit("-");
    let tail = choose|tail: Text| is_short_id(tail) && plan.id@ == name@ + "-"@ + tail;
    let p = name@ + "-"@;
    assert(plan.id@.subrange(0, p.len() as int) =~= p);
}

/// What was built is put where the template looks for it: after the steps the
/// root file system and the kernel of the template are what the builder made.
pub proof fn law_files_are_put_where_looked_for(
    plan: &BuildPlan,
    output: &BuildOutput,
    steps: Vec<BuildStep>,
    given: BuildPlan,
    made: BuildOutput,
    m: &mut TemplateManager,
    t: Template,
)
    requires
        call_ensures(BuildPlan::place, (plan, output), steps),
        given == *plan,
        made == *output,
        call_ensures(TemplateManager::finish_build, (m, given, made), t),
    ensures
        exists|i: int|
            0 <= i < steps@.len() && (#[trigger] steps@[i])@ == (BuildStepView::Move {
                src: output.rootfs_path@,
                dst: t.rootfs_path@,
            }),
        exists|i: int|
            0 <= i < steps@.len() && (#[trigger] steps@[i])@ == (BuildStepView::Copy {
                src: output.kernel_path@,
                dst: t.kernel_path@,
            }),
{
    let v = build_steps(steps@);
    assert(v == place_steps(*plan, *output));
    assert(v.len() == 2);
    assert(v.len() == steps@.len());
    assert(v[0] == steps@[0]@);
    assert(v[1] == steps@[1]@);
}

/// A directory that lacks a file of a template holds none; one with all of them
/// holds the template that bears its name, whose files are the ones in it.
pub proof fn law_directory_is_loaded(m: &mut TemplateManager, dir: &TemplateDir)
    requires
        call_ensures(TemplateManager::load, (m, dir), ()),
    ensures
        !(dir.has_kernel && dir.has_rootfs && dir.has_snapshot_state && dir.has_snapshot_mem)
            ==> final(m)@ == old(m)@,
        dir.has_kernel && dir.has_rootfs && dir.has_snapshot_state && dir.has_snapshot_mem ==> {
            let t = final(m)@.templates[dir.name@];
            &&& final(m)@.templates.dom().contains(dir.name@)
            &&& t.id == dir.name@
            &&& t.kernel_path == joined(dir.path@, "kernel"@)
            &&& t.rootfs_path == joined(dir.path@, "rootfs.erofs"@)
            &&& t.snapshot_state_path == joined(dir.path@, "snapshot.state"@)
            &&& t.snapshot_mem_path == joined(dir.path@, "snapshot.mem"@)
        },
{
}

/// The process of Firecracker is given its socket and its log, each behind the word
/// that announces it.
pub proof fn law_process_is_given_its_files(socket: &str, log: &str, r: Vec<String>)
    requires
        call_ensures(spawn_firecracker, (socket, log), r),
    ensures
        r@.len() == 6,
        r@[0]@ == "--api-sock"@ && r@[1]@ == socket@,
        r@[2]@ == "--log-path"@ && r@[3]@ == log@,
        r@[4]@ == "--level"@ && r@[5]@ == "Warn"@,
{
    let v = strs(r@);
    assert(v.len() == r@.len());
    assert(forall|i: int| 0 <= i < 6 ==> #[trigger] v[i] == r@[i]@);
}

/// A template that was registered is in the list, and so is every other one that was.
pub proof fn law_registered_is_listed(
    m: &mut TemplateManager,
    template: Template,
    seen: &TemplateManager,
    r: Vec<Template>,
    other: Text,
)
    requires
        old(m).wf(),
        call_ensures(TemplateManager::register, (m, template), ()),
        *seen == *final(m),
        call_ensures(TemplateManager::list, (seen,), r),
    ensures
        by_id(r@).dom().contains(template.id@),
        by_id(r@)[template.id@] == template@,
        other != template.id@ ==> (by_id(r@).dom().contains(other)
            <==> old(m)@.templates.dom().contains(other)),
        other != template.id@ && old(m)@.templates.dom().contains(other) ==> by_id(r@)[other]
            == old(m)@.templates[other],
        final(m)@.agent_bin == old(m)@.agent_bin,
{
}

/// A template is seen as it is.
pub proof fn law_template_is_seen_as_it_is(t: Template, i: int)
    requires
        0 <= i < t.metadata@.len(),
    ensures
        t@.id == t.id@ && t@.name == t.name@,
        t@.kernel_path == t.kernel_path@ && t@.rootfs_path == t.rootfs_path@,
        t@.snapshot_state_path == t.snapshot_state_path@,
        t@.snapshot_mem_path == t.snapshot_mem_path@,
        t@.kernel_args == t.kernel_args@,
        t@.vcpus == t.vcpus && t@.memory_mib == t.memory_mib,
        t@.metadata.len() == t.metadata@.len(),
        t@.metadata[i].0 == t.metadata@[i].0@ && t@.metadata[i].1 == t.metadata@[i].1@,
{
}

} // verus!
