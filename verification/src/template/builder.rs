//! OCI image → EROFS rootfs builder.

use vstd::prelude::*;

use crate::error::{CofferError, ErrorView};
use crate::proto::opt_text;
use crate::text::{cat2, cat3, cat4, join_path, joined, push_text, strs, Text};

verus! {

broadcast use vstd::string::group_string_axioms;

/// Output of a successful image build.
#[derive(Debug, Clone)]
pub struct BuildOutput {
    pub rootfs_path: String,
    pub kernel_path: String,
    pub kernel_args: String,
}

/// Builder that turns an OCI container image into an EROFS rootfs suitable
/// for Firecracker MicroVMs.
#[derive(Debug)]
pub struct ImageBuilder {
    pub work_dir: String,
    pub image: String,
    pub kernel_path: String,
    pub kernel_args: String,
    /// Whether the kernel arguments were given, and are to be used as they are.
    pub args_given: bool,
    pub agent_bin: Option<String>,
    pub enable_overlay: bool,
}

/// A tool that a build runs.
#[derive(Debug, Clone, Copy, PartialEq, Eq, Structural)]
pub enum Tool {
    Skopeo,
    Umoci,
    MkfsErofs,
}

/// How a tool came out.
#[derive(Debug)]
pub enum ToolOutcome {
    SpawnFailed(String),
    Ended { success: bool },
}

/// A step of a build. Unless said otherwise, each must succeed.
#[derive(Debug)]
pub enum BuildStep {
    /// Make a directory and those above it.
    MakeDir(String),
    Run { tool: Tool, args: Vec<String> },
    /// Write a file and set its mode.
    WriteFile { path: String, content: String, mode: u32 },
    /// Where `src` exists, make the directory `parent` and copy `src` to `dst`.
    CopyIfThere { src: String, parent: String, dst: String },
    /// Remove a directory with all it holds; this may fail.
    RemoveDir(String),
    /// Give a file another place.
    Move { src: String, dst: String },
    Copy { src: String, dst: String },
}

pub enum BuildStepView {
    MakeDir(Text),
    Run { tool: Tool, args: Seq<Text> },
    WriteFile { path: Text, content: Text, mode: u32 },
    CopyIfThere { src: Text, parent: Text, dst: Text },
    RemoveDir(Text),
    Move { src: Text, dst: Text },
    Copy { src: Text, dst: Text },
}

impl View for BuildStep {
    type V = BuildStepView;

    open spec fn view(&self) -> BuildStepView {
        match *self {
            BuildStep::MakeDir(p) => BuildStepView::MakeDir(p@),
            BuildStep::Run { tool, args } => BuildStepView::Run { tool, args: strs(args@) },
            BuildStep::WriteFile { path, content, mode } => BuildStepView::WriteFile {
                path: path@,
                content: content@,
                mode,
            },
            BuildStep::CopyIfThere { src, parent, dst } => BuildStepView::CopyIfThere {
                src: src@,
                parent: parent@,
                dst: dst@,
            },
            BuildStep::RemoveDir(p) => BuildStepView::RemoveDir(p@),
            BuildStep::Move { src, dst } => BuildStepView::Move { src: src@, dst: dst@ },
            BuildStep::Copy { src, dst } => BuildStepView::Copy { src: src@, dst: dst@ },
        }
    }
}

/// The views of a sequence of steps.
pub open spec fn build_steps(v: Seq<BuildStep>) -> Seq<BuildStepView> {
    v.map_values(|s: BuildStep| s@)
}

/// The script that sets up an overlay on the read-only rootfs and then starts
/// the init of the image.
pub const OVERLAY_INIT: &'static str =
    "#!/bin/sh\n# Coffer init — sets up tmpfs-backed overlay on top of EROFS rootfs.\nmount -t proc proc /proc 2>/dev/null\nmount -t sysfs sys /sys 2>/dev/null\nmount -t devtmpfs dev /dev 2>/dev/null\n\nmkdir -p /newroot/overlay/upper /newroot/overlay/work\nmount -t tmpfs -o size=128M tmpfs /newroot/overlay\nmount -t overlay overlay -o lowerdir=/,upperdir=/newroot/overlay/upper,workdir=/newroot/overlay/work /newroot\n\ncd /newroot\nmkdir -p oldroot\npivot_root . oldroot\n\n# Move essential virtual filesystems\nmount --move /oldroot/proc /proc 2>/dev/null\nmount --move /oldroot/sys /sys 2>/dev/null\nmount --move /oldroot/dev /dev 2>/dev/null\n\nexec chroot . /sbin/init \"$@\"\n";

/// The mode of the script: everybody may run it, its owner may change it.
pub const OVERLAY_INIT_MODE: u32 = 0o755;

// ---------------------------------------------------------------------
// What a build does
// ---------------------------------------------------------------------

/// The steps that pull the image.
pub open spec fn pull_steps(work: Text, image: Text) -> Seq<BuildStepView> {
    let oci = joined(work, "oci"@);
    seq![
        BuildStepView::MakeDir(oci),
        BuildStepView::Run {
            tool: Tool::Skopeo,
            args: seq!["copy"@, "docker://"@ + image, "oci:"@ + oci + ":latest"@],
        },
    ]
}

/// The steps that unpack the image.
pub open spec fn unpack_steps(work: Text) -> Seq<BuildStepView> {
    let oci = joined(work, "oci"@);
    let rootfs = joined(work, "rootfs"@);
    seq![
        BuildStepView::MakeDir(rootfs),
        BuildStepView::Run {
            tool: Tool::Umoci,
            args: seq!["unpack"@, "--image"@, oci + ":latest"@, rootfs],
        },
    ]
}

/// The steps that add the init script.
pub open spec fn overlay_steps(work: Text, enable: bool) -> Seq<BuildStepView> {
    let rootfs = joined(work, "rootfs"@);
    if enable {
        seq![
            BuildStepView::MakeDir(joined(rootfs, "sbin"@)),
            BuildStepView::WriteFile {
                path: joined(rootfs, "sbin/coffer-init"@),
                content: OVERLAY_INIT@,
                mode: OVERLAY_INIT_MODE,
            },
        ]
    } else {
        seq![]
    }
}

/// The steps that add the agent.
pub open spec fn agent_steps(work: Text, agent: Option<Text>) -> Seq<BuildStepView> {
    let rootfs = joined(work, "rootfs"@);
    match agent {
        Some(src) => seq![
            BuildStepView::CopyIfThere {
                src,
                parent: joined(rootfs, "usr/local/bin"@),
                dst: joined(rootfs, "usr/local/bin/coffer-agent"@),
            },
        ],
        None => seq![],
    }
}

/// The steps that make the image of the file system.
pub open spec fn erofs_steps(work: Text) -> Seq<BuildStepView> {
    let rootfs = joined(work, "rootfs"@);
    let erofs = joined(work, "rootfs.erofs"@);
    seq![
        BuildStepView::Run { tool: Tool::MkfsErofs, args: seq!["-zlz4"@, erofs, rootfs] },
        BuildStepView::RemoveDir(rootfs),
    ]
}

impl ImageBuilder {
    /// All steps of the build, in order.
    pub open spec fn all_steps(self) -> Seq<BuildStepView> {
        seq![BuildStepView::MakeDir(self.work_dir@)] + pull_steps(self.work_dir@, self.image@)
            + unpack_steps(self.work_dir@) + overlay_steps(self.work_dir@, self.enable_overlay)
            + agent_steps(self.work_dir@, opt_text(self.agent_bin)) + erofs_steps(self.work_dir@)
    }

    /// A builder with the usual kernel arguments, without an agent, with an
    /// overlay.
    pub fn new(work_dir: String, image: String, kernel_path: String) -> (r: ImageBuilder)
        ensures
            r.work_dir == work_dir,
            r.image == image,
            r.kernel_path == kernel_path,
            r.kernel_args@ == "console=ttyS0 reboot=k panic=1 pci=off"@,
            !r.args_given,
            r.agent_bin is None,
            r.enable_overlay,
    {
        ImageBuilder {
            work_dir,
            image,
            kernel_path,
            kernel_args: "console=ttyS0 reboot=k panic=1 pci=off".to_owned(),
            args_given: false,
            agent_bin: None,
            enable_overlay: true,
        }
    }

    pub fn with_kernel_args(self, args: String) -> (r: ImageBuilder)
        ensures
            r == (ImageBuilder { kernel_args: args, args_given: true, ..self }),
    {
        let mut b = self;
        b.kernel_args = args;
        b.args_given = true;
        b
    }

    pub fn with_agent_bin(self, path: String) -> (r: ImageBuilder)
        ensures
            r == (ImageBuilder { agent_bin: Some(path), ..self }),
    {
        let mut b = self;
        b.agent_bin = Some(path);
        b
    }

    pub fn with_overlay(self, enable: bool) -> (r: ImageBuilder)
        ensures
            r == (ImageBuilder { enable_overlay: enable, ..self }),
    {
        let mut b = self;
        b.enable_overlay = enable;
        b
    }

    fn rootfs_dir(&self) -> (r: String)
        ensures
            r@ == joined(self.work_dir@, "rootfs"@),
    {
        join_path(self.work_dir.as_str(), "rootfs")
    }

    fn oci_dir(&self) -> (r: String)
        ensures
            r@ == joined(self.work_dir@, "oci"@),
    {
        join_path(self.work_dir.as_str(), "oci")
    }

    fn pull_image(&self, out: &mut Vec<BuildStep>)
        ensures
            build_steps(final(out)@) == build_steps(old(out)@) + pull_steps(
                self.work_dir@,
                self.image@,
            ),
    {
        let oci = self.oci_dir();
        let mut args: Vec<String> = Vec::new();
        push_text(&mut args, "copy");
        push_text(&mut args, cat2("docker://", self.image.as_str()).as_str());
        push_text(&mut args, cat3("oci:", oci.as_str(), ":latest").as_str());
        assert(strs(args@) =~= seq!["copy"@, "docker://"@ + self.image@, "oci:"@ + oci@
            + ":latest"@]);
        out.push(BuildStep::MakeDir(oci));
        out.push(BuildStep::Run { tool: Tool::Skopeo, args });
        assert(build_steps(out@) =~= build_steps(old(out)@) + pull_steps(
            self.work_dir@,
            self.image@,
        ));
    }

    fn unpack_rootfs(&self, out: &mut Vec<BuildStep>)
        ensures
            build_steps(final(out)@) == build_steps(old(out)@) + unpack_steps(self.work_dir@),
    {
        let oci = self.oci_dir();
        let rootfs = self.rootfs_dir();
        let mut args: Vec<String> = Vec::new();
        push_text(&mut args, "unpack");
        push_text(&mut args, "--image");
        push_text(&mut args, cat2(oci.as_str(), ":latest").as_str());
        push_text(&mut args, rootfs.as_str());
        assert(strs(args@) =~= seq!["unpack"@, "--image"@, oci@ + ":latest"@, rootfs@]);
        out.push(BuildStep::MakeDir(rootfs));
        out.push(BuildStep::Run { tool: Tool::Umoci, args });
        assert(build_steps(out@) =~= build_steps(old(out)@) + unpack_steps(self.work_dir@));
    }

    fn inject_overlay_init(&self, out: &mut Vec<BuildStep>)
        ensures
            build_steps(final(out)@) == build_steps(old(out)@) + overlay_steps(
                self.work_dir@,
                self.enable_overlay,
            ),
    {
        if self.enable_overlay {
            let rootfs = self.rootfs_dir();
            out.push(BuildStep::MakeDir(join_path(rootfs.as_str(), "sbin")));
            out.push(
                BuildStep::WriteFile {
                    path: join_path(rootfs.as_str(), "sbin/coffer-init"),
                    content: OVERLAY_INIT.to_owned(),
                    mode: OVERLAY_INIT_MODE,
                },
            );
        }
        assert(build_steps(out@) =~= build_steps(old(out)@) + overlay_steps(
            self.work_dir@,
            self.enable_overlay,
        ));
    }

    fn inject_agent(&self, out: &mut Vec<BuildStep>)
        ensures
            build_steps(final(out)@) == build_steps(old(out)@) + agent_steps(
                self.work_dir@,
                opt_text(self.agent_bin),
            ),
    {
        match &self.agent_bin {
            Some(src) => {
                let rootfs = self.rootfs_dir();
                out.push(
                    BuildStep::CopyIfThere {
                        src: src.clone(),
                        parent: join_path(rootfs.as_str(), "usr/local/bin"),
                        dst: join_path(rootfs.as_str(), "usr/local/bin/coffer-agent"),
                    },
                );
            },
            None => {},
        }
        assert(build_steps(out@) =~= build_steps(old(out)@) + agent_steps(
            self.work_dir@,
            opt_text(self.agent_bin),
        ));
    }

    fn create_erofs(&self, out: &mut Vec<BuildStep>)
        ensures
            build_steps(final(out)@) == build_steps(old(out)@) + erofs_steps(self.work_dir@),
    {
        let rootfs = self.rootfs_dir();
        let erofs = join_path(self.work_dir.as_str(), "rootfs.erofs");
        let mut args: Vec<String> = Vec::new();
        push_text(&mut args, "-zlz4");
        push_text(&mut args, erofs.as_str());
        push_text(&mut args, rootfs.as_str());
        assert(strs(args@) =~= seq!["-zlz4"@, erofs@, rootfs@]);
        out.push(BuildStep::Run { tool: Tool::MkfsErofs, args });
        out.push(BuildStep::RemoveDir(rootfs));
        assert(build_steps(out@) =~= build_steps(old(out)@) + erofs_steps(self.work_dir@));
    }

    /// The steps of the build: pull the image, unpack it, add the init script
    /// and the agent, and make the image of the file system.
    pub fn build(&self) -> (r: Vec<BuildStep>)
        ensures
            build_steps(r@) == self.all_steps(),
    {
        let mut out: Vec<BuildStep> = Vec::new();
        out.push(BuildStep::MakeDir(self.work_dir.clone()));
        assert(build_steps(out@) =~= seq![BuildStepView::MakeDir(self.work_dir@)]);
        self.pull_image(&mut out);
        self.unpack_rootfs(&mut out);
        self.inject_overlay_init(&mut out);
        self.inject_agent(&mut out);
        self.create_erofs(&mut out);
        out
    }

    /// The kernel arguments of what is built: with an overlay the init script
    /// comes first, unless the arguments were given.
    pub open spec fn guest_args(self) -> Text {
        if self.enable_overlay && !self.args_given {
            self.kernel_args@ + " init=/sbin/coffer-init"@
        } else {
            self.kernel_args@
        }
    }

    /// What a build leaves behind once all its steps have succeeded.
    pub fn output(&self) -> (r: BuildOutput)
        ensures
            r.rootfs_path@ == joined(self.work_dir@, "rootfs.erofs"@),
            r.kernel_path == self.kernel_path,
            r.kernel_args@ == self.guest_args(),
    {
        let kernel_args = if self.enable_overlay && !self.args_given {
            cat2(self.kernel_args.as_str(), " init=/sbin/coffer-init")
        } else {
            self.kernel_args.clone()
        };
        BuildOutput {
            rootfs_path: join_path(self.work_dir.as_str(), "rootfs.erofs"),
            kernel_path: self.kernel_path.clone(),
            kernel_args,
        }
    }
}

// ---------------------------------------------------------------------
// Tools
// ---------------------------------------------------------------------

/// The program of a tool.
pub open spec fn tool_program(tool: Tool) -> Text {
    match tool {
        Tool::Skopeo => "skopeo"@,
        Tool::Umoci => "umoci"@,
        Tool::MkfsErofs => "mkfs.erofs"@,
    }
}

/// The package that holds a tool.
pub open spec fn tool_package(tool: Tool) -> Text {
    match tool {
        Tool::Skopeo => "skopeo"@,
        Tool::Umoci => "umoci"@,
        Tool::MkfsErofs => "erofs-utils"@,
    }
}

/// How the failure of a tool is described.
pub open spec fn tool_failure(tool: Tool) -> Text {
    match tool {
        Tool::Skopeo => "skopeo copy failed"@,
        Tool::Umoci => "umoci unpack failed"@,
        Tool::MkfsErofs => "mkfs.erofs failed"@,
    }
}

impl Tool {
    /// The program of the tool.
    pub fn program(&self) -> (r: &'static str)
        ensures
            r@ == tool_program(*self),
    {
        match self {
            Tool::Skopeo => "skopeo",
            Tool::Umoci => "umoci",
            Tool::MkfsErofs => "mkfs.erofs",
        }
    }
}

/// The error of a tool that could not be run.
pub open spec fn tool_missing(tool: Tool, reason: Text) -> ErrorView {
    ErrorView::TemplateBuild(
        tool_program(tool) + " not found or failed to start: "@ + reason + ". Please install "@
            + tool_package(tool) + "."@,
    )
}

/// What follows from the end of a tool.
pub fn tool_outcome(tool: Tool, outcome: ToolOutcome) -> (r: Result<(), CofferError>)
    ensures
        match outcome {
            ToolOutcome::SpawnFailed(e) => r matches Err(x) && x@ == tool_missing(tool, e@),
            ToolOutcome::Ended { success: true } => r is Ok,
            ToolOutcome::Ended { success: false } => r matches Err(x) && x@
                == ErrorView::TemplateBuild(tool_failure(tool)),
        },
{
    match outcome {
        ToolOutcome::SpawnFailed(e) => {
            let package = match tool {
                Tool::Skopeo => "skopeo",
                Tool::Umoci => "umoci",
                Tool::MkfsErofs => "erofs-utils",
            };
            let mut m = cat4(
                tool.program(),
                " not found or failed to start: ",
                e.as_str(),
                ". Please install ",
            );
            m.append(package);
            m.append(".");
            Err(CofferError::TemplateBuild(m))
        },
        ToolOutcome::Ended { success } => {
            if success {
                Ok(())
            } else {
                let m = match tool {
                    Tool::Skopeo => "skopeo copy failed",
                    Tool::Umoci => "umoci unpack failed",
                    Tool::MkfsErofs => "mkfs.erofs failed",
                };
                Err(CofferError::TemplateBuild(m.to_owned()))
            }
        },
    }
}

// ---------------------------------------------------------------------
// Laws
// ---------------------------------------------------------------------

/// The image of the file system is made after everything was put into it, and is
/// what the build hands out.
pub proof fn law_erofs_is_made_last(b: ImageBuilder)
    ensures
        b.all_steps().len() >= 2,
        b.all_steps()[b.all_steps().len() - 2] == (BuildStepView::Run {
            tool: Tool::MkfsErofs,
            args: seq![
                "-zlz4"@,
                joined(b.work_dir@, "rootfs.erofs"@),
                joined(b.work_dir@, "rootfs"@),
            ],
        }),
        b.all_steps().last() == BuildStepView::RemoveDir(joined(b.work_dir@, "rootfs"@)),
{
    let s = b.all_steps();
    assert(s[s.len() - 2] == erofs_steps(b.work_dir@)[0]);
    assert(s[s.len() - 1] == erofs_steps(b.work_dir@)[1]);
}

// ---------------------------------------------------------------------
// What the steps of a build make
// ---------------------------------------------------------------------

/// What a build has made so far.
pub struct Bench {
    /// Of each directory that holds a pulled image, the image.
    pub pulled: Map<Text, Text>,
    /// Of each directory that an image was unpacked into, the image.
    pub unpacked: Map<Text, Text>,
    /// Of each file that was written, its content and mode.
    pub written: Map<Text, (Text, u32)>,
    /// Of each copy, what it is a copy of.
    pub copied: Map<Text, Text>,
    /// Of each file system that was made, what it holds.
    pub made: Map<Text, Contents>,
}

/// What a file system holds: an image, and what was written and copied by then.
pub struct Contents {
    pub image: Text,
    pub written: Map<Text, (Text, u32)>,
    pub copied: Map<Text, Text>,
}

/// What is there before a build.
pub open spec fn empty_bench() -> Bench {
    Bench {
        pulled: Map::empty(),
        unpacked: Map::empty(),
        written: Map::empty(),
        copied: Map::empty(),
        made: Map::empty(),
    }
}

/// `s` behind a prefix and before a suffix of the given lengths.
pub open spec fn between(s: Text, before: nat, after: nat) -> Text {
    s.subrange(before as int, s.len() - after)
}

/// What is there after a step. `skopeo` pulls an image into a directory, `umoci`
/// unpacks it into another, and `mkfs.erofs` makes a file system of what is there.
pub open spec fn bench_after(b: Bench, s: BuildStepView) -> Bench {
    match s {
        BuildStepView::Run { tool: Tool::Skopeo, args } => if args.len() == 3 && args[0] == "copy"@
            && "docker://"@.is_prefix_of(args[1]) && "oci:"@.is_prefix_of(args[2])
            && ":latest"@.is_suffix_of(args[2]) {
            Bench {
                pulled: b.pulled.insert(between(args[2], 4, 7), between(args[1], 9, 0)),
                ..b
            }
        } else {
            b
        },
        BuildStepView::Run { tool: Tool::Umoci, args } => if args.len() == 4 && args[0] == "unpack"@
            && args[1] == "--image"@ && ":latest"@.is_suffix_of(args[2])
            && b.pulled.dom().contains(between(args[2], 0, 7)) {
            Bench {
                unpacked: b.unpacked.insert(args[3], b.pulled[between(args[2], 0, 7)]),
                ..b
            }
        } else {
            b
        },
        BuildStepView::Run { tool: Tool::MkfsErofs, args } => if args.len() == 3
            && b.unpacked.dom().contains(args[2]) {
            Bench {
                made: b.made.insert(
                    args[1],
                    Contents {
                        image: b.unpacked[args[2]],
                        written: b.written,
                        copied: b.copied,
                    },
                ),
                ..b
            }
        } else {
            b
        },
        BuildStepView::WriteFile { path, content, mode } => Bench {
            written: b.written.insert(path, (content, mode)),
            ..b
        },
        BuildStepView::CopyIfThere { src, dst, .. } => Bench {
            copied: b.copied.insert(dst, src),
            ..b
        },
        BuildStepView::RemoveDir(p) => Bench { unpacked: b.unpacked.remove(p), ..b },
        _ => b,
    }
}

/// What is there after some steps, in order.
pub open spec fn bench_after_all(b: Bench, steps: Seq<BuildStepView>) -> Bench
    decreases steps.len(),
{
    if steps.len() == 0 {
        b
    } else {
        bench_after(bench_after_all(b, steps.drop_last()), steps.last())
    }
}

proof fn lemma_bench_next(b: Bench, steps: Seq<BuildStepView>, n: int)
    requires
        0 < n <= steps.len(),
    ensures
        bench_after_all(b, steps.take(n)) == bench_after(
            bench_after_all(b, steps.take(n - 1)),
            steps[n - 1],
        ),
{
    assert(steps.take(n).drop_last() =~= steps.take(n - 1));
}

/// A build makes, where its output says, a file system that holds the image, the
/// init script where there is an overlay, which everybody may run, and the agent
/// where one is given; nothing is left of the unpacked image. The kernel comes
/// from where the builder was told, and its arguments name the init script unless
/// they were given.
pub proof fn law_build_makes_the_image(b: &ImageBuilder, steps: Vec<BuildStep>, out: BuildOutput)
    requires
        call_ensures(ImageBuilder::build, (b,), steps),
        call_ensures(ImageBuilder::output, (b,), out),
    ensures
        ({
            let end = bench_after_all(empty_bench(), build_steps(steps@));
            let rootfs = joined(b.work_dir@, "rootfs"@);
            let fs = end.made[out.rootfs_path@];
            &&& end.made.dom() == set![out.rootfs_path@]
            &&& fs.image == b.image@
            &&& fs.written == if b.enable_overlay {
                Map::empty().insert(joined(rootfs, "sbin/coffer-init"@), (OVERLAY_INIT@, 0o755u32))
            } else {
                Map::<Text, (Text, u32)>::empty()
            }
            &&& fs.copied == match b.agent_bin {
                Some(src) => Map::empty().insert(
                    joined(rootfs, "usr/local/bin/coffer-agent"@),
                    src@,
                ),
                None => Map::<Text, Text>::empty(),
            }
            &&& end.unpacked.dom() == Set::<Text>::empty()
        }),
        out.kernel_path@ == b.kernel_path@,
        b.args_given || !b.enable_overlay ==> out.kernel_args@ == b.kernel_args@,
        b.enable_overlay && !b.args_given ==> b.kernel_args@.is_prefix_of(out.kernel_args@)
            && " init=/sbin/coffer-init"@.is_suffix_of(out.kernel_args@),
{
    reveal_strlit("docker://");
    reveal_strlit("oci:");
    reveal_strlit(":latest");
    let s = build_steps(steps@);
    let work = b.work_dir@;
    let oci = joined(work, "oci"@);
    let rootfs = joined(work, "rootfs"@);
    let w1 = "docker://"@ + b.image@;
    let w2 = "oci:"@ + oci + ":latest"@;
    let w3 = oci + ":latest"@;
    assert(w1.subrange(0, 9) =~= "docker://"@);
    assert(between(w1, 9, 0) =~= b.image@);
    assert(w2.subrange(0, 4) =~= "oci:"@);
    assert(w2.subrange(w2.len() - 7, w2.len() as int) =~= ":latest"@);
    assert(between(w2, 4, 7) =~= oci);
    assert(w3.subrange(w3.len() - 7, w3.len() as int) =~= ":latest"@);
    assert(between(w3, 0, 7) =~= oci);
    assert(s.take(0) =~= Seq::<BuildStepView>::empty());
    let e = empty_bench();
    let n: int = if b.enable_overlay {
        7
    } else {
        5
    };
    let k: int = if b.agent_bin is Some {
        n + 1
    } else {
        n
    };
    assert(s.len() == k + 2);
    assert(s[0] == BuildStepView::MakeDir(work));
    assert(s[1] == pull_steps(work, b.image@)[0]);
    assert(s[2] == pull_steps(work, b.image@)[1]);
    assert(s[3] == unpack_steps(work)[0]);
    assert(s[4] == unpack_steps(work)[1]);
    lemma_bench_next(e, s, 1);
    lemma_bench_next(e, s, 2);
    lemma_bench_next(e, s, 3);
    lemma_bench_next(e, s, 4);
    lemma_bench_next(e, s, 5);
    let five = bench_after_all(e, s.take(5));
    assert(five.unpacked == e.unpacked.insert(rootfs, b.image@));
    if b.enable_overlay {
        assert(s[5] == overlay_steps(work, true)[0]);
        assert(s[6] == overlay_steps(work, true)[1]);
        lemma_bench_next(e, s, 6);
        lemma_bench_next(e, s, 7);
    }
    if b.agent_bin is Some {
        assert(s[n] == agent_steps(work, opt_text(b.agent_bin))[0]);
        lemma_bench_next(e, s, n + 1);
    }
    assert(s[k] == erofs_steps(work)[0]);
    assert(s[k + 1] == erofs_steps(work)[1]);
    lemma_bench_next(e, s, k + 1);
    lemma_bench_next(e, s, k + 2);
    assert(s.take(k + 2) =~= s);
    let end = bench_after_all(e, s);
    assert(end.made.dom() =~= set![out.rootfs_path@]);
    assert(end.unpacked.dom() =~= Set::<Text>::empty());
    if b.enable_overlay && !b.args_given {
        let a = out.kernel_args@;
        let p = b.kernel_args@;
        let q = " init=/sbin/coffer-init"@;
        assert(a.subrange(0, p.len() as int) =~= p);
        assert(a.subrange(a.len() - q.len(), a.len() as int) =~= q);
    }
}

/// A tool that could not be started, or that failed, ends the build with an error
/// that names the tool; one that succeeded does not.
pub proof fn law_tool_failures(
    tool: Tool,
    name: &'static str,
    why: String,
    spawn: Result<(), CofferError>,
    success: bool,
    ended: Result<(), CofferError>,
)
    requires
        call_ensures(Tool::program, (&tool,), name),
        call_ensures(tool_outcome, (tool, ToolOutcome::SpawnFailed(why)), spawn),
        call_ensures(tool_outcome, (tool, ToolOutcome::Ended { success }), ended),
    ensures
        ended is Ok <==> success,
        spawn matches Err(e) && (e@ matches ErrorView::TemplateBuild(m) && name@.is_prefix_of(m)
            && crate::text::occurs(m, why@)),
        spawn matches Err(e) && (e@ matches ErrorView::TemplateBuild(m) && (". Please install "@ + (
        match tool {
            Tool::Skopeo => "skopeo"@,
            Tool::Umoci => "umoci"@,
            Tool::MkfsErofs => "erofs-utils"@,
        }) + "."@).is_suffix_of(m)),
        name@ == match tool {
            Tool::Skopeo => "skopeo"@,
            Tool::Umoci => "umoci"@,
            Tool::MkfsErofs => "mkfs.erofs"@,
        },
        ended matches Err(e) ==> (e@ matches ErrorView::TemplateBuild(m) && name@.is_prefix_of(m)),
{
    let m = spawn->Err_0@->TemplateBuild_0;
    let p = tool_program(tool);
    assert(m.subrange(0, p.len() as int) =~= p);
    let hint = ". Please install "@ + tool_package(tool) + "."@;
    assert(m.subrange(m.len() - hint.len(), m.len() as int) =~= hint);
    let i = p.len() as int + " not found or failed to start: "@.len();
    assert(m.subrange(i, i + why@.len()) =~= why@);
    assert(crate::text::occurs_at(m, why@, i));
    reveal_strlit("skopeo");
    reveal_strlit("skopeo copy failed");
    reveal_strlit("umoci");
    reveal_strlit("umoci unpack failed");
    reveal_strlit("mkfs.erofs");
    reveal_strlit("mkfs.erofs failed");
    let f = tool_failure(tool);
    assert(f.subrange(0, p.len() as int) =~= p);
}

/// A step of a build is seen as what it is.
pub proof fn law_build_steps_are_seen_as_they_are(
    a: String,
    b: String,
    c: String,
    tool: Tool,
    args: Vec<String>,
    mode: u32,
)
    ensures
        BuildStep::MakeDir(a)@ == BuildStepView::MakeDir(a@),
        (BuildStep::Run { tool, args })@ == (BuildStepView::Run { tool, args: strs(args@) }),
        (BuildStep::WriteFile { path: a, content: b, mode })@ == (BuildStepView::WriteFile {
            path: a@,
            content: b@,
            mode,
        }),
        (BuildStep::CopyIfThere { src: a, parent: b, dst: c })@ == (BuildStepView::CopyIfThere {
            src: a@,
            parent: b@,
            dst: c@,
        }),
        BuildStep::RemoveDir(a)@ == BuildStepView::RemoveDir(a@),
        (BuildStep::Move { src: a, dst: b })@ == (BuildStepView::Move { src: a@, dst: b@ }),
        (BuildStep::Copy { src: a, dst: b })@ == (BuildStepView::Copy { src: a@, dst: b@ }),
{
}

/// What a builder is told to use, it uses, and it keeps what it was told before.
pub proof fn law_builder_takes_its_settings(
    work_dir: String,
    image: String,
    kernel_path: String,
    b: ImageBuilder,
    args: String,
    c: ImageBuilder,
    bin: String,
    d: ImageBuilder,
    overlay: bool,
    e: ImageBuilder,
    out: BuildOutput,
)
    requires
        call_ensures(ImageBuilder::new, (work_dir, image, kernel_path), b),
        call_ensures(ImageBuilder::with_kernel_args, (b, args), c),
        call_ensures(ImageBuilder::with_agent_bin, (c, bin), d),
        call_ensures(ImageBuilder::with_overlay, (d, overlay), e),
        call_ensures(ImageBuilder::output, (&e,), out),
    ensures
        e.work_dir@ == work_dir@,
        e.image@ == image@,
        e.agent_bin matches Some(p) && p@ == bin@,
        e.enable_overlay == overlay,
        out.kernel_path@ == kernel_path@,
        out.kernel_args@ == args@,
        b.agent_bin is None && c.agent_bin is None,
        b.enable_overlay && d.enable_overlay,
{
}

} // verus!
