use coffer::firecracker::ApiBody;
use coffer::template::builder::{tool_outcome, BuildStep, ImageBuilder, Tool, ToolOutcome, OVERLAY_INIT};
use coffer::template::{spawn_firecracker, Template, TemplateDir, TemplateManager};

fn manager() -> TemplateManager {
    TemplateManager::new("/t".to_string(), "/k/vmlinux".to_string(), "/fc".to_string())
}

fn template(id: &str, memory_mib: u32) -> Template {
    Template {
        id: id.to_string(),
        name: "n".to_string(),
        kernel_path: "/k".to_string(),
        rootfs_path: "/r".to_string(),
        snapshot_state_path: "/s".to_string(),
        snapshot_mem_path: "/m".to_string(),
        kernel_args: "a".to_string(),
        vcpus: 1,
        memory_mib,
        metadata: vec![("k".to_string(), "v".to_string())],
    }
}

#[test]
fn test_overlay_init_script_syntax() {
    let script = r#"#!/bin/sh
# Coffer init — sets up tmpfs-backed overlay on top of EROFS rootfs.
mount -t proc proc /proc 2>/dev/null
mount -t sysfs sys /sys 2>/dev/null
mount -t devtmpfs dev /dev 2>/dev/null

mkdir -p /newroot/overlay/upper /newroot/overlay/work
mount -t tmpfs -o size=128M tmpfs /newroot/overlay
mount -t overlay overlay -o lowerdir=/,upperdir=/newroot/overlay/upper,workdir=/newroot/overlay/work /newroot

cd /newroot
mkdir -p oldroot
pivot_root . oldroot

# Move essential virtual filesystems
mount --move /oldroot/proc /proc 2>/dev/null
mount --move /oldroot/sys /sys 2>/dev/null
mount --move /oldroot/dev /dev 2>/dev/null

exec chroot . /sbin/init "$@"
"#;
    assert!(script.contains("pivot_root"));
    assert!(script.contains("mount -t overlay"));
    assert_eq!(OVERLAY_INIT, script);
}

#[test]
fn a_build_ends_with_the_file_system() {
    let b = ImageBuilder::new("/w".to_string(), "alpine:3".to_string(), "/k".to_string());
    let steps = b.build();
    assert!(matches!(&steps[0], BuildStep::MakeDir(d) if d == "/w"));
    assert!(matches!(&steps[1], BuildStep::MakeDir(d) if d == "/w/oci"));
    match &steps[2] {
        BuildStep::Run { tool: Tool::Skopeo, args } => {
            assert_eq!(args, &vec!["copy".to_string(), "docker://alpine:3".to_string(), "oci:/w/oci:latest".to_string()]);
        }
        other => panic!("{:?}", other),
    }
    match &steps[4] {
        BuildStep::Run { tool: Tool::Umoci, args } => {
            assert_eq!(args.join(" "), "unpack --image /w/oci:latest /w/rootfs");
        }
        other => panic!("{:?}", other),
    }
    assert!(matches!(&steps[5], BuildStep::MakeDir(d) if d == "/w/rootfs/sbin"));
    assert!(matches!(
        &steps[6],
        BuildStep::WriteFile { path, content, mode: 0o755 } if path == "/w/rootfs/sbin/coffer-init" && content == OVERLAY_INIT
    ));
    match &steps[7] {
        BuildStep::Run { tool: Tool::MkfsErofs, args } => assert_eq!(args.join(" "), "-zlz4 /w/rootfs.erofs /w/rootfs"),
        other => panic!("{:?}", other),
    }
    assert!(matches!(&steps[8], BuildStep::RemoveDir(d) if d == "/w/rootfs"));
    assert_eq!(steps.len(), 9);
    let out = b.output();
    assert_eq!((out.rootfs_path.as_str(), out.kernel_path.as_str()), ("/w/rootfs.erofs", "/k"));
    assert_eq!(out.kernel_args, "console=ttyS0 reboot=k panic=1 pci=off init=/sbin/coffer-init");
    assert_eq!(b.with_overlay(false).output().kernel_args, "console=ttyS0 reboot=k panic=1 pci=off");
}

#[test]
fn a_build_can_be_adjusted() {
    let b = ImageBuilder::new("/w".to_string(), "i".to_string(), "/k".to_string())
        .with_overlay(false)
        .with_agent_bin("/bin/agent".to_string())
        .with_kernel_args("quiet".to_string());
    let steps = b.build();
    assert_eq!(steps.len(), 8);
    assert!(matches!(
        &steps[5],
        BuildStep::CopyIfThere { src, parent, dst }
            if src == "/bin/agent" && parent == "/w/rootfs/usr/local/bin" && dst == "/w/rootfs/usr/local/bin/coffer-agent"
    ));
    assert_eq!(b.output().kernel_args, "quiet");
}

#[test]
fn tools_report_what_went_wrong() {
    let cases = [
        (Tool::Skopeo, "skopeo", "skopeo", "skopeo copy failed"),
        (Tool::Umoci, "umoci", "umoci", "umoci unpack failed"),
        (Tool::MkfsErofs, "mkfs.erofs", "erofs-utils", "mkfs.erofs failed"),
    ];
    for (tool, program, package, failure) in cases {
        assert_eq!(tool.program(), program);
        assert!(tool_outcome(tool, ToolOutcome::Ended { success: true }).is_ok());
        assert_eq!(
            tool_outcome(tool, ToolOutcome::Ended { success: false }).unwrap_err().text(),
            format!("template build error: {}", failure)
        );
        assert_eq!(
            tool_outcome(tool, ToolOutcome::SpawnFailed("no".to_string())).unwrap_err().text(),
            format!("template build error: {} not found or failed to start: no. Please install {}.", program, package)
        );
    }
}

#[test]
fn registered_templates_are_found() {
    let mut m = manager();
    assert_eq!(m.get("a").unwrap_err().text(), "template not found: a");
    m.register(template("a", 1));
    m.register(template("b", 2));
    m.register(template("a", 3));
    let t = m.get("a").unwrap();
    assert_eq!((t.id.as_str(), t.memory_mib), ("a", 3));
    assert_eq!(t.metadata, vec![("k".to_string(), "v".to_string())]);
    let mut ids: Vec<String> = m.list().into_iter().map(|t| t.id).collect();
    ids.sort();
    assert_eq!(ids, vec!["a".to_string(), "b".to_string()]);
}

#[test]
fn only_complete_directories_are_loaded() {
    let mut m = manager();
    let mut dir = TemplateDir {
        path: "/t/x".to_string(),
        name: "x".to_string(),
        has_kernel: true,
        has_rootfs: true,
        has_snapshot_state: true,
        has_snapshot_mem: false,
    };
    m.load(&dir);
    assert!(m.get("x").is_err());
    dir.has_snapshot_mem = true;
    m.load(&dir);
    let t = m.get("x").unwrap();
    assert_eq!(t.kernel_path, "/t/x/kernel");
    assert_eq!(t.rootfs_path, "/t/x/rootfs.erofs");
    assert_eq!(t.snapshot_state_path, "/t/x/snapshot.state");
    assert_eq!(t.snapshot_mem_path, "/t/x/snapshot.mem");
    assert_eq!(t.kernel_args, "console=ttyS0 reboot=k panic=1 pci=off init=/sbin/coffer-init");
    assert_eq!((t.vcpus, t.memory_mib), (1, 256));
}

#[test]
fn a_built_template_is_registered() {
    let mut m = manager().with_agent_bin("/agent".to_string());
    let plan = m.build_from_image("alpine", "alpine:3", None);
    let id = plan.id.clone();
    let tail = id.strip_prefix("alpine-").unwrap();
    assert_eq!(tail.len(), 8);
    assert!(tail.chars().all(|c| c.is_ascii_digit() || ('a'..='f').contains(&c)));
    assert_ne!(m.build_from_image("alpine", "alpine:3", None).id, id);
    assert_eq!(plan.dir, format!("/t/{}", id));
    assert_eq!(plan.builder.work_dir, format!("/t/{}/build", id));
    assert_eq!(plan.builder.agent_bin, Some("/agent".to_string()));
    assert_eq!(plan.builder.kernel_path, "/k/vmlinux");
    let output = plan.builder.output();
    let place = plan.place(&output);
    assert_eq!(place.len(), 2);
    assert!(matches!(
        &place[0],
        BuildStep::Move { src, dst }
            if *src == format!("/t/{}/build/rootfs.erofs", id) && *dst == format!("/t/{}/rootfs.erofs", id)
    ));
    assert!(matches!(&place[1], BuildStep::Copy { src, dst } if src == "/k/vmlinux" && *dst == format!("/t/{}/kernel", id)));
    let t = m.finish_build(plan, output);
    assert_eq!(t.rootfs_path, format!("/t/{}/rootfs.erofs", id));
    assert_eq!(t.kernel_path, format!("/t/{}/kernel", id));
    assert_eq!(t.snapshot_mem_path, format!("/t/{}/snapshot.mem", id));
    // A later process finds it in its directory.
    let mut later = manager();
    later.load(&TemplateDir {
        path: format!("/t/{}", id),
        name: id.clone(),
        has_kernel: true,
        has_rootfs: true,
        has_snapshot_state: true,
        has_snapshot_mem: true,
    });
    let found = later.get(&id).unwrap();
    assert_eq!((&found.id, &found.rootfs_path, &found.kernel_path), (&t.id, &t.rootfs_path, &t.kernel_path));
    assert_eq!(found.kernel_args, t.kernel_args);
    assert_eq!(m.get(&id).unwrap().kernel_args, "console=ttyS0 reboot=k panic=1 pci=off init=/sbin/coffer-init");
    let plan = m.build_from_image("a", "i", Some("quiet".to_string()));
    assert_eq!(plan.builder.output().kernel_args, "quiet");
}

#[test]
fn a_snapshot_is_taken_of_a_paused_vm() {
    let p = manager().create_snapshot("vm1", "/k", "/r", "args", "/s", "/m");
    assert_eq!(p.socket_path, "/t/snap-vm1.sock");
    assert_eq!(p.vsock_path, "/t/snap-vm1.vsock");
    assert_eq!(p.agent_path, "/t/snap-vm1.vsock_1024");
    assert_eq!((p.socket_timeout_ms, p.agent_timeout_ms), (2000, 30000));
    assert_eq!(p.process_args, spawn_firecracker("/t/snap-vm1.sock", "/t/snap-vm1.log"));
    assert_eq!(p.process_args.join(" "), "--api-sock /t/snap-vm1.sock --log-path /t/snap-vm1.log --level Warn");
    let paths: Vec<&str> = p.boot.iter().map(|c| c.path).collect();
    assert_eq!(paths, vec!["/machine-config", "/boot-source", "/drives/rootfs", "/vsock", "/actions"]);
    assert!(matches!(&p.boot[3].body, ApiBody::Vsock(v) if v.guest_cid == 100));
    assert!(matches!(&p.capture[0].body, ApiBody::State(s) if s == "Paused"));
    assert!(matches!(&p.capture[1].body, ApiBody::CreateSnapshot(c) if c.snapshot_path == "/s" && c.mem_file_path == "/m"));
    assert!(matches!(&p.shutdown.body, ApiBody::Action(a) if a == "SendCtrlAltDel"));
}
