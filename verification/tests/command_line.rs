use coffer::cli::{
    build_config, check_binary, check_cap_net_admin, check_cmd, check_dir, check_file, check_kvm, check_line,
    check_plan, check_verdict, collect_env, confirmed, exit_status, net_admin_report, parse_file_mapping,
    parse_key_val, pool_status_lines, template_built_lines, template_info_lines, template_list_lines, template_rm,
    version_lines, FileFacts, Overrides, Probe, RemoveStep,
};
use coffer::config::RuntimeConfig;
use coffer::template::Template;

fn template(id: &str, name: &str) -> Template {
    Template {
        id: id.to_string(),
        name: name.to_string(),
        kernel_path: "/k".to_string(),
        rootfs_path: "/r".to_string(),
        snapshot_state_path: "/s".to_string(),
        snapshot_mem_path: "/m".to_string(),
        kernel_args: "console=ttyS0".to_string(),
        vcpus: 2,
        memory_mib: 512,
        metadata: Vec::new(),
    }
}

#[test]
fn test_parse_key_val() {
    assert_eq!(parse_key_val("FOO=bar").unwrap(), ("FOO".into(), "bar".into()));
    assert_eq!(
        parse_key_val("KEY=val=with=equals").unwrap(),
        ("KEY".into(), "val=with=equals".into())
    );
}

#[test]
fn test_parse_key_val_invalid() {
    assert!(parse_key_val("FOO").is_err());
}

#[test]
fn key_val_error_names_the_argument() {
    assert_eq!(parse_key_val("FOO").unwrap_err(), "invalid KEY=VALUE: no `=` found in `FOO`");
    assert_eq!(parse_key_val("=x").unwrap(), ("".into(), "x".into()));
    assert_eq!(parse_key_val("ключ=значение").unwrap(), ("ключ".into(), "значение".into()));
}

#[test]
fn test_parse_file_mapping() {
    let (src, dst) = parse_file_mapping("./local.txt:/tmp/remote.txt").unwrap();
    assert_eq!((src.as_str(), dst.as_str()), ("./local.txt", "/tmp/remote.txt"));
}

#[test]
fn test_parse_file_mapping_invalid() {
    assert!(parse_file_mapping("nocolon").is_err());
}

#[test]
fn file_mapping_cuts_at_the_first_colon() {
    assert_eq!(parse_file_mapping("a:b:c").unwrap(), ("a".to_string(), "b:c".to_string()));
    assert_eq!(
        parse_file_mapping("nocolon").unwrap_err(),
        "invalid mapping format, expected `SRC:DST`: `nocolon`"
    );
}

#[test]
fn later_variables_replace_earlier_ones() {
    let pairs = vec![
        ("A".to_string(), "1".to_string()),
        ("B".to_string(), "2".to_string()),
        ("A".to_string(), "3".to_string()),
    ];
    let mut env = collect_env(pairs);
    env.sort();
    assert_eq!(
        env,
        vec![("A".to_string(), "3".to_string()), ("B".to_string(), "2".to_string())]
    );
}

#[test]
fn environment_overrides_only_what_it_sets() {
    let base = RuntimeConfig::for_home("/home/u");
    let config = build_config(
        base,
        Overrides {
            firecracker_path: Some("/fc".to_string()),
            kernel_path: None,
            template_dir: None,
            socket_dir: Some("/run/c".to_string()),
            agent_bin: None,
        },
    );
    assert_eq!(config.firecracker_path, "/fc");
    assert_eq!(config.socket_dir, "/run/c");
    assert_eq!(config.kernel_path, "/home/u/.coffer/kernel/vmlinux");
    assert_eq!(config.template_dir, "/home/u/.coffer/templates");
    assert_eq!(config.agent_bin, "/home/u/.coffer/bin/coffer-agent");
}

#[test]
fn exit_status_is_the_low_byte() {
    assert_eq!(exit_status(0), 0);
    assert_eq!(exit_status(7), 7);
    assert_eq!(exit_status(256), 0);
    assert_eq!(exit_status(-1), 255);
}

#[test]
fn template_table_is_aligned() {
    let lines = template_list_lines(&vec![template("alpine-1", "alpine")]);
    assert_eq!(lines.len(), 3);
    assert_eq!(lines[0], format!("{:<28} {:<16} {:>6} {:>10}", "ID", "NAME", "VCPUS", "MEM(MiB)"));
    assert_eq!(lines[1], "-".repeat(64));
    assert_eq!(lines[2], format!("{:<28} {:<16} {:>6} {:>10}", "alpine-1", "alpine", 2, 512));
}

#[test]
fn empty_template_table_gives_a_hint() {
    let lines = template_list_lines(&Vec::new());
    assert_eq!(lines[0], "No templates found.");
    assert_eq!(lines[1], "  Hint: coffer-cli template build --name <name> <oci-image>");
    assert_eq!(lines.len(), 2);
}

#[test]
fn long_identifiers_are_not_cut() {
    let id = "x".repeat(40);
    let lines = template_list_lines(&vec![template(&id, "n")]);
    assert!(lines[2].starts_with(&format!("{} n", id)));
}

#[test]
fn template_details_with_and_without_metadata() {
    let mut t = template("id", "name");
    let lines = template_info_lines(&t);
    assert_eq!(lines.len(), 8);
    assert_eq!(lines[0], "Template: id");
    assert_eq!(lines[4], "  Snapshot:     /s / /m");
    assert_eq!(lines[7], "  Memory:       512 MiB");
    t.metadata.push(("owner".to_string(), "me".to_string()));
    let lines = template_info_lines(&t);
    assert_eq!(lines[8], "  Metadata:");
    assert_eq!(lines[9], "    owner: me");
}

#[test]
fn built_template_lines() {
    let lines = template_built_lines(&template("id", "name"));
    assert_eq!(lines[0], "✓ Template built successfully");
    assert_eq!(lines[1], "  ID:      id");
    assert_eq!(lines[3], "  Rootfs:  /r");
}

#[test]
fn removal_asks_unless_told_yes() {
    match template_rm("t", false, true) {
        RemoveStep::Fail(e) => assert_eq!(e, "Template 't' not found"),
        other => panic!("{:?}", other),
    }
    match template_rm("t", true, false) {
        RemoveStep::Ask(q) => assert_eq!(q, "Remove template 't' and all its files? [y/N] "),
        other => panic!("{:?}", other),
    }
    assert!(matches!(template_rm("t", true, true), RemoveStep::Remove));
}

#[test]
fn only_yes_confirms() {
    for answer in ["y", "Y", " yes\n", "YES", "yEs\r\n"] {
        assert!(confirmed(answer), "{}", answer);
    }
    for answer in ["", "n", "yess", "ye s", "no\n"] {
        assert!(!confirmed(answer), "{}", answer);
    }
}

#[test]
fn pool_status_lists_counts() {
    let lines = pool_status_lines(3, &vec![("alpine".to_string(), 4)]);
    assert_eq!(
        lines,
        vec![
            "Warm Pool Status".to_string(),
            "----------------".to_string(),
            "In-use sandboxes: 3".to_string(),
            "Available sandboxes by template:".to_string(),
            format!("  {:<28} COUNT", "TEMPLATE"),
            format!("  {}", "-".repeat(40)),
            format!("  {:<28} {}", "alpine", 4),
        ]
    );
    assert_eq!(pool_status_lines(0, &Vec::new())[4], "  (none)");
}

#[test]
fn check_plan_follows_the_configuration() {
    let mut config = RuntimeConfig::for_home("/h");
    let plan = check_plan(&config);
    assert_eq!(plan.len(), 11);
    assert_eq!(plan[0].label, "Firecracker binary (/h/.coffer/kernel/firecracker)");
    assert_eq!(plan[1].label, "Jailer binary (/h/.coffer/kernel/jailer) [optional]");
    assert!(matches!(&plan[2].probe, Probe::Binary(p) if p == "/h/.coffer/kernel/vmlinux"));
    assert_eq!(plan[3].label, "Agent binary (/h/.coffer/bin/coffer-agent)");
    assert!(matches!(&plan[3].probe, Probe::Binary(p) if p == "/h/.coffer/bin/coffer-agent"));
    assert!(matches!(&plan[4].probe, Probe::Kvm));
    assert!(matches!(&plan[6].probe, Probe::Command { program, arg } if program == "mkfs.erofs" && arg == "--help"));
    assert!(matches!(&plan[10].probe, Probe::Command { program, arg } if program == "iptables" && arg == "--version"));
    config.jailer_path = None;
    assert_eq!(check_plan(&config).len(), 10);
}

#[test]
fn checks_name_what_is_wrong() {
    assert_eq!(check_binary(FileFacts::Missing).unwrap_err(), "binary not found");
    assert_eq!(check_binary(FileFacts::Unreadable("denied".to_string())).unwrap_err(), "denied");
    assert_eq!(
        check_binary(FileFacts::Found { mode: 0o644 }).unwrap_err(),
        "binary lacks executable permission"
    );
    assert!(check_binary(FileFacts::Found { mode: 0o755 }).is_ok());
    assert!(check_binary(FileFacts::Found { mode: 0o555 }).is_ok());
    assert!(check_binary(FileFacts::Found { mode: 0o610 }).is_ok());
    assert_eq!(check_file(false).unwrap_err(), "file not found");
    assert!(check_file(true).is_ok());
    assert_eq!(check_dir(Err("full".to_string()), true).unwrap_err(), "full");
    assert_eq!(check_dir(Ok(()), false).unwrap_err(), "not a directory");
    assert!(check_dir(Ok(()), true).is_ok());
    assert_eq!(check_cmd(Ok(false)).unwrap_err(), "command exited with non-zero status");
    assert_eq!(check_cmd(Err("none".to_string())).unwrap_err(), "none");
    assert!(check_cmd(Ok(true)).is_ok());
    assert!(check_kvm(Ok(())).is_ok());
    assert_eq!(
        check_kvm(Err("no".to_string())).unwrap_err(),
        "no. To fix:\n    sudo usermod -aG kvm $(whoami) && newgrp kvm\n  or:\n    sudo chmod 666 /dev/kvm"
    );
}

#[test]
fn check_lines_and_verdict() {
    assert_eq!(check_line("ip", &Ok(())), "  [OK]   ip");
    assert_eq!(check_line("ip", &Err("gone".to_string())), "  [FAIL] ip — gone");
    assert_eq!(check_verdict(&vec![Ok(()), Ok(())]).1, 0);
    let (line, code) = check_verdict(&vec![Ok(()), Err("x".to_string())]);
    assert_eq!(code, 1);
    assert_eq!(line, "✗ Some checks failed. Please fix the issues above before running Coffer.");
    assert_eq!(check_verdict(&Vec::new()).0, "✓ All checks passed. Coffer is ready to use.");
    assert_eq!(net_admin_report(true, "/fc", "br"), vec!["  [OK]   CAP_NET_ADMIN available".to_string()]);
    let warn = net_admin_report(false, "/fc", "br");
    assert_eq!(warn.len(), 5);
    assert_eq!(warn[2], "           sudo setcap cap_net_admin+eip /fc");
    assert_eq!(warn[4], "           sudo ip link add br type bridge && sudo ip link set br up");
}

#[test]
fn capability_is_read_from_the_status() {
    assert!(check_cap_net_admin("Name:\tx\nUid:\t0\t0\t0\t0\nCapEff:\t0000000000000000\n"));
    assert!(check_cap_net_admin("Uid:\t1000\t1000\nCapEff:\t0000000000001000\n"));
    assert!(!check_cap_net_admin("Uid:\t1000\t1000\nCapEff:\t0000000000000fff\n"));
    assert!(check_cap_net_admin("Uid:\t1000\nCapEff:\t000001FFFFFFFFFF\n"));
    assert!(!check_cap_net_admin("Uid:\t1000\nCapEff:\tzz\n"));
    assert!(!check_cap_net_admin(""));
    // The last line counts.
    assert!(!check_cap_net_admin("Uid:\t0\nUid:\t1000\n"));
    assert!(!check_cap_net_admin("Uid:\t0\nUid:\tx\n"));
}

#[test]
fn version_lines_unescape_the_log() {
    let lines = version_lines("0.1.0", "abc", "one\\ntwo\\n\\three");
    assert_eq!(lines[0], "coffer-cli 0.1.0");
    assert_eq!(lines[1], "git commit: abc");
    assert_eq!(lines[2], "");
    assert_eq!(lines[3], "Recent commits:");
    assert_eq!(lines[4], "  one");
    assert_eq!(lines[5], "  two");
    assert_eq!(lines[6], "  \\three");
    assert_eq!(lines.len(), 7);
}
