use coffer::error::CofferError;
use coffer::net::link::{LinkWork, NetAction, NetReply};
use coffer::net::raw::{
    address_request, flags_down, flags_up, ifreq_with_name, ifreq_with_payload, netmask, op_failed, parse_cidr,
    sockaddr_in_bytes, Ipv4, NetOp, EBUSY, EEXIST, ENXIO,
};
use coffer::net::{
    command_ended, command_verdict, iptables_has_rule, setup_next, sudo_ended, sudo_verdict, CommandVerdict, LinkStep,
    NetworkConfig, NetworkManager, SetupAction, SetupPhase, SetupResult, SudoAttempt, SudoOutcome, TapDevice,
};

fn manager() -> NetworkManager {
    NetworkManager::new(NetworkConfig {
        bridge_name: "br0".to_string(),
        subnet: "172.16.0.1/24".to_string(),
        tap_prefix: "tap".to_string(),
    })
}

fn texts(words: &[&str]) -> Vec<String> {
    words.iter().map(|w| w.to_string()).collect()
}

#[test]
fn names_are_cut_and_terminated() {
    let short = ifreq_with_name("tap0");
    assert_eq!(&short[..5], b"tap0\0");
    assert!(short[4..].iter().all(|b| *b == 0));
    let long = ifreq_with_name("abcdefghijklmnopqrstuvwxyz");
    assert_eq!(&long[..16], b"abcdefghijklmno\0");
    assert_ne!(ifreq_with_name("tap1"), ifreq_with_name("tap2"));
}

#[test]
fn payloads_follow_the_name() {
    let r = ifreq_with_payload("eth0", &[1, 2, 3]);
    assert_eq!(&r[16..20], &[1, 2, 3, 0]);
    assert_eq!(r.len(), 40);
    let full = ifreq_with_payload("x", &[9; 24]);
    assert!(full[16..].iter().all(|b| *b == 9));
}

#[test]
fn flags_change_one_bit() {
    assert_eq!(flags_up(0x1002), 0x1003);
    assert_eq!(flags_up(0x1003), 0x1003);
    assert_eq!(flags_down(0x1003), 0x1002);
    assert_eq!(flags_down(-1), -2);
}

#[test]
fn cidr_notation_is_read() {
    let ip = |a, b, c, d| Ipv4 { a, b, c, d };
    assert_eq!(parse_cidr("172.16.0.1/24"), Some((ip(172, 16, 0, 1), ip(255, 255, 255, 0))));
    assert_eq!(parse_cidr("10.0.0.0/8"), Some((ip(10, 0, 0, 0), ip(255, 0, 0, 0))));
    assert_eq!(parse_cidr("1.2.3.4/0"), Some((ip(1, 2, 3, 4), ip(0, 0, 0, 0))));
    assert_eq!(parse_cidr("1.2.3.4/32"), Some((ip(1, 2, 3, 4), ip(255, 255, 255, 255))));
    for bad in ["", "1.2.3.4", "1.2.3.4/33", "1.2.3/8", "1.2.3.4.5/8", "256.0.0.1/8", "01.2.3.4/8", "1.2.3.4/8/9", "a.b.c.d/8", "1.2.3.4/-1"] {
        assert_eq!(parse_cidr(bad), None, "{}", bad);
    }
    assert_eq!(netmask(25), ip(255, 255, 255, 128));
}

#[test]
fn addresses_are_laid_out_for_the_kernel() {
    let ip = Ipv4 { a: 10, b: 1, c: 2, d: 3 };
    let family = 2u16.to_ne_bytes();
    let s = sockaddr_in_bytes(family, ip);
    assert_eq!(&s[..2], &family);
    assert_eq!(&s[2..8], &[0, 0, 10, 1, 2, 3]);
    assert!(s[8..].iter().all(|b| *b == 0));
    let r = address_request("br0", family, ip);
    assert_eq!(&r[..4], b"br0\0");
    assert_eq!(&r[16..32], &s);
}

#[test]
fn some_failures_are_tolerated() {
    let failed = |op, errno| op_failed(op, "t0", errno, "why");
    assert!(failed(NetOp::CreateBridge, Some(EEXIST)).is_ok());
    assert!(failed(NetOp::CreateBridge, Some(EBUSY)).is_err());
    assert!(failed(NetOp::AddToBridge, Some(EBUSY)).is_ok());
    assert!(failed(NetOp::RemoveFromBridge, Some(ENXIO)).is_ok());
    let texts = [
        (NetOp::Socket, "socket(AF_INET, SOCK_DGRAM): why"),
        (NetOp::OpenTun, "Failed to open /dev/net/tun: why"),
        (NetOp::AttachTap, "ioctl(TUNSETIFF): why"),
        (NetOp::PersistTap, "ioctl(TUNSETPERSIST): why"),
        (NetOp::GetFlags, "ioctl(SIOCGIFFLAGS): why"),
        (NetOp::SetFlags, "ioctl(SIOCSIFFLAGS): why"),
        (NetOp::CreateBridge, "ioctl(SIOCBRADDBR): why"),
        (NetOp::Index, "ioctl(SIOCGIFINDEX, t0): why"),
        (NetOp::AddToBridge, "ioctl(SIOCBRADDIF): why"),
        (NetOp::RemoveFromBridge, "ioctl(SIOCBRDELIF): why"),
        (NetOp::SetAddress, "ioctl(SIOCSIFADDR): why"),
        (NetOp::SetNetmask, "ioctl(SIOCSIFNETMASK): why"),
    ];
    for (op, text) in texts {
        assert_eq!(failed(op, None).unwrap_err().text(), format!("network error: {}", text));
    }
    assert_eq!(
        failed(NetOp::AttachTap, Some(EBUSY)).unwrap_err().text(),
        "network error: TAP t0 already exists (held by another process). Consider killing stale Firecracker processes."
    );
}

#[test]
fn a_link_is_brought_up_by_its_flags() {
    let (mut w, first) = LinkWork::begin(LinkStep::Up { link: "t0".to_string() }).unwrap();
    assert!(matches!(first, NetAction::OpenSocket));
    assert!(matches!(w.advance(NetReply::Done), NetAction::GetFlags { name } if name == "t0"));
    assert!(matches!(w.advance(NetReply::Flags(0x1002)), NetAction::SetFlags { flags: 0x1003, .. }));
    assert!(matches!(w.advance(NetReply::Done), NetAction::Finish(Ok(()))));
}

#[test]
fn an_address_is_set_with_its_mask() {
    let step = LinkStep::AddAddress { link: "br0".to_string(), cidr: "10.0.0.1/16".to_string() };
    let (mut w, _) = LinkWork::begin(step).unwrap();
    assert!(matches!(w.advance(NetReply::Done), NetAction::SetAddress { ip: Ipv4 { a: 10, b: 0, c: 0, d: 1 }, .. }));
    assert!(matches!(w.advance(NetReply::Done), NetAction::SetNetmask { mask: Ipv4 { a: 255, b: 255, c: 0, d: 0 }, .. }));
    assert!(matches!(w.advance(NetReply::Done), NetAction::Finish(Ok(()))));
    let bad = LinkStep::AddAddress { link: "br0".to_string(), cidr: "nonsense".to_string() };
    assert_eq!(LinkWork::begin(bad).unwrap_err().text(), "network error: Invalid CIDR: nonsense");
}

#[test]
fn a_tap_is_made_and_removed() {
    let (mut w, first) = LinkWork::begin(LinkStep::CreateTap { tap: "t0".to_string() }).unwrap();
    assert!(matches!(first, NetAction::OpenTun));
    assert!(matches!(w.advance(NetReply::Done), NetAction::AttachTap { name } if name == "t0"));
    assert!(matches!(w.advance(NetReply::Done), NetAction::PersistTap(true)));
    assert!(matches!(w.advance(NetReply::Done), NetAction::Finish(Ok(()))));

    let (mut w, _) = LinkWork::begin(LinkStep::DeleteTap { tap: "t0".to_string() }).unwrap();
    w.advance(NetReply::Done);
    assert!(matches!(w.advance(NetReply::Done), NetAction::PersistTap(false)));
    let (mut w, _) = LinkWork::begin(LinkStep::DeleteTap { tap: "t0".to_string() }).unwrap();
    let failed = NetReply::Failed { errno: Some(1), reason: "no".to_string() };
    assert!(matches!(w.advance(failed), NetAction::Finish(Ok(()))));
}

#[test]
fn a_tap_joins_and_leaves_a_bridge() {
    let join = LinkStep::AddToBridge { tap: "t0".to_string(), bridge: "br0".to_string() };
    let (mut w, _) = LinkWork::begin(join).unwrap();
    assert!(matches!(w.advance(NetReply::Done), NetAction::GetIndex { name } if name == "t0"));
    assert!(matches!(w.advance(NetReply::Index(7)), NetAction::AddToBridge { bridge, index: 7 } if bridge == "br0"));
    let busy = NetReply::Failed { errno: Some(EBUSY), reason: "busy".to_string() };
    assert!(matches!(w.advance(busy), NetAction::Finish(Ok(()))));

    let leave = LinkStep::RemoveFromBridge { tap: "t0".to_string(), bridge: "br0".to_string() };
    let (mut w, _) = LinkWork::begin(leave).unwrap();
    w.advance(NetReply::Done);
    let failed = NetReply::Failed { errno: Some(19), reason: "No such device".to_string() };
    match w.advance(failed) {
        NetAction::Finish(Err(e)) => assert_eq!(e.text(), "network error: ioctl(SIOCGIFINDEX, t0): No such device"),
        other => panic!("{:?}", other),
    }
}

fn record(m: &mut NetworkManager, vm_id: &str) -> String {
    let name = m.allocate_tap(vm_id).unwrap().name;
    m.record_tap(TapDevice { name: name.clone(), vm_id: vm_id.to_string() });
    name
}

#[test]
fn tap_names_are_cut_to_what_fits() {
    let m = manager();
    assert_eq!(m.tap_name("abc").unwrap(), "tapabc");
    assert_eq!(m.tap_name("abcdefghijkl").unwrap(), "tapabcdefghijkl");
    assert_eq!(m.tap_name("coffer-12345678").unwrap(), "tapcoffer-12345");
    assert_eq!(m.tap_name("coffer-pool-11111111").unwrap(), "tapcoffer-pool-");
    // A name is cut between characters.
    assert_eq!(m.tap_name("12345678901\u{e9}").unwrap(), "tap12345678901");
}

#[test]
fn live_taps_have_different_names() {
    let mut m = manager();
    let mut names = Vec::new();
    for vm_id in [
        "coffer-pool-11111111",
        "coffer-pool-22222222",
        "coffer-pool-33333333",
        "coffer-pool-x-33333333",
        "coffer-pool-y-33333333",
        "1",
        "11111111",
    ] {
        let name = record(&mut m, vm_id);
        assert!(name.len() <= 15);
        assert!(name.starts_with("tap"));
        assert!(!names.contains(&name), "{}", name);
        names.push(name);
    }
    assert_eq!(names[0], "tapcoffer-pool-");
    // A second one keeps the end of its identifier.
    assert_eq!(names[1], "tapool-22222222");
    assert_eq!(names[2], "tapool-33333333");
    assert_eq!(names[3], "tapl-x-33333333");
    assert_eq!(names[4], "tapl-y-33333333");
    // Each device has its own chain.
    let mut chains: Vec<String> = Vec::new();
    for name in &names {
        let chain = m.apply_egress_policy(name, &Vec::new(), &Vec::new()).jump.pop().unwrap();
        assert!(!chains.contains(&chain));
        chains.push(chain);
    }
    // A name that was given up is free again.
    m.deallocate_tap("coffer-pool-11111111");
    assert_eq!(m.tap_name("coffer-pool-44444444").unwrap(), "tapcoffer-pool-");
}

#[test]
fn a_vm_that_asks_again_gets_its_name() {
    let mut m = manager();
    for vm_id in ["coffer-pool-11111111", "coffer-pool-22222222", "other"] {
        let name = record(&mut m, vm_id);
        assert_eq!(m.allocate_tap(vm_id).unwrap().name, name);
        assert_eq!(record(&mut m, vm_id), name);
    }
}

#[test]
fn numbers_stand_in_for_identifiers() {
    let mut m = manager();
    // The same beginning and the same end.
    let names: Vec<String> = (0..14).map(|i| record(&mut m, &format!("coffer-pool-{}-coffer-pool", i + 100))).collect();
    assert_eq!(names[0], "tapcoffer-pool-");
    assert_eq!(names[1], "tap-coffer-pool");
    assert_eq!(names[2], "tap1");
    assert_eq!(names[13], "tap12");
}

#[test]
fn names_can_run_out() {
    let config = |prefix: &str| NetworkConfig {
        bridge_name: "br0".to_string(),
        subnet: "172.16.0.1/24".to_string(),
        tap_prefix: prefix.to_string(),
    };
    // No room for an identifier or a number.
    for prefix in ["abcdefghijklmno", "abcdefghijklmnopq"] {
        let mut m = NetworkManager::new(config(prefix));
        assert_eq!(record(&mut m, "vm1"), "abcdefghijklmno");
        let e = m.allocate_tap("vm2").unwrap_err();
        assert_eq!(e.text(), "network error: No TAP name left for vm2");
        assert!(m.tap_name("vm2").is_none());
        assert_eq!(m.tap_name("vm1").unwrap(), "abcdefghijklmno");
    }
    // Room for one character.
    let mut m = NetworkManager::new(config("abcdefghijklmn"));
    let names: Vec<String> = (0..11).map(|i| record(&mut m, &format!("v{}x", i))).collect();
    assert_eq!(names[0], "abcdefghijklmnv");
    assert_eq!(names[1], "abcdefghijklmnx");
    assert_eq!(names[2], "abcdefghijklmn1");
    assert_eq!(names[10], "abcdefghijklmn9");
    assert!(m.allocate_tap("v-one-too-many-x").is_err());
}

#[test]
fn taps_are_recorded_and_forgotten() {
    let mut m = manager();
    let plan = m.allocate_tap("vm1").unwrap();
    assert_eq!(plan.name, "tapvm1");
    assert!(matches!(&plan.steps[0], LinkStep::CreateTap { tap } if tap == "tapvm1"));
    assert!(matches!(&plan.steps[1], LinkStep::Up { link } if link == "tapvm1"));
    assert!(matches!(&plan.steps[2], LinkStep::AddToBridge { tap, bridge } if tap == "tapvm1" && bridge == "br0"));
    assert_eq!(m.deallocate_tap("vm1").len(), 0);
    m.record_tap(TapDevice { name: plan.name, vm_id: "vm1".to_string() });
    let steps = m.deallocate_tap("vm1");
    assert!(matches!(&steps[0], LinkStep::RemoveFromBridge { tap, bridge } if tap == "tapvm1" && bridge == "br0"));
    assert!(matches!(&steps[1], LinkStep::Down { link } if link == "tapvm1"));
    assert!(matches!(&steps[2], LinkStep::DeleteTap { tap } if tap == "tapvm1"));
    assert_eq!(m.deallocate_tap("vm1").len(), 0);
}

#[test]
fn the_bridge_is_set_up_once() {
    let mut m = manager();
    assert!(m.setup_bridge());
    assert!(!m.setup_bridge());
    assert!(m.end_setup(Ok(())).is_ok());
    assert!(!m.setup_bridge());
    let failed = m.end_setup(Err(CofferError::Network("x".to_string())));
    assert_eq!(failed.unwrap_err().text(), "network error: x");
    assert!(m.setup_bridge());
}

#[test]
fn the_setup_goes_through_its_phases() {
    let m = manager();
    assert!(matches!(m.setup_action(SetupPhase::Create), SetupAction::Link(LinkStep::CreateBridge { bridge }) if bridge == "br0"));
    assert!(matches!(m.setup_action(SetupPhase::Address), SetupAction::Link(LinkStep::AddAddress { cidr, .. }) if cidr == "172.16.0.1/24"));
    assert!(matches!(
        m.setup_action(SetupPhase::Forward),
        SetupAction::WriteFile { path: "/proc/sys/net/ipv4/ip_forward", content: "1\n" }
    ));
    let rule = texts(&["POSTROUTING", "-s", "172.16.0.1/24", "!", "-o", "br0", "-j", "MASQUERADE"]);
    match m.setup_action(SetupPhase::CheckNat) {
        SetupAction::Check(a) => assert_eq!(a, [texts(&["-t", "nat", "-C"]), rule.clone()].concat()),
        other => panic!("{:?}", other),
    }
    match m.setup_action(SetupPhase::AddNat) {
        SetupAction::Run(a) => assert_eq!(a, [texts(&["-t", "nat", "-A"]), rule].concat()),
        other => panic!("{:?}", other),
    }
    let mut phase = SetupPhase::Create;
    let mut seen = Vec::new();
    while phase != SetupPhase::Done {
        seen.push(phase);
        let result = if phase == SetupPhase::CheckNat { SetupResult::Found(false) } else { SetupResult::Done };
        phase = setup_next(phase, result).unwrap();
    }
    assert_eq!(seen.len(), 6);
    assert_eq!(setup_next(SetupPhase::CheckNat, SetupResult::Found(true)).unwrap(), SetupPhase::Done);
    let failed = SetupResult::Failed(CofferError::Network("x".to_string()));
    assert!(setup_next(SetupPhase::Up, failed).is_err());
}

#[test]
fn a_rule_is_asked_for_word_by_word() {
    assert_eq!(iptables_has_rule("filter", "FORWARD  -i t0"), texts(&["-t", "filter", "-C", "FORWARD", "-i", "t0"]));
}

#[test]
fn the_policy_denies_before_it_allows() {
    let m = manager();
    let plan = m.apply_egress_policy("t0", &texts(&["1.1.1.1", "8.8.8.0/24"]), &texts(&["9.9.9.9"]));
    assert_eq!(plan.prepare, vec![texts(&["-N", "COFFER-t0"]), texts(&["-F", "COFFER-t0"])]);
    assert_eq!(plan.check, texts(&["-t", "filter", "-C", "FORWARD", "-i", "t0", "-j", "COFFER-t0"]));
    assert_eq!(plan.jump, texts(&["-A", "FORWARD", "-i", "t0", "-j", "COFFER-t0"]));
    let mut chain: Vec<Vec<String>> = Vec::new();
    for command in plan.fill {
        match command[0].as_str() {
            "-A" => chain.push(command[2..].to_vec()),
            "-I" => chain.insert(0, command[3..].to_vec()),
            other => panic!("{}", other),
        }
    }
    assert_eq!(
        chain,
        vec![
            texts(&["-m", "state", "--state", "ESTABLISHED,RELATED", "-j", "ACCEPT"]),
            texts(&["-d", "9.9.9.9", "-j", "DROP"]),
            texts(&["-d", "8.8.8.0/24", "-j", "ACCEPT"]),
            texts(&["-d", "1.1.1.1", "-j", "ACCEPT"]),
            texts(&["-j", "DROP"]),
        ]
    );
}

#[test]
fn a_repeated_policy_adds_no_second_jump() {
    let m = manager();
    let mut forward: Vec<Vec<String>> = Vec::new();
    let mut chain: Vec<Vec<String>> = Vec::new();
    let mut seen = Vec::new();
    for _ in 0..2 {
        let plan = m.apply_egress_policy("t0", &texts(&["1.1.1.1"]), &texts(&["9.9.9.9"]));
        chain.clear();
        let found = forward.contains(&plan.check[4..].to_vec());
        let jump = plan.jump.clone();
        let fill = plan.fill.clone();
        let rest = plan.after_check(Ok(found)).unwrap();
        assert_eq!(rest.len(), fill.len() + if found { 0 } else { 1 });
        if !found {
            assert_eq!(rest[0], jump);
        }
        for command in rest {
            match (command[0].as_str(), command[1].as_str()) {
                ("-A", "FORWARD") => forward.push(command[2..].to_vec()),
                ("-A", _) => chain.push(command[2..].to_vec()),
                ("-I", _) => chain.insert(0, command[3..].to_vec()),
                other => panic!("{:?}", other),
            }
        }
        assert_eq!(forward, vec![texts(&["-i", "t0", "-j", "COFFER-t0"])]);
        seen.push(chain.clone());
    }
    assert_eq!(seen[0], seen[1]);
    let plan = m.apply_egress_policy("t0", &Vec::new(), &Vec::new());
    let failed = plan.after_check(Err(CofferError::Network("gone".to_string())));
    assert_eq!(failed.unwrap_err().text(), "network error: gone");
}

#[test]
fn denied_commands_are_tried_with_sudo() {
    let args = texts(&["-N", "a\"b"]);
    assert!(matches!(command_verdict("iptables", &args, true, "Permission denied"), CommandVerdict::Success));
    match command_verdict("iptables", &args, false, "x: Permission denied (you must be root)") {
        CommandVerdict::TrySudo(a) => assert_eq!(a, texts(&["-n", "iptables", "-N", "a\"b"])),
        other => panic!("{:?}", other),
    }
    match command_ended("iptables", &args, false, b"bad \xff") {
        CommandVerdict::Failure(e) => {
            assert_eq!(e.text(), "network error: iptables [\"-N\", \"a\\\"b\"] failed: bad \u{fffd}")
        }
        other => panic!("{:?}", other),
    }
    assert!(matches!(command_ended("ip", &args, false, b"Operation not permitted"), CommandVerdict::TrySudo(_)));
}

#[test]
fn what_sudo_wrote_is_read_as_text() {
    let args = texts(&["up"]);
    let ended = |success, stderr: &[u8]| {
        sudo_ended("ip", &args, b" denied \xff\n", SudoAttempt::Ended { success, stderr: stderr.to_vec() })
    };
    assert!(ended(true, b"").is_ok());
    let own = "network error: ip [\"up\"] failed: denied \u{fffd}";
    assert_eq!(ended(false, b"no \xfe\n").unwrap_err().text(), format!("{} (sudo -n fallback: no \u{fffd})", own));
    let late = sudo_ended("ip", &args, b"x", SudoAttempt::TimedOut).unwrap_err().text();
    assert!(late.ends_with("failed: x (sudo timed out after 3s — passwordless sudo required)"));
    let gone = sudo_ended("ip", &args, b"x", SudoAttempt::SpawnFailed("gone".to_string())).unwrap_err().text();
    assert!(gone.ends_with("failed: x (sudo spawn error: gone)"));
}

#[test]
fn sudo_has_the_last_word() {
    let args = texts(&["up"]);
    let verdict = |o| sudo_verdict("ip", &args, " Operation not permitted\n", o);
    assert!(verdict(SudoOutcome::Ended { success: true, stderr: String::new() }).is_ok());
    let own = "network error: ip [\"up\"] failed: Operation not permitted";
    assert_eq!(
        verdict(SudoOutcome::Ended { success: false, stderr: "a password is required\n".to_string() }).unwrap_err().text(),
        format!("{} (sudo -n fallback: a password is required)", own)
    );
    assert_eq!(
        verdict(SudoOutcome::SpawnFailed("gone".to_string())).unwrap_err().text(),
        format!("{} (sudo spawn error: gone)", own)
    );
    assert_eq!(
        verdict(SudoOutcome::TimedOut).unwrap_err().text(),
        format!("{} (sudo timed out after 3s — passwordless sudo required)", own)
    );
}
