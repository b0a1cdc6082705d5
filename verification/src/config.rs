//! The configuration of the runtime and its defaults.

use vstd::prelude::*;
use vstd::utf8::{decode_utf8, encode_utf8_decode_utf8, encode_utf8_valid_utf8, valid_utf8};

use crate::platform::{home_dir, lossy, lossy_text, utf8_str};
use crate::proto::opt_bytes;
use crate::text::{join_path, joined, push_text, strs, Text};

verus! {

broadcast use vstd::string::group_string_axioms;

/// Global runtime configuration.
#[derive(Debug, Clone)]
pub struct RuntimeConfig {
    /// Directory for template storage.
    pub template_dir: String,
    /// Directory for runtime sockets and logs.
    pub socket_dir: String,
    /// Firecracker binary path.
    pub firecracker_path: String,
    /// Jailer binary path (optional, for seccomp isolation).
    pub jailer_path: Option<String>,
    /// Path to the default guest kernel.
    pub kernel_path: String,
    /// Path to the coffer-agent binary (injected into rootfs).
    pub agent_bin: String,
    /// Warm pool configuration.
    pub pool: PoolConfig,
    /// Network configuration.
    pub network: NetworkConfig,
    /// Jailer configuration (optional).
    pub jailer: Option<JailerConfig>,
    /// Resource limits.
    pub limits: ResourceLimits,
    /// VMM base configuration.
    pub vmm: VmmConfig,
}

/// The directory that holds everything, below a home directory.
pub open spec fn coffer_home(home: Text) -> Text {
    joined(home, ".coffer"@)
}

/// The configuration of a user with the given home directory.
pub open spec fn is_config_for(c: RuntimeConfig, home: Text) -> bool {
    &&& c.template_dir@ == joined(coffer_home(home), "templates"@)
    &&& c.socket_dir@ == joined(coffer_home(home), "run"@)
    &&& c.firecracker_path@ == joined(coffer_home(home), "kernel/firecracker"@)
    &&& c.jailer_path matches Some(p)
    &&& p@ == joined(coffer_home(home), "kernel/jailer"@)
    &&& c.kernel_path@ == joined(coffer_home(home), "kernel/vmlinux"@)
    &&& c.agent_bin@ == joined(coffer_home(home), "bin/coffer-agent"@)
    &&& is_default_pool(c.pool)
    &&& is_default_network(c.network)
    &&& c.jailer is None
    &&& is_default_limits(c.limits)
    &&& is_default_vmm(c.vmm)
}

impl RuntimeConfig {
    /// The configuration of a user with the given home directory.
    pub fn for_home(home: &str) -> (r: RuntimeConfig)
        ensures
            is_config_for(r, home@),
    {
        let base = join_path(home, ".coffer");
        RuntimeConfig {
            template_dir: join_path(base.as_str(), "templates"),
            socket_dir: join_path(base.as_str(), "run"),
            firecracker_path: join_path(base.as_str(), "kernel/firecracker"),
            jailer_path: Some(join_path(base.as_str(), "kernel/jailer")),
            kernel_path: join_path(base.as_str(), "kernel/vmlinux"),
            agent_bin: join_path(base.as_str(), "bin/coffer-agent"),
            pool: PoolConfig::default(),
            network: NetworkConfig::default(),
            jailer: None,
            limits: ResourceLimits::default(),
            vmm: VmmConfig::default(),
        }
    }

    /// The configuration of a user, given the bytes of the path of the home
    /// directory, if it is known. Paths are texts here: what is not UTF-8 in them
    /// is replaced, as it is wherever a path is printed.
    pub fn for_user(home: Option<Vec<u8>>) -> (r: RuntimeConfig)
        ensures
            is_config_for(r, home_text(opt_bytes(home))),
    {
        match home {
            Some(b) => match utf8_str(b.as_slice()) {
                Some(h) => {
                    proof {
                        encode_utf8_decode_utf8(h@);
                        encode_utf8_valid_utf8(h@);
                    }
                    RuntimeConfig::for_home(h)
                },
                None => RuntimeConfig::for_home(lossy_text(b.as_slice()).as_str()),
            },
            None => RuntimeConfig::for_home("/tmp"),
        }
    }
}

/// The text of the home directory that is taken: `/tmp` where there is none.
pub open spec fn home_text(home: Option<Seq<u8>>) -> Text {
    match home {
        Some(b) => if valid_utf8(b) {
            decode_utf8(b)
        } else {
            lossy(b)
        },
        None => "/tmp"@,
    }
}

impl Default for RuntimeConfig {
    /// The configuration of the current user.
    fn default() -> (r: RuntimeConfig)
        ensures
            exists|home: Option<Seq<u8>>| is_config_for(r, #[trigger] home_text(home)),
    {
        let home = home_dir();
        let ghost seen = opt_bytes(home);
        let r = RuntimeConfig::for_user(home);
        assert(is_config_for(r, home_text(seen)));
        r
    }
}

/// Warm pool configuration.
#[derive(Debug, Clone)]
pub struct PoolConfig {
    /// Number of warm instances to maintain per template.
    pub warm_pool_size: usize,
    /// Max total sandboxes.
    pub max_sandboxes: usize,
    /// Timeout for cold start (ms).
    pub cold_start_timeout_ms: u64,
    /// Interval to recycle stale warm VMs (secs).
    pub recycle_interval_secs: u64,
}

pub open spec fn is_default_pool(c: PoolConfig) -> bool {
    &&& c.warm_pool_size == 4
    &&& c.max_sandboxes == 512
    &&& c.cold_start_timeout_ms == 150
    &&& c.recycle_interval_secs == 300
}

impl Default for PoolConfig {
    fn default() -> (r: PoolConfig)
        ensures
            is_default_pool(r),
    {
        PoolConfig {
            warm_pool_size: 4,
            max_sandboxes: 512,
            cold_start_timeout_ms: 150,
            recycle_interval_secs: 300,
        }
    }
}

/// Network configuration.
#[derive(Debug, Clone)]
pub struct NetworkConfig {
    /// Bridge device name.
    pub bridge_name: String,
    /// Subnet CIDR for sandboxes.
    pub subnet: String,
    /// TAP device name prefix.
    pub tap_prefix: String,
    /// Gateway IP (host side).
    pub gateway_ip: String,
    /// MTU.
    pub mtu: u32,
    /// Enable outbound SNAT.
    pub enable_snat: bool,
    /// Default outbound policy.
    pub default_policy: OutboundPolicy,
    /// Explicit allow list (CIDRs).
    pub allow_list: Vec<String>,
    /// Explicit deny list (CIDRs).
    pub deny_list: Vec<String>,
    /// Per-sandbox bandwidth limit (Mbps, 0 = unlimited).
    pub bandwidth_mbps: u32,
}

pub open spec fn is_default_network(c: NetworkConfig) -> bool {
    &&& c.bridge_name@ == "br-coffer"@
    &&& c.subnet@ == "192.168.100.0/24"@
    &&& c.tap_prefix@ == "tap"@
    &&& c.gateway_ip@ == "192.168.100.1"@
    &&& c.mtu == 1500
    &&& c.enable_snat
    &&& c.default_policy == OutboundPolicy::Allow
    &&& c.allow_list@.len() == 0
    &&& strs(c.deny_list@) == seq![
        "10.0.0.0/8"@,
        "172.16.0.0/12"@,
        "192.168.0.0/16"@,
        "127.0.0.0/8"@,
        "169.254.0.0/16"@,
    ]
    &&& c.bandwidth_mbps == 0
}

impl Default for NetworkConfig {
    fn default() -> (r: NetworkConfig)
        ensures
            is_default_network(r),
    {
        let mut deny_list: Vec<String> = Vec::new();
        push_text(&mut deny_list, "10.0.0.0/8");
        push_text(&mut deny_list, "172.16.0.0/12");
        push_text(&mut deny_list, "192.168.0.0/16");
        push_text(&mut deny_list, "127.0.0.0/8");
        push_text(&mut deny_list, "169.254.0.0/16");
        assert(strs(deny_list@) =~= seq![
            "10.0.0.0/8"@,
            "172.16.0.0/12"@,
            "192.168.0.0/16"@,
            "127.0.0.0/8"@,
            "169.254.0.0/16"@,
        ]);
        NetworkConfig {
            bridge_name: "br-coffer".to_owned(),
            subnet: "192.168.100.0/24".to_owned(),
            tap_prefix: "tap".to_owned(),
            gateway_ip: "192.168.100.1".to_owned(),
            mtu: 1500,
            enable_snat: true,
            default_policy: OutboundPolicy::Allow,
            allow_list: Vec::new(),
            deny_list,
            bandwidth_mbps: 0,
        }
    }
}

/// Jailer isolation configuration.
#[derive(Debug, Clone)]
pub struct JailerConfig {
    pub chroot_base_dir: String,
    pub uid: u32,
    pub gid: u32,
    pub netns: Option<String>,
    pub daemonize: bool,
    pub new_pid_ns: bool,
}

impl Default for JailerConfig {
    fn default() -> (r: JailerConfig)
        ensures
            r.chroot_base_dir@ == "/srv/jailer"@,
            r.uid == 1000,
            r.gid == 1000,
            r.netns is None,
            !r.daemonize,
            r.new_pid_ns,
    {
        JailerConfig {
            chroot_base_dir: "/srv/jailer".to_owned(),
            uid: 1000,
            gid: 1000,
            netns: None,
            daemonize: false,
            new_pid_ns: true,
        }
    }
}

#[derive(Debug, Clone, Copy, PartialEq, Eq, Structural)]
pub enum OutboundPolicy {
    Allow,
    Deny,
}

/// Global resource limits.
#[derive(Debug, Clone)]
pub struct ResourceLimits {
    /// Max total sandboxes across all templates.
    pub max_total_instances: usize,
    /// Max total guest memory (MiB).
    pub max_total_memory_mib: u64,
    /// Max total vCPUs.
    pub max_total_vcpus: u32,
    /// Max concurrent creations.
    pub max_concurrent_creations: usize,
}

pub open spec fn is_default_limits(c: ResourceLimits) -> bool {
    &&& c.max_total_instances == 512
    &&& c.max_total_memory_mib == 65536
    &&& c.max_total_vcpus == 256
    &&& c.max_concurrent_creations == 8
}

impl Default for ResourceLimits {
    fn default() -> (r: ResourceLimits)
        ensures
            is_default_limits(r),
    {
        ResourceLimits {
            max_total_instances: 512,
            max_total_memory_mib: 65536,
            max_total_vcpus: 256,
            max_concurrent_creations: 8,
        }
    }
}

/// Per-VMM base configuration.
#[derive(Debug, Clone)]
pub struct VmmConfig {
    /// Default vCPUs per sandbox.
    pub default_vcpus: u32,
    /// Default memory (MiB) per sandbox.
    pub default_memory_mib: u32,
    /// Enable SMT.
    pub smt: bool,
    /// Enable dirty page tracking for diff snapshots.
    pub track_dirty_pages: bool,
    /// Enable huge pages.
    pub huge_pages: bool,
}

pub open spec fn is_default_vmm(c: VmmConfig) -> bool {
    &&& c.default_vcpus == 1
    &&& c.default_memory_mib == 256
    &&& !c.smt
    &&& c.track_dirty_pages
    &&& !c.huge_pages
}

impl Default for VmmConfig {
    fn default() -> (r: VmmConfig)
        ensures
            is_default_vmm(r),
    {
        VmmConfig {
            default_vcpus: 1,
            default_memory_mib: 256,
            smt: false,
            track_dirty_pages: true,
            huge_pages: false,
        }
    }
}

// ---------------------------------------------------------------------
// Laws
// ---------------------------------------------------------------------

/// Everything that a user's configuration names lies in one directory below the
/// home directory, which is `/tmp` where there is none, and each thing has a place
/// of its own.
pub proof fn law_everything_lies_below_home(
    home: Option<Vec<u8>>,
    r: RuntimeConfig,
)
    requires
        call_ensures(RuntimeConfig::for_user, (home,), r),
    ensures
        ({
            let h = match home {
                Some(b) => if valid_utf8(b@) {
                    decode_utf8(b@)
                } else {
                    lossy(b@)
                },
                None => "/tmp"@,
            };
            let base = joined(h, ".coffer"@) + "/"@;
            &&& r.jailer_path is Some
            &&& r.template_dir@ == base + "templates"@
            &&& r.socket_dir@ == base + "run"@
            &&& r.firecracker_path@ == base + "kernel/firecracker"@
            &&& r.jailer_path->Some_0@ == base + "kernel/jailer"@
            &&& r.kernel_path@ == base + "kernel/vmlinux"@
            &&& r.agent_bin@ == base + "bin/coffer-agent"@
        }),
        r.jailer is None,
        r.pool.warm_pool_size <= r.pool.max_sandboxes <= r.limits.max_total_instances,
{
    reveal_strlit("/");
    reveal_strlit(".coffer");
    reveal_strlit("templates");
    reveal_strlit("run");
    reveal_strlit("kernel/firecracker");
    reveal_strlit("kernel/jailer");
    reveal_strlit("kernel/vmlinux");
    reveal_strlit("bin/coffer-agent");
    let h = home_text(opt_bytes(home));
    let base = joined(h, ".coffer"@);
    assert(base.last() == 'r');
    assert(seq!['/'] =~= "/"@);
}

/// Whatever the home of the user, the runtime starts from the same pool, network,
/// limits and machine, which are the defaults of each, and lets no guest reach the
/// private networks.
pub proof fn law_defaults_for_everybody(
    home: Option<Vec<u8>>,
    r: RuntimeConfig,
    pool: PoolConfig,
    limits: ResourceLimits,
    vmm: VmmConfig,
    network: NetworkConfig,
)
    requires
        call_ensures(RuntimeConfig::for_user, (home,), r),
        call_ensures(PoolConfig::default, (), pool),
        call_ensures(ResourceLimits::default, (), limits),
        call_ensures(VmmConfig::default, (), vmm),
        call_ensures(NetworkConfig::default, (), network),
    ensures
        r.pool == pool && r.limits == limits && r.vmm == vmm,
        pool.warm_pool_size == 4 && pool.max_sandboxes == 512,
        pool.cold_start_timeout_ms == 150 && pool.recycle_interval_secs == 300,
        limits.max_total_instances == 512 && limits.max_total_memory_mib == 65536,
        limits.max_total_vcpus == 256 && limits.max_concurrent_creations == 8,
        vmm.default_vcpus == 1 && vmm.default_memory_mib == 256,
        !vmm.smt && vmm.track_dirty_pages && !vmm.huge_pages,
        r.network.bridge_name@ == network.bridge_name@ && network.bridge_name@ == "br-coffer"@,
        r.network.subnet@ == network.subnet@ && network.subnet@ == "192.168.100.0/24"@,
        r.network.gateway_ip@ == network.gateway_ip@ && network.gateway_ip@ == "192.168.100.1"@,
        r.network.tap_prefix@ == network.tap_prefix@ && network.tap_prefix@ == "tap"@,
        r.network.mtu == network.mtu && network.mtu == 1500,
        r.network.enable_snat && network.enable_snat,
        r.network.allow_list@.len() == 0 && network.allow_list@.len() == 0,
        r.network.default_policy is Allow && network.default_policy is Allow,
        r.network.bandwidth_mbps == 0 && network.bandwidth_mbps == 0,
        strs(r.network.deny_list@) == strs(network.deny_list@),
        strs(network.deny_list@).contains("10.0.0.0/8"@),
        strs(network.deny_list@).contains("172.16.0.0/12"@),
        strs(network.deny_list@).contains("192.168.0.0/16"@),
        strs(network.deny_list@).contains("127.0.0.0/8"@),
        strs(network.deny_list@).contains("169.254.0.0/16"@),
        network.deny_list@.len() == 5,
{
    let d = strs(network.deny_list@);
    assert(d.len() == network.deny_list@.len());
    assert(d[0] == "10.0.0.0/8"@ && d[1] == "172.16.0.0/12"@ && d[2] == "192.168.0.0/16"@);
    assert(d[3] == "127.0.0.0/8"@ && d[4] == "169.254.0.0/16"@);
}

} // verus!
