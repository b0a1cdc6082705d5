//! The Firecracker API over a Unix socket: the calls, the requests that carry
//! them, and the reading of the answers.

use vstd::prelude::*;
use vstd::slice::slice_subrange;
use vstd::utf8::{decode_utf8, encode_utf8, encode_utf8_decode_utf8, valid_utf8};

use crate::error::{CofferError, ErrorView};
use crate::numeric::{all_digits, dec, dec_text, law_parse_printed, lemma_dec_digits, millis, millis_text, parse_text,
    parsed};
use crate::platform::{lossy, lossy_text, utf8_str};
use crate::text::{ascii_lower, cat4, cat5, chars_of, contains_text, is_space, lines_of, lower, occurs, occurs_at, split_lines, strs,
    text_of, trim_start, trim_text, trimmed, Text};

verus! {

broadcast use vstd::string::group_string_axioms;

// ---------------------------------------------------------------------
// API types
// ---------------------------------------------------------------------

#[derive(Debug)]
pub struct MachineConfig {
    pub vcpu_count: u8,
    pub mem_size_mib: u32,
    pub smt: bool,
    pub track_dirty_pages: bool,
}

#[derive(Debug)]
pub struct KernelConfig {
    pub kernel_image_path: String,
    pub boot_args: String,
}

#[derive(Debug)]
pub struct DriveConfig {
    pub drive_id: String,
    pub path_on_host: String,
    pub is_root_device: bool,
    pub is_read_only: bool,
}

#[derive(Debug)]
pub struct NetworkInterfaceConfig {
    pub iface_id: String,
    pub guest_mac: String,
    pub host_dev_name: String,
}

#[derive(Debug)]
pub struct VsockConfig {
    pub guest_cid: u32,
    pub uds_path: String,
}

#[derive(Debug)]
pub struct LoadSnapshotRequest {
    pub snapshot_path: String,
    pub mem_backend: MemBackendConfig,
    pub resume_vm: bool,
}

#[derive(Debug)]
pub struct MemBackendConfig {
    pub backend_type: String,
    pub backend_path: String,
}

/// Another name of [`MemBackendConfig`], which is to be preferred.
pub type MemoryBackend = MemBackendConfig;

#[derive(Debug)]
pub struct CreateSnapshotRequest {
    /// `Full` or `Diff`.
    pub snapshot_type: String,
    pub snapshot_path: String,
    pub mem_file_path: String,
}

/// What a call carries.
#[derive(Debug)]
pub enum ApiBody {
    Machine(MachineConfig),
    Kernel(KernelConfig),
    Drive(DriveConfig),
    NetworkInterface(NetworkInterfaceConfig),
    Vsock(VsockConfig),
    /// An action, by its type.
    Action(String),
    /// A state of the VM, by its name.
    State(String),
    LoadSnapshot(LoadSnapshotRequest),
    CreateSnapshot(CreateSnapshotRequest),
}

/// One call of the API.
#[derive(Debug)]
pub struct ApiCall {
    pub method: &'static str,
    pub path: &'static str,
    pub body: ApiBody,
}

/// A client of the API on one socket.
#[derive(Debug)]
pub struct FirecrackerClient {
    pub socket_path: String,
}

fn put(path: &'static str, body: ApiBody) -> (r: ApiCall)
    ensures
        r.method@ == "PUT"@,
        r.path@ == path@,
        r.body == body,
{
    ApiCall { method: "PUT", path, body }
}

fn patch(path: &'static str, body: ApiBody) -> (r: ApiCall)
    ensures
        r.method@ == "PATCH"@,
        r.path@ == path@,
        r.body == body,
{
    ApiCall { method: "PATCH", path, body }
}

/// A call that puts `body` to `path`.
pub open spec fn puts(c: ApiCall, path: Text, body: ApiBody) -> bool {
    c.method@ == "PUT"@ && c.path@ == path && c.body == body
}

/// A call that triggers an action.
pub open spec fn triggers(c: ApiCall, action: Text) -> bool {
    &&& c.method@ == "PUT"@
    &&& c.path@ == "/actions"@
    &&& c.body matches ApiBody::Action(a)
    &&& a@ == action
}

/// A call that changes the state of the VM.
pub open spec fn changes_state(c: ApiCall, state: Text) -> bool {
    &&& c.method@ == "PATCH"@
    &&& c.path@ == "/vm"@
    &&& c.body matches ApiBody::State(s)
    &&& s@ == state
}

impl FirecrackerClient {
    pub fn new(socket_path: String) -> (r: FirecrackerClient)
        ensures
            r.socket_path == socket_path,
    {
        FirecrackerClient { socket_path }
    }

    pub fn create_vm(&self, config: MachineConfig) -> (r: ApiCall)
        ensures
            puts(r, "/machine-config"@, ApiBody::Machine(config)),
    {
        put("/machine-config", ApiBody::Machine(config))
    }

    pub fn set_kernel(&self, config: KernelConfig) -> (r: ApiCall)
        ensures
            puts(r, "/boot-source"@, ApiBody::Kernel(config)),
    {
        put("/boot-source", ApiBody::Kernel(config))
    }

    /// Adds the root drive; whatever the identifier, the drive is `rootfs`.
    pub fn add_drive(&self, _drive_id: &str, config: DriveConfig) -> (r: ApiCall)
        ensures
            puts(r, "/drives/rootfs"@, ApiBody::Drive(config)),
    {
        put("/drives/rootfs", ApiBody::Drive(config))
    }

    pub fn add_network_interface(&self, config: NetworkInterfaceConfig) -> (r: ApiCall)
        ensures
            puts(r, "/network-interfaces/eth0"@, ApiBody::NetworkInterface(config)),
    {
        put("/network-interfaces/eth0", ApiBody::NetworkInterface(config))
    }

    pub fn add_vsock(&self, config: VsockConfig) -> (r: ApiCall)
        ensures
            puts(r, "/vsock"@, ApiBody::Vsock(config)),
    {
        put("/vsock", ApiBody::Vsock(config))
    }

    pub fn start_microvm(&self) -> (r: ApiCall)
        ensures
            triggers(r, "InstanceStart"@),
    {
        put("/actions", ApiBody::Action("InstanceStart".to_owned()))
    }

    pub fn pause(&self) -> (r: ApiCall)
        ensures
            changes_state(r, "Paused"@),
    {
        patch("/vm", ApiBody::State("Paused".to_owned()))
    }

    pub fn resume(&self) -> (r: ApiCall)
        ensures
            changes_state(r, "Resumed"@),
    {
        patch("/vm", ApiBody::State("Resumed".to_owned()))
    }

    pub fn shutdown(&self) -> (r: ApiCall)
        ensures
            triggers(r, "SendCtrlAltDel"@),
    {
        put("/actions", ApiBody::Action("SendCtrlAltDel".to_owned()))
    }

    pub fn load_snapshot(&self, req: LoadSnapshotRequest) -> (r: ApiCall)
        ensures
            puts(r, "/snapshot/load"@, ApiBody::LoadSnapshot(req)),
    {
        put("/snapshot/load", ApiBody::LoadSnapshot(req))
    }

    pub fn create_snapshot(&self, req: CreateSnapshotRequest) -> (r: ApiCall)
        ensures
            puts(r, "/snapshot/create"@, ApiBody::CreateSnapshot(req)),
    {
        put("/snapshot/create", ApiBody::CreateSnapshot(req))
    }
}

// ---------------------------------------------------------------------
// The calls that set up a VM
// ---------------------------------------------------------------------

/// A call that gives a VM its processors, of whose number one byte counts, and
/// its memory.
pub open spec fn is_machine_call(c: ApiCall, vcpus: u32, memory_mib: u32) -> bool {
    puts(
        c,
        "/machine-config"@,
        ApiBody::Machine(
            MachineConfig {
                vcpu_count: vcpus as u8,
                mem_size_mib: memory_mib,
                smt: false,
                track_dirty_pages: true,
            },
        ),
    )
}

/// A call that gives a VM its kernel.
pub open spec fn is_kernel_call(c: ApiCall, kernel: Text, args: Text) -> bool {
    &&& c.method@ == "PUT"@
    &&& c.path@ == "/boot-source"@
    &&& c.body matches ApiBody::Kernel(k)
    &&& k.kernel_image_path@ == kernel
    &&& k.boot_args@ == args
}

/// A call that gives a VM its root drive, which it may only read.
pub open spec fn is_root_drive_call(c: ApiCall, rootfs: Text) -> bool {
    &&& c.method@ == "PUT"@
    &&& c.path@ == "/drives/rootfs"@
    &&& c.body matches ApiBody::Drive(d)
    &&& d.drive_id@ == "rootfs"@
    &&& d.path_on_host@ == rootfs
    &&& d.is_root_device
    &&& d.is_read_only
}

/// A call that gives a VM its network interface.
pub open spec fn is_network_call(c: ApiCall, mac: Text, tap: Text) -> bool {
    &&& c.method@ == "PUT"@
    &&& c.path@ == "/network-interfaces/eth0"@
    &&& c.body matches ApiBody::NetworkInterface(n)
    &&& n.iface_id@ == "eth0"@
    &&& n.guest_mac@ == mac
    &&& n.host_dev_name@ == tap
}

/// A call that gives a VM its vsock.
pub open spec fn is_vsock_call(c: ApiCall, cid: u32, path: Text) -> bool {
    &&& c.method@ == "PUT"@
    &&& c.path@ == "/vsock"@
    &&& c.body matches ApiBody::Vsock(v)
    &&& v.guest_cid == cid
    &&& v.uds_path@ == path
}

/// A call that loads a snapshot from files.
pub open spec fn is_load_call(c: ApiCall, state: Text, mem: Text, resume: bool) -> bool {
    &&& c.method@ == "PUT"@
    &&& c.path@ == "/snapshot/load"@
    &&& c.body matches ApiBody::LoadSnapshot(l)
    &&& l.snapshot_path@ == state
    &&& l.mem_backend.backend_type@ == "File"@
    &&& l.mem_backend.backend_path@ == mem
    &&& l.resume_vm == resume
}

/// A call that takes a full snapshot.
pub open spec fn is_snapshot_call(c: ApiCall, state: Text, mem: Text) -> bool {
    &&& c.method@ == "PUT"@
    &&& c.path@ == "/snapshot/create"@
    &&& c.body matches ApiBody::CreateSnapshot(s)
    &&& s.snapshot_type@ == "Full"@
    &&& s.snapshot_path@ == state
    &&& s.mem_file_path@ == mem
}

impl FirecrackerClient {
    pub fn machine_call(&self, vcpus: u32, memory_mib: u32) -> (r: ApiCall)
        ensures
            is_machine_call(r, vcpus, memory_mib),
    {
        self.create_vm(
            MachineConfig {
                vcpu_count: vcpus as u8,
                mem_size_mib: memory_mib,
                smt: false,
                track_dirty_pages: true,
            },
        )
    }

    pub fn kernel_call(&self, kernel: &str, args: &str) -> (r: ApiCall)
        ensures
            is_kernel_call(r, kernel@, args@),
    {
        self.set_kernel(
            KernelConfig { kernel_image_path: kernel.to_owned(), boot_args: args.to_owned() },
        )
    }

    pub fn root_drive_call(&self, rootfs: &str) -> (r: ApiCall)
        ensures
            is_root_drive_call(r, rootfs@),
    {
        self.add_drive(
            "rootfs",
            DriveConfig {
                drive_id: "rootfs".to_owned(),
                path_on_host: rootfs.to_owned(),
                is_root_device: true,
                is_read_only: true,
            },
        )
    }

    pub fn network_call(&self, mac: &str, tap: &str) -> (r: ApiCall)
        ensures
            is_network_call(r, mac@, tap@),
    {
        self.add_network_interface(
            NetworkInterfaceConfig {
                iface_id: "eth0".to_owned(),
                guest_mac: mac.to_owned(),
                host_dev_name: tap.to_owned(),
            },
        )
    }

    pub fn vsock_call(&self, cid: u32, path: &str) -> (r: ApiCall)
        ensures
            is_vsock_call(r, cid, path@),
    {
        self.add_vsock(VsockConfig { guest_cid: cid, uds_path: path.to_owned() })
    }

    pub fn load_call(&self, state: &str, mem: &str, resume: bool) -> (r: ApiCall)
        ensures
            is_load_call(r, state@, mem@, resume),
    {
        self.load_snapshot(
            LoadSnapshotRequest {
                snapshot_path: state.to_owned(),
                mem_backend: MemBackendConfig {
                    backend_type: "File".to_owned(),
                    backend_path: mem.to_owned(),
                },
                resume_vm: resume,
            },
        )
    }

    pub fn snapshot_call(&self, state: &str, mem: &str) -> (r: ApiCall)
        ensures
            is_snapshot_call(r, state@, mem@),
    {
        self.create_snapshot(
            CreateSnapshotRequest {
                snapshot_type: "Full".to_owned(),
                snapshot_path: state.to_owned(),
                mem_file_path: mem.to_owned(),
            },
        )
    }
}

// ---------------------------------------------------------------------
// Waiting for the socket
// ---------------------------------------------------------------------

/// What to do while the socket of the API is awaited.
#[derive(Debug)]
pub enum SocketWait {
    Ready,
    /// Look again a little later.
    Again,
    GiveUp(CofferError),
}

/// The error of a socket that did not appear.
pub open spec fn no_socket(path: Text, timeout: Text) -> ErrorView {
    ErrorView::Firecracker("Socket "@ + path + " did not appear within "@ + timeout)
}

/// The error of a socket that did not appear, given the text of the time limit.
pub fn socket_missing(path: &str, timeout: &str) -> (r: CofferError)
    ensures
        r@ == no_socket(path@, timeout@),
{
    CofferError::Firecracker(cat4("Socket ", path, " did not appear within ", timeout))
}

/// What to do while the socket of the API is awaited. It is looked for only
/// within the time limit.
pub fn wait_for_socket(path: &str, exists: bool, elapsed_ms: u64, timeout_ms: u64) -> (r: SocketWait)
    ensures
        elapsed_ms < timeout_ms && exists ==> r is Ready,
        elapsed_ms < timeout_ms && !exists ==> r is Again,
        elapsed_ms >= timeout_ms ==> (r matches SocketWait::GiveUp(e) && e@ == no_socket(
            path@,
            millis(timeout_ms as nat),
        )),
{
    if elapsed_ms >= timeout_ms {
        let limit = millis_text(timeout_ms);
        SocketWait::GiveUp(socket_missing(path, limit.as_str()))
    } else if exists {
        SocketWait::Ready
    } else {
        SocketWait::Again
    }
}

// ---------------------------------------------------------------------
// Requests
// ---------------------------------------------------------------------

/// The head of a request with a body of `len` bytes.
pub open spec fn head_text(method: Text, path: Text, len: nat) -> Text {
    method + " "@ + path
        + " HTTP/1.1\r\nHost: localhost\r\nContent-Type: application/json\r\nContent-Length: "@ + dec(
        len,
    ) + "\r\nConnection: close\r\n\r\n"@
}

/// The head of a request with a body of `len` bytes.
pub fn request_head(method: &str, path: &str, len: usize) -> (r: String)
    ensures
        r@ == head_text(method@, path@, len as nat),
{
    let mut r = cat5(
        method,
        " ",
        path,
        " HTTP/1.1\r\nHost: localhost\r\nContent-Type: application/json\r\nContent-Length: ",
        dec_text(len as u64).as_str(),
    );
    r.append("\r\nConnection: close\r\n\r\n");
    r
}

/// The bytes of a request: its head, then its body where it has one.
pub fn request_bytes(method: &str, path: &str, body: Option<Vec<u8>>) -> (r: Vec<u8>)
    ensures
        r@ == match body {
            Some(b) => encode_utf8(head_text(method@, path@, b@.len())) + b@,
            None => encode_utf8(head_text(method@, path@, 0)),
        },
{
    match body {
        Some(b) => {
            let mut r = request_head(method, path, b.len()).as_str().as_bytes_vec();
            let mut b = b;
            r.append(&mut b);
            r
        },
        None => request_head(method, path, 0).as_str().as_bytes_vec(),
    }
}

// ---------------------------------------------------------------------
// Answers
// ---------------------------------------------------------------------

/// The empty line that ends the head of an answer, with the line break before
/// it, stands at `i`.
pub open spec fn blank_line_at(s: Seq<u8>, i: int) -> bool {
    occurs_at(s, seq![13u8, 10u8, 13u8, 10u8], i)
}

/// Where the head of an answer ends, looking from `i` on.
pub open spec fn head_end_from(s: Seq<u8>, i: int) -> Option<int>
    decreases s.len() - i,
{
    if i < 0 || i + 4 > s.len() {
        None
    } else if blank_line_at(s, i) {
        Some(i)
    } else {
        head_end_from(s, i + 1)
    }
}

/// Where the head of an answer ends: before the first empty line.
pub open spec fn head_end(s: Seq<u8>) -> Option<int> {
    head_end_from(s, 0)
}

/// The position of the first empty line, counted from the line break before it.
pub fn find_crlf2(buf: &[u8]) -> (r: Option<usize>)
    ensures
        match r {
            Some(i) => head_end(buf@) == Some(i as int) && i + 4 <= buf@.len(),
            None => head_end(buf@) is None,
        },
{
    let end: usize = buf.len();
    if end < 4 {
        return None;
    }
    let mut i: usize = 0;
    while i <= end - 4
        invariant
            end == buf@.len(),
            end >= 4,
            i <= end - 3,
            head_end(buf@) == head_end_from(buf@, i as int),
        decreases end - i,
    {
        let found = buf[i] == 13 && buf[i + 1] == 10 && buf[i + 2] == 13 && buf[i + 3] == 10;
        proof {
            let w = buf@.subrange(i as int, i + 4);
            let b = seq![13u8, 10u8, 13u8, 10u8];
            if found {
                assert(w =~= b);
            } else if w == b {
                assert(w[0] == b[0] && w[1] == b[1] && w[2] == b[2] && w[3] == b[3]);
            }
        }
        if found {
            return Some(i);
        }
        i = i + 1;
    }
    None
}

/// Whether a line gives the length of the body, in letters of either case.
pub open spec fn is_length_line(line: Text) -> bool {
    &&& line.len() >= 15
    &&& line.take(15).map_values(|c: char| ascii_lower(c)) == "content-length:"@
}

/// The length of the body that the lines of a head give: the first line that
/// speaks of it decides.
pub open spec fn length_in(lines: Seq<Text>) -> Option<nat>
    decreases lines.len(),
{
    if lines.len() == 0 {
        None
    } else if is_length_line(lines[0]) {
        parsed(trimmed(lines[0].skip(15)), 10, usize::MAX as nat)
    } else {
        length_in(lines.drop_first())
    }
}

/// The length of the body that a head gives.
pub open spec fn content_length(headers: Text) -> Option<nat> {
    length_in(lines_of(headers))
}

fn length_line(cs: &Vec<char>) -> (r: bool)
    ensures
        r == is_length_line(cs@),
{
    let name = chars_of("content-length:");
    proof {
        reveal_strlit("content-length:");
    }
    if cs.len() < 15 {
        return false;
    }
    let ghost low = cs@.take(15).map_values(|c: char| ascii_lower(c));
    let mut i: usize = 0;
    while i < 15
        invariant
            i <= 15,
            cs@.len() >= 15,
            name@ == "content-length:"@,
            name@.len() == 15,
            low == cs@.take(15).map_values(|c: char| ascii_lower(c)),
            forall|j: int| 0 <= j < i ==> low[j] == name@[j],
        decreases 15 - i,
    {
        if lower(cs[i]) != name[i] {
            assert(low[i as int] != name@[i as int]);
            return false;
        }
        i = i + 1;
    }
    assert(low =~= name@);
    true
}

/// The length of the body that the head of an answer gives, if it gives one.
pub fn parse_content_length(headers: &str) -> (r: Option<usize>)
    ensures
        match r {
            Some(n) => content_length(headers@) == Some(n as nat),
            None => content_length(headers@) is None,
        },
{
    let lines = split_lines(headers);
    let mut i: usize = 0;
    assert(strs(lines@).skip(0) =~= strs(lines@));
    while i < lines.len()
        invariant
            i <= lines@.len(),
            strs(lines@) == lines_of(headers@),
            length_in(strs(lines@).skip(i as int)) == content_length(headers@),
        decreases lines@.len() - i,
    {
        let cs = chars_of(lines[i].as_str());
        assert(strs(lines@).skip(i as int)[0] == cs@);
        assert(strs(lines@).skip(i as int).drop_first() =~= strs(lines@).skip(i + 1));
        if length_line(&cs) {
            let value = text_of(&cs, 15, cs.len());
            assert(value@ =~= cs@.skip(15));
            return match parse_text(trim_text(value.as_str()).as_str(), 10, usize::MAX as u64) {
                Some(n) => Some(n as usize),
                None => None,
            };
        }
        i = i + 1;
    }
    None
}

/// The text of UTF-8 bytes; of other bytes, nothing.
pub open spec fn utf8_or_empty(bytes: Seq<u8>) -> Text {
    if valid_utf8(bytes) {
        decode_utf8(bytes)
    } else {
        seq![]
    }
}

fn text_or_empty(bytes: &[u8]) -> (r: String)
    ensures
        r@ == utf8_or_empty(bytes@),
{
    match utf8_str(bytes) {
        Some(s) => {
            proof {
                encode_utf8_decode_utf8(s@);
            }
            s.to_owned()
        },
        None => {
            let r = String::new();
            assert(r@ =~= Seq::<char>::empty());
            r
        },
    }
}

/// Whether an answer is complete: its head has ended, and the body has the
/// length that the head gives, where it gives one.
pub open spec fn is_complete(response: Seq<u8>) -> bool {
    match head_end(response) {
        Some(h) => match content_length(utf8_or_empty(response.take(h))) {
            Some(n) => response.len() >= h + 4 + n,
            None => true,
        },
        None => false,
    }
}

/// Whether nothing more of an answer needs to be read.
pub fn response_complete(response: &[u8]) -> (r: bool)
    ensures
        r == is_complete(response@),
{
    match find_crlf2(response) {
        Some(h) => {
            let head = slice_subrange(response, 0, h);
            assert(head@ =~= response@.take(h as int));
            match parse_content_length(text_or_empty(head).as_str()) {
                Some(n) => n <= response.len() - (h + 4),
                None => true,
            }
        },
        None => false,
    }
}

/// The first of some lines, or nothing.
pub open spec fn first_or_empty(lines: Seq<Text>) -> Text {
    if lines.len() > 0 {
        lines[0]
    } else {
        seq![]
    }
}

/// The first line of an answer; empty where the head has not ended.
pub open spec fn status_line(response: Seq<u8>) -> Text {
    match head_end(response) {
        Some(h) => first_or_empty(lines_of(utf8_or_empty(response.take(h)))),
        None => seq![],
    }
}

/// Where the body of an answer begins.
pub open spec fn body_start(response: Seq<u8>) -> int {
    match head_end(response) {
        Some(h) => h + 4,
        None => 4,
    }
}

/// Whether a status line tells of success.
pub open spec fn is_success(status: Text) -> bool {
    occurs(status, " 2"@)
}

/// The error that a call of `path` ends with.
pub open spec fn call_error(path: Text, status: Text, body: Text) -> ErrorView {
    ErrorView::Firecracker(path + " -> "@ + status + ": "@ + body)
}

/// The outcome of a call of `path`, from the status line and the text of the
/// body of its answer.
pub fn call_outcome(path: &str, status: &str, body: &str) -> (r: Result<(), CofferError>)
    ensures
        r is Ok <==> is_success(status@),
        r matches Err(e) ==> e@ == call_error(path@, status@, body@),
{
    if contains_text(status, " 2") {
        Ok(())
    } else {
        Err(CofferError::Firecracker(cat5(path, " -> ", status, ": ", body)))
    }
}

/// The outcome of a call of `path`, from its answer.
pub fn check_response(path: &str, response: &[u8]) -> (r: Result<(), CofferError>)
    ensures
        r is Ok <==> is_success(status_line(response@)),
        r matches Err(e) ==> e@ == call_error(
            path@,
            status_line(response@),
            if body_start(response@) < response@.len() {
                lossy(response@.skip(body_start(response@)))
            } else {
                seq![]
            },
        ),
{
    let size: usize = response.len();
    let end = find_crlf2(response);
    let status: String = match end {
        Some(h) => {
            let head = slice_subrange(response, 0, h);
            assert(head@ =~= response@.take(h as int));
            let lines = split_lines(text_or_empty(head).as_str());
            if lines.len() > 0 {
                assert(strs(lines@)[0] == lines@[0]@);
                lines[0].clone()
            } else {
                String::new()
            }
        },
        None => String::new(),
    };
    assert(status@ =~= status_line(response@));
    let start: usize = match end {
        Some(h) => {
            assert(h + 4 <= size);
            h + 4
        },
        None => 4,
    };
    let body = if start < size {
        let rest = slice_subrange(response, start, size);
        assert(rest@ =~= response@.skip(start as int));
        lossy_text(rest)
    } else {
        let b = String::new();
        assert(b@ =~= Seq::<char>::empty());
        b
    };
    call_outcome(path, status.as_str(), body.as_str())
}

// ---------------------------------------------------------------------
// Laws
// ---------------------------------------------------------------------

/// The head ends at the first empty line: one stands there, and none before.
pub proof fn law_head_ends_at_first(s: Seq<u8>)
    ensures
        match head_end(s) {
            Some(h) => 0 <= h && h + 4 <= s.len() && blank_line_at(s, h) && (forall|j: int|
                0 <= j < h ==> !blank_line_at(s, j)),
            None => forall|j: int| !blank_line_at(s, j),
        },
{
    lemma_head_end_from(s, 0);
}

proof fn lemma_head_end_from(s: Seq<u8>, i: int)
    requires
        0 <= i,
        forall|j: int| 0 <= j < i ==> !blank_line_at(s, j),
    ensures
        match head_end_from(s, i) {
            Some(h) => i <= h && h + 4 <= s.len() && blank_line_at(s, h) && (forall|j: int|
                0 <= j < h ==> !blank_line_at(s, j)),
            None => forall|j: int| !blank_line_at(s, j),
        },
    decreases s.len() - i,
{
    if i + 4 <= s.len() && !blank_line_at(s, i) {
        lemma_head_end_from(s, i + 1);
    }
}

/// More bytes never move the end of the head.
pub proof fn law_head_end_stable(s: Seq<u8>, more: Seq<u8>)
    requires
        head_end(s) is Some,
    ensures
        head_end(s + more) == head_end(s),
{
    law_head_ends_at_first(s);
    law_head_ends_at_first(s + more);
    let t = s + more;
    let h = head_end(s).unwrap();
    assert forall|j: int| 0 <= j && j + 4 <= s.len() implies blank_line_at(t, j) == blank_line_at(
        s,
        j,
    ) by {
        assert(t.subrange(j, j + 4) =~= s.subrange(j, j + 4));
    }
    assert(blank_line_at(t, h));
}

/// An answer once complete stays complete.
pub proof fn law_complete_stable(s: Seq<u8>, more: Seq<u8>)
    requires
        is_complete(s),
    ensures
        is_complete(s + more),
        status_line(s + more) == status_line(s),
{
    law_head_end_stable(s, more);
    law_head_ends_at_first(s);
    let h = head_end(s).unwrap();
    assert((s + more).take(h) =~= s.take(h));
}

proof fn lemma_trim_digits(s: Text)
    requires
        all_digits(s, 10),
    ensures
        trimmed(seq![' '] + s) == s,
{
    let t = seq![' '] + s;
    assert(t.drop_first() =~= s);
    assert(is_space(t[0]));
    assert(!is_space(s[0]));
    assert(trim_start(s) == s);
    assert(trim_start(t) == s);
    assert(!is_space(s.last()));
}

/// The length that a request states is the length that is read: a line with a
/// length is understood, wherever it stands behind lines on other matters.
pub proof fn law_length_round_trip(before: Seq<Text>, n: nat, after: Seq<Text>)
    requires
        n <= usize::MAX,
        forall|i: int| 0 <= i < before.len() ==> !is_length_line(#[trigger] before[i]),
    ensures
        length_in(before + seq!["Content-Length: "@ + dec(n)] + after) == Some(n),
    decreases before.len(),
{
    let line = "Content-Length: "@ + dec(n);
    let lines = before + seq![line] + after;
    if before.len() == 0 {
        assert(lines[0] == line);
        reveal_strlit("Content-Length: ");
        reveal_strlit("content-length:");
        assert(line.take(15).map_values(|c: char| ascii_lower(c)) =~= "content-length:"@);
        assert(line.skip(15) =~= seq![' '] + dec(n));
        lemma_dec_digits(n);
        lemma_trim_digits(dec(n));
        law_parse_printed(n, usize::MAX as nat);
    } else {
        assert(lines[0] == before[0]);
        let tl = before.drop_first();
        assert forall|i: int| 0 <= i < tl.len() implies !is_length_line(#[trigger] tl[i]) by {
            assert(tl[i] == before[i + 1]);
        }
        law_length_round_trip(tl, n, after);
        assert(lines.drop_first() =~= tl + seq![line] + after);
    }
}

/// A request is what it says: it begins with its method and its path, states the
/// length of its body in decimal digits, and after an empty line comes exactly the
/// body.
pub proof fn law_request_carries_the_body(
    method: &str,
    path: &str,
    body: Option<Vec<u8>>,
    r: Vec<u8>,
    head: Text,
    before: Text,
    digits: Text,
    after: Text,
)
    requires
        call_ensures(request_bytes, (method, path, body), r),
        body matches Some(b) ==> digits == dec(b@.len()),
        body is None ==> digits == dec(0),
        before == method@ + " "@ + path@
            + " HTTP/1.1\r\nHost: localhost\r\nContent-Type: application/json\r\n"@,
        after == "\r\nConnection: close\r\n\r\n"@,
        head == before + "Content-Length: "@ + digits + after,
    ensures
        body matches Some(b) ==> r@ == encode_utf8(head) + b@ && (b@.len() <= usize::MAX ==> parsed(
            digits,
            10,
            usize::MAX as nat,
        ) == Some(b@.len())),
        body is None ==> r@ == encode_utf8(head) && parsed(digits, 10, usize::MAX as nat) == Some(
            0nat,
        ),
{
    reveal_strlit(" HTTP/1.1\r\nHost: localhost\r\nContent-Type: application/json\r\n");
    reveal_strlit("Content-Length: ");
    reveal_strlit(
        " HTTP/1.1\r\nHost: localhost\r\nContent-Type: application/json\r\nContent-Length: ",
    );
    assert(" HTTP/1.1\r\nHost: localhost\r\nContent-Type: application/json\r\n"@
        + "Content-Length: "@
        =~= " HTTP/1.1\r\nHost: localhost\r\nContent-Type: application/json\r\nContent-Length: "@);
    law_parse_printed(0, usize::MAX as nat);
    match body {
        Some(b) => {
            if b@.len() <= usize::MAX {
                law_parse_printed(b@.len(), usize::MAX as nat);
            }
            assert(head_text(method@, path@, b@.len()) =~= head);
        },
        None => {
            assert(head_text(method@, path@, 0) =~= head);
        },
    }
}

/// A call has succeeded if and only if its status begins with a two; else the
/// error names the call and ends with what the answer said.
pub proof fn law_call_outcome(path: &str, status: &str, body: &str, r: Result<(), CofferError>)
    requires
        call_ensures(call_outcome, (path, status, body), r),
    ensures
        r is Ok <==> exists|i: int|
            0 <= i < status@.len() - 1 && #[trigger] status@[i] == ' ' && status@[i + 1] == '2',
        r matches Err(e) ==> (e@ matches ErrorView::Firecracker(m) && path@.is_prefix_of(m)
            && body@.is_suffix_of(m) && occurs(m, status@)),
{
    reveal_strlit(" 2");
    let s = status@;
    if occurs(s, " 2"@) {
        let i = choose|i: int| occurs_at(s, " 2"@, i);
        assert(s.subrange(i, i + 2)[0] == ' ');
        assert(s.subrange(i, i + 2)[1] == '2');
        assert(s[i] == ' ' && s[i + 1] == '2');
    }
    if exists|i: int| 0 <= i < s.len() - 1 && #[trigger] s[i] == ' ' && s[i + 1] == '2' {
        let i = choose|i: int| 0 <= i < s.len() - 1 && #[trigger] s[i] == ' ' && s[i + 1] == '2';
        assert(s.subrange(i, i + 2) =~= " 2"@);
        assert(occurs_at(s, " 2"@, i));
    }
    if r is Err {
        let m = r->Err_0@->Firecracker_0;
        assert(m.subrange(0, path@.len() as int) =~= path@);
        assert(m.subrange(m.len() - body@.len(), m.len() as int) =~= body@);
        let i = path@.len() as int + " -> "@.len();
        assert(m.subrange(i, i + s.len()) =~= s);
        assert(occurs_at(m, s, i));
    }
}

/// The socket is taken as ready only where it is there in time, and given up only
/// once the time has passed.
pub proof fn law_socket_is_awaited(
    path: &str,
    exists: bool,
    elapsed_ms: u64,
    timeout_ms: u64,
    r: SocketWait,
)
    requires
        call_ensures(wait_for_socket, (path, exists, elapsed_ms, timeout_ms), r),
    ensures
        r is Ready <==> exists && elapsed_ms < timeout_ms,
        r is GiveUp <==> elapsed_ms >= timeout_ms,
        r matches SocketWait::GiveUp(e) ==> (e@ matches ErrorView::Firecracker(m) && occurs(m, path@)),
{
    if r is GiveUp {
        let m = r->GiveUp_0@->Firecracker_0;
        let i = "Socket "@.len() as int;
        assert(m.subrange(i, i + path@.len()) =~= path@);
        assert(occurs_at(m, path@, i));
    }
}

/// A head that holds no empty line, also together with the line break behind it.
pub open spec fn is_head(head: Seq<u8>) -> bool {
    let front = head.push(13u8).push(10u8).push(13u8);
    forall|j: int| !#[trigger] blank_line_at(front, j)
}

proof fn lemma_no_earlier(head: Seq<u8>, body: Seq<u8>, j: int)
    requires
        is_head(head),
        0 <= j < head.len(),
    ensures
        !blank_line_at(head + seq![13u8, 10u8, 13u8, 10u8] + body, j),
{
    let front = head.push(13u8).push(10u8).push(13u8);
    let s = head + seq![13u8, 10u8, 13u8, 10u8] + body;
    assert(front.subrange(j, j + 4) =~= s.subrange(j, j + 4));
    assert(!blank_line_at(front, j));
}

proof fn lemma_stands_behind(head: Seq<u8>, body: Seq<u8>)
    ensures
        blank_line_at(head + seq![13u8, 10u8, 13u8, 10u8] + body, head.len() as int),
{
    let s = head + seq![13u8, 10u8, 13u8, 10u8] + body;
    let h = head.len() as int;
    assert(s.subrange(h, h + 4) =~= seq![13u8, 10u8, 13u8, 10u8]);
}

proof fn lemma_head_at(s: Seq<u8>, h: int)
    requires
        0 <= h,
        blank_line_at(s, h),
        forall|j: int| 0 <= j < h ==> !#[trigger] blank_line_at(s, j),
    ensures
        head_end(s) == Some(h),
{
    law_head_ends_at_first(s);
    let x = head_end(s);
    assert(x is Some);
    let y = x->Some_0;
    assert(blank_line_at(s, y));
    assert(!(y < h));
    assert(!(h < y));
}

#[verifier::rlimit(40)]
proof fn lemma_head_end(head: Seq<u8>, body: Seq<u8>)
    requires
        is_head(head),
    ensures
        head_end(head + seq![13u8, 10u8, 13u8, 10u8] + body) == Some(head.len() as int),
{
    let s = head + seq![13u8, 10u8, 13u8, 10u8] + body;
    lemma_stands_behind(head, body);
    assert forall|j: int| 0 <= j < head.len() implies !#[trigger] blank_line_at(s, j) by {
        lemma_no_earlier(head, body, j);
    }
    lemma_head_at(s, head.len() as int);
}

/// An answer that has a head with a length is complete as soon as so many bytes
/// follow the empty line behind the head, and not before; one without a length is
/// complete with its head.
pub proof fn law_answer_is_complete(
    head: Seq<u8>,
    body: Seq<u8>,
    answer: &[u8],
    r: bool,
    at: Option<usize>,
)
    requires
        is_head(head),
        answer@ == head + seq![13u8, 10u8, 13u8, 10u8] + body,
        call_ensures(response_complete, (answer,), r),
        call_ensures(find_crlf2, (answer,), at),
    ensures
        at matches Some(n) && n == head.len(),
        content_length(utf8_or_empty(head)) matches Some(n) ==> (r <==> body.len() >= n),
        content_length(utf8_or_empty(head)) is None ==> r,
{
    let s = answer@;
    let h = head.len() as int;
    lemma_head_end(head, body);
    assert(s.take(h) =~= head);
}

/// Whether a call has succeeded is read off the first line of its answer; of a
/// failure the body is told.
pub proof fn law_answer_is_read(
    path: &str,
    head: Seq<u8>,
    body: Seq<u8>,
    answer: &[u8],
    r: Result<(), CofferError>,
)
    requires
        is_head(head),
        answer@ == head + seq![13u8, 10u8, 13u8, 10u8] + body,
        call_ensures(check_response, (path, answer), r),
        lines_of(utf8_or_empty(head)).len() > 0,
    ensures
        r is Ok <==> occurs(lines_of(utf8_or_empty(head))[0], " 2"@),
        r matches Err(e) ==> (e@ matches ErrorView::Firecracker(m) && path@.is_prefix_of(m) && (
        body.len() > 0 ==> lossy(body).is_suffix_of(m))),
{
    let s = answer@;
    let h = head.len() as int;
    lemma_head_end(head, body);
    assert(s.take(h) =~= head);
    assert(s.skip(h + 4) =~= body);
    if r is Err {
        let m = r->Err_0@->Firecracker_0;
        assert(m.subrange(0, path@.len() as int) =~= path@);
        if body.len() > 0 {
            let t = lossy(body);
            assert(m.subrange(m.len() - t.len(), m.len() as int) =~= t);
        }
    }
}

/// The length of a body is read in letters of either case.
pub proof fn law_length_in_any_case(name: Text, n: nat, headers: &str, r: Option<usize>)
    requires
        name.len() == 15,
        forall|i: int| 0 <= i < 15 ==> ascii_lower(#[trigger] name[i]) == "content-length:"@[i],
        n <= usize::MAX,
        headers@ == name + seq![' '] + dec(n),
        call_ensures(parse_content_length, (headers,), r),
    ensures
        r == Some(n as usize),
{
    reveal_strlit("content-length:");
    let s = headers@;
    lemma_dec_digits(n);
    let d = dec(n);
    assert forall|j: int| 0 <= j < s.len() implies s[j] != '\n' by {
        if j < 15 {
            assert(s[j] == name[j]);
        } else if j > 15 {
            assert(s[j] == d[j - 16]);
        }
    }
    crate::text::lemma_first_index_is(s, '\n', s.len() as int);
    assert(lines_of(s) == seq![s]);
    assert(s.take(15).map_values(|c: char| ascii_lower(c)) =~= "content-length:"@);
    assert(s.skip(15) =~= seq![' '] + d);
    lemma_trim_digits(d);
    law_parse_printed(n, usize::MAX as nat);
}

} // verus!
