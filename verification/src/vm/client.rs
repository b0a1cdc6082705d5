//! The calls of the Firecracker API that a managed VM makes, and the reading of
//! their answers.

use vstd::prelude::*;

use crate::error::{CofferError, ErrorView};
use crate::platform::{lossy, lossy_text};
use crate::text::{cat2, Text};

verus! {

broadcast use vstd::string::group_string_axioms;

#[derive(Debug, Clone)]
pub struct BootSource {
    pub kernel_image_path: String,
    pub boot_args: Option<String>,
    pub initrd_path: Option<String>,
}

#[derive(Debug, Clone)]
pub struct Drive {
    pub drive_id: String,
    pub path_on_host: String,
    pub is_root_device: bool,
    pub is_read_only: bool,
    pub cache_type: Option<String>,
    pub partuuid: Option<String>,
}

#[derive(Debug, Clone)]
pub struct MachineConfig {
    pub vcpu_count: u32,
    pub mem_size_mib: u32,
    pub smt: Option<bool>,
    pub track_dirty_pages: Option<bool>,
    pub huge_pages: Option<String>,
}

#[derive(Debug, Clone)]
pub struct NetworkInterface {
    pub iface_id: String,
    pub host_dev_name: String,
    pub guest_mac: String,
}

#[derive(Debug, Clone)]
pub struct Vsock {
    pub guest_cid: u32,
    pub uds_path: String,
}

#[derive(Debug, Clone)]
pub struct Action {
    pub action_type: ActionType,
}

#[derive(Debug, Clone, Copy, PartialEq, Eq, Structural)]
pub enum ActionType {
    InstanceStart,
    SendCtrlAltDel,
    FlushMetrics,
}

#[derive(Debug, Clone)]
pub struct SnapshotCreate {
    pub snapshot_type: SnapshotType,
    pub snapshot_path: String,
    pub mem_file_path: String,
}

#[derive(Debug, Clone, Copy, PartialEq, Eq, Structural)]
pub enum SnapshotType {
    Full,
    Diff,
}

#[derive(Debug, Clone)]
pub struct SnapshotLoad {
    pub snapshot_path: String,
    pub mem_backend: MemBackend,
    pub track_dirty_pages: Option<bool>,
    pub resume_vm: Option<bool>,
    pub enable_diff_snapshots: Option<bool>,
}

#[derive(Debug, Clone)]
pub struct MemBackend {
    pub backend_type: MemBackendType,
    pub backend_path: String,
}

#[derive(Debug, Clone, Copy, PartialEq, Eq, Structural)]
pub enum MemBackendType {
    File,
    Uffd,
}

#[derive(Debug, Clone)]
pub struct VmState {
    pub state: VmStateEnum,
}

#[derive(Debug, Clone, Copy, PartialEq, Eq, Structural)]
pub enum VmStateEnum {
    Resumed,
    Paused,
}

/// The method of a call.
#[derive(Debug, Clone, Copy, PartialEq, Eq, Structural)]
pub enum Method {
    Get,
    Put,
    Patch,
}

/// What a call carries.
#[derive(Debug)]
pub enum VmBody {
    BootSource(BootSource),
    Drive(Drive),
    Machine(MachineConfig),
    NetworkInterface(NetworkInterface),
    Vsock(Vsock),
    Action(Action),
    SnapshotCreate(SnapshotCreate),
    SnapshotLoad(SnapshotLoad),
    State(VmState),
    Nothing,
}

/// One call of the API.
#[derive(Debug)]
pub struct VmCall {
    pub method: Method,
    pub path: String,
    pub body: VmBody,
}

/// A call that is exactly this one.
pub open spec fn is_call(c: VmCall, method: Method, path: Text, body: VmBody) -> bool {
    c.method == method && c.path@ == path && c.body == body
}

/// What a successful call answers.
#[derive(Debug)]
pub enum ApiReply {
    /// Nothing.
    Empty,
    /// A document.
    Json(Vec<u8>),
}

/// A client of the API on one socket.
#[derive(Debug, Clone)]
pub struct FirecrackerClient {
    pub socket_path: String,
}

fn call(method: Method, path: &str, body: VmBody) -> (r: VmCall)
    ensures
        is_call(r, method, path@, body),
{
    VmCall { method, path: path.to_owned(), body }
}

/// Whether a status is one of success.
pub open spec fn is_success(status: u16) -> bool {
    200 <= status < 300
}

impl FirecrackerClient {
    pub fn new(socket_path: &str) -> (r: FirecrackerClient)
        ensures
            r.socket_path@ == socket_path@,
    {
        FirecrackerClient { socket_path: socket_path.to_owned() }
    }

    pub fn put_boot_source(&self, config: BootSource) -> (r: VmCall)
        ensures
            is_call(r, Method::Put, "/boot-source"@, VmBody::BootSource(config)),
    {
        call(Method::Put, "/boot-source", VmBody::BootSource(config))
    }

    pub fn put_drive(&self, drive_id: &str, config: Drive) -> (r: VmCall)
        ensures
            is_call(r, Method::Put, "/drives/"@ + drive_id@, VmBody::Drive(config)),
    {
        call(Method::Put, cat2("/drives/", drive_id).as_str(), VmBody::Drive(config))
    }

    pub fn put_machine_config(&self, config: MachineConfig) -> (r: VmCall)
        ensures
            is_call(r, Method::Put, "/machine-config"@, VmBody::Machine(config)),
    {
        call(Method::Put, "/machine-config", VmBody::Machine(config))
    }

    pub fn put_network_interface(&self, iface_id: &str, config: NetworkInterface) -> (r: VmCall)
        ensures
            is_call(
                r,
                Method::Put,
                "/network-interfaces/"@ + iface_id@,
                VmBody::NetworkInterface(config),
            ),
    {
        call(
            Method::Put,
            cat2("/network-interfaces/", iface_id).as_str(),
            VmBody::NetworkInterface(config),
        )
    }

    pub fn put_vsock(&self, config: Vsock) -> (r: VmCall)
        ensures
            is_call(r, Method::Put, "/vsock"@, VmBody::Vsock(config)),
    {
        call(Method::Put, "/vsock", VmBody::Vsock(config))
    }

    pub fn put_action(&self, action: Action) -> (r: VmCall)
        ensures
            is_call(r, Method::Put, "/actions"@, VmBody::Action(action)),
    {
        call(Method::Put, "/actions", VmBody::Action(action))
    }

    pub fn create_snapshot(&self, req: SnapshotCreate) -> (r: VmCall)
        ensures
            is_call(r, Method::Put, "/snapshot/create"@, VmBody::SnapshotCreate(req)),
    {
        call(Method::Put, "/snapshot/create", VmBody::SnapshotCreate(req))
    }

    pub fn load_snapshot(&self, req: SnapshotLoad) -> (r: VmCall)
        ensures
            is_call(r, Method::Put, "/snapshot/load"@, VmBody::SnapshotLoad(req)),
    {
        call(Method::Put, "/snapshot/load", VmBody::SnapshotLoad(req))
    }

    pub fn patch_vm_state(&self, state: VmState) -> (r: VmCall)
        ensures
            is_call(r, Method::Patch, "/vm"@, VmBody::State(state)),
    {
        call(Method::Patch, "/vm", VmBody::State(state))
    }

    pub fn get_machine_config(&self) -> (r: VmCall)
        ensures
            is_call(r, Method::Get, "/machine-config"@, VmBody::Nothing),
    {
        call(Method::Get, "/machine-config", VmBody::Nothing)
    }
}

/// The outcome of a call that was answered with another status than success.
pub fn status_error(status: u16, message: &str) -> (r: CofferError)
    ensures
        r@ == (ErrorView::FirecrackerStatus { status, message: message@ }),
{
    CofferError::FirecrackerStatus { status, message: message.to_owned() }
}

/// The outcome of a call, from the status and the body of its answer: a success
/// hands the body on, if there is one; any other status is an error with the
/// text of the body.
pub fn call_outcome(status: u16, body: Vec<u8>) -> (r: Result<ApiReply, CofferError>)
    ensures
        r is Ok <==> is_success(status),
        is_success(status) && body@.len() == 0 ==> r == Ok::<ApiReply, CofferError>(
            ApiReply::Empty,
        ),
        is_success(status) && body@.len() > 0 ==> r == Ok::<ApiReply, CofferError>(
            ApiReply::Json(body),
        ),
        r matches Err(e) ==> e@ == (ErrorView::FirecrackerStatus { status, message: lossy(body@) }),
{
    if 200 <= status && status < 300 {
        if body.len() == 0 {
            Ok(ApiReply::Empty)
        } else {
            Ok(ApiReply::Json(body))
        }
    } else {
        let message = lossy_text(body.as_slice());
        Err(status_error(status, message.as_str()))
    }
}

/// The error of a request that could not be made.
pub fn request_failed(reason: &str) -> (r: CofferError)
    ensures
        r@ == ErrorView::Internal("HTTP request failed: "@ + reason@),
{
    CofferError::Internal(cat2("HTTP request failed: ", reason))
}

/// The error of an answer whose body could not be read.
pub fn body_failed(reason: &str) -> (r: CofferError)
    ensures
        r@ == ErrorView::Internal("Body read failed: "@ + reason@),
{
    CofferError::Internal(cat2("Body read failed: ", reason))
}

// ---------------------------------------------------------------------
// Laws
// ---------------------------------------------------------------------

/// A call has succeeded if and only if its status has three digits of which the
/// first is a two; what it answers is handed on as it is. Any other status is told
/// together with the text of the answer.
pub proof fn law_outcome_by_status(status: u16, body: Vec<u8>, r: Result<ApiReply, CofferError>)
    requires
        call_ensures(call_outcome, (status, body), r),
    ensures
        r is Ok <==> status / 100 == 2,
        r is Ok && body@.len() > 0 ==> r == Ok::<ApiReply, CofferError>(ApiReply::Json(body)),
        r is Ok && body@.len() == 0 ==> r == Ok::<ApiReply, CofferError>(ApiReply::Empty),
        r matches Err(e) ==> (e@ matches ErrorView::FirecrackerStatus { status: s, message } && s
            == status && message == lossy(body@)),
{
}

/// The machine is asked for without being changed: by a read that carries no body.
pub proof fn law_machine_is_read(c: &FirecrackerClient, r: VmCall)
    requires
        call_ensures(FirecrackerClient::get_machine_config, (c,), r),
    ensures
        r.method is Get,
        r.body is Nothing,
        r.path@ == "/machine-config"@,
{
}

/// An error of a call tells what was behind it.
pub proof fn law_errors_tell_the_reason(
    status: u16,
    message: &str,
    a: CofferError,
    b: CofferError,
    c: CofferError,
)
    requires
        call_ensures(status_error, (status, message), a),
        call_ensures(request_failed, (message,), b),
        call_ensures(body_failed, (message,), c),
    ensures
        a@ matches ErrorView::FirecrackerStatus { status: s, message: m } && s == status && m
            == message@,
        b@ matches ErrorView::Internal(m) && message@.is_suffix_of(m),
        c@ matches ErrorView::Internal(m) && message@.is_suffix_of(m),
        b@ != c@,
{
    let x = b@->Internal_0;
    let y = c@->Internal_0;
    let i = "HTTP request failed: "@.len() as int;
    let j = "Body read failed: "@.len() as int;
    assert(x.subrange(i, x.len() as int) =~= message@);
    assert(y.subrange(j, y.len() as int) =~= message@);
    reveal_strlit("HTTP request failed: ");
    reveal_strlit("Body read failed: ");
    assert(x[0] == 'H' && y[0] == 'B');
}

} // verus!
