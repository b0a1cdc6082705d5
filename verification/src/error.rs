//! The error type of the library and the text of each error.

use vstd::prelude::*;

use crate::numeric::{dec, dec_text};
use crate::text::{cat2, occurs, occurs_at, Text};

verus! {

broadcast use vstd::string::group_string_axioms;

/// What can go wrong. Errors of the system and of the JSON codec are carried by
/// their text.
#[derive(Debug)]
pub enum CofferError {
    Config(String),
    Firecracker(String),
    /// An API call that was answered with another status than success.
    FirecrackerStatus { status: u16, message: String },
    Network(String),
    Pool(String),
    TemplateNotFound(String),
    TemplateBuild(String),
    AgentNotReady(String),
    AgentCommunication(String),
    AgentExec { message: String, exit_code: Option<i32> },
    Io(String),
    Serde(String),
    TaskJoin(String),
    Timeout(String),
    /// A VM is not in a state in which the operation is allowed.
    InvalidVmState { id: String, expected: String, actual: String },
    /// A VM did not come up in time.
    VmTimeout { id: String, dur_ms: u64 },
    /// A reservation would exceed a limit.
    ResourceLimit { resource: String, used: u64, limit: u64 },
    Internal(String),
}

/// The content of an error, over character sequences.
pub enum ErrorView {
    Config(Text),
    Firecracker(Text),
    FirecrackerStatus { status: u16, message: Text },
    Network(Text),
    Pool(Text),
    TemplateNotFound(Text),
    TemplateBuild(Text),
    AgentNotReady(Text),
    AgentCommunication(Text),
    AgentExec { message: Text, exit_code: Option<i32> },
    Io(Text),
    Serde(Text),
    TaskJoin(Text),
    Timeout(Text),
    InvalidVmState { id: Text, expected: Text, actual: Text },
    VmTimeout { id: Text, dur_ms: u64 },
    ResourceLimit { resource: Text, used: u64, limit: u64 },
    Internal(Text),
}

impl View for CofferError {
    type V = ErrorView;

    open spec fn view(&self) -> ErrorView {
        match *self {
            CofferError::Config(s) => ErrorView::Config(s@),
            CofferError::Firecracker(s) => ErrorView::Firecracker(s@),
            CofferError::FirecrackerStatus { status, message } => ErrorView::FirecrackerStatus {
                status,
                message: message@,
            },
            CofferError::Network(s) => ErrorView::Network(s@),
            CofferError::Pool(s) => ErrorView::Pool(s@),
            CofferError::TemplateNotFound(s) => ErrorView::TemplateNotFound(s@),
            CofferError::TemplateBuild(s) => ErrorView::TemplateBuild(s@),
            CofferError::AgentNotReady(s) => ErrorView::AgentNotReady(s@),
            CofferError::AgentCommunication(s) => ErrorView::AgentCommunication(s@),
            CofferError::AgentExec { message, exit_code } => ErrorView::AgentExec {
                message: message@,
                exit_code,
            },
            CofferError::Io(s) => ErrorView::Io(s@),
            CofferError::Serde(s) => ErrorView::Serde(s@),
            CofferError::TaskJoin(s) => ErrorView::TaskJoin(s@),
            CofferError::Timeout(s) => ErrorView::Timeout(s@),
            CofferError::InvalidVmState { id, expected, actual } => ErrorView::InvalidVmState {
                id: id@,
                expected: expected@,
                actual: actual@,
            },
            CofferError::VmTimeout { id, dur_ms } => ErrorView::VmTimeout { id: id@, dur_ms },
            CofferError::ResourceLimit { resource, used, limit } => ErrorView::ResourceLimit {
                resource: resource@,
                used,
                limit,
            },
            CofferError::Internal(s) => ErrorView::Internal(s@),
        }
    }
}

impl ErrorView {
    /// The text of an error, as a user reads it.
    pub open spec fn text(self) -> Text {
        match self {
            ErrorView::Config(s) => "config error: "@ + s,
            ErrorView::Firecracker(s) => "firecracker error: "@ + s,
            ErrorView::FirecrackerStatus { status, message } => "firecracker error: "@ + dec(
                status as nat,
            ) + " "@ + message,
            ErrorView::Network(s) => "network error: "@ + s,
            ErrorView::Pool(s) => "pool error: "@ + s,
            ErrorView::TemplateNotFound(id) => "template not found: "@ + id,
            ErrorView::TemplateBuild(s) => "template build error: "@ + s,
            ErrorView::AgentNotReady(id) => "agent not ready in sandbox: "@ + id,
            ErrorView::AgentCommunication(s) => "agent communication error: "@ + s,
            ErrorView::AgentExec { message, exit_code } => "agent exec error: "@ + message,
            ErrorView::Io(s) => "io error: "@ + s,
            ErrorView::Serde(s) => "serde error: "@ + s,
            ErrorView::TaskJoin(s) => "task join error: "@ + s,
            ErrorView::Timeout(s) => "timeout: "@ + s,
            ErrorView::InvalidVmState { id, expected, actual } => "invalid state of VM "@ + id
                + ": expected "@ + expected + ", found "@ + actual,
            ErrorView::VmTimeout { id, dur_ms } => "VM "@ + id + " not up after "@ + dec(
                dur_ms as nat,
            ) + " ms"@,
            ErrorView::ResourceLimit { resource, used, limit } => "limit of "@ + resource
                + " reached: "@ + dec(used as nat) + " of "@ + dec(limit as nat),
            ErrorView::Internal(s) => "internal error: "@ + s,
        }
    }
}

impl CofferError {
    /// The text of the error, as a user reads it.
    pub fn text(&self) -> (r: String)
        ensures
            r@ == self@.text(),
    {
        match self {
            CofferError::Config(s) => cat2("config error: ", s.as_str()),
            CofferError::Firecracker(s) => cat2("firecracker error: ", s.as_str()),
            CofferError::FirecrackerStatus { status, message } => {
                let mut r = cat2("firecracker error: ", dec_text(*status as u64).as_str());
                r.append(" ");
                r.append(message.as_str());
                r
            },
            CofferError::Network(s) => cat2("network error: ", s.as_str()),
            CofferError::Pool(s) => cat2("pool error: ", s.as_str()),
            CofferError::TemplateNotFound(s) => cat2("template not found: ", s.as_str()),
            CofferError::TemplateBuild(s) => cat2("template build error: ", s.as_str()),
            CofferError::AgentNotReady(s) => cat2("agent not ready in sandbox: ", s.as_str()),
            CofferError::AgentCommunication(s) => cat2("agent communication error: ", s.as_str()),
            CofferError::AgentExec { message, exit_code: _ } => cat2(
                "agent exec error: ",
                message.as_str(),
            ),
            CofferError::Io(s) => cat2("io error: ", s.as_str()),
            CofferError::Serde(s) => cat2("serde error: ", s.as_str()),
            CofferError::TaskJoin(s) => cat2("task join error: ", s.as_str()),
            CofferError::Timeout(s) => cat2("timeout: ", s.as_str()),
            CofferError::InvalidVmState { id, expected, actual } => {
                let mut r = cat2("invalid state of VM ", id.as_str());
                r.append(": expected ");
                r.append(expected.as_str());
                r.append(", found ");
                r.append(actual.as_str());
                r
            },
            CofferError::VmTimeout { id, dur_ms } => {
                let mut r = cat2("VM ", id.as_str());
                r.append(" not up after ");
                r.append(dec_text(*dur_ms).as_str());
                r.append(" ms");
                r
            },
            CofferError::ResourceLimit { resource, used, limit } => {
                let mut r = cat2("limit of ", resource.as_str());
                r.append(" reached: ");
                r.append(dec_text(*used).as_str());
                r.append(" of ");
                r.append(dec_text(*limit).as_str());
                r
            },
            CofferError::Internal(s) => cat2("internal error: ", s.as_str()),
        }
    }
}

// ---------------------------------------------------------------------
// Laws
// ---------------------------------------------------------------------

/// The text of an error names what it is about: it ends with what was reported,
/// and it names the VM, the states, the time or the limit that it speaks of.
pub proof fn law_text_names_the_matter(e: &CofferError, r: String)
    requires
        call_ensures(CofferError::text, (e,), r),
    ensures
        match e@ {
            ErrorView::Config(s) | ErrorView::Firecracker(s) | ErrorView::Network(s)
            | ErrorView::Pool(s) | ErrorView::TemplateNotFound(s) | ErrorView::TemplateBuild(s)
            | ErrorView::AgentNotReady(s) | ErrorView::AgentCommunication(s) | ErrorView::Io(s)
            | ErrorView::Serde(s) | ErrorView::TaskJoin(s) | ErrorView::Timeout(s)
            | ErrorView::Internal(s) => s.is_suffix_of(r@),
            ErrorView::AgentExec { message, .. } => message.is_suffix_of(r@),
            ErrorView::FirecrackerStatus { status, message } => (dec(status as nat) + " "@
                + message).is_suffix_of(r@),
            ErrorView::InvalidVmState { id, expected, actual } => actual.is_suffix_of(r@) && occurs(
                r@,
                id + ": expected "@ + expected,
            ),
            ErrorView::VmTimeout { id, dur_ms } => occurs(r@, id) && (dec(dur_ms as nat)
                + " ms"@).is_suffix_of(r@),
            ErrorView::ResourceLimit { resource, used, limit } => occurs(r@, resource) && (dec(
                used as nat,
            ) + " of "@ + dec(limit as nat)).is_suffix_of(r@),
        },
{
    let t = r@;
    match e@ {
        ErrorView::Config(s) | ErrorView::Firecracker(s) | ErrorView::Network(s)
        | ErrorView::Pool(s) | ErrorView::TemplateNotFound(s) | ErrorView::TemplateBuild(s)
        | ErrorView::AgentNotReady(s) | ErrorView::AgentCommunication(s) | ErrorView::Io(s)
        | ErrorView::Serde(s) | ErrorView::TaskJoin(s) | ErrorView::Timeout(s)
        | ErrorView::Internal(s) => {
            assert(t.subrange(t.len() - s.len(), t.len() as int) =~= s);
        },
        ErrorView::AgentExec { message, .. } => {
            assert(t.subrange(t.len() - message.len(), t.len() as int) =~= message);
        },
        ErrorView::FirecrackerStatus { status, message } => {
            let s = dec(status as nat) + " "@ + message;
            assert(t.subrange(t.len() - s.len(), t.len() as int) =~= s);
        },
        ErrorView::InvalidVmState { id, expected, actual } => {
            assert(t.subrange(t.len() - actual.len(), t.len() as int) =~= actual);
            let s = id + ": expected "@ + expected;
            let i = "invalid state of VM "@.len() as int;
            assert(t.subrange(i, i + s.len()) =~= s);
            assert(occurs_at(t, s, i));
        },
        ErrorView::VmTimeout { id, dur_ms } => {
            let s = dec(dur_ms as nat) + " ms"@;
            assert(t.subrange(t.len() - s.len(), t.len() as int) =~= s);
            let i = "VM "@.len() as int;
            assert(t.subrange(i, i + id.len()) =~= id);
            assert(occurs_at(t, id, i));
        },
        ErrorView::ResourceLimit { resource, used, limit } => {
            let s = dec(used as nat) + " of "@ + dec(limit as nat);
            assert(t.subrange(t.len() - s.len(), t.len() as int) =~= s);
            let i = "limit of "@.len() as int;
            assert(t.subrange(i, i + resource.len()) =~= resource);
            assert(occurs_at(t, resource, i));
        },
    }
}

} // verus!
