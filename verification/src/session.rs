//! What the session routes decide: which requests are accepted, what is
//! sent to Spur, and which status and message each outcome is answered with.
use vstd::prelude::*;
use crate::settings::Backend;
use crate::text::{joined, join_texts, law_joined_keeps_parts, texts};
use crate::user::SshKey;

verus! {

/// HTTP status codes the routes answer with.
pub const STATUS_CREATED: u16 = 201;
pub const STATUS_NO_CONTENT: u16 = 204;
pub const STATUS_BAD_REQUEST: u16 = 400;
pub const STATUS_UNAUTHORIZED: u16 = 401;
pub const STATUS_NOT_FOUND: u16 = 404;
pub const STATUS_INTERNAL_ERROR: u16 = 500;
pub const STATUS_BAD_GATEWAY: u16 = 502;

/// A refused or failed request: the status and the text of the answer.
pub struct ApiError {
    pub status: u16,
    pub message: String,
}

/// The error answer with `status` and `message`.
pub fn api_error(status: u16, message: &str) -> (e: ApiError)
    ensures
        e.status == status,
        e.message@ == message@,
{
    ApiError { status, message: String::from_str(message) }
}

/// A session as stored: the fields the routes and the synchronisation read.
pub struct SessionRecord {
    pub id: u128,
    pub user_id: u128,
    pub state: String,
    pub spur_job_id: Option<i32>,
    pub pod_name: Option<String>,
    pub ssh_enabled: bool,
    pub gpu_type: String,
    pub gpu_count: i32,
}

/// Query parameters of the session list.
pub struct ListParams {
    pub state: Option<String>,
    pub limit: i64,
}

/// Number of sessions listed when the query names no limit.
pub fn default_limit() -> (n: i64)
    ensures
        n == 50,
{
    50
}

impl ListParams {
    /// The parameters of a list query; the limit defaults to 50.
    pub fn from_query(state: Option<String>, limit: Option<i64>) -> (p: ListParams)
        ensures
            p.state == state,
            p.limit == (match limit {
                Some(l) => l,
                None => 50,
            }),
    {
        let limit = match limit {
            Some(l) => l,
            None => default_limit(),
        };
        ListParams { state, limit }
    }
}

/// Message of a request for a number of GPUs outside 1..=8.
pub const GPU_COUNT_MESSAGE: &'static str = "gpu_count must be 1-8";

/// A session may ask for 1 to 8 GPUs; any other count is a bad request.
pub fn validate_gpu_count(gpu_count: i32) -> (r: Result<(), ApiError>)
    ensures
        r is Ok <==> 1 <= gpu_count <= 8,
        r matches Err(e) ==> (e.status == STATUS_BAD_REQUEST && e.message@ == GPU_COUNT_MESSAGE@),
{
    if gpu_count < 1 || gpu_count > 8 {
        Err(api_error(STATUS_BAD_REQUEST, GPU_COUNT_MESSAGE))
    } else {
        Ok(())
    }
}

/// The public keys of a list of SSH keys.
pub open spec fn public_key_texts(keys: Seq<SshKey>) -> Seq<Seq<char>> {
    keys.map_values(|k: SshKey| k.public_key@)
}

/// The public keys of the given SSH keys, in order.
pub fn public_keys(keys: &Vec<SshKey>) -> (v: Vec<String>)
    ensures
        texts(v@) == public_key_texts(keys@),
{
    let mut v: Vec<String> = Vec::new();
    let n = keys.len();
    let mut i: usize = 0;
    while i < n
        invariant
            n == keys@.len(),
            i <= n,
            texts(v@) == public_key_texts(keys@).take(i as int),
        decreases n - i,
    {
        let ghost before = v@;
        let key = keys[i].public_key.clone();
        assert(key@ == keys@[i as int].public_key@);
        v.push(key);
        assert(v@ == before.push(key));
        assert(texts(v@) =~= public_key_texts(keys@).take(i + 1)) by {
            assert(texts(before).len() == before.len());
            assert(public_key_texts(keys@).take(i as int).len() == i);
            assert(before.len() == i);
            assert(texts(v@).len() == i + 1);
            assert(public_key_texts(keys@).len() == n);
            assert forall|j: int| 0 <= j < i + 1 implies texts(v@)[j] == public_key_texts(keys@).take(i + 1)[j] by {
                assert(public_key_texts(keys@)[j] == keys@[j].public_key@);
                assert(texts(v@)[j] == v@[j]@);
                if j < i {
                    assert(texts(before)[j] == before[j]@);
                    assert(texts(before)[j] == public_key_texts(keys@).take(i as int)[j]);
                }
            }
        }
        i = i + 1;
    }
    assert(public_key_texts(keys@).take(n as int) =~= public_key_texts(keys@));
    v
}

/// The SSH keys handed to a new session: none without SSH; otherwise the
/// user's public keys, one per line, or none when they could not be read.
pub fn session_ssh_keys(ssh_enabled: bool, keys: Option<&Vec<SshKey>>) -> (text: String)
    ensures
        text@ == (if !ssh_enabled {
            Seq::<char>::empty()
        } else {
            match keys {
                Some(k) => joined(public_key_texts(k@), "\n"@),
                None => Seq::<char>::empty(),
            }
        }),
{
    if !ssh_enabled {
        return String::new();
    }
    match keys {
        Some(k) => {
            let lines = public_keys(k);
            join_texts(&lines, "\n")
        },
        None => String::new(),
    }
}

/// Whether a new session needs a fixed SSH port: SSH on, on bare metal.
pub fn needs_ssh_port(ssh_enabled: bool, backend: Backend) -> (b: bool)
    ensures
        b == (ssh_enabled && backend == Backend::BareMetal),
{
    ssh_enabled && backend == Backend::BareMetal
}

/// What became of a session's submission to Spur.
pub enum Submission {
    /// Accepted: record the job id (as stored, bit for bit) and answer 201.
    Accepted { spur_job_id: i32 },
    /// Refused: record the message on the session and answer with it.
    Refused { error: ApiError },
}

/// Prefix of the message of a refused submission.
pub const SUBMISSION_FAILED_PREFIX: &'static str = "Spur submission failed: ";

/// The outcome of submitting a session: the job id Spur assigned, or
/// Spur's error, answered 502 as `Spur submission failed: <error>`.
pub fn submission_outcome(result: Result<u32, String>) -> (s: Submission)
    ensures
        match result {
            Ok(id) => s == Submission::Accepted { spur_job_id: id as i32 },
            Err(msg) => s matches Submission::Refused { error } && error.status
                == STATUS_BAD_GATEWAY && error.message@ == SUBMISSION_FAILED_PREFIX@ + msg@,
        },
{
    match result {
        Ok(id) => Submission::Accepted { spur_job_id: id as i32 },
        Err(msg) => Submission::Refused {
            error: ApiError {
                status: STATUS_BAD_GATEWAY,
                message: String::from_str(SUBMISSION_FAILED_PREFIX).concat(msg.as_str()),
            },
        },
    }
}

/// What the database answered to a lookup.
pub enum Lookup<T> {
    Found(T),
    Missing,
    Failed,
}

/// Message of a lookup of a session the user does not have.
pub const NOT_FOUND_MESSAGE: &'static str = "session not found";

/// The found value, or the answer to a lookup that found nothing (404
/// `session not found`) or failed (500 with `failure_message`).
pub fn found_or_error<T>(lookup: Lookup<T>, failure_message: &str) -> (r: Result<T, ApiError>)
    ensures
        match lookup {
            Lookup::Found(v) => r == Ok::<T, ApiError>(v),
            Lookup::Missing => r matches Err(e) && e.status == STATUS_NOT_FOUND && e.message@
                == NOT_FOUND_MESSAGE@,
            Lookup::Failed => r matches Err(e) && e.status == STATUS_INTERNAL_ERROR && e.message@
                == failure_message@,
        },
{
    match lookup {
        Lookup::Found(v) => Ok(v),
        Lookup::Missing => Err(api_error(STATUS_NOT_FOUND, NOT_FOUND_MESSAGE)),
        Lookup::Failed => Err(api_error(STATUS_INTERNAL_ERROR, failure_message)),
    }
}

/// Message of a failed listing.
pub const LIST_FAILED_MESSAGE: &'static str = "failed to list sessions";

/// Message of a failed lookup of one session to show it.
pub const GET_FAILED_MESSAGE: &'static str = "failed to get session";

/// Message of a failed lookup before cancelling or attaching.
pub const LOOKUP_FAILED_MESSAGE: &'static str = "failed";

/// State recorded for a session its user cancelled.
pub const CANCELLED_STATE: &'static str = "cancelled";

/// The Spur job to cancel with a session, if it has one (the stored id taken
/// as `u32`, bit for bit).
pub fn job_to_cancel(session: &SessionRecord) -> (id: Option<u32>)
    ensures
        id == (match session.spur_job_id {
            Some(v) => Some(v as u32),
            None => None::<u32>,
        }),
{
    match session.spur_job_id {
        Some(v) => Some(v as u32),
        None => None,
    }
}

/// Where a terminal attaches.
pub enum TerminalTarget {
    /// A shell in the session's pod.
    Pod { pod_name: String },
    /// The session's job, through the Spur agent on its node.
    SpurJob { job_id: u32, agent_port: u16 },
}

pub const NOT_RUNNING_MESSAGE: &'static str = "session is not running";
pub const POD_NOT_READY_MESSAGE: &'static str = "session pod not ready";
pub const JOB_NOT_ASSIGNED_MESSAGE: &'static str = "session job not assigned";

/// Where the terminal of a session attaches. Only a running session gets
/// one: in its pod on Kubernetes once the pod is known, through the agent of
/// its job on bare metal once the job is known (the stored job id taken as
/// `u32`, bit for bit); otherwise the request is a bad one.
pub fn plan_terminal(session: &SessionRecord, backend: Backend, agent_port: u16) -> (r: Result<
    TerminalTarget,
    ApiError,
>)
    ensures
        session.state@ != "running"@ ==> (r matches Err(e) && e.status == STATUS_BAD_REQUEST
            && e.message@ == NOT_RUNNING_MESSAGE@),
        session.state@ == "running"@ && backend == Backend::K8s ==> match session.pod_name {
            Some(p) => r matches Ok(TerminalTarget::Pod { pod_name }) && pod_name@ == p@,
            None => r matches Err(e) && e.status == STATUS_BAD_REQUEST && e.message@
                == POD_NOT_READY_MESSAGE@,
        },
        session.state@ == "running"@ && backend == Backend::BareMetal ==> match session.spur_job_id {
            Some(id) => r == Ok::<TerminalTarget, ApiError>(
                TerminalTarget::SpurJob { job_id: id as u32, agent_port },
            ),
            None => r matches Err(e) && e.status == STATUS_BAD_REQUEST && e.message@
                == JOB_NOT_ASSIGNED_MESSAGE@,
        },
{
    if session.state != String::from_str("running") {
        return Err(api_error(STATUS_BAD_REQUEST, NOT_RUNNING_MESSAGE));
    }
    match backend {
        Backend::K8s => match &session.pod_name {
            Some(p) => Ok(TerminalTarget::Pod { pod_name: p.clone() }),
            None => Err(api_error(STATUS_BAD_REQUEST, POD_NOT_READY_MESSAGE)),
        },
        Backend::BareMetal => match session.spur_job_id {
            Some(id) => Ok(TerminalTarget::SpurJob { job_id: id as u32, agent_port }),
            None => Err(api_error(STATUS_BAD_REQUEST, JOB_NOT_ASSIGNED_MESSAGE)),
        },
    }
}

/// Every SSH key of the user reaches a new session, in order, one per line:
/// one key more at the end adds a line break and that key's public key at
/// the end of the keys' text.
pub proof fn law_every_key_reaches_session(keys: Seq<SshKey>, key: SshKey)
    ensures
        keys.len() > 0 ==> joined(public_key_texts(keys.push(key)), "\n"@) == joined(
            public_key_texts(keys),
            "\n"@,
        ) + "\n"@ + key.public_key@,
        joined(public_key_texts(seq![key]), "\n"@) == key.public_key@,
{
    assert(public_key_texts(keys.push(key)) =~= public_key_texts(keys).push(key.public_key@));
    assert(public_key_texts(seq![key]) =~= seq![key.public_key@]);
    law_joined_keeps_parts(public_key_texts(keys), key.public_key@, "\n"@);
}

} // verus!
