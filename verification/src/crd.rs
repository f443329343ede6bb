//! The SpurJob custom resource: its spec and status, and the manifest a
//! session submits on the Kubernetes backend.
use vstd::prelude::*;
use crate::ids::{byte_boundary, byte_prefix};
use crate::text::{decimal, signed_text};

verus! {

/// GPU request of a SpurJob.
#[derive(Debug, Clone)]
pub struct GpuSpec {
    pub count: u32,
    pub gpu_type: Option<String>,
}

impl Default for GpuSpec {
    /// No GPUs, of no particular type.
    fn default() -> (g: Self)
        ensures
            g.count == 0,
            g.gpu_type is None,
    {
        GpuSpec { count: 0, gpu_type: None }
    }
}

/// Status of a SpurJob, as the operator reports it.
#[derive(Debug, Clone, Default)]
pub struct SpurJobStatus {
    pub state: String,
    pub spur_job_id: Option<u32>,
    pub assigned_nodes: Vec<String>,
}

/// Spec of a SpurJob. `env` holds its environment as name/value pairs with
/// distinct names.
#[derive(Debug, Clone)]
pub struct SpurJobSpec {
    pub name: String,
    pub image: String,
    pub gpus: GpuSpec,
    pub num_nodes: u32,
    pub tasks_per_node: u32,
    pub cpus_per_task: u32,
    pub time_limit: Option<String>,
    pub command: Vec<String>,
    pub args: Vec<String>,
    pub env: Vec<(String, String)>,
    pub host_network: bool,
    pub privileged: bool,
}

/// The value a SpurJob count field takes when the resource leaves it out.
pub fn default_one() -> (n: u32)
    ensures
        n == 1,
{
    1
}

/// The views of a list of name/value pairs.
pub open spec fn pair_texts(v: Seq<(String, String)>) -> Seq<(Seq<char>, Seq<char>)> {
    v.map_values(|p: (String, String)| (p.0@, p.1@))
}

/// Name of the SpurJob resource of a session: `session-` and the first eight
/// bytes of the session id's text.
pub open spec fn spurjob_name_of(session_id: Seq<char>) -> Seq<char> {
    "session-"@ + byte_prefix(session_id, 8)
}

/// Name of the SpurJob resource of a session. Byte 8 of the id's text must
/// start a character (slicing there would panic otherwise).
pub fn spurjob_name(session_id: &str) -> (n: String)
    requires
        byte_boundary(session_id@, 8),
    ensures
        n@ == spurjob_name_of(session_id@),
{
    let (head, _rest) = session_id.split_at(8);
    proof {
        vstd::utf8::encode_utf8_decode_utf8(head@);
    }
    let n = String::from_str("session-");
    n.concat(head)
}

/// A SpurJob resource ready to be created: name, namespace, labels, spec.
/// `labels` holds name/value pairs with distinct names.
pub struct SpurJobManifest {
    pub name: String,
    pub namespace: String,
    pub labels: Vec<(String, String)>,
    pub spec: SpurJobSpec,
}

/// The SpurJob resource for a session on the Kubernetes backend: one node,
/// one task, 8 CPUs per task, `gpu_count` GPUs of `gpu_type` (the count is
/// taken as `u32`, bit for bit), a time limit of `<minutes>m`, the session id
/// in its labels and in its environment.
pub fn spurjob_manifest(
    namespace: &str,
    session_id: &str,
    name: &str,
    gpu_type: &str,
    gpu_count: i32,
    container_image: &str,
    time_limit_min: i32,
) -> (m: SpurJobManifest)
    requires
        byte_boundary(session_id@, 8),
    ensures
        m.name@ == spurjob_name_of(session_id@),
        m.namespace@ == namespace@,
        pair_texts(m.labels@) == seq![
            ("spur.ai/session-id"@, session_id@),
            ("spur.ai/managed-by"@, "spur-cloud"@),
        ],
        m.spec.name@ == name@,
        m.spec.image@ == container_image@,
        m.spec.gpus.count == gpu_count as u32,
        m.spec.gpus.gpu_type matches Some(t) && t@ == gpu_type@,
        m.spec.num_nodes == 1,
        m.spec.tasks_per_node == 1,
        m.spec.cpus_per_task == 8,
        m.spec.time_limit matches Some(t) && t@ == decimal(time_limit_min as int) + "m"@,
        m.spec.command@.len() == 0,
        m.spec.args@.len() == 0,
        pair_texts(m.spec.env@) == seq![("GPUAAS_SESSION_ID"@, session_id@)],
        !m.spec.host_network,
        !m.spec.privileged,
{
    let job_name = spurjob_name(session_id);
    let mut labels: Vec<(String, String)> = Vec::new();
    labels.push((String::from_str("spur.ai/session-id"), String::from_str(session_id)));
    labels.push((String::from_str("spur.ai/managed-by"), String::from_str("spur-cloud")));
    let mut env: Vec<(String, String)> = Vec::new();
    env.push((String::from_str("GPUAAS_SESSION_ID"), String::from_str(session_id)));
    let limit = signed_text(time_limit_min as i64).concat("m");
    let spec = SpurJobSpec {
        name: String::from_str(name),
        image: String::from_str(container_image),
        gpus: GpuSpec { count: gpu_count as u32, gpu_type: Some(String::from_str(gpu_type)) },
        num_nodes: 1,
        tasks_per_node: 1,
        cpus_per_task: 8,
        time_limit: Some(limit),
        command: Vec::new(),
        args: Vec::new(),
        env,
        host_network: false,
        privileged: false,
    };
    let m = SpurJobManifest { name: job_name, namespace: String::from_str(namespace), labels, spec };
    assert(pair_texts(m.labels@) =~= seq![
        ("spur.ai/session-id"@, session_id@),
        ("spur.ai/managed-by"@, "spur-cloud"@),
    ]);
    assert(pair_texts(m.spec.env@) =~= seq![("GPUAAS_SESSION_ID"@, session_id@)]);
    m
}

/// Whether a failed deletion of a SpurJob still counts as done: the API
/// answered 404, the resource is already gone.
pub fn deletion_already_done(api_status: Option<u16>) -> (done: bool)
    ensures
        done == (api_status == Some(404u16)),
{
    match api_status {
        Some(code) => code == 404,
        None => false,
    }
}

} // verus!
