//! The Spur job that runs a GPU session, and the requests sent to Spur's
//! controller about it.
use vstd::prelude::*;
use crate::crd::pair_texts;
use crate::text::{decimal, signed_text, unsigned_text};

verus! {

/// Shell profile installed in every session: pins the GPU device variables
/// to the devices Spur allocated and makes them read-only.
pub const GPU_PROFILE: &'static str = "# Spur GPU session profile \u{2014} enforced isolation\nif [ -n \"$SPUR_JOB_GPUS\" ]; then\n  export ROCR_VISIBLE_DEVICES=\"$SPUR_JOB_GPUS\"\n  export HIP_VISIBLE_DEVICES=\"$SPUR_JOB_GPUS\"\n  export CUDA_VISIBLE_DEVICES=\"$SPUR_JOB_GPUS\"\n  export GPU_DEVICE_ORDINAL=\"$SPUR_JOB_GPUS\"\n  readonly ROCR_VISIBLE_DEVICES HIP_VISIBLE_DEVICES CUDA_VISIBLE_DEVICES GPU_DEVICE_ORDINAL\n  alias rocm-smi='rocm-smi -d $SPUR_JOB_GPUS'\n  echo \"GPU session: device(s) $SPUR_JOB_GPUS allocated\"\nfi\n";

/// Start of every session entrypoint: writes the profile that follows it.
pub const SCRIPT_HEAD: &'static str = "#!/bin/bash\ncat > /etc/profile.d/spur-gpu.sh << 'PROFILE'\n";

/// End of the entrypoint of a session with SSH: installs the keys, starts
/// sshd on `$GPUAAS_SSH_PORT` (22 by default), then sleeps.
pub const SSH_SCRIPT_TAIL: &'static str = "PROFILE\nmkdir -p /root/.ssh && chmod 700 /root/.ssh\nif [ -n \"$GPUAAS_SSH_KEYS\" ]; then\necho \"$GPUAAS_SSH_KEYS\" > /root/.ssh/authorized_keys\nchmod 600 /root/.ssh/authorized_keys\nfi\nif command -v sshd >/dev/null 2>&1; then\nmkdir -p /run/sshd\nSSH_PORT=${GPUAAS_SSH_PORT:-22}\nssh-keygen -A 2>/dev/null\n/usr/sbin/sshd -D -p $SSH_PORT &\nfi\nexec sleep infinity\n";

/// End of the entrypoint of a session without SSH: just sleeps.
pub const PLAIN_SCRIPT_TAIL: &'static str = "PROFILE\nexec sleep infinity\n";

/// The entrypoint script of a session.
pub open spec fn session_script(ssh_enabled: bool) -> Seq<char> {
    SCRIPT_HEAD@ + GPU_PROFILE@ + (if ssh_enabled {
        SSH_SCRIPT_TAIL@
    } else {
        PLAIN_SCRIPT_TAIL@
    })
}

/// The environment of a session's job: its id always; its SSH keys when SSH
/// is on and there are keys; its SSH port when one was assigned.
pub open spec fn session_environment(
    session_id: Seq<char>,
    ssh_enabled: bool,
    ssh_keys: Seq<char>,
    ssh_port: Option<u16>,
) -> Seq<(Seq<char>, Seq<char>)> {
    seq![("GPUAAS_SESSION_ID"@, session_id)] + (if ssh_enabled && ssh_keys.len() > 0 {
        seq![("GPUAAS_SSH_KEYS"@, ssh_keys)]
    } else {
        Seq::empty()
    }) + (match ssh_port {
        Some(p) => seq![("GPUAAS_SSH_PORT"@, decimal(p as int))],
        None => Seq::empty(),
    })
}

/// The generic resource request for `count` GPUs of type `gpu_type`.
pub open spec fn gpu_gres(gpu_type: Seq<char>, count: int) -> Seq<char> {
    "gpu:"@ + gpu_type + ":"@ + decimal(count)
}

/// What a session asks Spur to run. `environment` holds name/value pairs
/// with distinct names.
pub struct SessionJobSpec {
    pub name: String,
    pub partition: String,
    pub num_nodes: u32,
    pub num_tasks: u32,
    pub cpus_per_task: u32,
    pub gres: Vec<String>,
    pub script: String,
    pub environment: Vec<(String, String)>,
    pub time_limit_seconds: i64,
    pub interactive: bool,
    pub container_image: String,
}

/// The job for a GPU session: one node, one task, 8 CPUs, the GPUs as a
/// `gpu:<type>:<count>` resource, the time limit in seconds, interactive. On
/// bare metal the container image is left empty so that Spur runs the job as
/// a bare process.
pub fn session_job_spec(
    name: &str,
    gpu_type: &str,
    gpu_count: i32,
    container_image: &str,
    partition: Option<&str>,
    ssh_enabled: bool,
    time_limit_min: i32,
    session_id: &str,
    ssh_keys: &str,
    ssh_port: Option<u16>,
    bare_metal: bool,
) -> (spec: SessionJobSpec)
    ensures
        spec.name@ == name@,
        spec.partition@ == (match partition {
            Some(p) => p@,
            None => Seq::<char>::empty(),
        }),
        spec.num_nodes == 1,
        spec.num_tasks == 1,
        spec.cpus_per_task == 8,
        spec.gres@.len() == 1,
        spec.gres@[0]@ == gpu_gres(gpu_type@, gpu_count as int),
        spec.script@ == session_script(ssh_enabled),
        pair_texts(spec.environment@) == session_environment(
            session_id@,
            ssh_enabled,
            ssh_keys@,
            ssh_port,
        ),
        spec.time_limit_seconds == time_limit_min * 60,
        spec.interactive,
        spec.container_image@ == (if bare_metal {
            Seq::<char>::empty()
        } else {
            container_image@
        }),
{
    let mut environment: Vec<(String, String)> = Vec::new();
    environment.push((String::from_str("GPUAAS_SESSION_ID"), String::from_str(session_id)));
    let ghost first = pair_texts(environment@);
    if ssh_enabled && !ssh_keys.is_empty() {
        environment.push((String::from_str("GPUAAS_SSH_KEYS"), String::from_str(ssh_keys)));
    }
    let ghost second = pair_texts(environment@);
    assert(second =~= first + (if ssh_enabled && ssh_keys@.len() > 0 {
        seq![("GPUAAS_SSH_KEYS"@, ssh_keys@)]
    } else {
        Seq::empty()
    }));
    match ssh_port {
        Some(port) => {
            let text = unsigned_text(port as u64);
            environment.push((String::from_str("GPUAAS_SSH_PORT"), text));
        },
        None => {},
    }
    assert(pair_texts(environment@) =~= second + (match ssh_port {
        Some(p) => seq![("GPUAAS_SSH_PORT"@, decimal(p as int))],
        None => Seq::empty(),
    }));
    let mut script = String::from_str(SCRIPT_HEAD);
    script.append(GPU_PROFILE);
    if ssh_enabled {
        script.append(SSH_SCRIPT_TAIL);
    } else {
        script.append(PLAIN_SCRIPT_TAIL);
    }
    let gres_entry = String::from_str("gpu:").concat(gpu_type).concat(":").concat(
        signed_text(gpu_count as i64).as_str(),
    );
    let mut gres: Vec<String> = Vec::new();
    gres.push(gres_entry);
    let part = match partition {
        Some(p) => String::from_str(p),
        None => String::new(),
    };
    let image = if bare_metal {
        String::new()
    } else {
        String::from_str(container_image)
    };
    SessionJobSpec {
        name: String::from_str(name),
        partition: part,
        num_nodes: 1,
        num_tasks: 1,
        cpus_per_task: 8,
        gres,
        script,
        environment,
        time_limit_seconds: time_limit_min as i64 * 60,
        interactive: true,
        container_image: image,
    }
}

/// Request to cancel a Spur job.
pub struct CancelJobRequest {
    pub job_id: u32,
    pub signal: i32,
    pub user: String,
}

/// The cancellation of job `job_id`: no signal number, no user.
pub fn cancel_job_request(job_id: u32) -> (r: CancelJobRequest)
    ensures
        r.job_id == job_id,
        r.signal == 0,
        r.user@.len() == 0,
{
    CancelJobRequest { job_id, signal: 0, user: String::new() }
}

/// The environment of a session's job names each variable once.
pub proof fn law_environment_names_distinct(
    session_id: Seq<char>,
    ssh_enabled: bool,
    ssh_keys: Seq<char>,
    ssh_port: Option<u16>,
)
    ensures
        ({
            let env = session_environment(session_id, ssh_enabled, ssh_keys, ssh_port);
            forall|i: int, j: int| 0 <= i < env.len() && 0 <= j < env.len() && i != j ==> env[i].0 != env[j].0
        }),
{
    reveal_strlit("GPUAAS_SESSION_ID");
    reveal_strlit("GPUAAS_SSH_KEYS");
    reveal_strlit("GPUAAS_SSH_PORT");
    assert("GPUAAS_SESSION_ID"@[8] != "GPUAAS_SSH_KEYS"@[8]);
    assert("GPUAAS_SESSION_ID"@[8] != "GPUAAS_SSH_PORT"@[8]);
    assert("GPUAAS_SSH_KEYS"@[11] != "GPUAAS_SSH_PORT"@[11]);
}


/// A session's SSH keys reach its job exactly when SSH is on and there are
/// keys, whatever its SSH port: the environment then names
/// `GPUAAS_SSH_KEYS` once, with the keys as its value, and otherwise does
/// not name it. `GPUAAS_SSH_PORT` is named exactly when a port was
/// assigned, with the port in decimal; the session id always comes first.
pub proof fn law_ssh_keys_reach_job(
    session_id: Seq<char>,
    ssh_enabled: bool,
    ssh_keys: Seq<char>,
    ssh_port: Option<u16>,
)
    ensures
        ({
            let env = session_environment(session_id, ssh_enabled, ssh_keys, ssh_port);
            env[0] == ("GPUAAS_SESSION_ID"@, session_id)
        }),
        ({
            let env = session_environment(session_id, ssh_enabled, ssh_keys, ssh_port);
            env.contains(("GPUAAS_SSH_KEYS"@, ssh_keys)) <==> (ssh_enabled && ssh_keys.len() > 0)
        }),
        ({
            let env = session_environment(session_id, ssh_enabled, ssh_keys, ssh_port);
            (exists|i: int| 0 <= i < env.len() && #[trigger] env[i].0 == "GPUAAS_SSH_KEYS"@)
                <==> (ssh_enabled && ssh_keys.len() > 0)
        }),
        ({
            let env = session_environment(session_id, ssh_enabled, ssh_keys, ssh_port);
            forall|i: int|
                0 <= i < env.len() && #[trigger] env[i].0 == "GPUAAS_SSH_KEYS"@ ==> env[i].1 == ssh_keys
        }),
        ({
            let env = session_environment(session_id, ssh_enabled, ssh_keys, ssh_port);
            (exists|i: int| 0 <= i < env.len() && #[trigger] env[i].0 == "GPUAAS_SSH_PORT"@)
                <==> ssh_port is Some
        }),
        ({
            let env = session_environment(session_id, ssh_enabled, ssh_keys, ssh_port);
            forall|i: int|
                0 <= i < env.len() && #[trigger] env[i].0 == "GPUAAS_SSH_PORT"@ ==> env[i].1
                    == decimal(ssh_port->0 as int)
        }),
{
    reveal_strlit("GPUAAS_SESSION_ID");
    reveal_strlit("GPUAAS_SSH_KEYS");
    reveal_strlit("GPUAAS_SSH_PORT");
    let id_name = "GPUAAS_SESSION_ID"@;
    let keys_name = "GPUAAS_SSH_KEYS"@;
    let port_name = "GPUAAS_SSH_PORT"@;
    assert(id_name[8] != keys_name[8]);
    assert(id_name[8] != port_name[8]);
    assert(keys_name[11] != port_name[11]);
    assert(id_name != keys_name);
    assert(id_name != port_name);
    assert(keys_name != port_name);
    let env = session_environment(session_id, ssh_enabled, ssh_keys, ssh_port);
    let has_keys = ssh_enabled && ssh_keys.len() > 0;
    let k: int = if has_keys { 1 } else { 0 };
    assert(env.len() == 1 + k + (if ssh_port is Some { 1int } else { 0int }));
    assert(env[0].0 == id_name);
    if has_keys {
        assert(env[1] == (keys_name, ssh_keys));
    }
    if ssh_port is Some {
        assert(env[1 + k] == (port_name, decimal(ssh_port->0 as int)));
    }
    assert forall|i: int| 0 <= i < env.len() && #[trigger] env[i].0 == keys_name implies has_keys
        && i == 1 && env[i].1 == ssh_keys by {
        if i != 0 && !(has_keys && i == 1) {
            assert(env[i].0 == port_name);
        }
    }
    assert forall|i: int| 0 <= i < env.len() && #[trigger] env[i].0 == port_name implies ssh_port
        is Some && i == 1 + k && env[i].1 == decimal(ssh_port->0 as int) by {
        if i != 0 && i != 1 + k {
            assert(env[i].0 == keys_name);
        }
    }
    if env.contains((keys_name, ssh_keys)) {
        let i = choose|i: int| 0 <= i < env.len() && env[i] == (keys_name, ssh_keys);
        assert(env[i].0 == keys_name);
    }
    if has_keys {
        assert(env[1].0 == keys_name);
    }
    if ssh_port is Some {
        assert(env[1 + k].0 == port_name);
    }
}

} // verus!
