use spur_cloud_api::job::{cancel_job_request, session_job_spec};

fn gpu_profile() -> String {
    [
        "# Spur GPU session profile — enforced isolation\n",
        "if [ -n \"$SPUR_JOB_GPUS\" ]; then\n",
        "  export ROCR_VISIBLE_DEVICES=\"$SPUR_JOB_GPUS\"\n",
        "  export HIP_VISIBLE_DEVICES=\"$SPUR_JOB_GPUS\"\n",
        "  export CUDA_VISIBLE_DEVICES=\"$SPUR_JOB_GPUS\"\n",
        "  export GPU_DEVICE_ORDINAL=\"$SPUR_JOB_GPUS\"\n",
        "  readonly ROCR_VISIBLE_DEVICES HIP_VISIBLE_DEVICES CUDA_VISIBLE_DEVICES GPU_DEVICE_ORDINAL\n",
        "  alias rocm-smi='rocm-smi -d $SPUR_JOB_GPUS'\n",
        "  echo \"GPU session: device(s) $SPUR_JOB_GPUS allocated\"\n",
        "fi\n",
    ]
    .concat()
}

fn ssh_script() -> String {
    let gpu_profile = gpu_profile();
    format!(
        "#!/bin/bash\n\
        cat > /etc/profile.d/spur-gpu.sh << 'PROFILE'\n\
        {gpu_profile}\
        PROFILE\n\
        mkdir -p /root/.ssh && chmod 700 /root/.ssh\n\
        if [ -n \"$GPUAAS_SSH_KEYS\" ]; then\n\
          echo \"$GPUAAS_SSH_KEYS\" > /root/.ssh/authorized_keys\n\
          chmod 600 /root/.ssh/authorized_keys\n\
        fi\n\
        if command -v sshd >/dev/null 2>&1; then\n\
          mkdir -p /run/sshd\n\
          SSH_PORT=${{GPUAAS_SSH_PORT:-22}}\n\
          ssh-keygen -A 2>/dev/null\n\
          /usr/sbin/sshd -D -p $SSH_PORT &\n\
        fi\n\
        exec sleep infinity\n",
    )
}

fn plain_script() -> String {
    let gpu_profile = gpu_profile();
    format!(
        "#!/bin/bash\n\
        cat > /etc/profile.d/spur-gpu.sh << 'PROFILE'\n\
        {gpu_profile}\
        PROFILE\n\
        exec sleep infinity\n",
    )
}

fn env_pairs(v: &[(String, String)]) -> Vec<(&str, &str)> {
    v.iter().map(|(a, b)| (a.as_str(), b.as_str())).collect()
}

#[test]
fn job_for_a_session_with_ssh_on_bare_metal() {
    let spec = session_job_spec(
        "train", "mi300x", 4, "rocm/pytorch:latest", Some("gpu"), true, 120,
        "67e55044-10b1-426f-9247-bb680e5fe0c8", "ssh-ed25519 AAA a@b", Some(10042), true,
    );
    assert_eq!(spec.name, "train");
    assert_eq!(spec.partition, "gpu");
    assert_eq!(spec.num_nodes, 1);
    assert_eq!(spec.num_tasks, 1);
    assert_eq!(spec.cpus_per_task, 8);
    assert_eq!(spec.gres, vec!["gpu:mi300x:4".to_string()]);
    assert_eq!(spec.script, ssh_script());
    assert_eq!(env_pairs(&spec.environment), vec![
        ("GPUAAS_SESSION_ID", "67e55044-10b1-426f-9247-bb680e5fe0c8"),
        ("GPUAAS_SSH_KEYS", "ssh-ed25519 AAA a@b"),
        ("GPUAAS_SSH_PORT", "10042"),
    ]);
    assert_eq!(spec.time_limit_seconds, 7200);
    assert!(spec.interactive);
    assert_eq!(spec.container_image, "");
}

#[test]
fn job_for_a_session_without_ssh_in_a_container() {
    let spec = session_job_spec(
        "notebook", "h100", 1, "jupyter:1", None, false, 30,
        "abcdefgh-0000", "ssh-ed25519 AAA a@b", None, false,
    );
    assert_eq!(spec.partition, "");
    assert_eq!(spec.gres, vec!["gpu:h100:1".to_string()]);
    assert_eq!(spec.script, plain_script());
    assert_eq!(env_pairs(&spec.environment), vec![("GPUAAS_SESSION_ID", "abcdefgh-0000")]);
    assert_eq!(spec.time_limit_seconds, 1800);
    assert_eq!(spec.container_image, "jupyter:1");
}

#[test]
fn ssh_keys_are_passed_only_when_there_are_some() {
    let spec = session_job_spec("n", "t", 2, "img", None, true, 1, "sid", "", None, false);
    assert_eq!(env_pairs(&spec.environment), vec![("GPUAAS_SESSION_ID", "sid")]);
    assert_eq!(spec.script, ssh_script());
}

#[test]
fn time_limit_in_seconds_does_not_overflow() {
    let spec = session_job_spec("n", "t", 1, "img", None, false, i32::MAX, "sid", "", None, false);
    assert_eq!(spec.time_limit_seconds, i32::MAX as i64 * 60);
    let spec = session_job_spec("n", "t", -3, "img", None, false, i32::MIN, "sid", "", None, false);
    assert_eq!(spec.time_limit_seconds, i32::MIN as i64 * 60);
    assert_eq!(spec.gres, vec!["gpu:t:-3".to_string()]);
}

#[test]
fn cancelling_a_job() {
    let r = cancel_job_request(77);
    assert_eq!(r.job_id, 77);
    assert_eq!(r.signal, 0);
    assert_eq!(r.user, "");
}
