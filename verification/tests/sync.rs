use spur_cloud_api::crd::SpurJobStatus;
use spur_cloud_api::settings::{agent_port, ssh_port_window, Backend, BareMetalSettings};
use spur_cloud_api::sync::{
    plan_crd_sync, plan_job_sync, service_ssh_host, session_spurjob_name, session_state_for_job,
    sync_job_id, JobLookup, SpurJobState, SyncAction, JOB_GONE_MESSAGE,
};

fn found(state: SpurJobState, nodes: &str) -> JobLookup {
    JobLookup::Found { state, nodelist: nodes.to_string() }
}

fn describe(plan: &[SyncAction]) -> Vec<String> {
    plan.iter()
        .map(|a| match a {
            SyncAction::RecordSpurJob { spur_job_id } => format!("job {spur_job_id}"),
            SyncAction::MarkRunning { node, pod_name } => format!("running {node} {pod_name}"),
            SyncAction::MarkEnded { state } => format!("ended {state}"),
            SyncAction::MarkFailed { message } => format!("failed {message}"),
            SyncAction::SetState { state } => format!("state {state}"),
            SyncAction::CreateSshService { pod_name } => format!("ssh service {pod_name}"),
            SyncAction::RecordSsh { host, port } => format!("ssh {host}:{port}"),
            SyncAction::StartUsage => "usage start".to_string(),
            SyncAction::EndUsage => "usage end".to_string(),
            SyncAction::DeleteSshService => "delete ssh service".to_string(),
        })
        .collect()
}

#[test]
fn job_states_map_to_session_states() {
    let cases = [
        (SpurJobState::JobPending, Some("pending")),
        (SpurJobState::JobRunning, Some("running")),
        (SpurJobState::JobCompleting, Some("stopping")),
        (SpurJobState::JobCompleted, Some("completed")),
        (SpurJobState::JobFailed, Some("failed")),
        (SpurJobState::JobCancelled, Some("cancelled")),
        (SpurJobState::JobTimeout, Some("failed")),
        (SpurJobState::JobNodeFail, Some("failed")),
        (SpurJobState::Other, None),
    ];
    for (s, expected) in cases {
        assert_eq!(session_state_for_job(s).as_deref(), expected);
    }
}

#[test]
fn a_running_job_starts_the_session_on_kubernetes() {
    let plan = plan_job_sync(&"pending".to_string(), true, Backend::K8s, 42, &found(SpurJobState::JobRunning, "gpu-node-1"), 0);
    assert_eq!(describe(&plan), vec!["running gpu-node-1 spur-job-42", "ssh service spur-job-42", "usage start"]);
}

#[test]
fn a_running_job_starts_the_session_on_bare_metal() {
    let plan = plan_job_sync(&"pending".to_string(), true, Backend::BareMetal, 7, &found(SpurJobState::JobRunning, "node3"), 10042);
    assert_eq!(describe(&plan), vec!["running node3 spur-job-7", "ssh node3:10042", "usage start"]);
    let plan = plan_job_sync(&"pending".to_string(), false, Backend::BareMetal, 7, &found(SpurJobState::JobRunning, "node3"), 10042);
    assert_eq!(describe(&plan), vec!["running node3 spur-job-7", "usage start"]);
}

#[test]
fn an_ended_job_ends_the_session() {
    let plan = plan_job_sync(&"running".to_string(), true, Backend::K8s, 1, &found(SpurJobState::JobTimeout, "n"), 0);
    assert_eq!(describe(&plan), vec!["ended failed", "usage end", "delete ssh service"]);
    let plan = plan_job_sync(&"running".to_string(), true, Backend::BareMetal, 1, &found(SpurJobState::JobCompleted, "n"), 0);
    assert_eq!(describe(&plan), vec!["ended completed", "usage end"]);
    let plan = plan_job_sync(&"pending".to_string(), false, Backend::K8s, 1, &found(SpurJobState::JobCancelled, "n"), 0);
    assert_eq!(describe(&plan), vec!["ended cancelled", "usage end"]);
}

#[test]
fn other_changes_only_record_the_state() {
    let plan = plan_job_sync(&"running".to_string(), true, Backend::K8s, 1, &found(SpurJobState::JobCompleting, "n"), 0);
    assert_eq!(describe(&plan), vec!["state stopping"]);
}

#[test]
fn settled_sessions_and_unfollowed_states_are_left_alone() {
    assert!(plan_job_sync(&"running".to_string(), true, Backend::K8s, 1, &found(SpurJobState::JobRunning, "n"), 0).is_empty());
    assert!(plan_job_sync(&"failed".to_string(), true, Backend::K8s, 1, &found(SpurJobState::JobNodeFail, "n"), 0).is_empty());
    assert!(plan_job_sync(&"pending".to_string(), true, Backend::K8s, 1, &found(SpurJobState::Other, "n"), 0).is_empty());
    assert!(plan_job_sync(&"pending".to_string(), true, Backend::K8s, 1, &JobLookup::Failed, 0).is_empty());
}

#[test]
fn applying_a_plan_settles_the_session() {
    let lookup = found(SpurJobState::JobRunning, "n1");
    let plan = plan_job_sync(&"pending".to_string(), true, Backend::K8s, 3, &lookup, 0);
    assert!(!plan.is_empty());
    assert!(plan_job_sync(&"running".to_string(), true, Backend::K8s, 3, &lookup, 0).is_empty());
}

#[test]
fn a_job_spur_forgot_fails_the_session() {
    let plan = plan_job_sync(&"running".to_string(), true, Backend::K8s, 9, &JobLookup::NotFound, 0);
    assert_eq!(describe(&plan), vec![format!("failed {JOB_GONE_MESSAGE}")]);
    assert_eq!(JOB_GONE_MESSAGE, "Job not found in Spur scheduler (may have been cancelled externally)");
}

#[test]
fn spurjob_status_drives_sessions_without_a_job_id() {
    let name = "session-67e55044".to_string();
    let status = SpurJobStatus { state: "Running".to_string(), spur_job_id: Some(12), assigned_nodes: vec!["gpu-1".to_string(), "gpu-2".to_string()] };
    assert_eq!(describe(&plan_crd_sync(&Some(status), &name)), vec!["job 12", "running gpu-1 spur-job-session-67e55044"]);
    let status = SpurJobStatus { state: "Running".to_string(), spur_job_id: None, assigned_nodes: vec![] };
    assert!(plan_crd_sync(&Some(status), &name).is_empty());
    for (state, expected) in [("Completed", "ended completed"), ("Failed", "ended failed"), ("Cancelled", "ended cancelled"), ("Pending", "state pending")] {
        let status = SpurJobStatus { state: state.to_string(), spur_job_id: None, assigned_nodes: vec![] };
        assert_eq!(describe(&plan_crd_sync(&Some(status), &name)), vec![expected]);
    }
    let status = SpurJobStatus { state: "Unknown".to_string(), spur_job_id: Some(u32::MAX), assigned_nodes: vec![] };
    assert_eq!(describe(&plan_crd_sync(&Some(status), &name)), vec!["job -1"]);
    assert!(plan_crd_sync(&None, &name).is_empty());
}

#[test]
fn session_resource_names() {
    assert_eq!(session_spurjob_name(0x67e5_5044_10b1_426f_9247_bb68_0e5f_e0c8), "session-67e55044");
    assert_eq!(session_spurjob_name(0xabcd_ef01 << 96), "session-abcdef01");
}

#[test]
fn ssh_service_host_falls_back_to_the_node() {
    assert_eq!(service_ssh_host(String::new(), &"node1".to_string()), "node1");
    assert_eq!(service_ssh_host("10.0.0.5".to_string(), &"node1".to_string()), "10.0.0.5");
}

#[test]
fn stored_job_ids_are_taken_bit_for_bit() {
    assert_eq!(sync_job_id(Some(5)), Some(5));
    assert_eq!(sync_job_id(Some(-1)), Some(u32::MAX));
    assert_eq!(sync_job_id(None), None);
}

#[test]
fn bare_metal_port_defaults() {
    assert_eq!(agent_port(None), 6818);
    assert_eq!(ssh_port_window(None), (10000, 50000));
    let s = BareMetalSettings { agent_port: 7000, ssh_port_base: 20000, ssh_port_range: 100 };
    assert_eq!(agent_port(Some(s)), 7000);
    assert_eq!(ssh_port_window(Some(s)), (20000, 100));
}
