use spur_cloud_api::auth::{request_token_of, query_token, unauthorized, AuthFailure};
use spur_cloud_api::session::{
    default_limit, found_or_error, public_keys, job_to_cancel, needs_ssh_port, plan_terminal, session_ssh_keys,
    submission_outcome, validate_gpu_count, ListParams, Lookup, SessionRecord, Submission,
    TerminalTarget,
};
use spur_cloud_api::settings::Backend;
use spur_cloud_api::user::{SshKey, Timestamp, User, UserProfile};

fn session(state: &str, job: Option<i32>, pod: Option<&str>) -> SessionRecord {
    SessionRecord {
        id: 1,
        user_id: 2,
        state: state.to_string(),
        spur_job_id: job,
        pod_name: pod.map(|p| p.to_string()),
        ssh_enabled: true,
        gpu_type: "mi300x".to_string(),
        gpu_count: 1,
    }
}

#[test]
fn gpu_count_must_be_one_to_eight() {
    for c in [1, 4, 8] {
        assert!(validate_gpu_count(c).is_ok());
    }
    for c in [0, 9, -1, i32::MAX] {
        let e = validate_gpu_count(c).unwrap_err();
        assert_eq!(e.status, 400);
        assert_eq!(e.message, "gpu_count must be 1-8");
    }
}

#[test]
fn list_limit_defaults_to_fifty() {
    assert_eq!(default_limit(), 50);
    let p = ListParams::from_query(Some("running".to_string()), None);
    assert_eq!(p.limit, 50);
    assert_eq!(p.state.as_deref(), Some("running"));
    assert_eq!(ListParams::from_query(None, Some(5)).limit, 5);
}

#[test]
fn ssh_keys_of_a_new_session() {
    let t = Timestamp { seconds: 0, nanos: 0 };
    let key = |name: &str, pk: &str| SshKey { id: 1, user_id: 2, name: name.to_string(), public_key: pk.to_string(), fingerprint: String::new(), created_at: t };
    let keys = vec![key("a", "k1"), key("b", "k2")];
    assert_eq!(public_keys(&keys), vec!["k1".to_string(), "k2".to_string()]);
    assert_eq!(session_ssh_keys(true, Some(&keys)), "k1\nk2");
    assert_eq!(session_ssh_keys(true, Some(&Vec::new())), "");
    assert_eq!(session_ssh_keys(false, Some(&keys)), "");
    assert_eq!(session_ssh_keys(true, None), "");
    assert!(needs_ssh_port(true, Backend::BareMetal));
    assert!(!needs_ssh_port(true, Backend::K8s));
    assert!(!needs_ssh_port(false, Backend::BareMetal));
}

#[test]
fn submission_outcomes() {
    assert!(matches!(submission_outcome(Ok(42)), Submission::Accepted { spur_job_id: 42 }));
    assert!(matches!(submission_outcome(Ok(u32::MAX)), Submission::Accepted { spur_job_id: -1 }));
    match submission_outcome(Err("no partition".to_string())) {
        Submission::Refused { error } => {
            assert_eq!(error.status, 502);
            assert_eq!(error.message, "Spur submission failed: no partition");
        }
        Submission::Accepted { .. } => panic!("accepted"),
    }
}

#[test]
fn lookups_answer_404_and_500() {
    assert_eq!(found_or_error(Lookup::Found(3), "failed").ok(), Some(3));
    let e = found_or_error::<u8>(Lookup::Missing, "failed").err().unwrap();
    assert_eq!((e.status, e.message.as_str()), (404, "session not found"));
    let e = found_or_error::<u8>(Lookup::Failed, "failed to get session").err().unwrap();
    assert_eq!((e.status, e.message.as_str()), (500, "failed to get session"));
}

#[test]
fn cancelling_cancels_the_job_if_any() {
    assert_eq!(job_to_cancel(&session("running", Some(9), None)), Some(9));
    assert_eq!(job_to_cancel(&session("running", None, None)), None);
}

#[test]
fn terminals_only_for_running_sessions() {
    let e = plan_terminal(&session("pending", Some(1), Some("p")), Backend::K8s, 6818).err().unwrap();
    assert_eq!((e.status, e.message.as_str()), (400, "session is not running"));
    match plan_terminal(&session("running", None, Some("spur-job-4")), Backend::K8s, 6818) {
        Ok(TerminalTarget::Pod { pod_name }) => assert_eq!(pod_name, "spur-job-4"),
        _ => panic!("no pod"),
    }
    let e = plan_terminal(&session("running", Some(4), None), Backend::K8s, 6818).err().unwrap();
    assert_eq!((e.status, e.message.as_str()), (400, "session pod not ready"));
    match plan_terminal(&session("running", Some(4), None), Backend::BareMetal, 6818) {
        Ok(TerminalTarget::SpurJob { job_id, agent_port }) => assert_eq!((job_id, agent_port), (4, 6818)),
        _ => panic!("no job"),
    }
    let e = plan_terminal(&session("running", None, Some("p")), Backend::BareMetal, 6818).err().unwrap();
    assert_eq!((e.status, e.message.as_str()), (400, "session job not assigned"));
}

#[test]
fn bearer_header_gives_the_token() {
    assert_eq!(request_token_of(Some("Bearer abc.def"), None).as_deref(), Some("abc.def"));
    assert_eq!(request_token_of(Some("Bearer "), None).as_deref(), Some(""));
}

#[test]
fn header_wins_over_query() {
    assert_eq!(request_token_of(Some("Bearer h"), Some("token=q")).as_deref(), Some("h"));
}

#[test]
fn query_token_when_header_is_missing_or_not_bearer() {
    assert_eq!(request_token_of(None, Some("token=q1")).as_deref(), Some("q1"));
    assert_eq!(request_token_of(Some("Basic xyz"), Some("a=1&token=q2&token=q3")).as_deref(), Some("q2"));
    assert_eq!(request_token_of(Some("bearer x"), Some("x=1")), None);
    assert_eq!(request_token_of(None, None), None);
    assert_eq!(query_token("tokenx=1&y=2"), None);
    assert_eq!(query_token("&&token="), Some(String::new()));
    assert_eq!(query_token("a=token=1"), None);
}

#[test]
fn unauthorized_answers() {
    let e = unauthorized(AuthFailure::MissingToken);
    assert_eq!((e.status, e.message.as_str()), (401, "missing or invalid authorization header"));
    let e = unauthorized(AuthFailure::InvalidToken);
    assert_eq!((e.status, e.message.as_str()), (401, "invalid or expired token"));
}

#[test]
fn profile_shows_public_fields_only() {
    let t = Timestamp { seconds: 1_700_000_000, nanos: 5 };
    let u = User {
        id: 11,
        email: "a@b.c".to_string(),
        username: "alice".to_string(),
        password_hash: Some("hash".to_string()),
        github_id: Some(3),
        okta_sub: None,
        display_name: Some("Alice".to_string()),
        avatar_url: None,
        spur_account: "acct".to_string(),
        is_admin: true,
        max_gpus: Some(8),
        created_at: t,
        last_login_at: None,
    };
    let p = UserProfile::from(u);
    assert_eq!(p.id, 11);
    assert_eq!(p.email, "a@b.c");
    assert_eq!(p.username, "alice");
    assert_eq!(p.display_name.as_deref(), Some("Alice"));
    assert!(p.avatar_url.is_none());
    assert!(p.is_admin);
    assert_eq!(p.created_at, t);
    let k = SshKey { id: 1, user_id: 11, name: "laptop".to_string(), public_key: "ssh-ed25519 AAA".to_string(), fingerprint: "SHA256:x".to_string(), created_at: t };
    assert_eq!(k.user_id, 11);
}

#[test]
fn query_token_is_a_single_parameter() {
    let t = request_token_of(None, Some("a=1&token=abc&def=2")).unwrap();
    assert_eq!(t, "abc");
    assert!(!t.contains('&'));
}
