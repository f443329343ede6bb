use spur_cloud_api::terminal::{
    agent_address, agent_output_step, attach_input, input_step, pod_attach_settings, pod_output_step, InputStep,
    OutputStep, WsMessage,
};

#[test]
fn browser_messages_become_shell_input() {
    match input_step(WsMessage::Text("ls é\n".to_string())) {
        InputStep::Forward(b) => assert_eq!(b, "ls é\n".as_bytes().to_vec()),
        _ => panic!("not forwarded"),
    }
    match input_step(WsMessage::Binary(vec![3, 4])) {
        InputStep::Forward(b) => assert_eq!(b, vec![3, 4]),
        _ => panic!("not forwarded"),
    }
    assert!(matches!(input_step(WsMessage::Close), InputStep::Stop));
    assert!(matches!(input_step(WsMessage::Error), InputStep::Stop));
    assert!(matches!(input_step(WsMessage::Other), InputStep::Ignore));
}

#[test]
fn shell_output_steps() {
    assert!(matches!(pod_output_step(Some(12)), OutputStep::Send));
    assert!(matches!(pod_output_step(Some(0)), OutputStep::Stop));
    assert!(matches!(pod_output_step(None), OutputStep::Stop));
    assert!(matches!(agent_output_step(Some((true, 5))), OutputStep::Stop));
    assert!(matches!(agent_output_step(Some((false, 5))), OutputStep::Send));
    assert!(matches!(agent_output_step(Some((false, 0))), OutputStep::Skip));
    assert!(matches!(agent_output_step(None), OutputStep::Stop));
}

#[test]
fn agent_address_uses_the_first_node() {
    assert_eq!(agent_address("gpu-node-1,gpu-node-2", 6818).unwrap(), "http://gpu-node-1:6818");
    assert_eq!(agent_address(" node7 ", 7000).unwrap(), "http://node7:7000");
    assert_eq!(agent_address(",node2", 1).unwrap(), "http://:1");
    assert_eq!(agent_address("", 6818).unwrap_err(), "job has no allocated nodes");
}

#[test]
fn attach_inputs_carry_the_job() {
    let opening = attach_input(5, Vec::new());
    assert_eq!(opening.job_id, 5);
    assert!(opening.data.is_empty());
    assert_eq!(attach_input(5, vec![1, 2]).data, vec![1, 2]);
}

#[test]
fn pod_shell_settings() {
    let s = pod_attach_settings();
    assert_eq!(s.command, vec!["bash".to_string(), "-l".to_string()]);
    assert!(s.stdin && s.stdout && s.tty);
    assert!(!s.stderr);
    assert_eq!((s.max_stdin_buf_size, s.max_stdout_buf_size, s.max_stderr_buf_size), (1024, 1024, 1024));
}
