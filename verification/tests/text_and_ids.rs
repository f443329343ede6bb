use spur_cloud_api::crd::{spurjob_name, spurjob_manifest, deletion_already_done, default_one, GpuSpec};
use spur_cloud_api::ids::session_id_text;
use spur_cloud_api::text::{find_char_from, has_prefix_at, join_texts, signed_text, trim_text, unsigned_text};

#[test]
fn decimal_text_of_integers() {
    assert_eq!(unsigned_text(0), "0");
    assert_eq!(unsigned_text(6818), "6818");
    assert_eq!(unsigned_text(u64::MAX), "18446744073709551615");
    assert_eq!(signed_text(-42), "-42");
    assert_eq!(signed_text(120), "120");
}

#[test]
fn trimming_removes_unicode_white_space_at_both_ends() {
    assert_eq!(trim_text("  node1 \n"), "node1");
    assert_eq!(trim_text("\u{3000}a b\u{a0}"), "a b");
    assert_eq!(trim_text("   "), "");
}

#[test]
fn joining_puts_the_separator_between_neighbours() {
    let keys = vec!["ssh-ed25519 AAA a@b".to_string(), "ssh-rsa BBB c@d".to_string()];
    assert_eq!(join_texts(&keys, "\n"), "ssh-ed25519 AAA a@b\nssh-rsa BBB c@d");
    assert_eq!(join_texts(&vec!["one".to_string()], "\n"), "one");
    assert_eq!(join_texts(&Vec::new(), "\n"), "");
}

#[test]
fn finding_characters_and_prefixes() {
    assert_eq!(find_char_from("a,b,c", 0, ','), 1);
    assert_eq!(find_char_from("a,b,c", 2, ','), 3);
    assert_eq!(find_char_from("abc", 1, ','), 3);
    assert!(has_prefix_at("x&token=1", 2, "token="));
    assert!(!has_prefix_at("x&tok", 2, "token="));
}

#[test]
fn session_id_text_is_hyphenated_lowercase_hex() {
    let id: u128 = 0x67e5_5044_10b1_426f_9247_bb68_0e5f_e0c8;
    assert_eq!(session_id_text(id), "67e55044-10b1-426f-9247-bb680e5fe0c8");
    assert_eq!(session_id_text(0), "00000000-0000-0000-0000-000000000000");
}

#[test]
fn spurjob_name_takes_the_first_eight_bytes() {
    assert_eq!(spurjob_name("67e55044-10b1-426f-9247-bb680e5fe0c8"), "session-67e55044");
    assert_eq!(spurjob_name("abcdefgh"), "session-abcdefgh");
    assert_eq!(spurjob_name("é1234567xyz"), "session-é123456");
}

#[test]
fn spurjob_manifest_for_a_session() {
    let m = spurjob_manifest("gpu-sessions", "67e55044-10b1-426f-9247-bb680e5fe0c8", "train", "mi300x", 4, "rocm/pytorch:latest", 120);
    assert_eq!(m.name, "session-67e55044");
    assert_eq!(m.namespace, "gpu-sessions");
    assert_eq!(m.labels, vec![
        ("spur.ai/session-id".to_string(), "67e55044-10b1-426f-9247-bb680e5fe0c8".to_string()),
        ("spur.ai/managed-by".to_string(), "spur-cloud".to_string()),
    ]);
    assert_eq!(m.spec.name, "train");
    assert_eq!(m.spec.image, "rocm/pytorch:latest");
    assert_eq!(m.spec.gpus.count, 4);
    assert_eq!(m.spec.gpus.gpu_type.as_deref(), Some("mi300x"));
    assert_eq!(m.spec.num_nodes, 1);
    assert_eq!(m.spec.tasks_per_node, 1);
    assert_eq!(m.spec.cpus_per_task, 8);
    assert_eq!(m.spec.time_limit.as_deref(), Some("120m"));
    assert!(m.spec.command.is_empty());
    assert!(m.spec.args.is_empty());
    assert_eq!(m.spec.env, vec![("GPUAAS_SESSION_ID".to_string(), "67e55044-10b1-426f-9247-bb680e5fe0c8".to_string())]);
    assert!(!m.spec.host_network);
    assert!(!m.spec.privileged);
}

#[test]
fn spurjob_manifest_takes_the_gpu_count_bit_for_bit() {
    let m = spurjob_manifest("ns", "abcdefgh", "n", "t", -1, "img", -5);
    assert_eq!(m.spec.gpus.count, u32::MAX);
    assert_eq!(m.spec.time_limit.as_deref(), Some("-5m"));
}

#[test]
fn spurjob_defaults() {
    let g = GpuSpec::default();
    assert_eq!(g.count, 0);
    assert!(g.gpu_type.is_none());
    assert_eq!(default_one(), 1);
}

#[test]
fn deleting_a_missing_spurjob_counts_as_done() {
    assert!(deletion_already_done(Some(404)));
    assert!(!deletion_already_done(Some(500)));
    assert!(!deletion_already_done(None));
}
