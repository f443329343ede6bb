use spur_cloud_api::capacity::{gpu_capacity, GpuDevice, NodeReport};

fn gpu(t: &str, mem: u64) -> GpuDevice {
    GpuDevice { gpu_type: t.to_string(), memory_mb: mem }
}

fn node(name: &str, total: Option<Vec<GpuDevice>>, allocated: Option<Vec<GpuDevice>>) -> NodeReport {
    NodeReport { name: name.to_string(), state: "NodeIdle".to_string(), total_gpus: total, allocated_gpus: allocated }
}

fn cluster() -> Vec<NodeReport> {
    vec![
        node("n1", Some(vec![gpu("mi300", 192), gpu("mi300", 192)]), Some(vec![gpu("mi300", 192)])),
        node("n2", Some(vec![gpu("h100", 80)]), Some(vec![gpu("h100", 80), gpu("mi300", 192)])),
        node("n3", None, Some(vec![gpu("a100", 40)])),
        node("n4", Some(vec![gpu("a100", 40), gpu("mi300", 100)]), None),
        node("n5", Some(vec![]), Some(vec![gpu("h100", 80), gpu("h100", 80), gpu("h100", 80)])),
    ]
}

#[test]
fn pools_by_type_in_order_of_first_appearance() {
    let pools = gpu_capacity(&cluster());
    let types: Vec<&str> = pools.iter().map(|p| p.gpu_type.as_str()).collect();
    assert_eq!(types, vec!["mi300", "h100", "a100"]);

    let mi = &pools[0];
    assert_eq!((mi.total, mi.allocated, mi.available, mi.memory_mb), (3, 2, 1, 192));
    assert_eq!(mi.nodes.len(), 1);
    assert_eq!(mi.nodes[0].name, "n1");
    assert_eq!((mi.nodes[0].total_gpus, mi.nodes[0].available_gpus), (2, 1));
    assert_eq!(mi.nodes[0].state, "NodeIdle");

    let h = &pools[1];
    assert_eq!((h.total, h.allocated, h.available, h.memory_mb), (1, 4, 0, 80));
    assert_eq!(h.nodes.len(), 1);
    assert_eq!(h.nodes[0].name, "n2");
    assert_eq!((h.nodes[0].total_gpus, h.nodes[0].available_gpus), (1, 0));

    let a = &pools[2];
    assert_eq!((a.total, a.allocated, a.available, a.memory_mb), (1, 0, 1, 40));
    assert_eq!(a.nodes.len(), 1);
    assert_eq!(a.nodes[0].name, "n4");
    assert_eq!((a.nodes[0].total_gpus, a.nodes[0].available_gpus), (2, 2));
}

#[test]
fn every_gpu_is_counted_in_exactly_one_pool() {
    let nodes = cluster();
    let gpus: usize = nodes.iter().map(|n| n.total_gpus.as_ref().map(|g| g.len()).unwrap_or(0)).sum();
    let pools = gpu_capacity(&nodes);
    let total: u32 = pools.iter().map(|p| p.total).sum();
    assert_eq!(total as usize, gpus);
    for (i, p) in pools.iter().enumerate() {
        for q in &pools[i + 1..] {
            assert_ne!(p.gpu_type, q.gpu_type);
        }
    }
}

#[test]
fn available_is_total_less_allocated_floored_at_zero() {
    for p in gpu_capacity(&cluster()) {
        assert!(p.available <= p.total);
        if p.allocated <= p.total {
            assert_eq!(p.available + p.allocated, p.total);
        } else {
            assert_eq!(p.available, 0);
        }
    }
}

#[test]
fn no_nodes_no_pools() {
    assert!(gpu_capacity(&Vec::new()).is_empty());
    assert!(gpu_capacity(&vec![node("idle", None, None)]).is_empty());
}
