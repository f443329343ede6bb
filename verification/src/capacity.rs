//! GPU capacity across the cluster: one pool per GPU type, with its total,
//! allocated and available devices and the nodes that offer it.
//!
//! Node reports come in the order the controller lists them. A pool exists
//! for every GPU type that some node has; a node is listed under the pool of
//! the type of its first GPU. An allocated GPU counts towards its type's pool
//! when that type has been seen among the GPUs of the nodes reported so far,
//! that node included.
use vstd::prelude::*;
use crate::text::texts;

verus! {

/// One GPU device of a node.
pub struct GpuDevice {
    pub gpu_type: String,
    pub memory_mb: u64,
}

/// What the controller reports of one node: its name, its state as text, its
/// GPUs and those of them that are allocated (`None` when not reported).
pub struct NodeReport {
    pub name: String,
    pub state: String,
    pub total_gpus: Option<Vec<GpuDevice>>,
    pub allocated_gpus: Option<Vec<GpuDevice>>,
}

/// A node's GPUs, as listed under its pool.
pub struct GpuNodeInfo {
    pub name: String,
    pub total_gpus: u32,
    pub available_gpus: u32,
    pub state: String,
}

/// The GPUs of one type across the cluster.
pub struct GpuPool {
    pub gpu_type: String,
    pub total: u32,
    pub available: u32,
    pub allocated: u32,
    pub memory_mb: u64,
    pub nodes: Vec<GpuNodeInfo>,
}

pub struct GpuView {
    pub gpu_type: Seq<char>,
    pub memory_mb: u64,
}

pub struct NodeView {
    pub name: Seq<char>,
    pub state: Seq<char>,
    pub total: Seq<GpuView>,
    pub allocated: Seq<GpuView>,
}

pub struct NodeInfoView {
    pub name: Seq<char>,
    pub total_gpus: nat,
    pub available_gpus: nat,
    pub state: Seq<char>,
}

pub struct PoolView {
    pub gpu_type: Seq<char>,
    pub total: nat,
    pub available: nat,
    pub allocated: nat,
    pub memory_mb: u64,
    pub nodes: Seq<NodeInfoView>,
}

impl View for GpuDevice {
    type V = GpuView;

    open spec fn view(&self) -> GpuView {
        GpuView { gpu_type: self.gpu_type@, memory_mb: self.memory_mb }
    }
}

/// The views of a list of GPUs.
pub open spec fn gpu_views(v: Seq<GpuDevice>) -> Seq<GpuView> {
    v.map_values(|g: GpuDevice| g@)
}

/// The views of an optional list of GPUs; none reported is no GPUs.
pub open spec fn opt_gpu_views(v: Option<Vec<GpuDevice>>) -> Seq<GpuView> {
    match v {
        Some(g) => gpu_views(g@),
        None => Seq::empty(),
    }
}

impl View for NodeReport {
    type V = NodeView;

    open spec fn view(&self) -> NodeView {
        NodeView {
            name: self.name@,
            state: self.state@,
            total: opt_gpu_views(self.total_gpus),
            allocated: opt_gpu_views(self.allocated_gpus),
        }
    }
}

impl View for GpuNodeInfo {
    type V = NodeInfoView;

    open spec fn view(&self) -> NodeInfoView {
        NodeInfoView {
            name: self.name@,
            total_gpus: self.total_gpus as nat,
            available_gpus: self.available_gpus as nat,
            state: self.state@,
        }
    }
}

/// The views of a list of node entries.
pub open spec fn node_info_views(v: Seq<GpuNodeInfo>) -> Seq<NodeInfoView> {
    v.map_values(|n: GpuNodeInfo| n@)
}

impl View for GpuPool {
    type V = PoolView;

    open spec fn view(&self) -> PoolView {
        PoolView {
            gpu_type: self.gpu_type@,
            total: self.total as nat,
            available: self.available as nat,
            allocated: self.allocated as nat,
            memory_mb: self.memory_mb,
            nodes: node_info_views(self.nodes@),
        }
    }
}

/// The views of a list of node reports.
pub open spec fn node_views(v: Seq<NodeReport>) -> Seq<NodeView> {
    v.map_values(|n: NodeReport| n@)
}

/// The views of a list of pools.
pub open spec fn pool_views(v: Seq<GpuPool>) -> Seq<PoolView> {
    v.map_values(|p: GpuPool| p@)
}

/// `a - b`, or 0 when `b` exceeds `a`.
pub open spec fn sat_sub(a: nat, b: nat) -> nat {
    if a >= b {
        (a - b) as nat
    } else {
        0
    }
}

/// How many GPUs of type `t` the list holds.
pub open spec fn count_type(g: Seq<GpuView>, t: Seq<char>) -> nat
    decreases g.len(),
{
    if g.len() == 0 {
        0
    } else {
        count_type(g.drop_last(), t) + if g.last().gpu_type == t {
            1nat
        } else {
            0nat
        }
    }
}

/// `types` extended by the types of `g` not yet in it, in order of first appearance.
pub open spec fn add_types(types: Seq<Seq<char>>, g: Seq<GpuView>) -> Seq<Seq<char>>
    decreases g.len(),
{
    if g.len() == 0 {
        types
    } else {
        let t = add_types(types, g.drop_last());
        if t.contains(g.last().gpu_type) {
            t
        } else {
            t.push(g.last().gpu_type)
        }
    }
}

/// The GPU types of the nodes' GPUs, in order of first appearance.
pub open spec fn pool_types(nodes: Seq<NodeView>) -> Seq<Seq<char>>
    decreases nodes.len(),
{
    if nodes.len() == 0 {
        Seq::empty()
    } else {
        add_types(pool_types(nodes.drop_last()), nodes.last().total)
    }
}

/// Number of GPUs of type `t` across the nodes.
pub open spec fn total_count(nodes: Seq<NodeView>, t: Seq<char>) -> nat
    decreases nodes.len(),
{
    if nodes.len() == 0 {
        0
    } else {
        total_count(nodes.drop_last(), t) + count_type(nodes.last().total, t)
    }
}

/// Number of allocated GPUs of type `t` counted towards its pool: those of
/// each node once the type has been seen among the GPUs up to that node.
pub open spec fn alloc_count(nodes: Seq<NodeView>, t: Seq<char>) -> nat
    decreases nodes.len(),
{
    if nodes.len() == 0 {
        0
    } else {
        alloc_count(nodes.drop_last(), t) + if pool_types(nodes).contains(t) {
            count_type(nodes.last().allocated, t)
        } else {
            0nat
        }
    }
}

/// Memory of the first GPU of type `t` in the list (0 when there is none).
pub open spec fn memory_in(g: Seq<GpuView>, t: Seq<char>) -> u64
    decreases g.len(),
{
    if g.len() == 0 {
        0
    } else if count_type(g.drop_last(), t) > 0 {
        memory_in(g.drop_last(), t)
    } else if g.last().gpu_type == t {
        g.last().memory_mb
    } else {
        0
    }
}

/// Memory of the first GPU of type `t` across the nodes.
pub open spec fn first_memory(nodes: Seq<NodeView>, t: Seq<char>) -> u64
    decreases nodes.len(),
{
    if nodes.len() == 0 {
        0
    } else if pool_types(nodes.drop_last()).contains(t) {
        first_memory(nodes.drop_last(), t)
    } else {
        memory_in(nodes.last().total, t)
    }
}

/// The entry of a node under its pool.
pub open spec fn node_info(n: NodeView) -> NodeInfoView {
    NodeInfoView {
        name: n.name,
        total_gpus: n.total.len(),
        available_gpus: sat_sub(n.total.len(), n.allocated.len()),
        state: n.state,
    }
}

/// Whether a node is listed under the pool of type `t`: it has GPUs and the first is of type `t`.
pub open spec fn listed_under(n: NodeView, t: Seq<char>) -> bool {
    n.total.len() > 0 && n.total[0].gpu_type == t
}

/// The entries of the nodes listed under the pool of type `t`, in node order.
pub open spec fn node_infos(nodes: Seq<NodeView>, t: Seq<char>) -> Seq<NodeInfoView>
    decreases nodes.len(),
{
    if nodes.len() == 0 {
        Seq::empty()
    } else {
        node_infos(nodes.drop_last(), t) + if listed_under(nodes.last(), t) {
            seq![node_info(nodes.last())]
        } else {
            Seq::<NodeInfoView>::empty()
        }
    }
}

/// The pool of GPU type `t`.
pub open spec fn pool_of(nodes: Seq<NodeView>, t: Seq<char>) -> PoolView {
    PoolView {
        gpu_type: t,
        total: total_count(nodes, t),
        available: sat_sub(total_count(nodes, t), alloc_count(nodes, t)),
        allocated: alloc_count(nodes, t),
        memory_mb: first_memory(nodes, t),
        nodes: node_infos(nodes, t),
    }
}

/// The GPU pools of the cluster, in order of first appearance of their type.
pub open spec fn capacity(nodes: Seq<NodeView>) -> Seq<PoolView> {
    pool_types(nodes).map_values(|t: Seq<char>| pool_of(nodes, t))
}

/// Number of GPUs across the nodes.
pub open spec fn gpu_sum(nodes: Seq<NodeView>) -> nat
    decreases nodes.len(),
{
    if nodes.len() == 0 {
        0
    } else {
        gpu_sum(nodes.drop_last()) + nodes.last().total.len()
    }
}

/// Number of allocated GPUs across the nodes.
pub open spec fn alloc_sum(nodes: Seq<NodeView>) -> nat
    decreases nodes.len(),
{
    if nodes.len() == 0 {
        0
    } else {
        alloc_sum(nodes.drop_last()) + nodes.last().allocated.len()
    }
}

// ---- lemmas ----

pub proof fn lemma_count_type_bound(g: Seq<GpuView>, t: Seq<char>)
    ensures
        count_type(g, t) <= g.len(),
    decreases g.len(),
{
    if g.len() > 0 {
        lemma_count_type_bound(g.drop_last(), t);
    }
}

/// Adding the types of `g` keeps the list free of repeats and adds exactly the types `g` holds.
pub proof fn lemma_add_types(types: Seq<Seq<char>>, g: Seq<GpuView>)
    requires
        types.no_duplicates(),
    ensures
        add_types(types, g).no_duplicates(),
        forall|t: Seq<char>| #[trigger]
            add_types(types, g).contains(t) <==> (types.contains(t) || count_type(g, t) > 0),
        add_types(types, g).len() >= types.len(),
        forall|i: int| 0 <= i < types.len() ==> add_types(types, g)[i] == types[i],
    decreases g.len(),
{
    if g.len() > 0 {
        let init = g.drop_last();
        lemma_add_types(types, init);
        let t0 = add_types(types, init);
        let x = g.last().gpu_type;
        if !t0.contains(x) {
            let t1 = t0.push(x);
            assert forall|i: int, j: int|
                0 <= i < t1.len() && 0 <= j < t1.len() && i != j implies t1[i] != t1[j] by {
                if i == t0.len() as int {
                    assert(t0.contains(t1[j]));
                } else if j == t0.len() as int {
                    assert(t0.contains(t1[i]));
                }
            }
            assert forall|t: Seq<char>| #[trigger]
                t1.contains(t) <==> (types.contains(t) || count_type(g, t) > 0) by {
                if t1.contains(t) {
                    let k = choose|k: int| 0 <= k < t1.len() && t1[k] == t;
                    if k < t0.len() {
                        assert(t0.contains(t));
                    }
                }
                if t == x {
                    assert(t1[t0.len() as int] == t);
                } else if t0.contains(t) {
                    let k = choose|k: int| 0 <= k < t0.len() && t0[k] == t;
                    assert(t1[k] == t);
                }
            }
        }
    }
}

/// The pool types are distinct; a type has a pool iff some node has a GPU of it.
pub proof fn lemma_pool_types(nodes: Seq<NodeView>)
    ensures
        pool_types(nodes).no_duplicates(),
        forall|t: Seq<char>| #[trigger]
            pool_types(nodes).contains(t) <==> total_count(nodes, t) > 0,
    decreases nodes.len(),
{
    if nodes.len() > 0 {
        lemma_pool_types(nodes.drop_last());
        lemma_add_types(pool_types(nodes.drop_last()), nodes.last().total);
    }
}

/// A type without a pool has no GPUs and no allocated GPUs counted.
pub proof fn lemma_absent_type(nodes: Seq<NodeView>, t: Seq<char>)
    requires
        !pool_types(nodes).contains(t),
    ensures
        total_count(nodes, t) == 0,
        alloc_count(nodes, t) == 0,
    decreases nodes.len(),
{
    lemma_pool_types(nodes);
    if nodes.len() > 0 {
        let init = nodes.drop_last();
        lemma_pool_types(init);
        lemma_add_types(pool_types(init), nodes.last().total);
        lemma_absent_type(init, t);
    }
}

pub proof fn lemma_total_count_bound(nodes: Seq<NodeView>, t: Seq<char>)
    ensures
        total_count(nodes, t) <= gpu_sum(nodes),
    decreases nodes.len(),
{
    if nodes.len() > 0 {
        lemma_total_count_bound(nodes.drop_last(), t);
        lemma_count_type_bound(nodes.last().total, t);
    }
}

pub proof fn lemma_alloc_count_bound(nodes: Seq<NodeView>, t: Seq<char>)
    ensures
        alloc_count(nodes, t) <= alloc_sum(nodes),
    decreases nodes.len(),
{
    if nodes.len() > 0 {
        lemma_alloc_count_bound(nodes.drop_last(), t);
        lemma_count_type_bound(nodes.last().allocated, t);
    }
}

pub proof fn lemma_sums_monotone(nodes: Seq<NodeView>, k: int)
    requires
        0 <= k <= nodes.len(),
    ensures
        gpu_sum(nodes.take(k)) <= gpu_sum(nodes),
        alloc_sum(nodes.take(k)) <= alloc_sum(nodes),
    decreases nodes.len() - k,
{
    if k < nodes.len() {
        lemma_sums_monotone(nodes, k + 1);
        assert(nodes.take(k + 1).drop_last() =~= nodes.take(k));
    } else {
        assert(nodes.take(k) =~= nodes);
    }
}


// ---- computation ----

/// The index of type `t` in `types`, if it is there.
fn find_type(types: &Vec<String>, t: &String) -> (r: Option<usize>)
    ensures
        match r {
            Some(i) => i < types@.len() && types@[i as int]@ == t@,
            None => !texts(types@).contains(t@),
        },
{
    let n = types.len();
    let mut i: usize = 0;
    while i < n
        invariant
            n == types@.len(),
            i <= n,
            forall|j: int| 0 <= j < i ==> types@[j]@ != t@,
        decreases n - i,
    {
        if types[i] == *t {
            return Some(i);
        }
        i = i + 1;
    }
    proof {
        if texts(types@).contains(t@) {
            let k = choose|k: int| 0 <= k < texts(types@).len() && texts(types@)[k] == t@;
            assert(types@[k]@ == t@);
        }
    }
    None
}

/// The running tallies, one entry per GPU type, agree with the nodes seen so far.
pub open spec fn tally_matches(
    types: Seq<String>,
    totals: Seq<u32>,
    allocs: Seq<u32>,
    mems: Seq<u64>,
    nodes: Seq<NodeView>,
) -> bool {
    &&& types.len() == totals.len()
    &&& types.len() == allocs.len()
    &&& types.len() == mems.len()
    &&& texts(types) == pool_types(nodes)
    &&& forall|i: int| 0 <= i < types.len() ==> #[trigger] totals[i] == total_count(nodes, types[i]@)
    &&& forall|i: int| 0 <= i < types.len() ==> #[trigger] allocs[i] == alloc_count(nodes, types[i]@)
    &&& forall|i: int| 0 <= i < types.len() ==> #[trigger] mems[i] == first_memory(nodes, types[i]@)
}

/// Adds one node's GPUs and allocated GPUs to the tallies.
fn tally_node(
    types: &mut Vec<String>,
    totals: &mut Vec<u32>,
    allocs: &mut Vec<u32>,
    mems: &mut Vec<u64>,
    node: &NodeReport,
    Ghost(prev): Ghost<Seq<NodeView>>,
)
    requires
        tally_matches(old(types)@, old(totals)@, old(allocs)@, old(mems)@, prev),
        gpu_sum(prev.push(node@)) <= u32::MAX,
        alloc_sum(prev.push(node@)) <= u32::MAX,
    ensures
        tally_matches(final(types)@, final(totals)@, final(allocs)@, final(mems)@, prev.push(node@)),
{
    let ghost cur = prev.push(node@);
    assert(cur.drop_last() =~= prev);
    assert(cur.last() == node@);
    proof {
        lemma_pool_types(prev);
    }
    let empty: Vec<GpuDevice> = Vec::new();
    let g: &Vec<GpuDevice> = match &node.total_gpus {
        Some(v) => v,
        None => &empty,
    };
    let ghost gv = gpu_views(g@);
    assert(gv =~= node@.total);
    let ghost base = pool_types(prev);
    let n = g.len();
    let mut j: usize = 0;
    assert(gv.take(0) =~= Seq::<GpuView>::empty());
    assert(add_types(base, gv.take(0)) == base);
    assert forall|i: int| 0 <= i < types@.len() implies base.contains(#[trigger] types@[i]@) by {
        assert(texts(types@)[i] == types@[i]@);
    }
    while j < n
        invariant
            n == g@.len(),
            gv == gpu_views(g@),
            gv == node@.total,
            cur == prev.push(node@),
            cur.drop_last() == prev,
            base == pool_types(prev),
            base.no_duplicates(),
            gpu_sum(cur) <= u32::MAX,
            j <= n,
            types@.len() == totals@.len(),
            types@.len() == allocs@.len(),
            types@.len() == mems@.len(),
            texts(types@) == add_types(base, gv.take(j as int)),
            texts(types@).no_duplicates(),
            forall|i: int|
                0 <= i < types@.len() ==> #[trigger] totals@[i] == total_count(prev, types@[i]@)
                    + count_type(gv.take(j as int), types@[i]@),
            forall|i: int|
                0 <= i < types@.len() ==> #[trigger] allocs@[i] == alloc_count(prev, types@[i]@),
            forall|i: int|
                0 <= i < types@.len() ==> #[trigger] mems@[i] == if base.contains(types@[i]@) {
                    first_memory(prev, types@[i]@)
                } else {
                    memory_in(gv.take(j as int), types@[i]@)
                },
        decreases n - j,
    {
        let ghost old_types = types@;
        let ghost old_totals = totals@;
        let ghost old_mems = mems@;
        let ghost pre = gv.take(j as int);
        let ghost post = gv.take(j + 1);
        let ghost x = gv[j as int];
        assert(post.drop_last() =~= pre);
        assert(post.last() == x);
        assert(g@[j as int]@ == x);
        proof {
            lemma_add_types(base, pre);
            lemma_add_types(base, post);
        }
        let found = find_type(types, &g[j].gpu_type);
        match found {
            Some(i) => {
                proof {
                    assert(texts(old_types)[i as int] == old_types[i as int]@);
                    assert(texts(old_types).contains(x.gpu_type));
                    assert(old_totals[i as int] == total_count(prev, x.gpu_type) + count_type(
                        pre,
                        x.gpu_type,
                    ));
                    lemma_total_count_bound(prev, x.gpu_type);
                    lemma_count_type_bound(pre, x.gpu_type);
                    assert(gpu_sum(cur) == gpu_sum(prev) + gv.len());
                }
                let v = totals[i] + 1;
                totals.set(i, v);
                proof {
                    assert(texts(types@) =~= add_types(base, post));
                    assert forall|k: int| 0 <= k < types@.len() implies #[trigger] totals@[k]
                        == total_count(prev, types@[k]@) + count_type(post, types@[k]@) by {
                        assert(old_totals[k] == total_count(prev, old_types[k]@) + count_type(
                            pre,
                            old_types[k]@,
                        ));
                        if k != i {
                            assert(texts(old_types)[k] == old_types[k]@);
                            assert(texts(old_types)[i as int] == old_types[i as int]@);
                        }
                    }
                    assert forall|k: int| 0 <= k < types@.len() implies #[trigger] mems@[k] == if base.contains(
                        types@[k]@,
                    ) {
                        first_memory(prev, types@[k]@)
                    } else {
                        memory_in(post, types@[k]@)
                    } by {
                        assert(old_mems[k] == mems@[k]);
                        assert(texts(old_types)[k] == old_types[k]@);
                        assert(texts(old_types).contains(old_types[k]@));
                        if !base.contains(types@[k]@) {
                            assert(count_type(pre, types@[k]@) > 0);
                        }
                    }
                }
            },
            None => {
                proof {
                    assert(!base.contains(x.gpu_type));
                    assert(count_type(pre, x.gpu_type) == 0);
                    lemma_absent_type(prev, x.gpu_type);
                }
                types.push(g[j].gpu_type.clone());
                totals.push(1);
                allocs.push(0);
                mems.push(g[j].memory_mb);
                proof {
                    assert(texts(types@) =~= add_types(base, post));
                    assert forall|k: int| 0 <= k < types@.len() implies #[trigger] totals@[k]
                        == total_count(prev, types@[k]@) + count_type(post, types@[k]@) by {
                        if k < old_types.len() {
                            assert(old_totals[k] == total_count(prev, old_types[k]@) + count_type(
                                pre,
                                old_types[k]@,
                            ));
                            assert(texts(old_types)[k] == old_types[k]@);
                            assert(texts(old_types).contains(old_types[k]@));
                        } else {
                            assert(types@[k]@ == x.gpu_type);
                        }
                    }
                    assert forall|k: int| 0 <= k < types@.len() implies #[trigger] mems@[k] == if base.contains(
                        types@[k]@,
                    ) {
                        first_memory(prev, types@[k]@)
                    } else {
                        memory_in(post, types@[k]@)
                    } by {
                        if k < old_types.len() {
                            assert(old_mems[k] == mems@[k]);
                            assert(texts(old_types)[k] == old_types[k]@);
                            assert(texts(old_types).contains(old_types[k]@));
                            assert(old_types[k]@ != x.gpu_type);
                            if !base.contains(types@[k]@) {
                                assert(count_type(pre, types@[k]@) > 0);
                            }
                        } else {
                            assert(types@[k]@ == x.gpu_type);
                        }
                    }
                    assert forall|k: int| 0 <= k < types@.len() implies #[trigger] allocs@[k]
                        == alloc_count(prev, types@[k]@) by {
                        if k == old_types.len() {
                            assert(types@[k]@ == x.gpu_type);
                        }
                    }
                }
            },
        }
        j = j + 1;
    }
    assert(gv.take(n as int) =~= gv);
    proof {
        lemma_pool_types(cur);
    }
    let empty2: Vec<GpuDevice> = Vec::new();
    let a: &Vec<GpuDevice> = match &node.allocated_gpus {
        Some(v) => v,
        None => &empty2,
    };
    let ghost av = gpu_views(a@);
    assert(av =~= node@.allocated);
    let m = a.len();
    let mut q: usize = 0;
    assert(av.take(0) =~= Seq::<GpuView>::empty());
    assert forall|i: int| 0 <= i < types@.len() implies #[trigger] totals@[i] == total_count(
        cur,
        types@[i]@,
    ) by {
        let t = types@[i]@;
        assert(totals@[i] == total_count(prev, t) + count_type(gv.take(n as int), t));
    }
    assert forall|i: int| 0 <= i < types@.len() implies #[trigger] allocs@[i] == alloc_count(
        prev,
        types@[i]@,
    ) + count_type(av.take(0), types@[i]@) by {
        assert(count_type(av.take(0), types@[i]@) == 0);
    }
    assert forall|i: int| 0 <= i < types@.len() implies #[trigger] mems@[i] == first_memory(
        cur,
        types@[i]@,
    ) by {
        let t = types@[i]@;
        assert(mems@[i] == if base.contains(t) {
            first_memory(prev, t)
        } else {
            memory_in(gv.take(n as int), t)
        });
    }
    while q < m
        invariant
            m == a@.len(),
            av == gpu_views(a@),
            av == node@.allocated,
            cur == prev.push(node@),
            cur.drop_last() == prev,
            cur.last() == node@,
            alloc_sum(cur) <= u32::MAX,
            q <= m,
            types@.len() == totals@.len(),
            types@.len() == allocs@.len(),
            types@.len() == mems@.len(),
            texts(types@) == pool_types(cur),
            texts(types@).no_duplicates(),
            forall|i: int|
                0 <= i < types@.len() ==> #[trigger] totals@[i] == total_count(cur, types@[i]@),
            forall|i: int|
                0 <= i < types@.len() ==> #[trigger] allocs@[i] == alloc_count(prev, types@[i]@)
                    + count_type(av.take(q as int), types@[i]@),
            forall|i: int|
                0 <= i < types@.len() ==> #[trigger] mems@[i] == first_memory(cur, types@[i]@),
        decreases m - q,
    {
        let ghost old_types = types@;
        let ghost old_allocs = allocs@;
        let ghost pre = av.take(q as int);
        let ghost post = av.take(q + 1);
        let ghost x = av[q as int];
        assert(post.drop_last() =~= pre);
        assert(post.last() == x);
        assert(a@[q as int]@ == x);
        let found = find_type(types, &a[q].gpu_type);
        match found {
            Some(i) => {
                proof {
                    lemma_alloc_count_bound(prev, x.gpu_type);
                    lemma_count_type_bound(pre, x.gpu_type);
                    assert(alloc_sum(cur) == alloc_sum(prev) + av.len());
                    assert(old_allocs[i as int] == alloc_count(prev, x.gpu_type) + count_type(
                        pre,
                        x.gpu_type,
                    ));
                }
                let v = allocs[i] + 1;
                allocs.set(i, v);
                proof {
                    assert forall|k: int| 0 <= k < types@.len() implies #[trigger] allocs@[k]
                        == alloc_count(prev, types@[k]@) + count_type(post, types@[k]@) by {
                        assert(old_allocs[k] == alloc_count(prev, old_types[k]@) + count_type(
                            pre,
                            old_types[k]@,
                        ));
                        if k != i {
                            assert(texts(old_types)[k] == old_types[k]@);
                            assert(texts(old_types)[i as int] == old_types[i as int]@);
                        }
                    }
                }
            },
            None => {
                proof {
                    assert forall|k: int| 0 <= k < types@.len() implies #[trigger] allocs@[k]
                        == alloc_count(prev, types@[k]@) + count_type(post, types@[k]@) by {
                        assert(old_allocs[k] == alloc_count(prev, old_types[k]@) + count_type(
                            pre,
                            old_types[k]@,
                        ));
                        assert(texts(old_types)[k] == old_types[k]@);
                        assert(texts(old_types).contains(old_types[k]@));
                    }
                }
            },
        }
        q = q + 1;
    }
    assert(av.take(m as int) =~= av);
    assert forall|i: int| 0 <= i < types@.len() implies #[trigger] allocs@[i] == alloc_count(
        cur,
        types@[i]@,
    ) by {
        let t = types@[i]@;
        assert(allocs@[i] == alloc_count(prev, t) + count_type(av.take(m as int), t));
        assert(texts(types@)[i] == t);
        assert(pool_types(cur).contains(t));
    }
}

/// A node's GPU counts are within the cluster's totals.
pub proof fn lemma_node_bound(nodes: Seq<NodeView>, k: int)
    requires
        0 <= k < nodes.len(),
    ensures
        nodes[k].total.len() <= gpu_sum(nodes),
        nodes[k].allocated.len() <= alloc_sum(nodes),
{
    lemma_sums_monotone(nodes, k + 1);
    assert(nodes.take(k + 1).drop_last() =~= nodes.take(k));
    assert(nodes.take(k + 1).last() == nodes[k]);
}

/// The entry of a node under its pool.
fn node_entry(node: &NodeReport, total: usize) -> (info: GpuNodeInfo)
    requires
        total == node@.total.len(),
        total <= u32::MAX,
        node@.allocated.len() <= u32::MAX,
    ensures
        info@ == node_info(node@),
{
    let allocated: usize = match &node.allocated_gpus {
        Some(a) => a.len(),
        None => 0,
    };
    let total32 = total as u32;
    let allocated32 = allocated as u32;
    let available = if total32 >= allocated32 {
        total32 - allocated32
    } else {
        0
    };
    GpuNodeInfo {
        name: node.name.clone(),
        total_gpus: total32,
        available_gpus: available,
        state: node.state.clone(),
    }
}

/// The entries of the nodes listed under the pool of type `t`, in node order.
fn node_entries(nodes: &Vec<NodeReport>, t: &String) -> (infos: Vec<GpuNodeInfo>)
    requires
        gpu_sum(node_views(nodes@)) <= u32::MAX,
        alloc_sum(node_views(nodes@)) <= u32::MAX,
    ensures
        node_info_views(infos@) == node_infos(node_views(nodes@), t@),
{
    let ghost all = node_views(nodes@);
    let mut infos: Vec<GpuNodeInfo> = Vec::new();
    let n = nodes.len();
    let mut k: usize = 0;
    assert(all.take(0) =~= Seq::<NodeView>::empty());
    assert(node_info_views(infos@) =~= Seq::<NodeInfoView>::empty());
    while k < n
        invariant
            n == nodes@.len(),
            all == node_views(nodes@),
            gpu_sum(all) <= u32::MAX,
            alloc_sum(all) <= u32::MAX,
            k <= n,
            node_info_views(infos@) == node_infos(all.take(k as int), t@),
        decreases n - k,
    {
        let ghost before = infos@;
        assert(all.take(k + 1).drop_last() =~= all.take(k as int));
        assert(all.take(k + 1).last() == nodes@[k as int]@);
        proof {
            lemma_node_bound(all, k as int);
        }
        let node = &nodes[k];
        match &node.total_gpus {
            Some(g) => {
                assert(node@.total == gpu_views(g@));
                if g.len() > 0 && g[0].gpu_type == *t {
                    assert(g@[0]@ == node@.total[0]);
                    let info = node_entry(node, g.len());
                    infos.push(info);
                    assert(node_info_views(infos@) =~= node_info_views(before) + seq![
                        node_info(node@),
                    ]);
                } else {
                    proof {
                        if g.len() > 0 {
                            assert(g@[0]@ == node@.total[0]);
                        }
                    }
                    assert(node_info_views(infos@) =~= node_info_views(before) + Seq::<
                        NodeInfoView,
                    >::empty());
                }
            },
            None => {
                assert(node_info_views(infos@) =~= node_info_views(before) + Seq::<
                    NodeInfoView,
                >::empty());
            },
        }
        k = k + 1;
    }
    assert(all.take(n as int) =~= all);
    infos
}

/// The GPU pools of the cluster: one per GPU type that some node has, in
/// order of first appearance, each with its total, allocated and available
/// GPUs, the memory of its first GPU and the nodes listed under it. The
/// cluster's GPU counts must fit in `u32`.
pub fn gpu_capacity(nodes: &Vec<NodeReport>) -> (pools: Vec<GpuPool>)
    requires
        gpu_sum(node_views(nodes@)) <= u32::MAX,
        alloc_sum(node_views(nodes@)) <= u32::MAX,
    ensures
        pool_views(pools@) == capacity(node_views(nodes@)),
{
    let ghost all = node_views(nodes@);
    let mut types: Vec<String> = Vec::new();
    let mut totals: Vec<u32> = Vec::new();
    let mut allocs: Vec<u32> = Vec::new();
    let mut mems: Vec<u64> = Vec::new();
    let n = nodes.len();
    let mut k: usize = 0;
    assert(all.take(0) =~= Seq::<NodeView>::empty());
    assert(texts(types@) =~= Seq::<Seq<char>>::empty());
    while k < n
        invariant
            n == nodes@.len(),
            all == node_views(nodes@),
            gpu_sum(all) <= u32::MAX,
            alloc_sum(all) <= u32::MAX,
            k <= n,
            tally_matches(types@, totals@, allocs@, mems@, all.take(k as int)),
        decreases n - k,
    {
        assert(all.take(k + 1) =~= all.take(k as int).push(nodes@[k as int]@));
        proof {
            lemma_sums_monotone(all, k + 1);
        }
        tally_node(&mut types, &mut totals, &mut allocs, &mut mems, &nodes[k], Ghost(all.take(k as int)));
        k = k + 1;
    }
    assert(all.take(n as int) =~= all);
    let ghost kinds = pool_types(all);
    let mut pools: Vec<GpuPool> = Vec::new();
    let p = types.len();
    let mut i: usize = 0;
    assert(pool_views(pools@) =~= capacity(all).take(0));
    while i < p
        invariant
            p == types@.len(),
            all == node_views(nodes@),
            gpu_sum(all) <= u32::MAX,
            alloc_sum(all) <= u32::MAX,
            kinds == pool_types(all),
            tally_matches(types@, totals@, allocs@, mems@, all),
            i <= p,
            pool_views(pools@) == capacity(all).take(i as int),
        decreases p - i,
    {
        let infos = node_entries(nodes, &types[i]);
        let total = totals[i];
        let allocated = allocs[i];
        let available = if total >= allocated {
            total - allocated
        } else {
            0
        };
        let pool = GpuPool {
            gpu_type: types[i].clone(),
            total,
            available,
            allocated,
            memory_mb: mems[i],
            nodes: infos,
        };
        let ghost before = pools@;
        let ghost pv = pool@;
        proof {
            assert(texts(types@)[i as int] == types@[i as int]@);
            assert(kinds[i as int] == types@[i as int]@);
            assert(capacity(all)[i as int] == pool_of(all, types@[i as int]@));
            assert(pv == pool_of(all, types@[i as int]@));
        }
        pools.push(pool);
        proof {
            assert(pool_views(pools@) =~= pool_views(before).push(pv));
            assert(pool_views(pools@) =~= capacity(all).take(i + 1));
        }
        i = i + 1;
    }
    assert(capacity(all).take(p as int) =~= capacity(all));
    pools
}

// ---- laws ----

/// Sum of `f` over a list of GPU types.
pub open spec fn sum_by(ts: Seq<Seq<char>>, f: spec_fn(Seq<char>) -> nat) -> nat
    decreases ts.len(),
{
    if ts.len() == 0 {
        0
    } else {
        sum_by(ts.drop_last(), f) + f(ts.last())
    }
}

proof fn lemma_sum_append(a: Seq<Seq<char>>, b: Seq<Seq<char>>, f: spec_fn(Seq<char>) -> nat)
    ensures
        sum_by(a + b, f) == sum_by(a, f) + sum_by(b, f),
    decreases b.len(),
{
    if b.len() == 0 {
        assert(a + b =~= a);
    } else {
        assert((a + b).drop_last() =~= a + b.drop_last());
        assert((a + b).last() == b.last());
        lemma_sum_append(a, b.drop_last(), f);
    }
}

proof fn lemma_sum_ext(ts: Seq<Seq<char>>, f: spec_fn(Seq<char>) -> nat, g: spec_fn(Seq<char>) -> nat)
    requires
        forall|i: int| 0 <= i < ts.len() ==> f(ts[i]) == g(ts[i]),
    ensures
        sum_by(ts, f) == sum_by(ts, g),
    decreases ts.len(),
{
    if ts.len() > 0 {
        assert forall|i: int| 0 <= i < ts.drop_last().len() implies f(ts.drop_last()[i]) == g(
            ts.drop_last()[i],
        ) by {
            assert(ts.drop_last()[i] == ts[i]);
        }
        lemma_sum_ext(ts.drop_last(), f, g);
    }
}

proof fn lemma_sum_split(ts: Seq<Seq<char>>, f: spec_fn(Seq<char>) -> nat, g: spec_fn(Seq<char>) -> nat)
    ensures
        sum_by(ts, |t: Seq<char>| f(t) + g(t)) == sum_by(ts, f) + sum_by(ts, g),
    decreases ts.len(),
{
    if ts.len() > 0 {
        lemma_sum_split(ts.drop_last(), f, g);
    }
}

proof fn lemma_sum_zero(ts: Seq<Seq<char>>, f: spec_fn(Seq<char>) -> nat)
    requires
        forall|i: int| 0 <= i < ts.len() ==> f(ts[i]) == 0,
    ensures
        sum_by(ts, f) == 0,
    decreases ts.len(),
{
    if ts.len() > 0 {
        assert forall|i: int| 0 <= i < ts.drop_last().len() implies f(ts.drop_last()[i]) == 0 by {
            assert(ts.drop_last()[i] == ts[i]);
        }
        lemma_sum_zero(ts.drop_last(), f);
    }
}

/// Over a list of distinct types, the indicator of `x` sums to 1 when `x` is listed.
proof fn lemma_sum_indicator(ts: Seq<Seq<char>>, x: Seq<char>)
    requires
        ts.no_duplicates(),
    ensures
        sum_by(ts, |t: Seq<char>| if t == x { 1nat } else { 0nat }) == if ts.contains(x) {
            1nat
        } else {
            0nat
        },
    decreases ts.len(),
{
    if ts.len() > 0 {
        let init = ts.drop_last();
        assert(init.no_duplicates());
        lemma_sum_indicator(init, x);
        if ts.last() == x {
            if init.contains(x) {
                let k = choose|k: int| 0 <= k < init.len() && init[k] == x;
                assert(ts[k] == ts[ts.len() - 1]);
            }
            assert(ts.contains(x)) by {
                assert(ts[ts.len() - 1] == x);
            }
        } else {
            if ts.contains(x) {
                let k = choose|k: int| 0 <= k < ts.len() && ts[k] == x;
                assert(init[k] == x);
            }
            if init.contains(x) {
                let k = choose|k: int| 0 <= k < init.len() && init[k] == x;
                assert(ts[k] == x);
            }
        }
    }
}

/// Over distinct types that include every type of `g`, the per-type counts of `g` sum to its length.
proof fn lemma_sum_counts(ts: Seq<Seq<char>>, g: Seq<GpuView>)
    requires
        ts.no_duplicates(),
        forall|t: Seq<char>| count_type(g, t) > 0 ==> #[trigger] ts.contains(t),
    ensures
        sum_by(ts, |t: Seq<char>| count_type(g, t)) == g.len(),
    decreases g.len(),
{
    if g.len() == 0 {
        lemma_sum_zero(ts, |t: Seq<char>| count_type(g, t));
    } else {
        let init = g.drop_last();
        let x = g.last().gpu_type;
        assert forall|t: Seq<char>| count_type(init, t) > 0 implies #[trigger] ts.contains(t) by {
            assert(count_type(g, t) > 0);
        }
        lemma_sum_counts(ts, init);
        assert(count_type(g, x) > 0);
        lemma_sum_indicator(ts, x);
        let f = |t: Seq<char>| count_type(init, t);
        let ind = |t: Seq<char>| if t == x { 1nat } else { 0nat };
        lemma_sum_split(ts, f, ind);
        lemma_sum_ext(ts, |t: Seq<char>| count_type(g, t), |t: Seq<char>| f(t) + ind(t));
    }
}

/// Every GPU is counted in exactly one pool: the pool totals sum to the
/// number of GPUs across the nodes.
pub proof fn law_pool_totals_cover_all_gpus(nodes: Seq<NodeView>)
    ensures
        sum_by(pool_types(nodes), |t: Seq<char>| total_count(nodes, t)) == gpu_sum(nodes),
    decreases nodes.len(),
{
    if nodes.len() > 0 {
        let init = nodes.drop_last();
        let g = nodes.last().total;
        let p = pool_types(init);
        law_pool_totals_cover_all_gpus(init);
        lemma_pool_types(init);
        lemma_pool_types(nodes);
        lemma_add_types(p, g);
        let q = pool_types(nodes);
        let extra = q.skip(p.len() as int);
        assert(q =~= p + extra);
        let before = |t: Seq<char>| total_count(init, t);
        let here = |t: Seq<char>| count_type(g, t);
        lemma_sum_ext(q, |t: Seq<char>| total_count(nodes, t), |t: Seq<char>| before(t) + here(t));
        lemma_sum_split(q, before, here);
        lemma_sum_append(p, extra, before);
        assert forall|i: int| 0 <= i < extra.len() implies before(extra[i]) == 0 by {
            assert(q[p.len() + i] == extra[i]);
            if p.contains(extra[i]) {
                let k = choose|k: int| 0 <= k < p.len() && p[k] == extra[i];
                assert(q[k] == q[p.len() + i]);
            }
            lemma_absent_type(init, extra[i]);
        }
        lemma_sum_zero(extra, before);
        assert forall|t: Seq<char>| count_type(g, t) > 0 implies #[trigger] q.contains(t) by {}
        lemma_sum_counts(q, g);
    }
}

/// The pools have distinct GPU types, and there is a pool of type `t`
/// exactly when some node has a GPU of type `t`.
pub proof fn law_one_pool_per_type(nodes: Seq<NodeView>, t: Seq<char>)
    ensures
        forall|i: int, j: int|
            0 <= i < capacity(nodes).len() && 0 <= j < capacity(nodes).len() && i != j
                ==> capacity(nodes)[i].gpu_type != capacity(nodes)[j].gpu_type,
        (exists|i: int| 0 <= i < capacity(nodes).len() && #[trigger] capacity(nodes)[i].gpu_type == t)
            <==> total_count(nodes, t) > 0,
{
    lemma_pool_types(nodes);
    let ts = pool_types(nodes);
    assert(capacity(nodes).len() == ts.len());
    assert forall|i: int| 0 <= i < capacity(nodes).len() implies #[trigger] capacity(nodes)[i].gpu_type == ts[i] by {}
    if total_count(nodes, t) > 0 {
        assert(ts.contains(t));
        let k = choose|k: int| 0 <= k < ts.len() && ts[k] == t;
        assert(capacity(nodes)[k].gpu_type == t);
    }
    if exists|i: int| 0 <= i < capacity(nodes).len() && #[trigger] capacity(nodes)[i].gpu_type == t {
        let k = choose|k: int| 0 <= k < capacity(nodes).len() && #[trigger] capacity(nodes)[k].gpu_type == t;
        assert(ts[k] == t);
        assert(ts.contains(t));
    }
}

/// A pool's available GPUs are its total less its allocated ones, and never
/// more than its total.
pub proof fn law_available_is_total_less_allocated(nodes: Seq<NodeView>, i: int)
    requires
        0 <= i < capacity(nodes).len(),
    ensures
        capacity(nodes)[i].available <= capacity(nodes)[i].total,
        capacity(nodes)[i].allocated <= capacity(nodes)[i].total ==> capacity(nodes)[i].available
            + capacity(nodes)[i].allocated == capacity(nodes)[i].total,
        capacity(nodes)[i].allocated > capacity(nodes)[i].total ==> capacity(nodes)[i].available
            == 0,
{
}

/// Whether a node's first GPU is of type `t`.
pub open spec fn first_gpu_is(t: Seq<char>) -> spec_fn(NodeView) -> bool {
    |n: NodeView| n.total.len() > 0 && n.total[0].gpu_type == t
}

/// The entry shown for a node: its name and state, its number of GPUs, and
/// how many of them are not allocated (none when more are allocated).
pub open spec fn shown_entry() -> spec_fn(NodeView) -> NodeInfoView {
    |n: NodeView|
        NodeInfoView {
            name: n.name,
            total_gpus: n.total.len(),
            available_gpus: if n.total.len() >= n.allocated.len() {
                (n.total.len() - n.allocated.len()) as nat
            } else {
                0
            },
            state: n.state,
        }
}

/// The nodes listed under the pool of type `t` are exactly the reported
/// nodes whose first GPU has type `t`, each once, in node order: so there
/// are as many entries as such nodes, and a later node of the same type
/// never displaces an earlier one.
pub proof fn law_pool_lists_every_node_of_its_type(nodes: Seq<NodeView>, t: Seq<char>)
    ensures
        node_infos(nodes, t) == nodes.filter(first_gpu_is(t)).map_values(shown_entry()),
        node_infos(nodes, t).len() == nodes.filter(first_gpu_is(t)).len(),
        forall|i: int|
            0 <= i < capacity(nodes).len() ==> (#[trigger] capacity(nodes)[i]).nodes == nodes.filter(
                first_gpu_is(capacity(nodes)[i].gpu_type),
            ).map_values(shown_entry()),
{
    lemma_node_infos_filter(nodes, t);
    assert forall|i: int| 0 <= i < capacity(nodes).len() implies (#[trigger] capacity(nodes)[i]).nodes
        == nodes.filter(first_gpu_is(capacity(nodes)[i].gpu_type)).map_values(shown_entry()) by {
        lemma_node_infos_filter(nodes, capacity(nodes)[i].gpu_type);
    }
}

proof fn lemma_node_infos_filter(nodes: Seq<NodeView>, t: Seq<char>)
    ensures
        node_infos(nodes, t) == nodes.filter(first_gpu_is(t)).map_values(shown_entry()),
    decreases nodes.len(),
{
    reveal(Seq::filter);
    if nodes.len() > 0 {
        let init = nodes.drop_last();
        lemma_node_infos_filter(init, t);
        let f = init.filter(first_gpu_is(t));
        assert(node_info(nodes.last()) == shown_entry()(nodes.last()));
        if first_gpu_is(t)(nodes.last()) {
            assert(f.push(nodes.last()).map_values(shown_entry()) =~= f.map_values(shown_entry())
                + seq![shown_entry()(nodes.last())]);
        } else {
            assert(node_infos(nodes, t) =~= node_infos(init, t));
        }
    } else {
        assert(nodes.filter(first_gpu_is(t)).map_values(shown_entry()) =~= Seq::<NodeInfoView>::empty());
    }
}

/// Whether a GPU is of type `t`.
pub open spec fn of_type(t: Seq<char>) -> spec_fn(GpuView) -> bool {
    |g: GpuView| g.gpu_type == t
}

/// Every GPU the nodes report, node after node, each node's in its order.
pub open spec fn reported_gpus(nodes: Seq<NodeView>) -> Seq<GpuView> {
    nodes.map_values(|n: NodeView| n.total).flatten()
}

/// The allocated GPUs the nodes report, node after node.
pub open spec fn allocated_gpus(nodes: Seq<NodeView>) -> Seq<GpuView> {
    nodes.map_values(|n: NodeView| n.allocated).flatten()
}

proof fn lemma_count_is_filter(g: Seq<GpuView>, t: Seq<char>)
    ensures
        count_type(g, t) == g.filter(of_type(t)).len(),
    decreases g.len(),
{
    if g.len() > 0 {
        let init = g.drop_last();
        lemma_count_is_filter(init, t);
        assert(init.push(g.last()) =~= g);
        init.lemma_filter_push(g.last(), of_type(t));
    } else {
        reveal(Seq::filter);
    }
}

proof fn lemma_reported_push(nodes: Seq<NodeView>)
    requires
        nodes.len() > 0,
    ensures
        reported_gpus(nodes) == reported_gpus(nodes.drop_last()) + nodes.last().total,
        allocated_gpus(nodes) == allocated_gpus(nodes.drop_last()) + nodes.last().allocated,
{
    let init = nodes.drop_last();
    let ft = |n: NodeView| n.total;
    let fa = |n: NodeView| n.allocated;
    assert(nodes.map_values(ft) =~= init.map_values(ft).push(nodes.last().total));
    assert(nodes.map_values(fa) =~= init.map_values(fa).push(nodes.last().allocated));
    init.map_values(ft).lemma_flatten_push(nodes.last().total);
    init.map_values(fa).lemma_flatten_push(nodes.last().allocated);
}

proof fn lemma_total_is_filter(nodes: Seq<NodeView>, t: Seq<char>)
    ensures
        total_count(nodes, t) == reported_gpus(nodes).filter(of_type(t)).len(),
    decreases nodes.len(),
{
    if nodes.len() > 0 {
        let init = nodes.drop_last();
        lemma_total_is_filter(init, t);
        lemma_reported_push(nodes);
        lemma_count_is_filter(nodes.last().total, t);
        assert(reported_gpus(nodes).filter(of_type(t)) == reported_gpus(init).filter(of_type(t))
            + nodes.last().total.filter(of_type(t))) by {
            Seq::filter_distributes_over_add(reported_gpus(init), nodes.last().total, of_type(t));
        }
    } else {
        assert(reported_gpus(nodes) =~= Seq::<GpuView>::empty());
        reveal(Seq::filter);
        assert(reported_gpus(nodes).filter(of_type(t)) =~= Seq::<GpuView>::empty());
    }
}

/// A pool's total is the number of reported GPUs of its type, over all
/// nodes.
pub proof fn law_pool_total_counts_its_gpus(nodes: Seq<NodeView>)
    ensures
        forall|i: int|
            0 <= i < capacity(nodes).len() ==> (#[trigger] capacity(nodes)[i]).total == reported_gpus(
                nodes,
            ).filter(of_type(capacity(nodes)[i].gpu_type)).len(),
{
    assert forall|i: int| 0 <= i < capacity(nodes).len() implies (#[trigger] capacity(nodes)[i]).total
        == reported_gpus(nodes).filter(of_type(capacity(nodes)[i].gpu_type)).len() by {
        lemma_total_is_filter(nodes, capacity(nodes)[i].gpu_type);
    }
}

/// With no GPU of type `t` in the list, none of its GPUs has that type.
proof fn lemma_no_gpu_of_type(g: Seq<GpuView>, t: Seq<char>, j: int)
    requires
        g.filter(of_type(t)).len() == 0,
        0 <= j < g.len(),
    ensures
        g[j].gpu_type != t,
{
    if g[j].gpu_type == t {
        g.lemma_filter_contains(of_type(t), j);
    }
}

/// The position of the first GPU of type `t` in a list that has one, whose
/// memory `memory_in` gives.
proof fn lemma_memory_in(g: Seq<GpuView>, t: Seq<char>) -> (j: int)
    requires
        count_type(g, t) > 0,
    ensures
        0 <= j < g.len(),
        g[j].gpu_type == t,
        forall|k: int| 0 <= k < j ==> g[k].gpu_type != t,
        memory_in(g, t) == g[j].memory_mb,
    decreases g.len(),
{
    let init = g.drop_last();
    if count_type(init, t) > 0 {
        let j = lemma_memory_in(init, t);
        assert forall|k: int| 0 <= k < j implies g[k].gpu_type != t by {
            assert(g[k] == init[k]);
        }
        j
    } else {
        lemma_count_is_filter(init, t);
        assert forall|k: int| 0 <= k < g.len() - 1 implies g[k].gpu_type != t by {
            lemma_no_gpu_of_type(init, t, k);
            assert(g[k] == init[k]);
        }
        g.len() - 1
    }
}

/// The position, among all reported GPUs, of the first GPU of type `t`,
/// whose memory `first_memory` gives.
proof fn lemma_first_memory(nodes: Seq<NodeView>, t: Seq<char>) -> (k: int)
    requires
        total_count(nodes, t) > 0,
    ensures
        0 <= k < reported_gpus(nodes).len(),
        reported_gpus(nodes)[k].gpu_type == t,
        forall|j: int| 0 <= j < k ==> reported_gpus(nodes)[j].gpu_type != t,
        first_memory(nodes, t) == reported_gpus(nodes)[k].memory_mb,
    decreases nodes.len(),
{
    let init = nodes.drop_last();
    let g = nodes.last().total;
    lemma_reported_push(nodes);
    lemma_pool_types(init);
    let before = reported_gpus(init);
    if pool_types(init).contains(t) {
        let k = lemma_first_memory(init, t);
        assert forall|j: int| 0 <= j < k implies reported_gpus(nodes)[j].gpu_type != t by {
            assert(reported_gpus(nodes)[j] == before[j]);
        }
        assert(reported_gpus(nodes)[k] == before[k]);
        k
    } else {
        lemma_total_is_filter(init, t);
        let j = lemma_memory_in(g, t);
        let k = before.len() + j;
        assert forall|i: int| 0 <= i < k implies reported_gpus(nodes)[i].gpu_type != t by {
            if i < before.len() {
                assert(reported_gpus(nodes)[i] == before[i]);
                lemma_no_gpu_of_type(before, t, i);
            } else {
                assert(reported_gpus(nodes)[i] == g[i - before.len()]);
            }
        }
        assert(reported_gpus(nodes)[k] == g[j]);
        k
    }
}

/// A pool's memory is that of the first reported GPU of its type, in node
/// order and, within a node, in the order the node lists its GPUs.
pub proof fn law_pool_memory_is_first_gpus(nodes: Seq<NodeView>, i: int)
    requires
        0 <= i < capacity(nodes).len(),
    ensures
        exists|k: int|
            0 <= k < reported_gpus(nodes).len() && #[trigger] reported_gpus(nodes)[k].gpu_type
                == capacity(nodes)[i].gpu_type && (forall|j: int|
                0 <= j < k ==> reported_gpus(nodes)[j].gpu_type != capacity(nodes)[i].gpu_type)
                && capacity(nodes)[i].memory_mb == reported_gpus(nodes)[k].memory_mb,
{
    let t = capacity(nodes)[i].gpu_type;
    lemma_pool_types(nodes);
    assert(pool_types(nodes)[i] == t);
    assert(pool_types(nodes).contains(t));
    let k = lemma_first_memory(nodes, t);
    assert(reported_gpus(nodes)[k].gpu_type == t);
}

/// With no GPU of type `t` across the nodes, no node reports one.
proof fn lemma_no_node_has_type(nodes: Seq<NodeView>, t: Seq<char>, k: int, j: int)
    requires
        total_count(nodes, t) == 0,
        0 <= k < nodes.len(),
        0 <= j < nodes[k].total.len(),
    ensures
        nodes[k].total[j].gpu_type != t,
    decreases nodes.len(),
{
    let init = nodes.drop_last();
    if k < init.len() {
        assert(nodes[k] == init[k]);
        lemma_no_node_has_type(init, t, k, j);
    } else {
        lemma_count_is_filter(nodes.last().total, t);
        lemma_no_gpu_of_type(nodes.last().total, t, j);
    }
}

/// The first node with a GPU of type `t`; the allocated GPUs counted towards
/// `t` are those of type `t` that it and the nodes after it report.
proof fn lemma_alloc_from_first_node(nodes: Seq<NodeView>, t: Seq<char>) -> (k0: int)
    requires
        total_count(nodes, t) > 0,
    ensures
        0 <= k0 < nodes.len(),
        exists|j: int| 0 <= j < nodes[k0].total.len() && #[trigger] nodes[k0].total[j].gpu_type == t,
        forall|k: int, j: int|
            0 <= k < k0 && 0 <= j < nodes[k].total.len() ==> #[trigger] nodes[k].total[j].gpu_type != t,
        alloc_count(nodes, t) == allocated_gpus(nodes.skip(k0)).filter(of_type(t)).len(),
    decreases nodes.len(),
{
    let init = nodes.drop_last();
    let last = nodes.last();
    lemma_pool_types(nodes);
    lemma_pool_types(init);
    assert(pool_types(nodes).contains(t));
    lemma_count_is_filter(last.allocated, t);
    if total_count(init, t) > 0 {
        let k0 = lemma_alloc_from_first_node(init, t);
        assert(nodes[k0] == init[k0]);
        assert forall|k: int, j: int|
            0 <= k < k0 && 0 <= j < nodes[k].total.len() implies #[trigger] nodes[k].total[j].gpu_type
            != t by {
            assert(nodes[k] == init[k]);
        }
        let tail = nodes.skip(k0);
        assert(tail.drop_last() =~= init.skip(k0));
        assert(tail.last() == last);
        lemma_reported_push(tail);
        Seq::filter_distributes_over_add(allocated_gpus(init.skip(k0)), last.allocated, of_type(t));
        k0
    } else {
        lemma_absent_type(init, t);
        let k0 = init.len() as int;
        let j = lemma_memory_in(last.total, t);
        assert(nodes[k0].total[j].gpu_type == t);
        assert forall|k: int, j: int|
            0 <= k < k0 && 0 <= j < nodes[k].total.len() implies #[trigger] nodes[k].total[j].gpu_type
            != t by {
            assert(nodes[k] == init[k]);
            lemma_no_node_has_type(init, t, k, j);
        }
        let tail = nodes.skip(k0);
        assert(tail =~= seq![last]);
        lemma_reported_push(tail);
        assert(tail.drop_last() =~= Seq::<NodeView>::empty());
        assert(allocated_gpus(tail.drop_last()) =~= Seq::<GpuView>::empty());
        assert(allocated_gpus(tail) =~= last.allocated);
        k0
    }
}

/// A pool counts as allocated the allocated GPUs of its type reported by
/// the first node that has a GPU of that type and by every node after it;
/// allocated GPUs reported by earlier nodes, before the pool existed, are
/// not counted.
pub proof fn law_pool_allocated_counts_from_first_node(nodes: Seq<NodeView>, i: int)
    requires
        0 <= i < capacity(nodes).len(),
    ensures
        exists|k0: int|
            #![trigger nodes.skip(k0)]
            0 <= k0 < nodes.len() && (exists|j: int|
                0 <= j < nodes[k0].total.len() && #[trigger] nodes[k0].total[j].gpu_type
                    == capacity(nodes)[i].gpu_type) && (forall|k: int, j: int|
                0 <= k < k0 && 0 <= j < nodes[k].total.len() ==> #[trigger] nodes[k].total[j].gpu_type
                    != capacity(nodes)[i].gpu_type) && capacity(nodes)[i].allocated
                == allocated_gpus(nodes.skip(k0)).filter(of_type(capacity(nodes)[i].gpu_type)).len(),
{
    let t = capacity(nodes)[i].gpu_type;
    lemma_pool_types(nodes);
    assert(pool_types(nodes)[i] == t);
    assert(pool_types(nodes).contains(t));
    let k0 = lemma_alloc_from_first_node(nodes, t);
    assert(capacity(nodes)[i].allocated == alloc_count(nodes, t));
}

} // verus!
