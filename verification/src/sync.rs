//! Keeping session records in step with the scheduler.
//!
//! Every few seconds each active session is compared with what Spur (or, on
//! Kubernetes before a job id is known, the SpurJob resource) reports about
//! its job. The functions here decide what to record; the caller performs
//! the database and cluster updates in the order given.
use vstd::prelude::*;
use crate::crd::{spurjob_name, spurjob_name_of, SpurJobStatus};
use crate::ids::{hyphenated, lemma_ascii_byte_prefix, lemma_hyphenated_ascii, session_id_text, uuid_hex};
use crate::settings::Backend;
use crate::text::{decimal, unsigned_text};

verus! {

/// Seconds between two rounds of synchronisation.
pub const SYNC_INTERVAL_SECS: u64 = 5;

/// State of a job as Spur's controller reports it.
#[derive(Debug, Clone, Copy, PartialEq, Eq, Structural)]
pub enum SpurJobState {
    JobPending,
    JobRunning,
    JobCompleting,
    JobCompleted,
    JobFailed,
    JobCancelled,
    JobTimeout,
    JobNodeFail,
    /// Any state the sessions do not follow.
    Other,
}

/// The session state a job state maps to; none for states not followed.
pub open spec fn session_state_of(s: SpurJobState) -> Option<Seq<char>> {
    match s {
        SpurJobState::JobPending => Some("pending"@),
        SpurJobState::JobRunning => Some("running"@),
        SpurJobState::JobCompleting => Some("stopping"@),
        SpurJobState::JobCompleted => Some("completed"@),
        SpurJobState::JobFailed => Some("failed"@),
        SpurJobState::JobCancelled => Some("cancelled"@),
        SpurJobState::JobTimeout => Some("failed"@),
        SpurJobState::JobNodeFail => Some("failed"@),
        SpurJobState::Other => None,
    }
}

/// Whether the job state ends the session.
pub open spec fn ends_session(s: SpurJobState) -> bool {
    match s {
        SpurJobState::JobCompleted | SpurJobState::JobFailed | SpurJobState::JobCancelled
        | SpurJobState::JobTimeout | SpurJobState::JobNodeFail => true,
        _ => false,
    }
}

/// The session state for a job state.
pub fn session_state_for_job(s: SpurJobState) -> (r: Option<String>)
    ensures
        match r {
            Some(t) => session_state_of(s) == Some(t@),
            None => session_state_of(s) is None,
        },
{
    match s {
        SpurJobState::JobPending => Some(String::from_str("pending")),
        SpurJobState::JobRunning => Some(String::from_str("running")),
        SpurJobState::JobCompleting => Some(String::from_str("stopping")),
        SpurJobState::JobCompleted => Some(String::from_str("completed")),
        SpurJobState::JobFailed => Some(String::from_str("failed")),
        SpurJobState::JobCancelled => Some(String::from_str("cancelled")),
        SpurJobState::JobTimeout => Some(String::from_str("failed")),
        SpurJobState::JobNodeFail => Some(String::from_str("failed")),
        SpurJobState::Other => None,
    }
}

/// An update to make for a session, in the order planned.
pub enum SyncAction {
    /// Record the Spur job id of the session.
    RecordSpurJob { spur_job_id: i32 },
    /// The session runs: record its node and pod.
    MarkRunning { node: String, pod_name: String },
    /// The session ended in the given state.
    MarkEnded { state: String },
    /// The session failed, with the given message.
    MarkFailed { message: String },
    /// Record the given state.
    SetState { state: String },
    /// Expose SSH of the given pod through a service, then record the
    /// service's host (see `service_ssh_host`) and port.
    CreateSshService { pod_name: String },
    /// Record where the session's SSH daemon listens.
    RecordSsh { host: String, port: i32 },
    /// Start the usage record of the session.
    StartUsage,
    /// Close the usage record of the session.
    EndUsage,
    /// Remove the session's SSH service.
    DeleteSshService,
}

pub enum SyncActionView {
    RecordSpurJob { spur_job_id: i32 },
    MarkRunning { node: Seq<char>, pod_name: Seq<char> },
    MarkEnded { state: Seq<char> },
    MarkFailed { message: Seq<char> },
    SetState { state: Seq<char> },
    CreateSshService { pod_name: Seq<char> },
    RecordSsh { host: Seq<char>, port: i32 },
    StartUsage,
    EndUsage,
    DeleteSshService,
}

impl View for SyncAction {
    type V = SyncActionView;

    open spec fn view(&self) -> SyncActionView {
        match self {
            SyncAction::RecordSpurJob { spur_job_id } => SyncActionView::RecordSpurJob {
                spur_job_id: *spur_job_id,
            },
            SyncAction::MarkRunning { node, pod_name } => SyncActionView::MarkRunning {
                node: node@,
                pod_name: pod_name@,
            },
            SyncAction::MarkEnded { state } => SyncActionView::MarkEnded { state: state@ },
            SyncAction::MarkFailed { message } => SyncActionView::MarkFailed { message: message@ },
            SyncAction::SetState { state } => SyncActionView::SetState { state: state@ },
            SyncAction::CreateSshService { pod_name } => SyncActionView::CreateSshService {
                pod_name: pod_name@,
            },
            SyncAction::RecordSsh { host, port } => SyncActionView::RecordSsh {
                host: host@,
                port: *port,
            },
            SyncAction::StartUsage => SyncActionView::StartUsage,
            SyncAction::EndUsage => SyncActionView::EndUsage,
            SyncAction::DeleteSshService => SyncActionView::DeleteSshService,
        }
    }
}

/// The views of a list of actions.
pub open spec fn action_views(v: Seq<SyncAction>) -> Seq<SyncActionView> {
    v.map_values(|a: SyncAction| a@)
}

/// What Spur answered about a session's job.
pub enum JobLookup {
    Found { state: SpurJobState, nodelist: String },
    NotFound,
    /// The query itself failed; the session is left alone until next time.
    Failed,
}

/// Message recorded for a session whose job Spur no longer knows.
pub const JOB_GONE_MESSAGE: &'static str =
    "Job not found in Spur scheduler (may have been cancelled externally)";

/// Name of the pod of job `job_id`.
pub open spec fn job_pod_name(job_id: u32) -> Seq<char> {
    "spur-job-"@ + decimal(job_id as int)
}

/// The updates for a session in state `current` whose job `job_id` Spur
/// reports in state `state` on the nodes `nodelist`.
pub open spec fn job_sync_plan(
    current: Seq<char>,
    ssh_enabled: bool,
    backend: Backend,
    job_id: u32,
    state: SpurJobState,
    nodelist: Seq<char>,
    ssh_port: u16,
) -> Seq<SyncActionView> {
    match session_state_of(state) {
        None => Seq::empty(),
        Some(next) => if next == current {
            Seq::empty()
        } else if state == SpurJobState::JobRunning {
            seq![SyncActionView::MarkRunning { node: nodelist, pod_name: job_pod_name(job_id) }]
                + (if !ssh_enabled {
                Seq::<SyncActionView>::empty()
            } else if backend == Backend::K8s {
                seq![SyncActionView::CreateSshService { pod_name: job_pod_name(job_id) }]
            } else {
                seq![SyncActionView::RecordSsh { host: nodelist, port: ssh_port as i32 }]
            }) + seq![SyncActionView::StartUsage]
        } else if ends_session(state) {
            seq![SyncActionView::MarkEnded { state: next }, SyncActionView::EndUsage] + (if ssh_enabled
                && backend == Backend::K8s {
                seq![SyncActionView::DeleteSshService]
            } else {
                Seq::<SyncActionView>::empty()
            })
        } else {
            seq![SyncActionView::SetState { state: next }]
        },
    }
}

/// The updates for a session in state `current`, with SSH on or off, whose
/// job `job_id` Spur reported as `lookup`. A job Spur no longer knows fails
/// the session; a failed query changes nothing; otherwise the job's state is
/// mapped to a session state and, when that differs from `current`, the
/// session moves to it: to running with its node, pod, SSH endpoint and a
/// usage record; to an end state closing its usage record and, on
/// Kubernetes, its SSH service; or to the new state alone. `ssh_port` is the
/// session's SSH port on bare metal.
pub fn plan_job_sync(
    current: &String,
    ssh_enabled: bool,
    backend: Backend,
    job_id: u32,
    lookup: &JobLookup,
    ssh_port: u16,
) -> (plan: Vec<SyncAction>)
    ensures
        action_views(plan@) == (match lookup {
            JobLookup::Found { state, nodelist } => job_sync_plan(
                current@,
                ssh_enabled,
                backend,
                job_id,
                *state,
                nodelist@,
                ssh_port,
            ),
            JobLookup::NotFound => seq![
                SyncActionView::MarkFailed { message: JOB_GONE_MESSAGE@ },
            ],
            JobLookup::Failed => Seq::empty(),
        }),
{
    let mut plan: Vec<SyncAction> = Vec::new();
    match lookup {
        JobLookup::NotFound => {
            plan.push(SyncAction::MarkFailed { message: String::from_str(JOB_GONE_MESSAGE) });
            assert(action_views(plan@) =~= seq![
                SyncActionView::MarkFailed { message: JOB_GONE_MESSAGE@ },
            ]);
        },
        JobLookup::Failed => {
            assert(action_views(plan@) =~= Seq::<SyncActionView>::empty());
        },
        JobLookup::Found { state, nodelist } => {
            let state = *state;
            match session_state_for_job(state) {
                None => {
                    assert(action_views(plan@) =~= Seq::<SyncActionView>::empty());
                },
                Some(next) => {
                    if next == *current {
                        assert(action_views(plan@) =~= Seq::<SyncActionView>::empty());
                    } else if state == SpurJobState::JobRunning {
                        let pod_name = String::from_str("spur-job-").concat(
                            unsigned_text(job_id as u64).as_str(),
                        );
                        plan.push(
                            SyncAction::MarkRunning { node: nodelist.clone(), pod_name: pod_name.clone() },
                        );
                        if ssh_enabled {
                            match backend {
                                Backend::K8s => {
                                    plan.push(SyncAction::CreateSshService { pod_name });
                                },
                                Backend::BareMetal => {
                                    plan.push(
                                        SyncAction::RecordSsh {
                                            host: nodelist.clone(),
                                            port: ssh_port as i32,
                                        },
                                    );
                                },
                            }
                        }
                        plan.push(SyncAction::StartUsage);
                        assert(action_views(plan@) =~= job_sync_plan(
                            current@,
                            ssh_enabled,
                            backend,
                            job_id,
                            state,
                            nodelist@,
                            ssh_port,
                        ));
                    } else if state == SpurJobState::JobCompleted || state == SpurJobState::JobFailed
                        || state == SpurJobState::JobCancelled || state == SpurJobState::JobTimeout
                        || state == SpurJobState::JobNodeFail {
                        plan.push(SyncAction::MarkEnded { state: next });
                        plan.push(SyncAction::EndUsage);
                        if ssh_enabled && backend == Backend::K8s {
                            plan.push(SyncAction::DeleteSshService);
                        }
                        assert(action_views(plan@) =~= job_sync_plan(
                            current@,
                            ssh_enabled,
                            backend,
                            job_id,
                            state,
                            nodelist@,
                            ssh_port,
                        ));
                    } else {
                        plan.push(SyncAction::SetState { state: next });
                        assert(action_views(plan@) =~= job_sync_plan(
                            current@,
                            ssh_enabled,
                            backend,
                            job_id,
                            state,
                            nodelist@,
                            ssh_port,
                        ));
                    }
                },
            }
        },
    }
    plan
}

/// The host to record for a session's SSH service: the service's own host,
/// or the session's node when the service reports none.
pub fn service_ssh_host(host: String, node: &String) -> (h: String)
    ensures
        h@ == if host@.len() == 0 {
            node@
        } else {
            host@
        },
{
    if host.as_str().is_empty() {
        node.clone()
    } else {
        host
    }
}

/// The Spur job id a session record holds, as Spur numbers jobs (the stored
/// value taken as `u32`, bit for bit).
pub fn sync_job_id(spur_job_id: Option<i32>) -> (id: Option<u32>)
    ensures
        id == (match spur_job_id {
            Some(v) => Some(v as u32),
            None => None::<u32>,
        }),
{
    match spur_job_id {
        Some(v) => Some(v as u32),
        None => None,
    }
}

/// Name of the SpurJob resource of session `id`: `session-` and the first
/// eight hex digits of the id.
pub fn session_spurjob_name(id: u128) -> (n: String)
    ensures
        n@ == "session-"@ + uuid_hex(id).take(8),
{
    let text = session_id_text(id);
    proof {
        lemma_hyphenated_ascii(id);
        lemma_ascii_byte_prefix(hyphenated(id), 8);
    }
    spurjob_name(text.as_str())
}

/// The updates for a session with no Spur job id yet, on Kubernetes, from
/// the status of its SpurJob resource `crd_name`.
pub open spec fn crd_sync_plan(
    state: Seq<char>,
    spur_job_id: Option<u32>,
    assigned_nodes: Seq<Seq<char>>,
    crd_name: Seq<char>,
) -> Seq<SyncActionView> {
    let node = if assigned_nodes.len() > 0 {
        assigned_nodes[0]
    } else {
        Seq::empty()
    };
    (match spur_job_id {
        Some(id) => seq![SyncActionView::RecordSpurJob { spur_job_id: id as i32 }],
        None => Seq::empty(),
    }) + (if state == "Running"@ && node.len() > 0 {
        seq![SyncActionView::MarkRunning { node: node, pod_name: "spur-job-"@ + crd_name }]
    } else if state == "Completed"@ {
        seq![SyncActionView::MarkEnded { state: "completed"@ }]
    } else if state == "Failed"@ {
        seq![SyncActionView::MarkEnded { state: "failed"@ }]
    } else if state == "Cancelled"@ {
        seq![SyncActionView::MarkEnded { state: "cancelled"@ }]
    } else if state == "Pending"@ {
        seq![SyncActionView::SetState { state: "pending"@ }]
    } else {
        Seq::empty()
    })
}

/// The updates for a session with no Spur job id yet, on Kubernetes, from
/// the status its SpurJob resource `crd_name` reports (none without a
/// status): the job id once the operator assigned one; running on the first
/// assigned node; ended (in lower case) when completed, failed or cancelled;
/// pending while pending.
pub fn plan_crd_sync(status: &Option<SpurJobStatus>, crd_name: &String) -> (plan: Vec<SyncAction>)
    ensures
        action_views(plan@) == (match status {
            Some(s) => crd_sync_plan(
                s.state@,
                s.spur_job_id,
                crate::text::texts(s.assigned_nodes@),
                crd_name@,
            ),
            None => Seq::empty(),
        }),
{
    let mut plan: Vec<SyncAction> = Vec::new();
    match status {
        None => {
            assert(action_views(plan@) =~= Seq::<SyncActionView>::empty());
        },
        Some(s) => {
            match s.spur_job_id {
                Some(id) => {
                    plan.push(SyncAction::RecordSpurJob { spur_job_id: id as i32 });
                },
                None => {},
            }
            let ghost head = action_views(plan@);
            let node = if s.assigned_nodes.len() > 0 {
                s.assigned_nodes[0].clone()
            } else {
                String::new()
            };
            assert(node@ == (if crate::text::texts(s.assigned_nodes@).len() > 0 {
                crate::text::texts(s.assigned_nodes@)[0]
            } else {
                Seq::<char>::empty()
            }));
            if s.state == String::from_str("Running") && !node.as_str().is_empty() {
                let pod_name = String::from_str("spur-job-").concat(crd_name.as_str());
                plan.push(SyncAction::MarkRunning { node, pod_name });
            } else if s.state == String::from_str("Completed") {
                plan.push(SyncAction::MarkEnded { state: String::from_str("completed") });
            } else if s.state == String::from_str("Failed") {
                plan.push(SyncAction::MarkEnded { state: String::from_str("failed") });
            } else if s.state == String::from_str("Cancelled") {
                plan.push(SyncAction::MarkEnded { state: String::from_str("cancelled") });
            } else if s.state == String::from_str("Pending") {
                plan.push(SyncAction::SetState { state: String::from_str("pending") });
            }
            assert(action_views(plan@) =~= crd_sync_plan(
                s.state@,
                s.spur_job_id,
                crate::text::texts(s.assigned_nodes@),
                crd_name@,
            ));
        },
    }
    plan
}

/// The job id in a SpurJob status only decides whether the plan first
/// records it: the rest of the plan is the same with or without an id.
pub proof fn law_crd_job_id_only_recorded_first(
    state: Seq<char>,
    id: u32,
    assigned_nodes: Seq<Seq<char>>,
    crd_name: Seq<char>,
)
    ensures
        crd_sync_plan(state, Some(id), assigned_nodes, crd_name) == seq![
            SyncActionView::RecordSpurJob { spur_job_id: id as i32 },
        ] + crd_sync_plan(state, None, assigned_nodes, crd_name),
{
}

/// A SpurJob status in state `Running` whose first assigned node is named
/// marks the session running on that node, in pod `spur-job-<crd name>`,
/// whether or not the status carries a job id; that action ends the plan.
pub proof fn law_crd_running_marks_node(
    spur_job_id: Option<u32>,
    assigned_nodes: Seq<Seq<char>>,
    crd_name: Seq<char>,
)
    requires
        assigned_nodes.len() > 0,
        assigned_nodes[0].len() > 0,
    ensures
        ({
            let plan = crd_sync_plan("Running"@, spur_job_id, assigned_nodes, crd_name);
            &&& plan.len() == (if spur_job_id is Some { 2int } else { 1int })
            &&& plan.last() == SyncActionView::MarkRunning {
                node: assigned_nodes[0],
                pod_name: "spur-job-"@ + crd_name,
            }
        }),
{
}

/// The session state an action records, if it records one.
pub open spec fn state_recorded_by(a: SyncActionView) -> Option<Seq<char>> {
    match a {
        SyncActionView::MarkRunning { .. } => Some("running"@),
        SyncActionView::MarkEnded { state } => Some(state),
        SyncActionView::SetState { state } => Some(state),
        _ => None,
    }
}

/// The session state after the actions of a plan, from `current`.
pub open spec fn state_after(current: Seq<char>, plan: Seq<SyncActionView>) -> Seq<char>
    decreases plan.len(),
{
    if plan.len() == 0 {
        current
    } else {
        match state_recorded_by(plan.last()) {
            Some(s) => s,
            None => state_after(current, plan.drop_last()),
        }
    }
}

/// A SpurJob status in state `Running` that names no first node does not
/// mark the session running: the plan at most records the job id.
pub proof fn law_crd_running_needs_a_node(
    spur_job_id: Option<u32>,
    assigned_nodes: Seq<Seq<char>>,
    crd_name: Seq<char>,
)
    requires
        assigned_nodes.len() == 0 || assigned_nodes[0].len() == 0,
    ensures
        crd_sync_plan("Running"@, spur_job_id, assigned_nodes, crd_name) == (match spur_job_id {
            Some(id) => seq![SyncActionView::RecordSpurJob { spur_job_id: id as i32 }],
            None => Seq::<SyncActionView>::empty(),
        }),
{
    reveal_strlit("Running");
    reveal_strlit("Completed");
    reveal_strlit("Failed");
    reveal_strlit("Cancelled");
    reveal_strlit("Pending");
    assert("Running"@[0] != "Completed"@[0]);
    assert("Running"@[0] != "Failed"@[0]);
    assert("Running"@[0] != "Cancelled"@[0]);
    assert("Running"@[0] != "Pending"@[0]);
    let plan = crd_sync_plan("Running"@, spur_job_id, assigned_nodes, crd_name);
    assert(plan =~= (match spur_job_id {
        Some(id) => seq![SyncActionView::RecordSpurJob { spur_job_id: id as i32 }],
        None => Seq::<SyncActionView>::empty(),
    }));
}

/// Whichever source reports a job's state, the session ends up in the same
/// state: a SpurJob status of `Pending`, `Running` (on a named node),
/// `Completed`, `Failed` or `Cancelled` leaves the session in the state
/// that Spur's matching job state maps to, whatever it held before.
pub proof fn law_crd_and_spur_states_agree(
    current: Seq<char>,
    spur_job_id: Option<u32>,
    assigned_nodes: Seq<Seq<char>>,
    crd_name: Seq<char>,
)
    requires
        assigned_nodes.len() > 0,
        assigned_nodes[0].len() > 0,
    ensures
        Some(state_after(current, crd_sync_plan("Pending"@, spur_job_id, assigned_nodes, crd_name)))
            == session_state_of(SpurJobState::JobPending),
        Some(state_after(current, crd_sync_plan("Running"@, spur_job_id, assigned_nodes, crd_name)))
            == session_state_of(SpurJobState::JobRunning),
        Some(
            state_after(current, crd_sync_plan("Completed"@, spur_job_id, assigned_nodes, crd_name)),
        ) == session_state_of(SpurJobState::JobCompleted),
        Some(state_after(current, crd_sync_plan("Failed"@, spur_job_id, assigned_nodes, crd_name)))
            == session_state_of(SpurJobState::JobFailed),
        Some(
            state_after(current, crd_sync_plan("Cancelled"@, spur_job_id, assigned_nodes, crd_name)),
        ) == session_state_of(SpurJobState::JobCancelled),
{
    reveal_strlit("Pending");
    reveal_strlit("Running");
    reveal_strlit("Completed");
    reveal_strlit("Failed");
    reveal_strlit("Cancelled");
    assert("Pending"@[0] != "Running"@[0]);
    assert("Completed"@[0] != "Running"@[0]);
    assert("Failed"@[0] != "Running"@[0]);
    assert("Failed"@[0] != "Completed"@[0]);
    assert("Cancelled"@[0] != "Running"@[0]);
    assert("Cancelled"@[1] != "Completed"@[1]);
    assert("Cancelled"@[0] != "Failed"@[0]);
    assert("Pending"@[0] != "Completed"@[0]);
    assert("Pending"@[0] != "Failed"@[0]);
    assert("Pending"@[0] != "Cancelled"@[0]);
    let states = seq!["Pending"@, "Running"@, "Completed"@, "Failed"@, "Cancelled"@];
    assert forall|k: int| 0 <= k < 5 implies {
        let plan = crd_sync_plan(#[trigger] states[k], spur_job_id, assigned_nodes, crd_name);
        &&& state_recorded_by(plan.last()) is Some
        &&& state_after(current, plan) == state_recorded_by(plan.last())->0
    } by {
        let plan = crd_sync_plan(states[k], spur_job_id, assigned_nodes, crd_name);
        assert(plan.len() > 0);
    }
    assert(states[0] == "Pending"@);
    assert(states[1] == "Running"@);
    assert(states[2] == "Completed"@);
    assert(states[3] == "Failed"@);
    assert(states[4] == "Cancelled"@);
}

/// A job state ends its session exactly when it maps to `completed`,
/// `failed` or `cancelled`; every other state it maps to (`pending`,
/// `running`, `stopping`) keeps the session going.
pub proof fn law_end_states_are_final(state: SpurJobState)
    ensures
        ends_session(state) <==> (session_state_of(state) == Some("completed"@) || session_state_of(
            state,
        ) == Some("failed"@) || session_state_of(state) == Some("cancelled"@)),
{
    reveal_strlit("pending");
    reveal_strlit("running");
    reveal_strlit("stopping");
    reveal_strlit("completed");
    reveal_strlit("failed");
    reveal_strlit("cancelled");
    assert("pending"@[0] != "completed"@[0]);
    assert("pending"@[0] != "failed"@[0]);
    assert("pending"@[0] != "cancelled"@[0]);
    assert("running"@[0] != "completed"@[0]);
    assert("running"@[0] != "failed"@[0]);
    assert("running"@[0] != "cancelled"@[0]);
    assert("stopping"@[0] != "completed"@[0]);
    assert("stopping"@[0] != "failed"@[0]);
    assert("stopping"@[0] != "cancelled"@[0]);
}

/// A session whose recorded state already matches its job is left alone.
pub proof fn law_settled_session_untouched(
    current: Seq<char>,
    ssh_enabled: bool,
    backend: Backend,
    job_id: u32,
    state: SpurJobState,
    nodelist: Seq<char>,
    ssh_port: u16,
)
    requires
        session_state_of(state) == Some(current),
    ensures
        job_sync_plan(current, ssh_enabled, backend, job_id, state, nodelist, ssh_port)
            == Seq::<SyncActionView>::empty(),
{
}

/// Synchronising is idempotent: once a plan's updates are recorded, the same
/// report about the job plans nothing more.
pub proof fn law_sync_idempotent(
    current: Seq<char>,
    ssh_enabled: bool,
    backend: Backend,
    job_id: u32,
    state: SpurJobState,
    nodelist: Seq<char>,
    ssh_port: u16,
)
    ensures
        ({
            let plan = job_sync_plan(current, ssh_enabled, backend, job_id, state, nodelist, ssh_port);
            job_sync_plan(
                state_after(current, plan),
                ssh_enabled,
                backend,
                job_id,
                state,
                nodelist,
                ssh_port,
            ) == Seq::<SyncActionView>::empty()
        }),
{
    let plan = job_sync_plan(current, ssh_enabled, backend, job_id, state, nodelist, ssh_port);
    match session_state_of(state) {
        None => {},
        Some(next) => {
            if next == current {
            } else if state == SpurJobState::JobRunning {
                assert(plan.last() == SyncActionView::StartUsage);
                let p1 = plan.drop_last();
                assert(state_after(current, plan) == state_after(current, p1));
                if ssh_enabled {
                    assert(state_recorded_by(p1.last()) is None);
                    assert(state_after(current, p1) == state_after(current, p1.drop_last()));
                    assert(p1.drop_last().last() == SyncActionView::MarkRunning {
                        node: nodelist,
                        pod_name: job_pod_name(job_id),
                    });
                } else {
                    assert(p1.last() == SyncActionView::MarkRunning {
                        node: nodelist,
                        pod_name: job_pod_name(job_id),
                    });
                }
                assert(state_after(current, plan) == "running"@);
            } else if ends_session(state) {
                if ssh_enabled && backend == Backend::K8s {
                    assert(plan.last() == SyncActionView::DeleteSshService);
                    assert(state_after(current, plan) == state_after(current, plan.drop_last()));
                    assert(plan.drop_last().last() == SyncActionView::EndUsage);
                    assert(state_after(current, plan.drop_last()) == state_after(current, plan.drop_last().drop_last()));
                    assert(plan.drop_last().drop_last().last() == SyncActionView::MarkEnded {
                        state: next,
                    });
                } else {
                    assert(plan.last() == SyncActionView::EndUsage);
                    assert(state_after(current, plan) == state_after(current, plan.drop_last()));
                    assert(plan.drop_last().last() == SyncActionView::MarkEnded { state: next });
                }
                assert(state_after(current, plan) == next);
            } else {
                assert(plan.last() == SyncActionView::SetState { state: next });
                assert(state_after(current, plan) == next);
            }
        },
    }
}

/// Usage is started only when a session starts running, and closed only
/// when it ends: a plan starts usage exactly when the job runs and the
/// session was not running, and closes it exactly when the job ended and
/// the session had not yet recorded that end.
pub proof fn law_usage_follows_transitions(
    current: Seq<char>,
    ssh_enabled: bool,
    backend: Backend,
    job_id: u32,
    state: SpurJobState,
    nodelist: Seq<char>,
    ssh_port: u16,
)
    ensures
        ({
            let plan = job_sync_plan(current, ssh_enabled, backend, job_id, state, nodelist, ssh_port);
            &&& plan.contains(SyncActionView::StartUsage) <==> (state == SpurJobState::JobRunning
                && current != "running"@)
            &&& plan.contains(SyncActionView::EndUsage) <==> (ends_session(state)
                && session_state_of(state) != Some(current))
        }),
{
    let plan = job_sync_plan(current, ssh_enabled, backend, job_id, state, nodelist, ssh_port);
    match session_state_of(state) {
        None => {},
        Some(next) => {
            if next == current {
            } else if state == SpurJobState::JobRunning {
                assert(plan[plan.len() - 1] == SyncActionView::StartUsage);
                assert forall|i: int| 0 <= i < plan.len() implies plan[i]
                    != SyncActionView::EndUsage by {}
            } else if ends_session(state) {
                assert(plan[1] == SyncActionView::EndUsage);
                assert forall|i: int| 0 <= i < plan.len() implies plan[i]
                    != SyncActionView::StartUsage by {}
            } else {
                assert(plan[0] == SyncActionView::SetState { state: next });
            }
        },
    }
}

/// A plan that ends a session (one that closes its usage record) removes
/// the session's SSH service exactly when SSH is on and the backend is
/// Kubernetes, whatever state the session had recorded before.
pub proof fn law_ending_removes_ssh_service(
    current: Seq<char>,
    ssh_enabled: bool,
    backend: Backend,
    job_id: u32,
    state: SpurJobState,
    nodelist: Seq<char>,
    ssh_port: u16,
)
    ensures
        ({
            let plan = job_sync_plan(current, ssh_enabled, backend, job_id, state, nodelist, ssh_port);
            plan.contains(SyncActionView::EndUsage) ==> (plan.contains(
                SyncActionView::DeleteSshService,
            ) <==> (ssh_enabled && backend == Backend::K8s))
        }),
{
    let plan = job_sync_plan(current, ssh_enabled, backend, job_id, state, nodelist, ssh_port);
    match session_state_of(state) {
        None => {},
        Some(next) => {
            if next == current {
            } else if state == SpurJobState::JobRunning {
                assert forall|i: int| 0 <= i < plan.len() implies plan[i]
                    != SyncActionView::EndUsage by {}
            } else if ends_session(state) {
                if ssh_enabled && backend == Backend::K8s {
                    assert(plan[2] == SyncActionView::DeleteSshService);
                } else {
                    assert forall|i: int| 0 <= i < plan.len() implies plan[i]
                        != SyncActionView::DeleteSshService by {}
                }
            } else {
                assert forall|i: int| 0 <= i < plan.len() implies plan[i]
                    != SyncActionView::EndUsage by {}
            }
        },
    }
}

/// A plan that starts a session running exposes its SSH daemon as the
/// backend calls for: through a service on Kubernetes, by recording the
/// node and fixed port on bare metal, and not at all without SSH.
pub proof fn law_running_exposes_ssh(
    current: Seq<char>,
    ssh_enabled: bool,
    backend: Backend,
    job_id: u32,
    nodelist: Seq<char>,
    ssh_port: u16,
)
    requires
        current != "running"@,
    ensures
        ({
            let plan = job_sync_plan(
                current,
                ssh_enabled,
                backend,
                job_id,
                SpurJobState::JobRunning,
                nodelist,
                ssh_port,
            );
            &&& plan[0] == SyncActionView::MarkRunning { node: nodelist, pod_name: job_pod_name(job_id) }
            &&& plan.contains(SyncActionView::CreateSshService { pod_name: job_pod_name(job_id) })
                <==> (ssh_enabled && backend == Backend::K8s)
            &&& plan.contains(SyncActionView::RecordSsh { host: nodelist, port: ssh_port as i32 })
                <==> (ssh_enabled && backend == Backend::BareMetal)
        }),
{
    let plan = job_sync_plan(
        current,
        ssh_enabled,
        backend,
        job_id,
        SpurJobState::JobRunning,
        nodelist,
        ssh_port,
    );
    if ssh_enabled && backend == Backend::K8s {
        assert(plan[1] == SyncActionView::CreateSshService { pod_name: job_pod_name(job_id) });
    }
    if ssh_enabled && backend == Backend::BareMetal {
        assert(plan[1] == SyncActionView::RecordSsh { host: nodelist, port: ssh_port as i32 });
    }
    assert forall|i: int| 0 <= i < plan.len() && (#[trigger] plan[i]) is CreateSshService implies (
    ssh_enabled && backend == Backend::K8s) by {}
    assert forall|i: int| 0 <= i < plan.len() && (#[trigger] plan[i]) is RecordSsh implies (
    ssh_enabled && backend == Backend::BareMetal) by {}
}

/// A session without SSH gets no SSH endpoint or service.
pub proof fn law_no_ssh_without_ssh(
    current: Seq<char>,
    backend: Backend,
    job_id: u32,
    state: SpurJobState,
    nodelist: Seq<char>,
    ssh_port: u16,
)
    ensures
        forall|i: int|
            0 <= i < job_sync_plan(current, false, backend, job_id, state, nodelist, ssh_port).len()
                ==> !(#[trigger] job_sync_plan(
                current,
                false,
                backend,
                job_id,
                state,
                nodelist,
                ssh_port,
            )[i] is CreateSshService || job_sync_plan(
                current,
                false,
                backend,
                job_id,
                state,
                nodelist,
                ssh_port,
            )[i] is RecordSsh || job_sync_plan(
                current,
                false,
                backend,
                job_id,
                state,
                nodelist,
                ssh_port,
            )[i] is DeleteSshService),
{
}

/// The SpurJob resource a session's synchronisation reads is the one its
/// creation named: the name made from the session id's text is `session-`
/// and the first eight hex digits of the id.
pub proof fn law_spurjob_name_matches_session(id: u128)
    ensures
        spurjob_name_of(hyphenated(id)) == "session-"@ + uuid_hex(id).take(8),
{
    lemma_hyphenated_ascii(id);
    lemma_ascii_byte_prefix(hyphenated(id), 8);
}

} // verus!
