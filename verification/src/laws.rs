//! What holds of the worker as a whole.
use crate::action::{Action, Input, Output, Queued, Step, TaskType};
use crate::cluster::{ClusterOutput, MediaClusterEndpoint};
use crate::config::{self, MediaConfig};
use crate::model::{self, WorkerView, FEEDBACK_GATEWAY_AGENT_INTERVAL, TASKS};
use crate::net::{BackendIncoming, BackendOutgoing, NetOutput, Owner, SocketAddr};
use crate::outcomes;
use crate::payload::Payloads;
use crate::rpc::{RpcReq, RpcRes, RpcResult, Variant, WebrtcRes};
use crate::sdn::{SdnExtIn, SdnExtOut, SdnWorkerInput, SdnWorkerOutput};
use crate::text;
use crate::webrtc::{ExtOut, GroupInput, GroupOutput, Spawned, WebrtcSession};
use atm0s_sdn::features::{FeaturesControl, FeaturesEvent};
use atm0s_sdn::{NodeAddr, TimePivot};
use std::time::Instant;
use vstd::calc;
use vstd::prelude::*;

verus! {

/// One step of the worker, with everything that went in and came out.
#[allow(inconsistent_fields)]
pub enum Move<T: Payloads> {
    Tick { now: Instant, now_ms: u64, actions: Seq<Action<T>> },
    Count { now_ms: u64, webrtc_tasks: usize, action: Action<T> },
    Take {
        now: Instant,
        now_ms: u64,
        salt: u64,
        input: Input<T>,
        webrtc_tasks: usize,
        actions: Seq<Action<T>>,
    },
    Spawned { req_id: u64, variant: Variant, result: RpcResult<Spawned> },
    Pop { now: Instant, now_ms: u64, step: Step<T> },
    PolledEmpty { task: TaskType, now: Instant, now_ms: u64, step: Step<T> },
    Sdn { now: Instant, out: SdnWorkerOutput<T>, output: Output<T>, actions: Seq<Action<T>> },
    Cluster {
        now: Instant,
        now_ms: u64,
        out: ClusterOutput<T>,
        output: Output<T>,
        actions: Seq<Action<T>>,
    },
    Webrtc {
        now: Instant,
        now_ms: u64,
        event_ms: u64,
        out: GroupOutput<T>,
        output: Output<T>,
        actions: Seq<Action<T>>,
    },
    Shutdown { now: Instant, now_ms: u64, actions: Seq<Action<T>> },
}

impl<T: Payloads> Move<T> {
    /// The calls that the step asks for.
    pub open spec fn calls(self) -> Seq<Action<T>> {
        match self {
            Move::Tick { now: _, now_ms: _, actions } => actions,
            Move::Count { now_ms: _, webrtc_tasks: _, action } => seq![action],
            Move::Take { now: _, now_ms: _, salt: _, input: _, webrtc_tasks: _, actions } => actions,
            Move::Spawned { req_id: _, variant: _, result: _ } => Seq::empty(),
            Move::Pop { now: _, now_ms: _, step: _ } => Seq::empty(),
            Move::PolledEmpty { task: _, now: _, now_ms: _, step: _ } => Seq::empty(),
            Move::Sdn { now: _, out: _, output: _, actions } => actions,
            Move::Cluster { now: _, now_ms: _, out: _, output: _, actions } => actions,
            Move::Webrtc { now: _, now_ms: _, event_ms: _, out: _, output: _, actions } => actions,
            Move::Shutdown { now: _, now_ms: _, actions } => actions,
        }
    }

    /// Whether the step finds that a task has no output.
    pub open spec fn empties(self, task: TaskType) -> bool {
        self matches Move::PolledEmpty { task: empty, now: _, now_ms: _, step: _ } && empty == task
    }

    /// The slot of the socket that the step learns for the network worker.
    pub open spec fn binds(self) -> Option<usize> {
        match self {
            Move::Take {
                now: _,
                now_ms: _,
                salt: _,
                input: Input::Net(Owner::Sdn, BackendIncoming::UdpListenResult { bind: _, result: Ok((_, slot)) }),
                webrtc_tasks: _,
                actions: _,
            } => Some(slot),
            _ => None,
        }
    }

    /// The time at which the step has the sessions counted, in milliseconds.
    pub open spec fn counts_at(self) -> Option<u64> {
        match self {
            Move::Tick { now: _, now_ms: _, actions } => if actions.len() > 0 {
                match actions.last() {
                    Action::WebrtcCount(at) => Some(at),
                    _ => None,
                }
            } else {
                None
            },
            _ => None,
        }
    }

    /// The time at which the step reports the sessions to the gateway, in milliseconds.
    pub open spec fn reports_at(self) -> Option<u64> {
        match self {
            Move::Count { now_ms, webrtc_tasks: _, action: _ } => Some(now_ms),
            _ => None,
        }
    }
}

/// The step `step` takes the worker from `pre` to `post`.
pub open spec fn moved<T: Payloads>(
    pre: WorkerView<T>,
    step: Move<T>,
    post: WorkerView<T>,
) -> bool {
    match step {
        Move::Tick { now, now_ms, actions } => model::ticked(pre, now, now_ms, post, actions),
        Move::Count { now_ms, webrtc_tasks, action } => model::usage_reported(
            pre,
            now_ms,
            webrtc_tasks,
            post,
            action,
        ),
        Move::Take { now, now_ms, salt, input, webrtc_tasks, actions } => {
            &&& input.accepted()
            &&& model::input_taken(pre, now, now_ms, salt, input, webrtc_tasks, post, actions)
        },
        Move::Spawned { req_id, variant, result } => model::spawn_answered(
            pre,
            req_id,
            variant,
            result,
            post,
        ),
        Move::Pop { now, now_ms, step } => model::popped(pre, now, now_ms, post, step),
        Move::PolledEmpty { task, now, now_ms, step } => model::polled_empty(
            pre,
            task,
            now,
            now_ms,
            post,
            step,
        ),
        Move::Sdn { now, out, output, actions } => model::sdn_routed(
            pre,
            now,
            out,
            post,
            output,
            actions,
        ),
        Move::Cluster { now, now_ms, out, output, actions } => model::cluster_routed(
            pre,
            now,
            now_ms,
            out,
            post,
            output,
            actions,
        ),
        Move::Webrtc { now, now_ms, event_ms, out, output, actions } => model::webrtc_routed(
            pre,
            now,
            now_ms,
            event_ms,
            out,
            post,
            output,
            actions,
        ),
        Move::Shutdown { now, now_ms, actions } => model::shut_down(
            pre,
            now,
            now_ms,
            post,
            actions,
        ),
    }
}

/// Whatever the worker does, it only ever flags tasks of its own.
pub proof fn law_only_own_tasks<T: Payloads>(
    pre: WorkerView<T>,
    step: Move<T>,
    post: WorkerView<T>,
)
    requires
        pre.wf(),
        moved(pre, step, post),
    ensures
        post.wf(),
{
}

/// Every call that the worker asks for is on a task that will be polled afterwards. So no output
/// that a call may cause is forgotten.
pub proof fn law_called_tasks_are_polled<T: Payloads>(
    pre: WorkerView<T>,
    step: Move<T>,
    post: WorkerView<T>,
    i: int,
)
    requires
        moved(pre, step, post),
        0 <= i < step.calls().len(),
        step.calls()[i].task() is Some,
    ensures
        post.has_flagged(step.calls()[i].task()->0),
{
}

/// A task that may have an output stays so until it is polled and has none.
pub proof fn law_only_an_empty_poll_unflags<T: Payloads>(
    pre: WorkerView<T>,
    step: Move<T>,
    post: WorkerView<T>,
    task: TaskType,
)
    requires
        moved(pre, step, post),
        pre.has_flagged(task),
        !step.empties(task),
    ensures
        post.has_flagged(task),
{
}

/// What the worker was made with never changes.
pub proof fn law_identity_is_kept<T: Payloads>(
    pre: WorkerView<T>,
    step: Move<T>,
    post: WorkerView<T>,
)
    requires
        moved(pre, step, post),
    ensures
        post.worker == pre.worker,
        post.sdn_addr == pre.sdn_addr,
        post.media_max_live == pre.media_max_live,
        post.timer == pre.timer,
        post.secure == pre.secure,
{
}

/// The slot of the network worker's socket is the one that was last bound.
pub proof fn law_slot_is_the_bound_one<T: Payloads>(
    pre: WorkerView<T>,
    step: Move<T>,
    post: WorkerView<T>,
)
    requires
        moved(pre, step, post),
    ensures
        post.sdn_slot == match step.binds() {
            Some(slot) => slot,
            None => pre.sdn_slot,
        },
{
}

/// `steps` take the worker through `states`, one after the other.
pub open spec fn run<T: Payloads>(states: Seq<WorkerView<T>>, steps: Seq<Move<T>>) -> bool {
    &&& states.len() == steps.len() + 1
    &&& forall|i: int|
        0 <= i < steps.len() ==> moved(states[i], #[trigger] steps[i], states[i + 1])
}

/// What a step puts into the queue.
pub open spec fn put<T: Payloads>(pre: WorkerView<T>, post: WorkerView<T>) -> Seq<Queued> {
    if post.queue.len() > pre.queue.len() {
        seq![post.queue.last()]
    } else {
        Seq::empty()
    }
}

/// What a step gives out of the queue.
pub open spec fn got<T: Payloads>(pre: WorkerView<T>, step: Move<T>) -> Seq<Queued> {
    match step {
        Move::Pop { now: _, now_ms: _, step: Step::Ready(_) } => seq![pre.queue[0]],
        _ => Seq::empty(),
    }
}

/// What the first `n` steps put into the queue, in order.
pub open spec fn all_put<T: Payloads>(states: Seq<WorkerView<T>>, n: nat) -> Seq<Queued>
    decreases n,
{
    if n == 0 {
        Seq::empty()
    } else {
        all_put(states, (n - 1) as nat) + put(states[n - 1], states[n as int])
    }
}

/// What the first `n` steps give out of the queue, in order.
pub open spec fn all_got<T: Payloads>(
    states: Seq<WorkerView<T>>,
    steps: Seq<Move<T>>,
    n: nat,
) -> Seq<Queued>
    decreases n,
{
    if n == 0 {
        Seq::empty()
    } else {
        all_got(states, steps, (n - 1) as nat) + got(states[n - 1], steps[n - 1])
    }
}

/// A step puts at most one thing at the end of the queue, or takes its first thing away, or
/// leaves it alone. What it takes away, it gives out.
pub proof fn law_one_step_of_the_queue<T: Payloads>(
    pre: WorkerView<T>,
    step: Move<T>,
    post: WorkerView<T>,
)
    requires
        moved(pre, step, post),
    ensures
        pre.queue + put(pre, post) == got(pre, step) + post.queue,
        step matches Move::Pop { now: _, now_ms: _, step: Step::Ready(out) } ==> pre.queue.len() > 0
            && out == pre.queue[0].spec_into_output::<T>(),
{
    match step {
        Move::Pop { now, now_ms, step: answer } => {
            if pre.queue.len() > 0 {
                assert(pre.queue =~= seq![pre.queue[0]] + pre.queue.drop_first());
            }
            assert(pre.queue + put(pre, post) =~= got(pre, step) + post.queue);
        },
        _ => {
            assert(pre.queue + put(pre, post) =~= post.queue);
            assert(got(pre, step) + post.queue =~= post.queue);
        },
    }
}

/// The queue loses nothing, adds nothing and keeps the order: what was in it and what is put
/// into it comes out again, first in, first out.
pub proof fn law_first_in_first_out<T: Payloads>(
    states: Seq<WorkerView<T>>,
    steps: Seq<Move<T>>,
    n: nat,
)
    requires
        run(states, steps),
        n <= steps.len(),
    ensures
        states[0].queue + all_put(states, n) == all_got(states, steps, n) + states[n as int].queue,
    decreases n,
{
    if n == 0 {
        assert(states[0].queue + all_put(states, n) =~= all_got(states, steps, n)
            + states[n as int].queue);
    } else {
        let m = (n - 1) as nat;
        law_first_in_first_out(states, steps, m);
        let pre = states[m as int];
        let post = states[n as int];
        assert(moved(pre, steps[m as int], post));
        law_one_step_of_the_queue(pre, steps[m as int], post);
        let pushed = put(pre, post);
        let popped = got(pre, steps[m as int]);
        calc! {
            (==)
            states[0].queue + all_put(states, n); {
                assert(states[0].queue + (all_put(states, m) + pushed) =~= (states[0].queue
                    + all_put(states, m)) + pushed);
            }
            (states[0].queue + all_put(states, m)) + pushed; {}
            (all_got(states, steps, m) + pre.queue) + pushed; {
                assert((all_got(states, steps, m) + pre.queue) + pushed =~= all_got(
                    states,
                    steps,
                    m,
                ) + (pre.queue + pushed));
            }
            all_got(states, steps, m) + (pre.queue + pushed); {}
            all_got(states, steps, m) + (popped + post.queue); {
                assert(all_got(states, steps, m) + (popped + post.queue) =~= (all_got(
                    states,
                    steps,
                    m,
                ) + popped) + post.queue);
            }
            all_got(states, steps, n) + post.queue;
        }
    }
}

/// The first thing that a new worker gives out is the request for the socket of the network
/// worker, on every interface and with a port that may be shared. After that it has nothing.
pub proof fn law_listens_first<T: Payloads>(
    worker: u16,
    sdn_udp: u16,
    node_addr: NodeAddr,
    media: MediaConfig<T::Secure>,
    timer: TimePivot,
    now: Instant,
    now_ms: u64,
    mid: WorkerView<T>,
    first: Step<T>,
    post: WorkerView<T>,
    second: Step<T>,
)
    requires
        model::popped(
            model::started::<T>(worker, sdn_udp, node_addr, media, timer),
            now,
            now_ms,
            mid,
            first,
        ),
        model::popped(mid, now, now_ms, post, second),
    ensures
        first == Step::<T>::Ready(
            Output::Net(
                Owner::Sdn,
                BackendOutgoing::UdpListen {
                    addr: SocketAddr::V4 { ip: 0, port: sdn_udp },
                    reuse: true,
                },
            ),
        ),
        second == Step::<T>::Idle,
{
}

/// The last report of the sessions never goes back in time.
proof fn lemma_feedback_advances<T: Payloads>(
    states: Seq<WorkerView<T>>,
    steps: Seq<Move<T>>,
    i: int,
    j: int,
)
    requires
        run(states, steps),
        0 <= i <= j <= steps.len(),
    ensures
        states[i].last_feedback <= states[j].last_feedback,
    decreases j - i,
{
    if i < j {
        lemma_feedback_advances(states, steps, i, j - 1);
        assert(moved(states[j - 1], steps[j - 1], states[j]));
    }
}

/// The sessions are never counted twice within the interval.
pub proof fn law_counts_are_spaced<T: Payloads>(
    states: Seq<WorkerView<T>>,
    steps: Seq<Move<T>>,
    i: int,
    j: int,
)
    requires
        run(states, steps),
        0 <= i < j < steps.len(),
        steps[i].counts_at() is Some,
        steps[j].counts_at() is Some,
    ensures
        steps[i].counts_at()->0 + FEEDBACK_GATEWAY_AGENT_INTERVAL <= steps[j].counts_at()->0,
{
    assert(moved(states[i], steps[i], states[i + 1]));
    assert(moved(states[j], steps[j], states[j + 1]));
    lemma_feedback_advances(states, steps, i + 1, j);
}

/// The step `i` reports the sessions that the tick `j` had counted: at the time of that tick, and
/// before anything else was reported.
pub open spec fn reports_for<T: Payloads>(steps: Seq<Move<T>>, i: int, j: int) -> bool {
    &&& 0 <= j < i
    &&& steps[j].counts_at() is Some
    &&& steps[j].counts_at() == steps[i].reports_at()
    &&& forall|k: int| j < k < i ==> (#[trigger] steps[k]).reports_at() is None
}

/// Sessions are reported only after a tick had them counted, and only once.
pub open spec fn reports_on_demand<T: Payloads>(steps: Seq<Move<T>>) -> bool {
    forall|i: int|
        0 <= i < steps.len() && (#[trigger] steps[i]).reports_at() is Some ==> exists|j: int|
            reports_for(steps, i, j)
}

/// The gateway is never told twice within the interval how many sessions run, as long as it is
/// told only what a tick had counted.
pub proof fn law_reports_are_spaced<T: Payloads>(
    states: Seq<WorkerView<T>>,
    steps: Seq<Move<T>>,
    i: int,
    j: int,
)
    requires
        run(states, steps),
        reports_on_demand(steps),
        0 <= i < j < steps.len(),
        steps[i].reports_at() is Some,
        steps[j].reports_at() is Some,
    ensures
        steps[i].reports_at()->0 + FEEDBACK_GATEWAY_AGENT_INTERVAL <= steps[j].reports_at()->0,
{
    let first = choose|k: int| reports_for(steps, i, k);
    let second = choose|k: int| reports_for(steps, j, k);
    assert(reports_for(steps, i, first));
    assert(reports_for(steps, j, second));
    assert(i < second);
    law_counts_are_spaced(states, steps, first, second);
}

/// A tick that comes the interval after the last report has the sessions counted.
pub proof fn law_counts_are_not_forgotten<T: Payloads>(
    pre: WorkerView<T>,
    now: Instant,
    now_ms: u64,
    post: WorkerView<T>,
    actions: Seq<Action<T>>,
)
    requires
        model::ticked(pre, now, now_ms, post, actions),
        pre.last_feedback + FEEDBACK_GATEWAY_AGENT_INTERVAL <= now_ms,
    ensures
        (Move::Tick { now, now_ms, actions }).counts_at() == Some(now_ms),
{
}

/// When the first `n` steps last had the sessions counted, in milliseconds; zero where they never
/// did.
pub open spec fn last_count<T: Payloads>(steps: Seq<Move<T>>, n: nat) -> u64
    decreases n,
{
    if n == 0 {
        0
    } else {
        match steps[n - 1].counts_at() {
            Some(at) => at,
            None => last_count(steps, (n - 1) as nat),
        }
    }
}

/// What the worker remembers of the last report is when the sessions were last counted.
proof fn lemma_feedback_is_last_count<T: Payloads>(
    states: Seq<WorkerView<T>>,
    steps: Seq<Move<T>>,
    n: nat,
)
    requires
        run(states, steps),
        states[0].last_feedback == 0,
        n <= steps.len(),
    ensures
        states[n as int].last_feedback == last_count(steps, n),
    decreases n,
{
    if n > 0 {
        lemma_feedback_is_last_count(states, steps, (n - 1) as nat);
        assert(moved(states[n - 1], steps[n - 1], states[n as int]));
    }
}

/// A tick of a worker that started afresh has the sessions counted if and only if it comes the
/// interval after they were last counted, or after the beginning of time where they never were.
pub proof fn law_counts_when_due<T: Payloads>(
    states: Seq<WorkerView<T>>,
    steps: Seq<Move<T>>,
    now: Instant,
    now_ms: u64,
    post: WorkerView<T>,
    actions: Seq<Action<T>>,
)
    requires
        run(states, steps),
        states[0].last_feedback == 0,
        model::ticked(states.last(), now, now_ms, post, actions),
    ensures
        (Move::Tick { now, now_ms, actions }).counts_at() == if last_count(steps, steps.len())
            + FEEDBACK_GATEWAY_AGENT_INTERVAL <= now_ms {
            Some(now_ms)
        } else {
            None
        },
{
    lemma_feedback_is_last_count(states, steps, steps.len());
}

/// The task whose turn it is comes before every other task that may have an output.
pub proof fn law_turn_is_the_first<T: Payloads>(worker: WorkerView<T>, task: TaskType)
    requires
        worker.has_flagged(task),
    ensures
        worker.turn() is Some,
        worker.has_flagged(worker.turn()->0),
        worker.turn()->0.spec_index() <= task.spec_index(),
{
}

/// Each task has a place of its own in the polling order, and nothing else has one.
pub proof fn law_task_places(task: TaskType, index: usize)
    ensures
        TaskType::spec_from_index(index) == Some(task) <==> index == task.spec_index(),
        TaskType::spec_from_index(index) is Some <==> index < TASKS,
{
}

/// The number of tasks that may have an output.
pub open spec fn flagged_count<T: Payloads>(worker: WorkerView<T>) -> nat {
    (if worker.has_flagged(TaskType::Sdn) { 1nat } else { 0 }) + (if worker.has_flagged(
        TaskType::MediaCluster,
    ) { 1nat } else { 0 }) + (if worker.has_flagged(TaskType::MediaWebrtc) { 1nat } else { 0 })
}

/// Whether the search for an output ends after `polls` tasks were polled and had none.
pub open spec fn idle_after<T: Payloads>(worker: WorkerView<T>, polls: nat) -> bool
    decreases polls,
{
    match worker.turn() {
        None => polls == 0,
        Some(task) => polls > 0 && idle_after(worker.unflag(task), (polls - 1) as nat),
    }
}

/// The search for an output ends. It takes one poll for each task that may have one, so at most
/// three.
pub proof fn law_search_ends<T: Payloads>(worker: WorkerView<T>)
    ensures
        idle_after(worker, flagged_count(worker)),
        flagged_count(worker) <= TASKS,
    decreases flagged_count(worker),
{
    if worker.turn() is Some {
        law_search_ends(worker.unflag(worker.turn()->0));
    }
}

/// The search for an output comes to nothing only when there is nothing.
pub proof fn law_idle_means_nothing_left<T: Payloads>(
    pre: WorkerView<T>,
    now: Instant,
    now_ms: u64,
    post: WorkerView<T>,
)
    requires
        pre.wf(),
        model::popped(pre, now, now_ms, post, Step::<T>::Idle),
    ensures
        pre.queue.len() == 0,
        pre.flagged =~= Set::<usize>::empty(),
        post == pre,
{
    assert forall|index: usize| !pre.flagged.contains(index) by {
        assert(!pre.has_flagged(TaskType::Sdn));
        assert(!pre.has_flagged(TaskType::MediaCluster));
        assert(!pre.has_flagged(TaskType::MediaWebrtc));
    }
}

/// A served request makes exactly one call, and that on the WebRTC sessions.
pub proof fn law_one_call_for_a_request<T: Payloads>(
    pre: WorkerView<T>,
    now: Instant,
    now_ms: u64,
    salt: u64,
    req_id: u64,
    req: RpcReq<T>,
    webrtc_tasks: usize,
    post: WorkerView<T>,
    actions: Seq<Action<T>>,
)
    requires
        outcomes::request_taken(pre, now, now_ms, salt, req_id, req, webrtc_tasks, post, actions),
    ensures
        actions.len() == 1,
        actions[0].task() == Some(TaskType::MediaWebrtc),
{
}

/// A request for a new session is answered as such, in its own protocol and under its own number,
/// and as the attempt came out.
pub proof fn law_connect_is_answered<T: Payloads>(
    pre: WorkerView<T>,
    now: Instant,
    now_ms: u64,
    salt: u64,
    req_id: u64,
    req: RpcReq<T>,
    webrtc_tasks: usize,
    mid: WorkerView<T>,
    actions: Seq<Action<T>>,
    later: WorkerView<T>,
    result: RpcResult<Spawned>,
    post: WorkerView<T>,
)
    requires
        req.method() is Connect,
        outcomes::request_taken(pre, now, now_ms, salt, req_id, req, webrtc_tasks, mid, actions),
        actions[0] matches Action::WebrtcSpawn(spawn) ==> model::spawn_answered(
            later,
            spawn.req_id,
            spawn.params.variant(),
            result,
            post,
        ),
    ensures
        mid.queue == pre.queue,
        post.queue.len() == later.queue.len() + 1,
        post.queue.last() matches Queued::ExtRpc(id, res) && {
            &&& id == req_id
            &&& res.variant() == req.variant()
            &&& res.method() is Connect
            &&& match result {
                Ok((ice_lite, sdp, conn)) => {
                    &&& res.error() is None
                    &&& res.conn() == Some(conn)
                    &&& res.sdp() == Some(sdp)
                    &&& res matches RpcRes::Webrtc(WebrtcRes::Connect(Ok((_, response))))
                        ==> response.ice_lite == ice_lite
                },
                Err(error) => res.error() == Some(error),
            }
        },
{
}

/// A request to end a session is answered at once, as such, in its own protocol and under its own
/// number, and the session behind the connection is closed.
pub proof fn law_delete_is_answered<T: Payloads>(
    pre: WorkerView<T>,
    now: Instant,
    now_ms: u64,
    salt: u64,
    req_id: u64,
    req: RpcReq<T>,
    webrtc_tasks: usize,
    post: WorkerView<T>,
    actions: Seq<Action<T>>,
)
    requires
        req.method() is Delete,
        outcomes::request_taken(pre, now, now_ms, salt, req_id, req, webrtc_tasks, post, actions),
    ensures
        post.queue.len() == pre.queue.len() + 1,
        post.queue.drop_last() == pre.queue,
        post.queue.last() matches Queued::ExtRpc(id, res) && {
            &&& id == req_id
            &&& res.variant() == req.variant()
            &&& res.method() is Delete
            &&& res.error() is None
        },
        Some(actions[0]) == match req.conn() {
            Some(conn) => Some(
                Action::<T>::WebrtcEvent(now, GroupInput::Close(WebrtcSession(conn))),
            ),
            None => None,
        },
{
    assert(post.queue.drop_last() =~= pre.queue);
}

/// A request that goes to a running session reaches the session of its connection, and what the
/// session says to it is answered as such, in the request's own protocol and under its own number.
pub proof fn law_session_requests_are_answered<T: Payloads>(
    pre: WorkerView<T>,
    now: Instant,
    now_ms: u64,
    salt: u64,
    req_id: u64,
    req: RpcReq<T>,
    webrtc_tasks: usize,
    mid: WorkerView<T>,
    actions: Seq<Action<T>>,
    later: WorkerView<T>,
    then: Instant,
    then_ms: u64,
    event_ms: u64,
    reply: ExtOut,
    post: WorkerView<T>,
    output: Output<T>,
    calls: Seq<Action<T>>,
)
    requires
        req.method() is RemoteIce || req.method() is RestartIce,
        outcomes::request_taken(pre, now, now_ms, salt, req_id, req, webrtc_tasks, mid, actions),
        actions[0] matches Action::WebrtcEvent(_, GroupInput::Ext(session, ext)) ==> {
            &&& reply.replies_to(ext)
            &&& model::webrtc_routed(
                later,
                then,
                then_ms,
                event_ms,
                GroupOutput::Ext(session, reply),
                post,
                output,
                calls,
            )
        },
    ensures
        actions[0] matches Action::WebrtcEvent(at, GroupInput::Ext(session, _)) && at == now
            && req.conn() == Some(session.0),
        mid.queue == pre.queue,
        output matches Output::ExtRpc(id, res) && {
            &&& id == req_id
            &&& res.variant() == req.variant()
            &&& res.method() == req.method()
            &&& res.error() == reply.error()
            &&& res.sdp() == reply.sdp()
            &&& res.method() is RestartIce && res.error() is None ==> res.conn() == req.conn()
            &&& reply matches ExtOut::RestartIce(_, _, Ok((ice_lite, _))) ==> (res matches
                RpcRes::Webrtc(WebrtcRes::RestartIce(Ok((_, response)))) && response.ice_lite
                == ice_lite)
            &&& reply matches ExtOut::RemoteIce(_, Variant::Webrtc, Ok(added)) ==> (res matches
                RpcRes::Webrtc(WebrtcRes::RemoteIce(Ok(response))) && response.added == added)
        },
        calls.len() == 0,
        post == later,
{
}

/// What the network says to a room comes back to the room that asked.
pub proof fn law_rooms_hear_back<T: Payloads>(
    pre: WorkerView<T>,
    now: Instant,
    now_ms: u64,
    room: T::Room,
    control: FeaturesControl,
    mid: WorkerView<T>,
    output: Output<T>,
    actions: Seq<Action<T>>,
    later: WorkerView<T>,
    then: Instant,
    event: FeaturesEvent,
    post: WorkerView<T>,
    reply: Output<T>,
    calls: Seq<Action<T>>,
)
    requires
        model::cluster_routed(
            pre,
            now,
            now_ms,
            ClusterOutput::Sdn(room, control),
            mid,
            output,
            actions,
        ),
        actions[0] matches Action::SdnEvent(
            _,
            SdnWorkerInput::ExtWorker(SdnExtIn::FeaturesControl(asker, _)),
        ) ==> model::sdn_routed(
            later,
            then,
            SdnWorkerOutput::ExtWorker(SdnExtOut::FeaturesEvent(asker, event)),
            post,
            reply,
            calls,
        ),
    ensures
        calls == seq![Action::<T>::ClusterSdnEvent(then, room, event)],
{
}

/// What a room says to the endpoint of a session comes back to that session.
pub proof fn law_sessions_hear_back<T: Payloads>(
    pre: WorkerView<T>,
    now: Instant,
    now_ms: u64,
    event_ms: u64,
    session: WebrtcSession,
    room: T::RoomHash,
    control: T::EndpointControl,
    mid: WorkerView<T>,
    output: Output<T>,
    actions: Seq<Action<T>>,
    later: WorkerView<T>,
    then: Instant,
    then_ms: u64,
    endpoints: Vec<MediaClusterEndpoint>,
    event: T::EndpointEvent,
    post: WorkerView<T>,
    reply: Output<T>,
    calls: Seq<Action<T>>,
    i: int,
)
    requires
        model::webrtc_routed(
            pre,
            now,
            now_ms,
            event_ms,
            GroupOutput::Cluster(session, room, control),
            mid,
            output,
            actions,
        ),
        model::cluster_routed(
            later,
            then,
            then_ms,
            ClusterOutput::Endpoint(endpoints, event),
            post,
            reply,
            calls,
        ),
        0 <= i < endpoints@.len(),
        actions[0] matches Action::ClusterEndpointControl(_, endpoint, _, _) ==> endpoints@[i]
            == endpoint,
    ensures
        calls[i] matches Action::WebrtcEvent(at, GroupInput::Cluster(to, told)) && at == then && to
            == session && cloned(event, told),
{
    assert(model::endpoint_told(calls[i], then, endpoints@[i], event));
}

/// What the network worker wants sent leaves from the socket that was bound for it.
pub proof fn law_packets_leave_from_the_bound_socket<T: Payloads>(
    states: Seq<WorkerView<T>>,
    steps: Seq<Move<T>>,
    bound: int,
    slot: usize,
    now: Instant,
    net: NetOutput,
    post: WorkerView<T>,
    output: Output<T>,
    actions: Seq<Action<T>>,
)
    requires
        run(states, steps),
        0 <= bound < steps.len(),
        steps[bound].binds() == Some(slot),
        forall|k: int| bound < k < steps.len() ==> (#[trigger] steps[k]).binds() is None,
        model::sdn_routed(
            states.last(),
            now,
            SdnWorkerOutput::Net(net),
            post,
            output,
            actions,
        ),
    ensures
        output == Output::<T>::Net(
            Owner::Sdn,
            match net {
                NetOutput::UdpPacket(to, data) => BackendOutgoing::UdpPacket { slot, to, data },
                NetOutput::UdpPackets(to, data) => BackendOutgoing::UdpPackets { slot, to, data },
            },
        ),
{
    assert(moved(states[bound], steps[bound], states[bound + 1]));
    lemma_slot_stays(states, steps, bound + 1, steps.len() as int);
}

/// As long as nothing was bound for the network worker, what it wants sent leaves from the slot
/// that a new worker takes for granted.
pub proof fn law_packets_leave_from_the_first_slot<T: Payloads>(
    states: Seq<WorkerView<T>>,
    steps: Seq<Move<T>>,
    now: Instant,
    net: NetOutput,
    post: WorkerView<T>,
    output: Output<T>,
    actions: Seq<Action<T>>,
)
    requires
        run(states, steps),
        states[0].sdn_slot == 1,
        forall|k: int| 0 <= k < steps.len() ==> (#[trigger] steps[k]).binds() is None,
        model::sdn_routed(
            states.last(),
            now,
            SdnWorkerOutput::Net(net),
            post,
            output,
            actions,
        ),
    ensures
        output == Output::<T>::Net(
            Owner::Sdn,
            match net {
                NetOutput::UdpPacket(to, data) => BackendOutgoing::UdpPacket { slot: 1, to, data },
                NetOutput::UdpPackets(to, data) => BackendOutgoing::UdpPackets { slot: 1, to, data },
            },
        ),
{
    lemma_slot_stays(states, steps, 0, steps.len() as int);
}

/// The slot stays while nothing is bound.
proof fn lemma_slot_stays<T: Payloads>(
    states: Seq<WorkerView<T>>,
    steps: Seq<Move<T>>,
    i: int,
    j: int,
)
    requires
        run(states, steps),
        0 <= i <= j <= steps.len(),
        forall|k: int| i <= k < j ==> (#[trigger] steps[k]).binds() is None,
    ensures
        states[j].sdn_slot == states[i].sdn_slot,
    decreases j - i,
{
    if i < j {
        lemma_slot_stays(states, steps, i, j - 1);
        assert(moved(states[j - 1], steps[j - 1], states[j]));
        assert(steps[j - 1].binds() is None);
        law_slot_is_the_bound_one(states[j - 1], steps[j - 1], states[j]);
    }
}

/// Two WHEP sessions share the name of their peer only when the same number was drawn for both.
pub proof fn law_whep_peers_differ(a: u64, b: u64)
    requires
        model::whep_peer(a) == model::whep_peer(b),
    ensures
        a == b,
{
    let x = text::decimal(a as nat);
    let y = text::decimal(b as nat);
    let n = "whep-"@.len() as int;
    assert(model::whep_peer(a).skip(n) =~= x);
    assert(model::whep_peer(b).skip(n) =~= y);
    text::lemma_decimal_injective(a as nat, b as nat);
}

} // verus!
