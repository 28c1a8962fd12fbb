//! Properties of the library as a whole: how tasks move through their
//! states across calls, what normalizing a working directory gives, and
//! that text handed out is read back unchanged.
use vstd::prelude::*;
use vstd::utf8::{decode_utf8, encode_utf8, encode_utf8_decode_utf8, encode_utf8_valid_utf8};

use crate::codes::{od_zig_error_code, od_zig_poll_state, od_zig_task_state};
use crate::options::{text_field, text_required};
use crate::path::{normalized_root, root_body};
use crate::runtime::{
    after_pop, after_signal, cancel_reports_completed, completion_signals, front_of, next_number,
    ready_value, take_failure_code, tasks_after_cancel_begin, tasks_after_cancel_finish,
    tasks_after_completion, tasks_after_take,
};
use crate::task::{
    error_code_of, is_running, kind_of, poll_state_of, task_state_of, TaskCompletion, TaskOutcome,
    TaskValueKind,
};

verus! {

/// The moves a task may make: staying as it is; from running to being
/// canceled, to ready, or to canceled; and from ready to consumed.
pub open spec fn allowed_transition(a: TaskCompletion, b: TaskCompletion) -> bool {
    ||| a == b
    ||| is_running(a) && (b is Canceling || b is Ready || b is Canceled)
    ||| a is Ready && b is Consumed
}

/// Whether every task known before a step is still known after it, having
/// made an allowed move.
pub open spec fn step_follows_machine(
    before: Map<u64, TaskCompletion>,
    after: Map<u64, TaskCompletion>,
) -> bool {
    forall|k: u64|
        #![trigger before.contains_key(k)]
        before.contains_key(k) ==> after.contains_key(k) && allowed_transition(before[k], after[k])
}

/// Recording a task's outcome, taking a task's outcome, and both steps of
/// a cancellation move every task only along the task state machine:
/// pending to ready or canceled, ready to consumed; a consumed or canceled
/// task is never made ready again.
pub proof fn law_steps_follow_task_machine(
    tasks: Map<u64, TaskCompletion>,
    task_id: u64,
    outcome: TaskOutcome,
    kind: TaskValueKind,
)
    ensures
        step_follows_machine(tasks, tasks_after_completion(tasks, task_id, outcome)),
        step_follows_machine(tasks, tasks_after_take(tasks, task_id, kind)),
        step_follows_machine(tasks, tasks_after_cancel_begin(tasks, task_id)),
        step_follows_machine(tasks, tasks_after_cancel_finish(tasks, task_id)),
{
}

/// A task's completion is signaled at most once: once an outcome has been
/// recorded for a task, recording another never signals it again and
/// changes nothing.
pub proof fn law_completion_signals_once(
    tasks: Map<u64, TaskCompletion>,
    task_id: u64,
    first: TaskOutcome,
    second: TaskOutcome,
)
    ensures
        ({
            let after = tasks_after_completion(tasks, task_id, first);
            &&& !completion_signals(after, task_id)
            &&& tasks_after_completion(after, task_id, second) == after
        }),
{
}

/// An outcome is taken at most once: after a successful take the task is
/// consumed, and every later take fails as not ready.
pub proof fn law_outcome_taken_once(
    tasks: Map<u64, TaskCompletion>,
    task_id: u64,
    kind: TaskValueKind,
    later_kind: TaskValueKind,
)
    requires
        take_failure_code(tasks, task_id, kind) is None,
    ensures
        tasks_after_take(tasks, task_id, kind)[task_id] is Consumed,
        take_failure_code(tasks_after_take(tasks, task_id, kind), task_id, later_kind) == Some(
            od_zig_error_code::OD_ZIG_INTERNAL,
        ),
        task_state_of(tasks_after_take(tasks, task_id, kind)[task_id])
            == od_zig_task_state::OD_ZIG_TASK_CONSUMED,
{
}

/// What a task's work produced is what taking the task gives: a value is
/// handed out to a take of its own kind, a failure is handed out with its
/// code, and either way the task is then consumed.
pub proof fn law_take_gives_recorded_outcome(
    tasks: Map<u64, TaskCompletion>,
    task_id: u64,
    outcome: TaskOutcome,
    kind: TaskValueKind,
)
    requires
        tasks.contains_key(task_id),
        is_running(tasks[task_id]),
    ensures
        ({
            let done = tasks_after_completion(tasks, task_id, outcome);
            match outcome {
                Ok(v) => {
                    &&& take_failure_code(done, task_id, kind_of(v)) is None
                    &&& ready_value(done, task_id) == v
                    &&& tasks_after_take(done, task_id, kind_of(v))[task_id] is Consumed
                },
                Err(e) => {
                    &&& take_failure_code(done, task_id, kind) == Some(e.code)
                    &&& tasks_after_take(done, task_id, kind)[task_id] is Consumed
                },
            }
        }),
{
}

/// A take of the wrong kind loses nothing: the task keeps its value, and a
/// take of the right kind still yields it.
pub proof fn law_mismatched_take_keeps_value(
    tasks: Map<u64, TaskCompletion>,
    task_id: u64,
    wrong: TaskValueKind,
)
    requires
        tasks.contains_key(task_id),
        tasks[task_id] matches TaskCompletion::Ready(Ok(v)) && kind_of(v) != wrong,
    ensures
        tasks_after_take(tasks, task_id, wrong) == tasks,
        take_failure_code(
            tasks_after_take(tasks, task_id, wrong),
            task_id,
            kind_of(ready_value(tasks, task_id)),
        ) is None,
{
}

/// Canceling a task that has completed loses nothing: the cancellation
/// reports that it had completed, both steps leave it as it was, and its
/// outcome can still be taken.
pub proof fn law_cancel_keeps_completed_outcome(
    tasks: Map<u64, TaskCompletion>,
    task_id: u64,
    kind: TaskValueKind,
)
    requires
        tasks.contains_key(task_id),
        tasks[task_id] is Ready,
    ensures
        cancel_reports_completed(tasks, task_id),
        tasks_after_cancel_begin(tasks, task_id) == tasks,
        tasks_after_cancel_finish(tasks, task_id) == tasks,
        take_failure_code(tasks_after_cancel_begin(tasks, task_id), task_id, kind)
            == take_failure_code(tasks, task_id, kind),
{
}

/// Work that finishes while a cancellation is under way is not lost: the
/// task becomes ready and is signaled, and the cancellation's second step
/// reports that it had completed and leaves the outcome in place.
pub proof fn law_cancel_race_keeps_outcome(
    tasks: Map<u64, TaskCompletion>,
    task_id: u64,
    outcome: TaskOutcome,
)
    requires
        tasks.contains_key(task_id),
        is_running(tasks[task_id]),
    ensures
        ({
            let canceling = tasks_after_cancel_begin(tasks, task_id);
            let finished = tasks_after_completion(canceling, task_id, outcome);
            &&& completion_signals(canceling, task_id)
            &&& finished[task_id] == TaskCompletion::Ready(outcome)
            &&& cancel_reports_completed(finished, task_id)
            &&& tasks_after_cancel_finish(finished, task_id) == finished
        }),
{
}

/// A task canceled before it finished stays canceled: the cancellation
/// reports that it had not completed, its work finishing later is neither
/// recorded nor signaled, polling finds it finished, its state and code are
/// canceled, and taking it fails as canceled.
pub proof fn law_canceled_task_stays_canceled(
    tasks: Map<u64, TaskCompletion>,
    task_id: u64,
    outcome: TaskOutcome,
    kind: TaskValueKind,
)
    requires
        tasks.contains_key(task_id),
        is_running(tasks[task_id]),
    ensures
        ({
            let canceling = tasks_after_cancel_begin(tasks, task_id);
            let canceled = tasks_after_cancel_finish(canceling, task_id);
            &&& !cancel_reports_completed(canceling, task_id)
            &&& canceled[task_id] is Canceled
            &&& !completion_signals(canceled, task_id)
            &&& tasks_after_completion(canceled, task_id, outcome) == canceled
            &&& poll_state_of(canceled[task_id]) == od_zig_poll_state::OD_ZIG_POLL_READY
            &&& task_state_of(canceled[task_id]) == od_zig_task_state::OD_ZIG_TASK_CANCELED
            &&& error_code_of(canceled[task_id]) == od_zig_error_code::OD_ZIG_CANCELED
            &&& take_failure_code(canceled, task_id, kind) == Some(
                od_zig_error_code::OD_ZIG_CANCELED,
            )
            &&& tasks_after_take(canceled, task_id, kind) == canceled
        }),
{
}

/// Whether every task in the completion queue that the registry still
/// knows has completed: its outcome is ready, or it was taken.
pub open spec fn queue_holds_completed(tasks: Map<u64, TaskCompletion>, ready: Seq<u64>) -> bool {
    forall|i: int|
        #![trigger ready[i]]
        0 <= i < ready.len() && tasks.contains_key(ready[i]) ==> (tasks[ready[i]] is Ready
            || tasks[ready[i]] is Consumed)
}

/// The completion queue only ever holds tasks that have completed: a new
/// registry's empty queue does, and recording an outcome, taking one, both
/// steps of a cancellation, forgetting a task and popping the queue keep it
/// so; so does entering a new task under a number the queue does not hold.
pub proof fn law_queue_holds_completed_tasks(
    tasks: Map<u64, TaskCompletion>,
    ready: Seq<u64>,
    task_id: u64,
    outcome: TaskOutcome,
    kind: TaskValueKind,
    next_id: u64,
)
    requires
        queue_holds_completed(tasks, ready),
    ensures
        queue_holds_completed(Map::<u64, TaskCompletion>::empty(), Seq::<u64>::empty()),
        queue_holds_completed(
            tasks_after_completion(tasks, task_id, outcome),
            if completion_signals(tasks, task_id) {
                after_signal(ready, task_id)
            } else {
                ready
            },
        ),
        queue_holds_completed(tasks_after_take(tasks, task_id, kind), ready),
        queue_holds_completed(tasks_after_cancel_begin(tasks, task_id), ready),
        queue_holds_completed(tasks_after_cancel_finish(tasks, task_id), ready),
        queue_holds_completed(tasks.remove(task_id), ready),
        queue_holds_completed(tasks, after_pop(ready)),
        !ready.contains(next_id) ==> queue_holds_completed(
            tasks.insert(next_id, TaskCompletion::Pending),
            ready,
        ),
{
    if completion_signals(tasks, task_id) {
        let after = tasks_after_completion(tasks, task_id, outcome);
        let queued = after_signal(ready, task_id);
        assert forall|i: int|
            0 <= i < queued.len() && after.contains_key(#[trigger] queued[i]) implies (
            after[queued[i]] is Ready || after[queued[i]] is Consumed) by {
            if i < ready.len() {
                assert(queued[i] == ready[i]);
                if ready[i] == task_id {
                    assert(tasks.contains_key(ready[i]));
                }
            }
        }
    }
}

/// A call that changes the tasks a registry knows: recording an outcome
/// (`TaskRegistry::complete_task`), taking one (`take_task_value` and the
/// typed takes), the two steps of a cancellation (`cancel_begin`,
/// `cancel_finish`), entering a task (`register_task`, `spawn_task`) and
/// forgetting one (`free_task`).
pub enum TaskStep {
    Complete(u64, TaskOutcome),
    Take(u64, TaskValueKind),
    CancelBegin(u64),
    CancelFinish(u64),
    Enter(u64),
    Forget(u64),
}

/// The tasks after a call, as the call's contract gives them.
pub open spec fn after_step(tasks: Map<u64, TaskCompletion>, step: TaskStep) -> Map<
    u64,
    TaskCompletion,
> {
    match step {
        TaskStep::Complete(id, outcome) => tasks_after_completion(tasks, id, outcome),
        TaskStep::Take(id, kind) => tasks_after_take(tasks, id, kind),
        TaskStep::CancelBegin(id) => tasks_after_cancel_begin(tasks, id),
        TaskStep::CancelFinish(id) => tasks_after_cancel_finish(tasks, id),
        TaskStep::Enter(id) => tasks.insert(id, TaskCompletion::Pending),
        TaskStep::Forget(id) => tasks.remove(id),
    }
}

/// The tasks after a sequence of calls, in order.
pub open spec fn after_steps(tasks: Map<u64, TaskCompletion>, steps: Seq<TaskStep>) -> Map<
    u64,
    TaskCompletion,
>
    decreases steps.len(),
{
    if steps.len() == 0 {
        tasks
    } else {
        after_steps(after_step(tasks, steps[0]), steps.drop_first())
    }
}

/// Whether a call enters or forgets the given task.
pub open spec fn step_names(step: TaskStep, task_id: u64) -> bool {
    match step {
        TaskStep::Enter(id) => id == task_id,
        TaskStep::Forget(id) => id == task_id,
        _ => false,
    }
}

/// The states a task can reach from a state through any number of moves
/// of the task state machine.
pub open spec fn reachable(a: TaskCompletion, b: TaskCompletion) -> bool {
    ||| a == b
    ||| a is Pending && (b is Canceling || b is Ready || b is Canceled || b is Consumed)
    ||| a is Canceling && (b is Ready || b is Canceled || b is Consumed)
    ||| a is Ready && b is Consumed
}

/// The reported states reachable from a reported state: pending to ready,
/// failed or canceled, ready and failed to consumed; canceled and consumed
/// are final.
pub open spec fn state_reachable(a: od_zig_task_state, b: od_zig_task_state) -> bool {
    ||| a == b
    ||| a == od_zig_task_state::OD_ZIG_TASK_PENDING
    ||| (a == od_zig_task_state::OD_ZIG_TASK_READY || a == od_zig_task_state::OD_ZIG_TASK_FAILED)
        && b == od_zig_task_state::OD_ZIG_TASK_CONSUMED
}

/// Over any sequence of calls that neither forgets a task nor enters
/// another task under its number, the task stays known and its state, as
/// the registry holds it and as `od_zig_task_get_state` reports it, is
/// reachable from where it was in the task state machine.
pub proof fn law_task_states_stay_reachable(
    tasks: Map<u64, TaskCompletion>,
    steps: Seq<TaskStep>,
    task_id: u64,
)
    requires
        tasks.contains_key(task_id),
        forall|i: int| 0 <= i < steps.len() ==> !step_names(#[trigger] steps[i], task_id),
    ensures
        after_steps(tasks, steps).contains_key(task_id),
        reachable(tasks[task_id], after_steps(tasks, steps)[task_id]),
        state_reachable(
            task_state_of(tasks[task_id]),
            task_state_of(after_steps(tasks, steps)[task_id]),
        ),
    decreases steps.len(),
{
    if steps.len() > 0 {
        let next = after_step(tasks, steps[0]);
        assert(!step_names(steps[0], task_id));
        assert(next.contains_key(task_id) && allowed_transition(tasks[task_id], next[task_id]));
        let rest = steps.drop_first();
        assert forall|i: int| 0 <= i < rest.len() implies !step_names(#[trigger] rest[i], task_id) by {
            assert(rest[i] == steps[i + 1]);
        }
        law_task_states_stay_reachable(next, rest, task_id);
        assert(after_steps(tasks, steps) == after_steps(next, rest));
    }
}

/// The completion queue after the given tasks are queued one by one, as
/// `complete_task` queues each task it signals.
pub open spec fn queue_after_pushes(ready: Seq<u64>, ids: Seq<u64>) -> Seq<u64>
    decreases ids.len(),
{
    if ids.len() == 0 {
        ready
    } else {
        queue_after_pushes(after_signal(ready, ids[0]), ids.drop_first())
    }
}

/// The numbers `n` successive calls of `pop_ready_task` hand out, as its
/// contract gives them; an empty queue hands out nothing.
pub open spec fn popped_ids(ready: Seq<u64>, n: nat) -> Seq<u64>
    decreases n,
{
    if n == 0 || ready.len() == 0 {
        Seq::empty()
    } else {
        seq![front_of(ready)->0] + popped_ids(after_pop(ready), (n - 1) as nat)
    }
}

/// The completion queue after `n` successive pops.
pub open spec fn queue_after_pops(ready: Seq<u64>, n: nat) -> Seq<u64>
    decreases n,
{
    if n == 0 || ready.len() == 0 {
        ready
    } else {
        queue_after_pops(after_pop(ready), (n - 1) as nat)
    }
}

proof fn lemma_pushes_append(ready: Seq<u64>, ids: Seq<u64>)
    ensures
        queue_after_pushes(ready, ids) == ready + ids,
    decreases ids.len(),
{
    if ids.len() > 0 {
        lemma_pushes_append(ready.push(ids[0]), ids.drop_first());
        assert(ready.push(ids[0]) + ids.drop_first() =~= ready + ids);
    } else {
        assert(ready + ids =~= ready);
    }
}

proof fn lemma_pops_take_the_front(ready: Seq<u64>, n: nat)
    requires
        n <= ready.len(),
    ensures
        popped_ids(ready, n) == ready.take(n as int),
        queue_after_pops(ready, n) == ready.skip(n as int),
    decreases n,
{
    if n == 0 {
        assert(ready.take(0) =~= Seq::<u64>::empty());
        assert(ready.skip(0) =~= ready);
    } else {
        let rest = ready.drop_first();
        lemma_pops_take_the_front(rest, (n - 1) as nat);
        assert(seq![ready[0]] + rest.take(n - 1) =~= ready.take(n as int));
        assert(rest.skip(n - 1) =~= ready.skip(n as int));
    }
}

/// Tasks queued one after another into an empty completion queue are
/// popped in the order they were queued, each once, and the queue is then
/// empty; more generally `n` pops hand out the first `n` queued tasks and
/// leave the rest in order.
pub proof fn law_pops_are_first_in_first_out(ready: Seq<u64>, ids: Seq<u64>, n: nat)
    ensures
        queue_after_pushes(Seq::empty(), ids) == ids,
        popped_ids(ids, ids.len()) == ids,
        queue_after_pops(ids, ids.len()) == Seq::<u64>::empty(),
        n <= ready.len() ==> popped_ids(ready, n) == ready.take(n as int) && queue_after_pops(
            ready,
            n,
        ) == ready.skip(n as int),
{
    lemma_pushes_append(Seq::empty(), ids);
    assert(Seq::<u64>::empty() + ids =~= ids);
    lemma_pops_take_the_front(ids, ids.len());
    assert(ids.take(ids.len() as int) =~= ids);
    assert(ids.skip(ids.len() as int) =~= Seq::<u64>::empty());
    if n <= ready.len() {
        lemma_pops_take_the_front(ready, n);
    }
}

/// The numbers `k` successive task starts get, from the registry's next
/// number, as `spawn_task`'s contract gives them.
pub open spec fn numbers_from(next_id: u64, k: nat) -> Seq<u64>
    decreases k,
{
    if k == 0 {
        Seq::empty()
    } else {
        seq![next_id] + numbers_from(next_number(next_id), (k - 1) as nat)
    }
}

/// The tasks after `k` successive task starts.
pub open spec fn tasks_after_starts(tasks: Map<u64, TaskCompletion>, next_id: u64, k: nat) -> Map<
    u64,
    TaskCompletion,
>
    decreases k,
{
    if k == 0 {
        tasks
    } else {
        tasks_after_starts(
            tasks.insert(next_id, TaskCompletion::Pending),
            next_number(next_id),
            (k - 1) as nat,
        )
    }
}

/// Tasks started one after another get the numbers that follow the
/// registry's next number, in increasing order and all different (from a
/// new registry: 1, 2, ..., k), and each is known as pending. This holds
/// until the numbers run out at `u64::MAX`.
pub proof fn law_started_tasks_are_numbered_in_order(
    tasks: Map<u64, TaskCompletion>,
    next_id: u64,
    k: nat,
)
    requires
        next_id + k <= u64::MAX + 1,
    ensures
        numbers_from(next_id, k).len() == k,
        forall|i: int| 0 <= i < k ==> #[trigger] numbers_from(next_id, k)[i] == next_id + i,
        forall|i: int, j: int|
            0 <= i < j < k ==> #[trigger] numbers_from(next_id, k)[i] < #[trigger] numbers_from(
                next_id,
                k,
            )[j],
        forall|i: int|
            0 <= i < k ==> tasks_after_starts(tasks, next_id, k).contains_key(
                #[trigger] numbers_from(next_id, k)[i],
            ) && tasks_after_starts(tasks, next_id, k)[numbers_from(next_id, k)[i]] is Pending,
    decreases k,
{
    if k > 0 {
        let entered = tasks.insert(next_id, TaskCompletion::Pending);
        let later = next_number(next_id);
        if k > 1 {
            assert(later == next_id + 1);
        }
        law_started_tasks_are_numbered_in_order(entered, later, (k - 1) as nat);
        let ns = numbers_from(next_id, k);
        let rest = numbers_from(later, (k - 1) as nat);
        assert(ns == seq![next_id] + rest);
        assert forall|i: int| 0 <= i < k implies #[trigger] ns[i] == next_id + i by {
            if i > 0 {
                assert(ns[i] == rest[i - 1]);
            }
        }
        lemma_starts_keep_pending(entered, later, (k - 1) as nat, next_id);
        let after = tasks_after_starts(tasks, next_id, k);
        assert(after == tasks_after_starts(entered, later, (k - 1) as nat));
        assert forall|i: int| 0 <= i < k implies after.contains_key(#[trigger] ns[i]) && after[ns[i]]
            is Pending by {
            if i > 0 {
                assert(ns[i] == rest[i - 1]);
            }
        }
    }
}

proof fn lemma_starts_keep_pending(
    tasks: Map<u64, TaskCompletion>,
    next_id: u64,
    k: nat,
    known: u64,
)
    requires
        tasks.contains_key(known),
        tasks[known] is Pending,
    ensures
        tasks_after_starts(tasks, next_id, k).contains_key(known),
        tasks_after_starts(tasks, next_id, k)[known] is Pending,
    decreases k,
{
    if k > 0 {
        lemma_starts_keep_pending(
            tasks.insert(next_id, TaskCompletion::Pending),
            next_number(next_id),
            (k - 1) as nat,
            known,
        );
    }
}

/// Two tasks started one after the other get different numbers.
pub proof fn law_task_numbers_differ(next_id: u64)
    ensures
        next_number(next_id) != next_id,
{
}

/// Text handed to the host as its UTF-8 bytes is read back as the same
/// text, whether the text is required or optional.
pub proof fn law_text_round_trip(text: Seq<char>)
    ensures
        text_required(Some(encode_utf8(text))) == Ok::<Seq<char>, crate::options::Fail>(text),
        text_field(Some(encode_utf8(text))) == Ok::<Option<Seq<char>>, crate::options::Fail>(
            Some(text),
        ),
{
    encode_utf8_valid_utf8(text);
    encode_utf8_decode_utf8(text);
}

/// Whether a text has no two `/` in a row.
pub open spec fn no_double_slash(y: Seq<char>) -> bool {
    forall|i: int| 0 <= i < y.len() - 1 ==> !(#[trigger] y[i] == '/' && y[i + 1] == '/')
}

/// Scanning from inside a component always adds something.
proof fn lemma_body_in_component_nonempty(s: Seq<char>)
    ensures
        root_body(s, true).len() > 0,
{
    if s.len() > 0 {
        if s[0] == '/' {
            assert(root_body(s, true) == seq!['/'] + root_body(s.drop_first(), false));
        } else {
            assert(root_body(s, true) == seq![s[0]] + root_body(s.drop_first(), true));
        }
    }
}

/// What scanning adds has no two `/` in a row, ends with `/` unless it is
/// empty, and, outside a component, does not start with `/`.
proof fn lemma_body_shape(s: Seq<char>, in_component: bool)
    ensures
        no_double_slash(root_body(s, in_component)),
        root_body(s, in_component).len() > 0 ==> root_body(s, in_component).last() == '/',
        !in_component && root_body(s, in_component).len() > 0 ==> root_body(s, in_component)[0]
            != '/',
    decreases s.len(),
{
    let y = root_body(s, in_component);
    if s.len() == 0 {
        if in_component {
            assert(y == seq!['/']);
        }
    } else {
        let rest_s = s.drop_first();
        if s[0] == '/' {
            lemma_body_shape(rest_s, false);
            let rest = root_body(rest_s, false);
            if in_component {
                assert(y == seq!['/'] + rest);
                assert forall|i: int| 0 <= i < y.len() - 1 implies !(#[trigger] y[i] == '/' && y[i
                    + 1] == '/') by {
                    if i == 0 {
                        assert(y[1] == rest[0]);
                    } else {
                        assert(y[i] == rest[i - 1]);
                        assert(y[i + 1] == rest[i]);
                    }
                }
                if rest.len() > 0 {
                    assert(y.last() == rest.last());
                }
            } else {
                assert(y =~= rest);
            }
        } else {
            lemma_body_shape(rest_s, true);
            lemma_body_in_component_nonempty(rest_s);
            let rest = root_body(rest_s, true);
            assert(y == seq![s[0]] + rest);
            assert forall|i: int| 0 <= i < y.len() - 1 implies !(#[trigger] y[i] == '/' && y[i
                + 1] == '/') by {
                if i == 0 {
                    assert(y[0] == s[0]);
                } else {
                    assert(y[i] == rest[i - 1]);
                    assert(y[i + 1] == rest[i]);
                }
            }
            assert(y.last() == rest.last());
            assert(y[0] == s[0]);
        }
    }
}

/// Scanning a text that already has the shape of a scan's output gives it
/// back.
proof fn lemma_body_fixed(x: Seq<char>, in_component: bool)
    requires
        no_double_slash(x),
        x.len() > 0 ==> x.last() == '/',
        x.len() == 0 ==> !in_component,
        !in_component && x.len() > 0 ==> x[0] != '/',
    ensures
        root_body(x, in_component) == x,
    decreases x.len(),
{
    if x.len() > 0 {
        let rest = x.drop_first();
        assert forall|i: int| 0 <= i < rest.len() - 1 implies !(#[trigger] rest[i] == '/'
            && rest[i + 1] == '/') by {
            assert(rest[i] == x[i + 1]);
            assert(rest[i + 1] == x[i + 2]);
        }
        if rest.len() > 0 {
            assert(rest.last() == x.last());
        }
        if x[0] == '/' {
            assert(in_component);
            if rest.len() > 0 {
                assert(rest[0] == x[1]);
            }
            lemma_body_fixed(rest, false);
            assert(root_body(x, in_component) == seq!['/'] + root_body(rest, false));
            assert(seq!['/'] + rest =~= x);
        } else {
            assert(rest.len() > 0) by {
                if rest.len() == 0 {
                    assert(x.last() == x[0]);
                }
            }
            lemma_body_fixed(rest, true);
            assert(root_body(x, in_component) == seq![x[0]] + root_body(rest, true));
            assert(seq![x[0]] + rest =~= x);
        }
    }
}

/// A normalized working directory starts and ends with `/`, has no empty
/// component, and normalizing it again changes nothing.
pub proof fn law_normalized_root(s: Seq<char>)
    ensures
        normalized_root(s).len() > 0,
        normalized_root(s)[0] == '/',
        normalized_root(s).last() == '/',
        no_double_slash(normalized_root(s)),
        normalized_root(normalized_root(s)) == normalized_root(s),
{
    let body = root_body(s, false);
    let t = normalized_root(s);
    lemma_body_shape(s, false);
    assert(t == seq!['/'] + body);
    assert(t[0] == '/');
    if body.len() > 0 {
        assert(t.last() == body.last());
    }
    assert forall|i: int| 0 <= i < t.len() - 1 implies !(#[trigger] t[i] == '/' && t[i + 1]
        == '/') by {
        if i == 0 {
            assert(t[1] == body[0]);
        } else {
            assert(t[i] == body[i - 1]);
            assert(t[i + 1] == body[i]);
        }
    }
    assert(t.drop_first() =~= body);
    assert(root_body(t, false) == root_body(t.drop_first(), false));
    lemma_body_fixed(body, false);
}


/// The characters of a text other than `/`, in order.
pub open spec fn letters(s: Seq<char>) -> Seq<char>
    decreases s.len(),
{
    if s.len() == 0 {
        Seq::empty()
    } else if s[0] == '/' {
        letters(s.drop_first())
    } else {
        seq![s[0]] + letters(s.drop_first())
    }
}

proof fn lemma_letters_of_join(a: Seq<char>, b: Seq<char>)
    ensures
        letters(a + b) == letters(a) + letters(b),
    decreases a.len(),
{
    if a.len() == 0 {
        assert(a + b =~= b);
        assert(letters(a) + letters(b) =~= letters(b));
    } else {
        assert((a + b).drop_first() =~= a.drop_first() + b);
        lemma_letters_of_join(a.drop_first(), b);
        assert(seq![a[0]] + (letters(a.drop_first()) + letters(b)) =~= (seq![a[0]] + letters(
            a.drop_first(),
        )) + letters(b));
    }
}

proof fn lemma_body_keeps_letters(s: Seq<char>, in_component: bool)
    ensures
        letters(root_body(s, in_component)) == letters(s),
    decreases s.len(),
{
    if s.len() == 0 {
        if in_component {
            assert(letters(seq!['/']) == letters(seq!['/'].drop_first()));
            assert(seq!['/'].drop_first() =~= Seq::<char>::empty());
        }
    } else {
        lemma_body_keeps_letters(s.drop_first(), s[0] != '/');
        let head: Seq<char> = if s[0] == '/' {
            if in_component {
                seq!['/']
            } else {
                Seq::<char>::empty()
            }
        } else {
            seq![s[0]]
        };
        assert(root_body(s, in_component) == head + root_body(s.drop_first(), s[0] != '/'));
        lemma_letters_of_join(head, root_body(s.drop_first(), s[0] != '/'));
        assert(head.len() > 0 ==> head.drop_first() =~= Seq::<char>::empty());
        assert(letters(Seq::<char>::empty()) == Seq::<char>::empty());
        if s[0] != '/' {
            assert(letters(head) == seq![s[0]] + letters(head.drop_first()));
            assert(seq![s[0]] + Seq::<char>::empty() =~= seq![s[0]]);
        }
    }
}

/// Normalizing a working directory keeps every character other than `/`,
/// in order, and adds none: only slashes are dropped or added.
pub proof fn law_normalized_root_keeps_letters(s: Seq<char>)
    ensures
        letters(normalized_root(s)) == letters(s),
{
    lemma_body_keeps_letters(s, false);
    lemma_letters_of_join(seq!['/'], root_body(s, false));
    assert(seq!['/'].drop_first() =~= Seq::<char>::empty());
    assert(letters(seq!['/']) == letters(seq!['/'].drop_first()));
    assert(Seq::<char>::empty() + letters(s) =~= letters(s));
}


proof fn lemma_body_of_one_component(s: Seq<char>, in_component: bool)
    requires
        forall|i: int| 0 <= i < s.len() ==> s[i] != '/',
    ensures
        root_body(s, in_component) == s + (if s.len() > 0 || in_component {
            seq!['/']
        } else {
            Seq::<char>::empty()
        }),
    decreases s.len(),
{
    if s.len() == 0 {
        assert(s + Seq::<char>::empty() =~= Seq::<char>::empty());
        assert(s + seq!['/'] =~= seq!['/']);
    } else {
        let rest = s.drop_first();
        assert forall|i: int| 0 <= i < rest.len() implies rest[i] != '/' by {
            assert(rest[i] == s[i + 1]);
        }
        lemma_body_of_one_component(rest, true);
        assert(s[0] != '/');
        assert(seq![s[0]] + (rest + seq!['/']) =~= s + seq!['/']);
    }
}

/// A working directory that is a single name without `/` is normalized to
/// that name between two `/`.
pub proof fn law_single_name_root(s: Seq<char>)
    requires
        s.len() > 0,
        forall|i: int| 0 <= i < s.len() ==> s[i] != '/',
    ensures
        normalized_root(s) == seq!['/'] + s + seq!['/'],
{
    lemma_body_of_one_component(s, false);
    assert(seq!['/'] + (s + seq!['/']) =~= seq!['/'] + s + seq!['/']);
}

} // verus!
