//! The bookkeeping of an asynchronous runtime: the tasks it started and
//! their states, the queue of tasks that completed, the numbering of new
//! tasks, and the error of the last call.
use std::collections::HashMap;
use std::collections::VecDeque;
use vstd::prelude::*;
use vstd::string::*;

use vstd::utf8::encode_utf8;

use crate::convert::build_error_info;
use crate::codes::{od_zig_error_code, od_zig_notifier_kind, od_zig_poll_state, od_zig_task_state};
use crate::error::StoredError;
use crate::ffi::{
    od_zig_result_error_info_optional, od_zig_result_optional_u64, od_zig_runtime_options, od_zig_task_cancel_result,
    od_zig_task_poll_result, od_zig_task_state_result,
};
use crate::task::{
    error_code_of, is_running, kind_of, poll_state, poll_state_of, task_error_code, task_state,
    task_state_of, value_kind, TaskCompletion, TaskOutcome, TaskValue, TaskValueKind,
};

verus! {

broadcast use vstd::std_specs::hash::group_hash_axioms;

/// The registry as mathematical values.
pub ghost struct RegistryView {
    /// The state of each task that was started and not yet freed.
    pub tasks: Map<u64, TaskCompletion>,
    /// The tasks that completed and that the host has not yet popped, the
    /// earliest first.
    pub ready: Seq<u64>,
    /// The number the next task gets.
    pub next_id: u64,
    /// The code and message of the last failed call, unless a later call
    /// succeeded.
    pub last_error: Option<(od_zig_error_code, Seq<char>)>,
}

/// The bookkeeping of an asynchronous runtime.
pub struct TaskRegistry {
    tasks: HashMap<u64, TaskCompletion>,
    ready_tasks: VecDeque<u64>,
    next_task_id: u64,
    last_error: Option<(od_zig_error_code, String)>,
}

/// A recorded error as mathematical values.
pub open spec fn error_view(e: Option<(od_zig_error_code, String)>) -> Option<
    (od_zig_error_code, Seq<char>),
> {
    match e {
        Some((c, m)) => Some((c, m@)),
        None => None,
    }
}

impl View for TaskRegistry {
    type V = RegistryView;

    closed spec fn view(&self) -> RegistryView {
        RegistryView {
            tasks: self.tasks@,
            ready: self.ready_tasks@,
            next_id: self.next_task_id,
            last_error: error_view(self.last_error),
        }
    }
}

/// The number after `n`, wrapping to zero after the largest.
pub open spec fn next_number(n: u64) -> u64 {
    if n == u64::MAX {
        0
    } else {
        (n + 1) as u64
    }
}

/// The number of worker threads a runtime asks for: at least one where
/// the caller gives a number, else the runtime's default.
pub fn worker_thread_count(options: &od_zig_runtime_options) -> (n: Option<usize>)
    ensures
        n == (if options.has_worker_threads {
            Some(
                (if options.worker_threads >= 1 {
                    options.worker_threads as usize
                } else {
                    1usize
                }),
            )
        } else {
            None
        }),
{
    if options.has_worker_threads {
        if options.worker_threads >= 1 {
            Some(options.worker_threads as usize)
        } else {
            Some(1)
        }
    } else {
        None
    }
}

/// The options of a runtime that a caller of the synchronous interface
/// gets: the default number of workers, room for 1024 completions, and a
/// cancellation check every 10 milliseconds.
pub fn empty_runtime_options() -> (o: od_zig_runtime_options)
    ensures
        !o.has_worker_threads,
        o.worker_threads == 0,
        o.completion_queue_capacity == 1024,
        o.cancellation_check_interval_ms == 10,
{
    od_zig_runtime_options {
        has_worker_threads: false,
        worker_threads: 0,
        completion_queue_capacity: 1024,
        cancellation_check_interval_ms: 10,
    }
}


/// The completion queue after a task is signaled: the task goes last.
pub open spec fn after_signal(ready: Seq<u64>, task_id: u64) -> Seq<u64> {
    ready.push(task_id)
}

/// The task a pop hands out, if the queue holds any: the one queued first.
pub open spec fn front_of(ready: Seq<u64>) -> Option<u64> {
    if ready.len() > 0 {
        Some(ready[0])
    } else {
        None
    }
}

/// The completion queue after a pop: without the task handed out.
pub open spec fn after_pop(ready: Seq<u64>) -> Seq<u64> {
    if ready.len() > 0 {
        ready.drop_first()
    } else {
        ready
    }
}

/// Whether recording an outcome for the task makes it ready: it must be
/// known and still running.
pub open spec fn completion_signals(tasks: Map<u64, TaskCompletion>, task_id: u64) -> bool {
    tasks.contains_key(task_id) && is_running(tasks[task_id])
}

/// The tasks after an outcome is recorded for a task.
pub open spec fn tasks_after_completion(
    tasks: Map<u64, TaskCompletion>,
    task_id: u64,
    outcome: TaskOutcome,
) -> Map<u64, TaskCompletion> {
    if completion_signals(tasks, task_id) {
        tasks.insert(task_id, TaskCompletion::Ready(outcome))
    } else {
        tasks
    }
}

/// The tasks after the first step of a cancellation: a running task is
/// being canceled.
pub open spec fn tasks_after_cancel_begin(tasks: Map<u64, TaskCompletion>, task_id: u64) -> Map<
    u64,
    TaskCompletion,
> {
    if tasks.contains_key(task_id) && is_running(tasks[task_id]) {
        tasks.insert(task_id, TaskCompletion::Canceling)
    } else {
        tasks
    }
}

/// The tasks after the second step of a cancellation: a task still
/// running is canceled.
pub open spec fn tasks_after_cancel_finish(tasks: Map<u64, TaskCompletion>, task_id: u64) -> Map<
    u64,
    TaskCompletion,
> {
    if tasks.contains_key(task_id) && is_running(tasks[task_id]) {
        tasks.insert(task_id, TaskCompletion::Canceled)
    } else {
        tasks
    }
}

/// Whether a cancellation reports that the task had completed: it had an
/// outcome nobody had taken.
pub open spec fn cancel_reports_completed(tasks: Map<u64, TaskCompletion>, task_id: u64) -> bool {
    tasks.contains_key(task_id) && tasks[task_id] is Ready
}

impl TaskRegistry {
    /// An empty registry whose first task gets the number 1; room for the
    /// given number of completions (at least one) is set aside.
    pub fn new(options: &od_zig_runtime_options) -> (r: TaskRegistry)
        ensures
            r@.tasks == Map::<u64, TaskCompletion>::empty(),
            r@.ready == Seq::<u64>::empty(),
            r@.next_id == 1,
            r@.last_error is None,
    {
        let capacity = if options.completion_queue_capacity >= 1 {
            options.completion_queue_capacity
        } else {
            1
        };
        TaskRegistry {
            tasks: HashMap::new(),
            ready_tasks: VecDeque::with_capacity(capacity),
            next_task_id: 1,
            last_error: None,
        }
    }

    /// Enters a new task, pending, under the next number, and returns the
    /// number.
    pub fn register_task(&mut self) -> (id: u64)
        ensures
            id == old(self)@.next_id,
            final(self)@.tasks == old(self)@.tasks.insert(id, TaskCompletion::Pending),
            final(self)@.next_id == next_number(old(self)@.next_id),
            final(self)@.ready == old(self)@.ready,
            final(self)@.last_error == old(self)@.last_error,
    {
        let id = self.next_task_id;
        self.next_task_id = if id == u64::MAX {
            0
        } else {
            id + 1
        };
        self.tasks.insert(id, TaskCompletion::Pending);
        id
    }

    /// Appends a completed task to the queue of completions.
    pub fn push_ready(&mut self, task_id: u64)
        ensures
            final(self)@.ready == after_signal(old(self)@.ready, task_id),
            final(self)@.tasks == old(self)@.tasks,
            final(self)@.next_id == old(self)@.next_id,
            final(self)@.last_error == old(self)@.last_error,
    {
        self.ready_tasks.push_back(task_id);
    }

    /// Records the outcome of a task's work. A task that is still running
    /// becomes ready with the outcome and joins the queue of completions,
    /// and `true` is returned; a task that was canceled, consumed or
    /// already completed, or that is unknown, is left as it is.
    pub fn complete_task(&mut self, task_id: u64, outcome: TaskOutcome) -> (signaled: bool)
        ensures
            signaled == completion_signals(old(self)@.tasks, task_id),
            final(self)@.tasks == tasks_after_completion(old(self)@.tasks, task_id, outcome),
            signaled ==> final(self)@.tasks == old(self)@.tasks.insert(
                task_id,
                TaskCompletion::Ready(outcome),
            ) && final(self)@.ready == after_signal(old(self)@.ready, task_id),
            !signaled ==> final(self)@.tasks == old(self)@.tasks && final(self)@.ready == old(
                self,
            )@.ready,
            final(self)@.next_id == old(self)@.next_id,
            final(self)@.last_error == old(self)@.last_error,
    {
        let ghost before = self.tasks@;
        match self.tasks.remove(&task_id) {
            None => false,
            Some(state) => {
                match state {
                    TaskCompletion::Pending | TaskCompletion::Canceling => {
                        self.tasks.insert(task_id, TaskCompletion::Ready(outcome));
                        assert(self.tasks@ =~= before.insert(task_id, TaskCompletion::Ready(outcome)));
                        self.push_ready(task_id);
                        true
                    },
                    other => {
                        self.tasks.insert(task_id, other);
                        assert(self.tasks@ =~= before);
                        false
                    },
                }
            },
        }
    }

    /// Takes the earliest completion off the queue, if there is one.
    pub fn pop_ready_task(&mut self) -> (r: od_zig_result_optional_u64)
        ensures
            r.code == od_zig_error_code::OD_ZIG_OK,
            old(self)@.ready.len() > 0 ==> r.has_value && Some(r.value) == front_of(old(self)@.ready)
                && final(self)@.ready == after_pop(old(self)@.ready),
            old(self)@.ready.len() == 0 ==> !r.has_value && r.value == 0 && final(self)@.ready
                == old(self)@.ready,
            final(self)@.tasks == old(self)@.tasks,
            final(self)@.next_id == old(self)@.next_id,
            final(self)@.last_error == old(self)@.last_error,
    {
        match self.ready_tasks.pop_front() {
            Some(id) => {
                assert(self.ready_tasks@ =~= old(self)@.ready.drop_first());
                od_zig_result_optional_u64 {
                    code: od_zig_error_code::OD_ZIG_OK,
                    has_value: true,
                    value: id,
                }
            },
            None => od_zig_result_optional_u64 {
                code: od_zig_error_code::OD_ZIG_OK,
                has_value: false,
                value: 0,
            },
        }
    }

    /// The information of the last failed call, if a later call has not
    /// succeeded since.
    pub fn last_error_info(&self) -> (r: od_zig_result_error_info_optional)
        ensures
            r.code == od_zig_error_code::OD_ZIG_OK,
            r.has_value == self@.last_error is Some,
            match self@.last_error {
                Some((code, message)) => r.value matches Some(info) && info.code == code
                    && info.message@ == Some(encode_utf8(message)),
                None => r.value is None,
            },
    {
        match &self.last_error {
            Some((code, message)) => od_zig_result_error_info_optional {
                code: od_zig_error_code::OD_ZIG_OK,
                has_value: true,
                value: Some(build_error_info(*code, message)),
            },
            None => od_zig_result_error_info_optional {
                code: od_zig_error_code::OD_ZIG_OK,
                has_value: false,
                value: None,
            },
        }
    }

    /// Whether the task is known.
    pub fn take_task(&self, task_id: u64) -> (found: bool)
        ensures
            found == self@.tasks.contains_key(task_id),
    {
        self.tasks.contains_key(&task_id)
    }

    /// Records a failed call.
    pub fn record_error(&mut self, err: &StoredError)
        ensures
            final(self)@.last_error == Some((err.code, err.message@)),
            final(self)@.tasks == old(self)@.tasks,
            final(self)@.ready == old(self)@.ready,
            final(self)@.next_id == old(self)@.next_id,
    {
        self.last_error = Some((err.code, err.message.clone()));
    }

    /// Forgets the last failed call.
    pub fn clear_error(&mut self)
        ensures
            final(self)@.last_error is None,
            final(self)@.tasks == old(self)@.tasks,
            final(self)@.ready == old(self)@.ready,
            final(self)@.next_id == old(self)@.next_id,
    {
        self.last_error = None;
    }

    /// Passes a call's result through, recording its error where it failed
    /// and forgetting the last error where it succeeded.
    pub fn map_and_record<T>(&mut self, result: Result<T, StoredError>) -> (res: Result<
        T,
        StoredError,
    >)
        ensures
            res == result,
            match result {
                Ok(_) => final(self)@.last_error is None,
                Err(e) => final(self)@.last_error == Some((e.code, e.message@)),
            },
            final(self)@.tasks == old(self)@.tasks,
            final(self)@.ready == old(self)@.ready,
            final(self)@.next_id == old(self)@.next_id,
    {
        match result {
            Ok(value) => {
                self.clear_error();
                Ok(value)
            },
            Err(err) => {
                self.record_error(&err);
                Err(err)
            },
        }
    }

    /// Forgets a task; returns whether it was known.
    pub fn free_task(&mut self, task_id: u64) -> (removed: bool)
        ensures
            removed == old(self)@.tasks.contains_key(task_id),
            final(self)@.tasks == old(self)@.tasks.remove(task_id),
            final(self)@.ready == old(self)@.ready,
            final(self)@.next_id == old(self)@.next_id,
            final(self)@.last_error == old(self)@.last_error,
    {
        self.tasks.remove(&task_id).is_some()
    }
}

/// The message of a task the registry does not know.
pub open spec fn task_not_found_message() -> Seq<char> {
    "task not found in runtime registry"@
}

/// The message of a take whose kind is not the kind of the task's value.
pub open spec fn kind_mismatch_message() -> Seq<char> {
    "task result kind mismatch"@
}

/// The message of a take from a task that has no outcome to give.
pub open spec fn not_ready_message() -> Seq<char> {
    "task is not ready"@
}

/// The message of a call given a null task.
pub open spec fn null_task_message() -> Seq<char> {
    "task pointer is null"@
}

/// The error of a call given a null task.
pub fn null_task_error() -> (e: StoredError)
    ensures
        e.code == od_zig_error_code::OD_ZIG_INVALID_ARGUMENT,
        e.message@ == null_task_message(),
{
    StoredError::new(
        od_zig_error_code::OD_ZIG_INVALID_ARGUMENT,
        String::from_str("task pointer is null"),
    )
}

/// Looks a task up: an internal error where the registry does not know it.
pub fn task_inner(runtime: &TaskRegistry, task_id: u64) -> (res: Result<(), StoredError>)
    ensures
        res is Ok <==> runtime@.tasks.contains_key(task_id),
        res matches Err(e) ==> e.code == od_zig_error_code::OD_ZIG_INTERNAL && e.message@
            == task_not_found_message(),
{
    if runtime.take_task(task_id) {
        Ok(())
    } else {
        Err(StoredError::internal(String::from_str("task not found in runtime registry")))
    }
}

/// Whether a task has finished: `OD_ZIG_INVALID_ARGUMENT` and pending
/// where the task is unknown.
pub fn od_zig_task_poll(runtime: &TaskRegistry, task_id: u64) -> (r: od_zig_task_poll_result)
    ensures
        runtime@.tasks.contains_key(task_id) ==> r.code == od_zig_error_code::OD_ZIG_OK && r.state
            == poll_state_of(runtime@.tasks[task_id]),
        !runtime@.tasks.contains_key(task_id) ==> r.code
            == od_zig_error_code::OD_ZIG_INVALID_ARGUMENT && r.state
            == od_zig_poll_state::OD_ZIG_POLL_PENDING,
{
    match runtime.tasks.get(&task_id) {
        Some(state) => od_zig_task_poll_result {
            code: od_zig_error_code::OD_ZIG_OK,
            state: poll_state(state),
        },
        None => od_zig_task_poll_result {
            code: od_zig_error_code::OD_ZIG_INVALID_ARGUMENT,
            state: od_zig_poll_state::OD_ZIG_POLL_PENDING,
        },
    }
}

/// The state of a task: `OD_ZIG_INVALID_ARGUMENT` and failed where the
/// task is unknown.
pub fn od_zig_task_get_state(runtime: &TaskRegistry, task_id: u64) -> (r: od_zig_task_state_result)
    ensures
        runtime@.tasks.contains_key(task_id) ==> r.code == od_zig_error_code::OD_ZIG_OK && r.state
            == task_state_of(runtime@.tasks[task_id]),
        !runtime@.tasks.contains_key(task_id) ==> r.code
            == od_zig_error_code::OD_ZIG_INVALID_ARGUMENT && r.state
            == od_zig_task_state::OD_ZIG_TASK_FAILED,
{
    match runtime.tasks.get(&task_id) {
        Some(state) => od_zig_task_state_result {
            code: od_zig_error_code::OD_ZIG_OK,
            state: task_state(state),
        },
        None => od_zig_task_state_result {
            code: od_zig_error_code::OD_ZIG_INVALID_ARGUMENT,
            state: od_zig_task_state::OD_ZIG_TASK_FAILED,
        },
    }
}

/// The code a task reports: `OD_ZIG_INTERNAL` where it is unknown.
pub fn task_error_code_inner(runtime: &TaskRegistry, task_id: u64) -> (c: od_zig_error_code)
    ensures
        runtime@.tasks.contains_key(task_id) ==> c == error_code_of(runtime@.tasks[task_id]),
        !runtime@.tasks.contains_key(task_id) ==> c == od_zig_error_code::OD_ZIG_INTERNAL,
{
    match runtime.tasks.get(&task_id) {
        Some(state) => task_error_code(state),
        None => od_zig_error_code::OD_ZIG_INTERNAL,
    }
}


/// The code of a take that fails, or `None` where the take succeeds.
pub open spec fn take_failure_code(
    tasks: Map<u64, TaskCompletion>,
    task_id: u64,
    kind: TaskValueKind,
) -> Option<od_zig_error_code> {
    if !tasks.contains_key(task_id) {
        Some(od_zig_error_code::OD_ZIG_INTERNAL)
    } else {
        match tasks[task_id] {
            TaskCompletion::Ready(Ok(v)) => if kind_of(v) == kind {
                None
            } else {
                Some(od_zig_error_code::OD_ZIG_INTERNAL)
            },
            TaskCompletion::Ready(Err(e)) => Some(e.code),
            TaskCompletion::Canceled => Some(od_zig_error_code::OD_ZIG_CANCELED),
            _ => Some(od_zig_error_code::OD_ZIG_INTERNAL),
        }
    }
}

/// The value a ready task holds.
pub open spec fn ready_value(tasks: Map<u64, TaskCompletion>, task_id: u64) -> TaskValue {
    match tasks[task_id] {
        TaskCompletion::Ready(Ok(v)) => v,
        _ => TaskValue::Unit,
    }
}

/// The tasks after a take: the task is consumed where its value was taken
/// or its error handed out, and unchanged otherwise.
pub open spec fn tasks_after_take(
    tasks: Map<u64, TaskCompletion>,
    task_id: u64,
    kind: TaskValueKind,
) -> Map<u64, TaskCompletion> {
    if tasks.contains_key(task_id) && (take_failure_code(tasks, task_id, kind) is None
        || tasks[task_id] matches TaskCompletion::Ready(Err(_))) {
        tasks.insert(task_id, TaskCompletion::Consumed)
    } else {
        tasks
    }
}

/// Takes the outcome of a task, asking for a value of the given kind. A
/// ready value of that kind is handed out and the task becomes consumed;
/// a value of another kind stays where it is; a ready error is handed out
/// and the task becomes consumed; a canceled task stays canceled; any
/// other task is not ready and stays as it is.
pub fn take_task_value(runtime: &mut TaskRegistry, task_id: u64, kind: TaskValueKind) -> (res:
    Result<TaskValue, StoredError>)
    ensures
        final(runtime)@.ready == old(runtime)@.ready,
        final(runtime)@.next_id == old(runtime)@.next_id,
        final(runtime)@.last_error == old(runtime)@.last_error,
        final(runtime)@.tasks == tasks_after_take(old(runtime)@.tasks, task_id, kind),
        res is Ok <==> take_failure_code(old(runtime)@.tasks, task_id, kind) is None,
        res matches Ok(v) ==> v == ready_value(old(runtime)@.tasks, task_id),
        res matches Err(e) ==> take_failure_code(old(runtime)@.tasks, task_id, kind) == Some(
            e.code,
        ),
        !old(runtime)@.tasks.contains_key(task_id) ==> {
            &&& final(runtime)@.tasks == old(runtime)@.tasks
            &&& res matches Err(e) && e.code == od_zig_error_code::OD_ZIG_INTERNAL && e.message@
                == task_not_found_message()
        },
        old(runtime)@.tasks.contains_key(task_id) ==> match old(runtime)@.tasks[task_id] {
            TaskCompletion::Ready(Ok(v)) => if kind_of(v) == kind {
                &&& res == Ok::<TaskValue, StoredError>(v)
                &&& final(runtime)@.tasks == old(runtime)@.tasks.insert(
                    task_id,
                    TaskCompletion::Consumed,
                )
            } else {
                &&& final(runtime)@.tasks == old(runtime)@.tasks
                &&& res matches Err(e) && e.code == od_zig_error_code::OD_ZIG_INTERNAL
                    && e.message@ == kind_mismatch_message()
            },
            TaskCompletion::Ready(Err(e)) => {
                &&& res == Err::<TaskValue, StoredError>(e)
                &&& final(runtime)@.tasks == old(runtime)@.tasks.insert(
                    task_id,
                    TaskCompletion::Consumed,
                )
            },
            TaskCompletion::Canceled => {
                &&& final(runtime)@.tasks == old(runtime)@.tasks
                &&& res matches Err(e) && e.code == od_zig_error_code::OD_ZIG_CANCELED
                    && e.message@ == "task canceled"@
            },
            _ => {
                &&& final(runtime)@.tasks == old(runtime)@.tasks
                &&& res matches Err(e) && e.code == od_zig_error_code::OD_ZIG_INTERNAL
                    && e.message@ == not_ready_message()
            },
        },
{
    let ghost before = runtime.tasks@;
    let state = match runtime.tasks.remove(&task_id) {
        Some(state) => state,
        None => {
            return Err(StoredError::internal(String::from_str("task not found in runtime registry")));
        },
    };
    match state {
        TaskCompletion::Ready(Ok(value)) => {
            if value_kind(&value) == kind {
                runtime.tasks.insert(task_id, TaskCompletion::Consumed);
                assert(runtime.tasks@ =~= before.insert(task_id, TaskCompletion::Consumed));
                Ok(value)
            } else {
                runtime.tasks.insert(task_id, TaskCompletion::Ready(Ok(value)));
                assert(runtime.tasks@ =~= before);
                Err(StoredError::internal(String::from_str("task result kind mismatch")))
            }
        },
        TaskCompletion::Ready(Err(err)) => {
            runtime.tasks.insert(task_id, TaskCompletion::Consumed);
            assert(runtime.tasks@ =~= before.insert(task_id, TaskCompletion::Consumed));
            Err(err)
        },
        TaskCompletion::Canceled => {
            runtime.tasks.insert(task_id, TaskCompletion::Canceled);
            assert(runtime.tasks@ =~= before);
            Err(StoredError::canceled())
        },
        other => {
            runtime.tasks.insert(task_id, other);
            assert(runtime.tasks@ =~= before);
            Err(StoredError::internal(String::from_str("task is not ready")))
        },
    }
}

/// The first step of canceling a task: either the answer is known at once,
/// or the task's work must be aborted and awaited before the second step.
#[derive(Debug)]
pub enum CancelStep {
    Done(od_zig_task_cancel_result),
    AbortWork,
}

/// The first step of canceling a task. A ready task reports that it had
/// completed; a canceled or consumed one reports that it had not; a
/// pending one becomes canceling and its work must be aborted; an unknown
/// one gives `OD_ZIG_INVALID_ARGUMENT`.
pub fn cancel_begin(runtime: &mut TaskRegistry, task_id: u64) -> (step: CancelStep)
    ensures
        final(runtime)@.tasks == tasks_after_cancel_begin(old(runtime)@.tasks, task_id),
        step matches CancelStep::Done(r) ==> r.completed == cancel_reports_completed(
            old(runtime)@.tasks,
            task_id,
        ),
        final(runtime)@.ready == old(runtime)@.ready,
        final(runtime)@.next_id == old(runtime)@.next_id,
        final(runtime)@.last_error == old(runtime)@.last_error,
        !old(runtime)@.tasks.contains_key(task_id) ==> {
            &&& final(runtime)@.tasks == old(runtime)@.tasks
            &&& step matches CancelStep::Done(r) && r.code
                == od_zig_error_code::OD_ZIG_INVALID_ARGUMENT && !r.completed
        },
        old(runtime)@.tasks.contains_key(task_id) ==> match old(runtime)@.tasks[task_id] {
            TaskCompletion::Ready(_) => {
                &&& final(runtime)@.tasks == old(runtime)@.tasks
                &&& step matches CancelStep::Done(r) && r.code == od_zig_error_code::OD_ZIG_OK
                    && r.completed
            },
            TaskCompletion::Canceled | TaskCompletion::Consumed => {
                &&& final(runtime)@.tasks == old(runtime)@.tasks
                &&& step matches CancelStep::Done(r) && r.code == od_zig_error_code::OD_ZIG_OK
                    && !r.completed
            },
            _ => final(runtime)@.tasks == old(runtime)@.tasks.insert(
                task_id,
                TaskCompletion::Canceling,
            ) && step is AbortWork,
        },
{
    let ghost before = runtime.tasks@;
    let state = match runtime.tasks.remove(&task_id) {
        Some(state) => state,
        None => {
            return CancelStep::Done(
                od_zig_task_cancel_result {
                    code: od_zig_error_code::OD_ZIG_INVALID_ARGUMENT,
                    completed: false,
                },
            );
        },
    };
    match state {
        TaskCompletion::Pending | TaskCompletion::Canceling => {
            runtime.tasks.insert(task_id, TaskCompletion::Canceling);
            assert(runtime.tasks@ =~= before.insert(task_id, TaskCompletion::Canceling));
            CancelStep::AbortWork
        },
        TaskCompletion::Ready(outcome) => {
            runtime.tasks.insert(task_id, TaskCompletion::Ready(outcome));
            assert(runtime.tasks@ =~= before);
            CancelStep::Done(
                od_zig_task_cancel_result { code: od_zig_error_code::OD_ZIG_OK, completed: true },
            )
        },
        other => {
            runtime.tasks.insert(task_id, other);
            assert(runtime.tasks@ =~= before);
            CancelStep::Done(
                od_zig_task_cancel_result { code: od_zig_error_code::OD_ZIG_OK, completed: false },
            )
        },
    }
}

/// The second step of canceling a task, once its work was aborted and
/// awaited: a task that completed meanwhile reports that it had completed;
/// one still running becomes canceled; any other reports that it had not
/// completed.
pub fn cancel_finish(runtime: &mut TaskRegistry, task_id: u64) -> (r: od_zig_task_cancel_result)
    ensures
        final(runtime)@.tasks == tasks_after_cancel_finish(old(runtime)@.tasks, task_id),
        r.completed == cancel_reports_completed(old(runtime)@.tasks, task_id),
        final(runtime)@.ready == old(runtime)@.ready,
        final(runtime)@.next_id == old(runtime)@.next_id,
        final(runtime)@.last_error == old(runtime)@.last_error,
        !old(runtime)@.tasks.contains_key(task_id) ==> final(runtime)@.tasks == old(runtime)@.tasks
            && r.code == od_zig_error_code::OD_ZIG_INVALID_ARGUMENT && !r.completed,
        old(runtime)@.tasks.contains_key(task_id) ==> r.code == od_zig_error_code::OD_ZIG_OK
            && match old(runtime)@.tasks[task_id] {
            TaskCompletion::Ready(_) => final(runtime)@.tasks == old(runtime)@.tasks
                && r.completed,
            TaskCompletion::Pending | TaskCompletion::Canceling => final(runtime)@.tasks == old(
                runtime,
            )@.tasks.insert(task_id, TaskCompletion::Canceled) && !r.completed,
            _ => final(runtime)@.tasks == old(runtime)@.tasks && !r.completed,
        },
{
    let ghost before = runtime.tasks@;
    let state = match runtime.tasks.remove(&task_id) {
        Some(state) => state,
        None => {
            return od_zig_task_cancel_result {
                code: od_zig_error_code::OD_ZIG_INVALID_ARGUMENT,
                completed: false,
            };
        },
    };
    match state {
        TaskCompletion::Pending | TaskCompletion::Canceling => {
            runtime.tasks.insert(task_id, TaskCompletion::Canceled);
            assert(runtime.tasks@ =~= before.insert(task_id, TaskCompletion::Canceled));
            od_zig_task_cancel_result { code: od_zig_error_code::OD_ZIG_OK, completed: false }
        },
        TaskCompletion::Ready(outcome) => {
            runtime.tasks.insert(task_id, TaskCompletion::Ready(outcome));
            assert(runtime.tasks@ =~= before);
            od_zig_task_cancel_result { code: od_zig_error_code::OD_ZIG_OK, completed: true }
        },
        other => {
            runtime.tasks.insert(task_id, other);
            assert(runtime.tasks@ =~= before);
            od_zig_task_cancel_result { code: od_zig_error_code::OD_ZIG_OK, completed: false }
        },
    }
}

/// How a runtime signals completions: through the read end of a pipe
/// where it has a notifier, else not at all.
pub fn notifier_kind(has_notifier: bool) -> (k: od_zig_notifier_kind)
    ensures
        k == (if has_notifier {
            od_zig_notifier_kind::OD_ZIG_NOTIFIER_PIPE_READ_FD
        } else {
            od_zig_notifier_kind::OD_ZIG_NOTIFIER_NONE
        }),
{
    if has_notifier {
        od_zig_notifier_kind::OD_ZIG_NOTIFIER_PIPE_READ_FD
    } else {
        od_zig_notifier_kind::OD_ZIG_NOTIFIER_NONE
    }
}

} // verus!
