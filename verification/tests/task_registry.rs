use opendal_zig::calls::{
    check_async_runtime, finish_bool, finish_u64, finish_unit, finish_usize, od_zig_task_take_bool,
    od_zig_task_take_bytes, od_zig_task_take_entry, od_zig_task_take_u64, od_zig_task_take_unit,
    od_zig_task_take_usize, spawn_task, take_handle,
};
use opendal_zig::codes::{od_zig_error_code, od_zig_poll_state, od_zig_task_state};
use opendal_zig::error::StoredError;
use opendal_zig::runtime::{
    cancel_begin, cancel_finish, empty_runtime_options, null_task_error, od_zig_task_get_state,
    od_zig_task_poll, take_task_value, task_error_code_inner, task_inner, worker_thread_count,
    CancelStep, TaskRegistry,
};
use opendal_zig::task::{TaskValue, TaskValueKind};

fn registry() -> TaskRegistry {
    TaskRegistry::new(&empty_runtime_options())
}

#[test]
fn runtime_options_defaults() {
    let o = empty_runtime_options();
    assert!(!o.has_worker_threads);
    assert_eq!(o.worker_threads, 0);
    assert_eq!(o.completion_queue_capacity, 1024);
    assert_eq!(o.cancellation_check_interval_ms, 10);
    assert_eq!(worker_thread_count(&o), None);
    let mut o = o;
    o.has_worker_threads = true;
    assert_eq!(worker_thread_count(&o), Some(1));
    o.worker_threads = 6;
    assert_eq!(worker_thread_count(&o), Some(6));
}

#[test]
fn tasks_are_numbered_from_one() {
    let mut r = registry();
    let a = spawn_task(&mut r);
    let b = spawn_task(&mut r);
    assert_eq!(a.code, od_zig_error_code::OD_ZIG_OK);
    assert_eq!(a.value, Some(1));
    assert_eq!(b.value, Some(2));
    assert!(task_inner(&r, 1).is_ok());
    let err = task_inner(&r, 3).unwrap_err();
    assert_eq!(err.code, od_zig_error_code::OD_ZIG_INTERNAL);
    assert_eq!(err.message, "task not found in runtime registry");
}

#[test]
fn completions_queue_in_order_and_signal_once() {
    let mut r = registry();
    let a = r.register_task();
    let b = r.register_task();
    assert!(r.complete_task(b, Ok(TaskValue::Unit)));
    assert!(r.complete_task(a, Ok(TaskValue::Bool(true))));
    assert!(!r.complete_task(a, Ok(TaskValue::Bool(false))));
    assert!(!r.complete_task(99, Ok(TaskValue::Unit)));
    let first = r.pop_ready_task();
    assert_eq!(first.code, od_zig_error_code::OD_ZIG_OK);
    assert!(first.has_value);
    assert_eq!(first.value, b);
    let second = r.pop_ready_task();
    assert_eq!(second.value, a);
    let none = r.pop_ready_task();
    assert!(!none.has_value);
    assert_eq!(none.value, 0);
    // The second completion did not replace the first outcome.
    let taken = od_zig_task_take_bool(&mut r, a);
    assert_eq!(taken.code, od_zig_error_code::OD_ZIG_OK);
    assert!(taken.value);
}

#[test]
fn poll_and_state_follow_the_task() {
    let mut r = registry();
    let id = r.register_task();
    let p = od_zig_task_poll(&r, id);
    assert_eq!(p.code, od_zig_error_code::OD_ZIG_OK);
    assert_eq!(p.state, od_zig_poll_state::OD_ZIG_POLL_PENDING);
    assert_eq!(od_zig_task_get_state(&r, id).state, od_zig_task_state::OD_ZIG_TASK_PENDING);
    assert_eq!(task_error_code_inner(&r, id), od_zig_error_code::OD_ZIG_OK);

    r.complete_task(id, Err(StoredError::new(od_zig_error_code::OD_ZIG_NOT_FOUND, "gone".to_string())));
    assert_eq!(od_zig_task_poll(&r, id).state, od_zig_poll_state::OD_ZIG_POLL_READY);
    assert_eq!(od_zig_task_get_state(&r, id).state, od_zig_task_state::OD_ZIG_TASK_FAILED);
    assert_eq!(task_error_code_inner(&r, id), od_zig_error_code::OD_ZIG_NOT_FOUND);

    let taken = od_zig_task_take_unit(&mut r, id);
    assert_eq!(taken.code, od_zig_error_code::OD_ZIG_NOT_FOUND);
    assert_eq!(od_zig_task_get_state(&r, id).state, od_zig_task_state::OD_ZIG_TASK_CONSUMED);

    let unknown = od_zig_task_poll(&r, 42);
    assert_eq!(unknown.code, od_zig_error_code::OD_ZIG_INVALID_ARGUMENT);
    assert_eq!(unknown.state, od_zig_poll_state::OD_ZIG_POLL_PENDING);
    let unknown = od_zig_task_get_state(&r, 42);
    assert_eq!(unknown.code, od_zig_error_code::OD_ZIG_INVALID_ARGUMENT);
    assert_eq!(unknown.state, od_zig_task_state::OD_ZIG_TASK_FAILED);
    assert_eq!(task_error_code_inner(&r, 42), od_zig_error_code::OD_ZIG_INTERNAL);
}

#[test]
fn outcomes_are_taken_once() {
    let mut r = registry();
    let id = r.register_task();
    let early = take_task_value(&mut r, id, TaskValueKind::Usize).unwrap_err();
    assert_eq!(early.code, od_zig_error_code::OD_ZIG_INTERNAL);
    assert_eq!(early.message, "task is not ready");

    r.complete_task(id, Ok(TaskValue::Usize(17)));
    let wrong = take_task_value(&mut r, id, TaskValueKind::Bool).unwrap_err();
    assert_eq!(wrong.code, od_zig_error_code::OD_ZIG_INTERNAL);
    assert_eq!(wrong.message, "task result kind mismatch");
    assert_eq!(od_zig_task_get_state(&r, id).state, od_zig_task_state::OD_ZIG_TASK_READY);

    let taken = od_zig_task_take_usize(&mut r, id);
    assert_eq!(taken.code, od_zig_error_code::OD_ZIG_OK);
    assert_eq!(taken.value, 17);
    let again = od_zig_task_take_usize(&mut r, id);
    assert_eq!(again.code, od_zig_error_code::OD_ZIG_INTERNAL);
    assert_eq!(again.value, 0);

    let missing = take_task_value(&mut r, 1000, TaskValueKind::Unit).unwrap_err();
    assert_eq!(missing.message, "task not found in runtime registry");
}

#[test]
fn typed_takes_hand_out_values() {
    let mut r = registry();
    let a = r.register_task();
    let b = r.register_task();
    let c = r.register_task();
    let d = r.register_task();
    r.complete_task(a, Ok(TaskValue::U64(9)));
    r.complete_task(b, Ok(TaskValue::Bytes(vec![1, 2])));
    r.complete_task(c, Ok(TaskValue::Entry(None)));
    r.complete_task(d, Ok(TaskValue::Reader(77)));
    assert_eq!(od_zig_task_take_u64(&mut r, a).value, 9);
    assert_eq!(od_zig_task_take_bytes(&mut r, b).unwrap(), vec![1, 2]);
    let entry = od_zig_task_take_entry(&mut r, c);
    assert_eq!(entry.code, od_zig_error_code::OD_ZIG_OK);
    assert!(!entry.has_value);
    assert!(entry.value.is_none());
    assert_eq!(take_handle(&mut r, d, TaskValueKind::Writer).unwrap_err().code, od_zig_error_code::OD_ZIG_INTERNAL);
    assert_eq!(take_handle(&mut r, d, TaskValueKind::Reader).unwrap(), 77);
}

#[test]
fn canceling_a_completed_task_keeps_its_outcome() {
    let mut r = registry();
    let id = r.register_task();
    r.complete_task(id, Ok(TaskValue::Bool(true)));
    match cancel_begin(&mut r, id) {
        CancelStep::Done(res) => {
            assert_eq!(res.code, od_zig_error_code::OD_ZIG_OK);
            assert!(res.completed);
        }
        CancelStep::AbortWork => panic!("a completed task needs no abort"),
    }
    let taken = od_zig_task_take_bool(&mut r, id);
    assert_eq!(taken.code, od_zig_error_code::OD_ZIG_OK);
    assert!(taken.value);
    match cancel_begin(&mut r, id) {
        CancelStep::Done(res) => assert!(!res.completed),
        CancelStep::AbortWork => panic!("a consumed task needs no abort"),
    }
}

#[test]
fn canceling_a_pending_task_cancels_it() {
    let mut r = registry();
    let id = r.register_task();
    assert!(matches!(cancel_begin(&mut r, id), CancelStep::AbortWork));
    assert_eq!(od_zig_task_poll(&r, id).state, od_zig_poll_state::OD_ZIG_POLL_PENDING);
    let res = cancel_finish(&mut r, id);
    assert_eq!(res.code, od_zig_error_code::OD_ZIG_OK);
    assert!(!res.completed);
    assert!(!r.complete_task(id, Ok(TaskValue::Unit)));
    assert!(!r.pop_ready_task().has_value);
    assert_eq!(od_zig_task_poll(&r, id).state, od_zig_poll_state::OD_ZIG_POLL_READY);
    assert_eq!(od_zig_task_get_state(&r, id).state, od_zig_task_state::OD_ZIG_TASK_CANCELED);
    assert_eq!(task_error_code_inner(&r, id), od_zig_error_code::OD_ZIG_CANCELED);
    let taken = od_zig_task_take_unit(&mut r, id);
    assert_eq!(taken.code, od_zig_error_code::OD_ZIG_CANCELED);
    assert_eq!(od_zig_task_get_state(&r, id).state, od_zig_task_state::OD_ZIG_TASK_CANCELED);
}

#[test]
fn work_finishing_during_cancel_is_kept() {
    let mut r = registry();
    let id = r.register_task();
    assert!(matches!(cancel_begin(&mut r, id), CancelStep::AbortWork));
    assert!(r.complete_task(id, Ok(TaskValue::U64(5))));
    let res = cancel_finish(&mut r, id);
    assert!(res.completed);
    assert_eq!(r.pop_ready_task().value, id);
    assert_eq!(od_zig_task_take_u64(&mut r, id).value, 5);
}

#[test]
fn unknown_tasks_cannot_be_canceled() {
    let mut r = registry();
    match cancel_begin(&mut r, 5) {
        CancelStep::Done(res) => {
            assert_eq!(res.code, od_zig_error_code::OD_ZIG_INVALID_ARGUMENT);
            assert!(!res.completed);
        }
        CancelStep::AbortWork => panic!("unknown task"),
    }
    let res = cancel_finish(&mut r, 5);
    assert_eq!(res.code, od_zig_error_code::OD_ZIG_INVALID_ARGUMENT);
    let null = null_task_error();
    assert_eq!(null.code, od_zig_error_code::OD_ZIG_INVALID_ARGUMENT);
    assert_eq!(null.message, "task pointer is null");
}

#[test]
fn freed_tasks_are_forgotten() {
    let mut r = registry();
    let id = r.register_task();
    assert!(r.free_task(id));
    assert!(!r.free_task(id));
    assert!(!r.take_task(id));
    assert!(!r.complete_task(id, Ok(TaskValue::Unit)));
}

#[test]
fn last_error_follows_the_last_call() {
    let mut r = registry();
    let none = r.last_error_info();
    assert_eq!(none.code, od_zig_error_code::OD_ZIG_OK);
    assert!(!none.has_value);
    assert!(none.value.is_none());

    let res = finish_unit(&mut r, Err(StoredError::new(od_zig_error_code::OD_ZIG_NOT_FOUND, "no such file".to_string())));
    assert_eq!(res.code, od_zig_error_code::OD_ZIG_NOT_FOUND);
    let info = r.last_error_info();
    assert!(info.has_value);
    let info = info.value.unwrap();
    assert_eq!(info.code, od_zig_error_code::OD_ZIG_NOT_FOUND);
    assert_eq!(info.message.data, Some(b"no such file".to_vec()));

    let ok = finish_bool(&mut r, Ok(true));
    assert_eq!(ok.code, od_zig_error_code::OD_ZIG_OK);
    assert!(ok.value);
    assert!(!r.last_error_info().has_value);

    let failed = finish_usize(&mut r, Err(StoredError::new(od_zig_error_code::OD_ZIG_UNEXPECTED, "eof".to_string())));
    assert_eq!(failed.code, od_zig_error_code::OD_ZIG_UNEXPECTED);
    assert_eq!(failed.value, 0);
    let failed = finish_bool(&mut r, Err(StoredError::new(od_zig_error_code::OD_ZIG_UNEXPECTED, "eof".to_string())));
    assert!(!failed.value);
    let pos = finish_u64(&mut r, Ok(12));
    assert_eq!(pos.value, 12);
    assert_eq!(finish_usize(&mut r, Ok(3)).value, 3);

    r.record_error(&StoredError::internal("x".to_string()));
    assert!(r.last_error_info().has_value);
    r.clear_error();
    assert!(!r.last_error_info().has_value);
    let passed: Result<u8, StoredError> = r.map_and_record(Ok(4));
    assert_eq!(passed.unwrap(), 4);
}

#[test]
fn async_calls_need_a_runtime() {
    let mut r = registry();
    assert!(check_async_runtime(&mut r, true).is_ok());
    assert!(!r.last_error_info().has_value);
    let err = check_async_runtime(&mut r, false).unwrap_err();
    assert_eq!(err.code, od_zig_error_code::OD_ZIG_ASYNC_RUNTIME_REQUIRED);
    assert_eq!(err.message, "async runtime is required for async APIs");
    let info = r.last_error_info().value.unwrap();
    assert_eq!(info.code, od_zig_error_code::OD_ZIG_ASYNC_RUNTIME_REQUIRED);
}

#[test]
fn failed_work_is_handed_out_with_its_code() {
    let mut r = registry();
    let id = r.register_task();
    let failure = StoredError::new(od_zig_error_code::OD_ZIG_NOT_FOUND, "gone".to_string());
    assert!(r.complete_task(id, Err(failure)));
    assert_eq!(od_zig_task_get_state(&r, id).state, od_zig_task_state::OD_ZIG_TASK_FAILED);
    assert_eq!(task_error_code_inner(&r, id), od_zig_error_code::OD_ZIG_NOT_FOUND);

    let err = take_task_value(&mut r, id, TaskValueKind::Metadata).unwrap_err();
    assert_eq!(err.code, od_zig_error_code::OD_ZIG_NOT_FOUND);
    assert_eq!(err.message, "gone");
    assert_eq!(od_zig_task_get_state(&r, id).state, od_zig_task_state::OD_ZIG_TASK_CONSUMED);
    let again = od_zig_task_take_unit(&mut r, id);
    assert_eq!(again.code, od_zig_error_code::OD_ZIG_INTERNAL);
}

#[test]
fn queued_tasks_have_completed() {
    let mut r = registry();
    let pending = r.register_task();
    let canceled = r.register_task();
    let done = r.register_task();

    assert!(matches!(cancel_begin(&mut r, canceled), CancelStep::AbortWork));
    cancel_finish(&mut r, canceled);
    assert!(!r.complete_task(canceled, Ok(TaskValue::Unit)));
    assert!(r.complete_task(done, Ok(TaskValue::Usize(3))));

    let popped = r.pop_ready_task();
    assert!(popped.has_value);
    assert_eq!(popped.value, done);
    assert_eq!(od_zig_task_get_state(&r, popped.value).state, od_zig_task_state::OD_ZIG_TASK_READY);
    assert!(!r.pop_ready_task().has_value);
    assert_eq!(od_zig_task_get_state(&r, pending).state, od_zig_task_state::OD_ZIG_TASK_PENDING);
}

#[test]
fn started_tasks_are_numbered_and_popped_in_order() {
    let mut r = registry();
    let ids: Vec<u64> = (0..3).map(|_| spawn_task(&mut r).value.unwrap()).collect();
    assert_eq!(ids, vec![1, 2, 3]);
    for id in &ids {
        assert_eq!(od_zig_task_get_state(&r, *id).state, od_zig_task_state::OD_ZIG_TASK_PENDING);
    }
    for id in [2u64, 3, 1] {
        assert!(r.complete_task(id, Ok(TaskValue::Unit)));
    }
    let popped: Vec<u64> = (0..3).map(|_| r.pop_ready_task().value).collect();
    assert_eq!(popped, vec![2, 3, 1]);
    let last = r.pop_ready_task();
    assert!(!last.has_value);
    assert_eq!(last.value, 0);
}

#[test]
fn a_task_only_moves_forward() {
    let mut r = registry();
    let id = r.register_task();
    let other = r.register_task();
    assert_eq!(od_zig_task_get_state(&r, id).state, od_zig_task_state::OD_ZIG_TASK_PENDING);
    r.complete_task(id, Ok(TaskValue::Bool(true)));
    assert_eq!(od_zig_task_get_state(&r, id).state, od_zig_task_state::OD_ZIG_TASK_READY);
    assert!(matches!(cancel_begin(&mut r, id), CancelStep::Done(_)));
    cancel_finish(&mut r, id);
    r.complete_task(other, Ok(TaskValue::Unit));
    assert_eq!(od_zig_task_get_state(&r, id).state, od_zig_task_state::OD_ZIG_TASK_READY);
    od_zig_task_take_bool(&mut r, id);
    assert_eq!(od_zig_task_get_state(&r, id).state, od_zig_task_state::OD_ZIG_TASK_CONSUMED);
    r.complete_task(id, Ok(TaskValue::Bool(false)));
    cancel_begin(&mut r, id);
    cancel_finish(&mut r, id);
    assert_eq!(od_zig_task_get_state(&r, id).state, od_zig_task_state::OD_ZIG_TASK_CONSUMED);
}
