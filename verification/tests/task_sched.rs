use rcore_core::console::Console;
use rcore_core::task::{
    exit_current_and_run_next, run_first_task, suspend_current_and_run_next, NextTask,
    TaskContext, TaskManager, TaskStatus,
};

fn manager(num_app: usize) -> TaskManager {
    let cx_addrs: Vec<usize> = (0..num_app).map(|i| 0x8100_0000 + i * 0x2000).collect();
    let mut tm = TaskManager::new(num_app, 0x8020_0000, &cx_addrs);
    run_first_task(&mut tm);
    tm
}

fn running_tasks(tm: &TaskManager) -> Vec<usize> {
    (0..16).filter(|&i| tm.inner.tasks[i].task_status == TaskStatus::Running).collect()
}

#[test]
fn task_context_constructors() {
    let z = TaskContext::zero_init();
    assert_eq!(z.ra, 0);
    assert_eq!(z.sp, 0);
    assert_eq!(z.s, [0; 12]);
    let g = TaskContext::goto_restore(0x8020_0000, 0x8100_1ef0);
    assert_eq!(g.ra, 0x8020_0000);
    assert_eq!(g.sp, 0x8100_1ef0);
    assert_eq!(g.s, [0; 12]);
}

#[test]
fn new_manager_marks_loaded_tasks_ready() {
    let cx_addrs: Vec<usize> = vec![0x8100_0000, 0x8100_2000, 0x8100_4000];
    let tm = TaskManager::new(3, 0x8020_0000, &cx_addrs);
    assert_eq!(tm.num_app, 3);
    assert_eq!(tm.inner.current_task, 0);
    for i in 0..3 {
        assert_eq!(tm.inner.tasks[i].task_status, TaskStatus::Ready);
        assert_eq!(tm.inner.tasks[i].task_cx.ra, 0x8020_0000);
        assert_eq!(tm.inner.tasks[i].task_cx.sp, cx_addrs[i]);
    }
    for i in 3..16 {
        assert_eq!(tm.inner.tasks[i].task_status, TaskStatus::UnInit);
    }
}

#[test]
fn first_task_starts_running() {
    let tm = manager(3);
    assert_eq!(tm.inner.current_task, 0);
    assert_eq!(running_tasks(&tm), vec![0]);
    assert_eq!(tm.inner.tasks[1].task_status, TaskStatus::Ready);
    assert_eq!(tm.inner.tasks[2].task_status, TaskStatus::Ready);
}

#[test]
fn yields_rotate_round_robin() {
    let mut tm = manager(3);
    let mut con = Console::new();
    let mut order: Vec<usize> = Vec::new();
    for _ in 0..6 {
        let r = suspend_current_and_run_next(&mut tm, &mut con);
        match r {
            NextTask::Switch { prev: _, next } => order.push(next),
            NextTask::Shutdown => panic!("no shutdown expected"),
        }
    }
    assert_eq!(order, vec![1, 2, 0, 1, 2, 0]);
    assert!(con.bytes.is_empty());
}

#[test]
fn yields_return_to_start_after_one_full_round() {
    // Three live tasks: three yields from task 0 come back to task 0 with
    // every status as before.
    let mut tm = manager(3);
    let before: Vec<TaskStatus> = (0..16).map(|i| tm.inner.tasks[i].task_status).collect();
    let mut con = Console::new();
    for _ in 0..3 {
        suspend_current_and_run_next(&mut tm, &mut con);
    }
    let after: Vec<TaskStatus> = (0..16).map(|i| tm.inner.tasks[i].task_status).collect();
    assert_eq!(tm.inner.current_task, 0);
    assert_eq!(before, after);
}

#[test]
fn yield_with_single_task_returns_to_it() {
    let mut tm = manager(1);
    let mut con = Console::new();
    let r = suspend_current_and_run_next(&mut tm, &mut con);
    assert_eq!(r, NextTask::Switch { prev: 0, next: 0 });
    assert_eq!(tm.inner.current_task, 0);
    assert_eq!(running_tasks(&tm), vec![0]);
}

#[test]
fn exactly_one_task_runs_at_every_observable_point() {
    let mut tm = manager(4);
    let mut con = Console::new();
    for step in 0..12 {
        assert!(tm.inner.current_task < tm.num_app, "step {step}");
        assert_eq!(running_tasks(&tm), vec![tm.inner.current_task], "step {step}");
        suspend_current_and_run_next(&mut tm, &mut con);
    }
}

#[test]
fn exited_tasks_are_skipped() {
    let mut tm = manager(3);
    let mut con = Console::new();
    // Task 0 exits; scheduling continues with tasks 1 and 2.
    let r = exit_current_and_run_next(&mut tm, &mut con);
    assert_eq!(r, NextTask::Switch { prev: 0, next: 1 });
    assert_eq!(tm.inner.tasks[0].task_status, TaskStatus::Exited);
    // Yields now alternate between 1 and 2, never visiting 0.
    let r = suspend_current_and_run_next(&mut tm, &mut con);
    assert_eq!(r, NextTask::Switch { prev: 1, next: 2 });
    let r = suspend_current_and_run_next(&mut tm, &mut con);
    assert_eq!(r, NextTask::Switch { prev: 2, next: 1 });
    assert_eq!(tm.inner.tasks[0].task_status, TaskStatus::Exited);
}

#[test]
fn last_exit_asks_for_shutdown() {
    let mut tm = manager(2);
    let mut con = Console::new();
    let r = exit_current_and_run_next(&mut tm, &mut con);
    assert_eq!(r, NextTask::Switch { prev: 0, next: 1 });
    assert!(con.bytes.is_empty());
    let r = exit_current_and_run_next(&mut tm, &mut con);
    assert_eq!(r, NextTask::Shutdown);
    assert_eq!(con.bytes, b"All applications completed!\n".to_vec());
    assert_eq!(tm.inner.tasks[0].task_status, TaskStatus::Exited);
    assert_eq!(tm.inner.tasks[1].task_status, TaskStatus::Exited);
}

#[test]
fn find_next_task_picks_first_ready_after_current() {
    let mut tm = manager(4);
    // Make task 1 exited: scan from current 0 must pick 2.
    tm.inner.tasks[1].task_status = TaskStatus::Exited;
    assert_eq!(tm.find_next_task(), Some(2));
    // With every other task exited, the current (ready) task is found last.
    tm.inner.tasks[2].task_status = TaskStatus::Exited;
    tm.inner.tasks[3].task_status = TaskStatus::Exited;
    tm.inner.tasks[0].task_status = TaskStatus::Ready;
    assert_eq!(tm.find_next_task(), Some(0));
    tm.inner.tasks[0].task_status = TaskStatus::Exited;
    assert_eq!(tm.find_next_task(), None);
}
