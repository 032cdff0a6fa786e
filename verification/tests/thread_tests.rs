use preempt_rt::sched::{Scheduler, SchedulerParams};
use preempt_rt::thread::Builder;

#[test]
fn new_builder_holds_the_request_and_nothing_else() {
    let b = Builder::new(Scheduler::SCHED_FIFO, 10);
    assert!(b.name.is_none());
    assert!(b.stack_size.is_none());
    assert_eq!(b.parameterized_scheduler.scheduler, Scheduler::SCHED_FIFO);
    assert_eq!(b.parameterized_scheduler.params.priority, 10);
}

#[test]
fn new_builder_normalizes_absent_params_to_zero() {
    let b = Builder::new(Scheduler::SCHED_RR, None::<i32>);
    assert_eq!(b.parameterized_scheduler.params.priority, 0);
}

#[test]
fn new_builder_accepts_a_parameter_record() {
    let b = Builder::new(Scheduler::SCHED_RR, SchedulerParams { priority: 3 });
    assert_eq!(b.parameterized_scheduler.params.priority, 3);
}

#[test]
fn naming_keeps_the_rest_of_the_configuration() {
    let b = Builder::new(Scheduler::SCHED_FIFO, 10).name("worker");
    assert_eq!(b.name.as_deref(), Some("worker"));
    assert!(b.stack_size.is_none());
    assert_eq!(b.parameterized_scheduler.scheduler, Scheduler::SCHED_FIFO);
    assert_eq!(b.parameterized_scheduler.params.priority, 10);
}

#[test]
fn stack_size_keeps_the_rest_of_the_configuration() {
    let b = Builder::new(Scheduler::SCHED_FIFO, 10)
        .name("worker")
        .stack_size(65536);
    assert_eq!(b.stack_size, Some(65536));
    assert_eq!(b.name.as_deref(), Some("worker"));
    assert_eq!(b.parameterized_scheduler.params.priority, 10);
}
