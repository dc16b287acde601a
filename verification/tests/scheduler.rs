use xochron::scheduler::{ceiling_for, Resource, Scheduler, TaskDesc, Trigger};
use xochron::watch::{state_accessors, watch_tasks, GPIOTE, MEASURE_HR, RTC0, UPDATE_UI};

#[test]
fn dispatch_follows_strict_priority() {
    let mut sched = Scheduler::new(watch_tasks());
    sched.spawn(UPDATE_UI); // priority 1
    sched.spawn(RTC0); // priority 3
    sched.spawn(MEASURE_HR); // priority 2

    assert_eq!(sched.dispatch(), Some(RTC0));
    sched.finish();
    assert_eq!(sched.dispatch(), Some(MEASURE_HR));
    sched.finish();
    assert_eq!(sched.dispatch(), Some(UPDATE_UI));
    sched.finish();
    assert_eq!(sched.dispatch(), None);
}

#[test]
fn equal_priorities_never_interleave_and_break_ties_by_index() {
    let mut sched = Scheduler::new(watch_tasks());
    sched.spawn(UPDATE_UI); // priority 1
    sched.spawn(GPIOTE); // priority 1 as well

    // the lower index of the two equal-priority tasks goes first
    assert_eq!(sched.dispatch(), Some(UPDATE_UI));
    // while it runs, its peer must wait: one strictly completes first
    assert_eq!(sched.dispatch(), None);
    sched.finish();
    assert_eq!(sched.dispatch(), Some(GPIOTE));
}

#[test]
fn higher_priority_work_preempts_immediately() {
    let mut sched = Scheduler::new(watch_tasks());
    sched.spawn(UPDATE_UI);
    assert_eq!(sched.dispatch(), Some(UPDATE_UI));
    // a higher-priority trigger lands mid-run and preempts at once
    sched.spawn(RTC0);
    assert_eq!(sched.dispatch(), Some(RTC0));
    assert_eq!(sched.current_floor(), 3);
    sched.finish();
    // the preempted task resumes; nothing new to dispatch
    assert_eq!(sched.current_floor(), 1);
    assert_eq!(sched.dispatch(), None);
    sched.finish();
}

#[test]
fn ceiling_lock_blocks_every_accessor() {
    // the shared state is touched by all four tasks: ceiling 3
    let tasks = watch_tasks();
    let ceiling = ceiling_for(&tasks, &state_accessors());
    assert_eq!(ceiling, 3);

    let mut sched = Scheduler::new(tasks);
    sched.spawn(RTC0); // priority 3
    assert_eq!(sched.dispatch(), Some(RTC0));
    sched.lock(ceiling);
    assert_eq!(sched.current_floor(), 3);

    // a priority-2 task attempting the same resource cannot preempt
    sched.spawn(MEASURE_HR);
    assert_eq!(sched.dispatch(), None);

    sched.unlock();
    sched.finish();
    assert_eq!(sched.dispatch(), Some(MEASURE_HR));
}

#[test]
fn release_lets_pending_high_priority_work_run() {
    let mut sched = Scheduler::new(watch_tasks());
    sched.spawn(UPDATE_UI); // priority 1
    assert_eq!(sched.dispatch(), Some(UPDATE_UI));

    // the low-priority task raises the floor to the shared ceiling
    sched.lock(3);
    sched.spawn(RTC0); // priority 3, pending behind the ceiling
    assert_eq!(sched.dispatch(), None);

    // the moment the resource is released, the priority-3 task preempts
    sched.unlock();
    assert_eq!(sched.current_floor(), 1);
    assert_eq!(sched.dispatch(), Some(RTC0));
    sched.finish();
    sched.finish();
}

#[test]
fn floor_rises_to_the_highest_locked_ceiling() {
    let mut sched = Scheduler::new(watch_tasks());
    sched.spawn(UPDATE_UI);
    assert_eq!(sched.dispatch(), Some(UPDATE_UI));
    assert_eq!(sched.current_floor(), 1);
    sched.lock(2);
    assert_eq!(sched.current_floor(), 2);
    sched.lock(3);
    assert_eq!(sched.current_floor(), 3);
    sched.unlock();
    assert_eq!(sched.current_floor(), 2);
    sched.unlock();
    assert_eq!(sched.current_floor(), 1);
    sched.finish();
    assert_eq!(sched.current_floor(), 0);
}

#[test]
fn spawning_twice_coalesces_into_one_run() {
    let mut sched = Scheduler::new(watch_tasks());
    sched.spawn(MEASURE_HR);
    sched.spawn(MEASURE_HR);
    assert_eq!(sched.dispatch(), Some(MEASURE_HR));
    sched.finish();
    assert_eq!(sched.dispatch(), None);
}

#[test]
fn ceiling_for_takes_the_highest_accessor() {
    let tasks = vec![
        TaskDesc { priority: 1, trigger: Trigger::SpawnOnly },
        TaskDesc { priority: 2, trigger: Trigger::SpawnOnly },
        TaskDesc { priority: 3, trigger: Trigger::Periodic },
    ];
    assert_eq!(ceiling_for(&tasks, &vec![0, 1]), 2);
    assert_eq!(ceiling_for(&tasks, &vec![0]), 1);
    assert_eq!(ceiling_for(&tasks, &Vec::new()), 0);
}

#[test]
fn resource_wraps_a_value_with_its_ceiling() {
    let mut resource = Resource::new(3, 41u32);
    assert_eq!(resource.ceiling(), 3);
    assert_eq!(*resource.borrow(), 41);
    *resource.borrow_mut() += 1;
    assert_eq!(*resource.borrow(), 42);
}
