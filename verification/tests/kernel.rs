use rvkernel::sched::{KernelError, Scheduler, TaskState, FRAME_RESERVE, MAX_TASKS, STACK_SIZE};
use rvkernel::timer::{Timer, DEFAULT_INTERVAL};
use rvkernel::trap::{decode_cause, trap_vector, TrapCause, TrapFrame, TrapOutcome, NUM_REGS, SP_REG};
use rvkernel::uart::{Uart, UART_TXDATA, UART_TXSTAT};

const TIMER_CAUSE: u64 = 0x8000_0000_0000_0007;
const OTHER_INTERRUPT_CAUSE: u64 = 0x8000_0000_0000_000B;
const EXCEPTION_CAUSE: u64 = 2;

fn assert_state_invariant(s: &Scheduler) {
    let cur = s.current();
    let mut running = 0;
    for id in 0..MAX_TASKS {
        if matches!(s.task(id).state, TaskState::Running) {
            running += 1;
            assert_eq!(id, cur);
        }
    }
    assert!(running <= 1);
    if cur < MAX_TASKS {
        assert!(matches!(s.task(cur).state, TaskState::Running));
    }
}

#[test]
fn capacity_enforcement() {
    let mut s = Scheduler::new();
    for expected in 0..MAX_TASKS {
        let id = s.create_task(0x4000 + expected).unwrap();
        assert_eq!(id, expected);
        assert_state_invariant(&s);
    }
    let err = s.create_task(0x9999).unwrap_err();
    assert_eq!(err, KernelError::SchedulerFull);
    // The failed call left the table unchanged.
    for id in 0..MAX_TASKS {
        let t = s.task(id);
        assert_eq!(t.id, id);
        assert!(matches!(t.state, TaskState::Ready));
        assert_eq!(t.saved_context.sepc, 0x4000 + id);
    }
    assert_eq!(s.current(), MAX_TASKS);
}

#[test]
fn create_task_initial_context() {
    let mut s = Scheduler::new();
    let id = s.create_task(0xABCD).unwrap();
    let t = s.task(id);
    assert!(matches!(t.state, TaskState::Ready));
    assert_eq!(t.stack_ptr, STACK_SIZE - FRAME_RESERVE);
    assert_eq!(t.stack.len(), STACK_SIZE);
    assert_eq!(t.saved_context.sepc, 0xABCD);
    assert_eq!(t.saved_context.mstatus, 0);
    for r in 0..NUM_REGS {
        let expected = if r == SP_REG { STACK_SIZE - FRAME_RESERVE } else { 0 };
        assert_eq!(t.saved_context.reg(r), expected);
    }
}

#[test]
fn two_task_scenario() {
    // 2 tasks: A at slot 0, B at slot 1. From idle the cycle is A, B, A.
    let mut s = Scheduler::new();
    assert_eq!(s.create_task(0x1000).unwrap(), 0);
    assert_eq!(s.create_task(0x2000).unwrap(), 1);
    assert_eq!(s.current(), MAX_TASKS);

    assert_eq!(s.schedule(), Some(0));
    assert_eq!(s.current(), 0);
    assert!(matches!(s.task(0).state, TaskState::Running));
    assert_state_invariant(&s);

    assert_eq!(s.schedule(), Some(1));
    assert!(matches!(s.task(0).state, TaskState::Ready));
    assert!(matches!(s.task(1).state, TaskState::Running));
    assert_state_invariant(&s);

    assert_eq!(s.schedule(), Some(0));
    assert_state_invariant(&s);
}

#[test]
fn round_robin_full_cycle() {
    // With 3 live tasks, 3 consecutive calls visit each exactly once and the
    // third call re-selects the task that ran before the first.
    let mut s = Scheduler::new();
    for entry in [0xA, 0xB, 0xC] {
        s.create_task(entry).unwrap();
    }
    assert_eq!(s.schedule(), Some(0));
    let mut seen = vec![];
    for _ in 0..3 {
        let id = s.schedule().unwrap();
        assert!(!seen.contains(&id));
        seen.push(id);
        assert_state_invariant(&s);
    }
    assert_eq!(seen, vec![1, 2, 0]);
}

#[test]
fn idle_schedule_returns_none() {
    let mut s = Scheduler::new();
    assert_eq!(s.schedule(), None);
    assert_eq!(s.current(), MAX_TASKS);
    for id in 0..MAX_TASKS {
        assert!(matches!(s.task(id).state, TaskState::Available));
    }
}

#[test]
fn decode_cause_classification() {
    assert_eq!(decode_cause(TIMER_CAUSE), TrapCause::TimerInterrupt);
    assert_eq!(
        decode_cause(OTHER_INTERRUPT_CAUSE),
        TrapCause::OtherInterrupt { code: 0xB }
    );
    assert_eq!(decode_cause(EXCEPTION_CAUSE), TrapCause::Exception { code: 2 });
}

#[test]
fn exception_is_fatal() {
    let mut s = Scheduler::new();
    s.create_task(0x1000).unwrap();
    let mut timer = Timer::new();
    timer.init(0);
    let mut frame = TrapFrame::new();
    frame.set_reg(5, 77);
    let outcome = trap_vector(&mut s, &mut timer, &mut frame, EXCEPTION_CAUSE, 10);
    assert!(matches!(
        outcome,
        TrapOutcome::Fatal { error: KernelError::UnhandledException }
    ));
    // Nothing was switched.
    assert_eq!(s.current(), MAX_TASKS);
    assert_eq!(frame.reg(5), 77);
}

#[test]
fn other_interrupt_resumes_unchanged() {
    let mut s = Scheduler::new();
    s.create_task(0x1000).unwrap();
    s.schedule();
    let mut timer = Timer::new();
    timer.init(0);
    let mut frame = TrapFrame::new();
    frame.set_reg(7, 1234);
    frame.sepc = 0x1040;
    let outcome = trap_vector(&mut s, &mut timer, &mut frame, OTHER_INTERRUPT_CAUSE, 10);
    assert_eq!(outcome, TrapOutcome::Resume);
    assert_eq!(s.current(), 0);
    assert_eq!(frame.reg(7), 1234);
    assert_eq!(frame.sepc, 0x1040);
}

#[test]
fn timer_tick_with_nothing_ready_resumes_same_task() {
    // One task running and nothing else ready: the tick rearms the timer and
    // the dispatcher resumes the interrupted task with its frame intact.
    let mut s = Scheduler::new();
    s.create_task(0x1000).unwrap();
    assert_eq!(s.schedule(), Some(0));
    let mut timer = Timer::new();
    timer.init(0);
    let mut frame = TrapFrame::new();
    frame.sepc = 0x1010;
    frame.set_reg(10, 42);
    let now = 123_456;
    let outcome = trap_vector(&mut s, &mut timer, &mut frame, TIMER_CAUSE, now);
    assert_eq!(outcome, TrapOutcome::Resume);
    assert_eq!(s.current(), 0);
    assert_eq!(frame.sepc, 0x1010);
    assert_eq!(frame.reg(10), 42);
    assert_eq!(timer.mtimecmp(), now + DEFAULT_INTERVAL);
}

#[test]
fn timer_tick_switches_to_first_task_from_idle() {
    let mut s = Scheduler::new();
    s.create_task(0x1000).unwrap();
    s.create_task(0x2000).unwrap();
    let mut timer = Timer::new();
    timer.init(0);
    let mut frame = TrapFrame::new();
    frame.sepc = 0xB007; // interrupted boot idle loop
    let outcome = trap_vector(&mut s, &mut timer, &mut frame, TIMER_CAUSE, 50);
    assert_eq!(outcome, TrapOutcome::Resume);
    assert_eq!(s.current(), 0);
    // The frame now holds task 0's initial context.
    assert_eq!(frame.sepc, 0x1000);
    assert_eq!(frame.reg(SP_REG), STACK_SIZE - FRAME_RESERVE);
    assert_state_invariant(&s);
}

#[test]
fn context_fidelity_across_preemptions() {
    // Each task keeps a counter in register x10. Across many simulated ticks
    // every task, when resumed, observes exactly the register values it held
    // before it was preempted.
    let mut s = Scheduler::new();
    s.create_task(0x1000).unwrap();
    s.create_task(0x2000).unwrap();
    let mut timer = Timer::new();
    timer.init(0);
    let mut frame = TrapFrame::new();
    let mut now = 0u64;

    // First tick: enter task 0.
    now += DEFAULT_INTERVAL;
    trap_vector(&mut s, &mut timer, &mut frame, TIMER_CAUSE, now);
    assert_eq!(s.current(), 0);

    let mut counters = [0usize; 2];
    for _ in 0..10 {
        let cur = s.current();
        // The running task observes its own counter, increments it, and also
        // leaves a distinctive mark in another register.
        assert_eq!(frame.reg(10), counters[cur]);
        counters[cur] += 1;
        frame.set_reg(10, counters[cur]);
        frame.set_reg(11, 0x100 + cur);
        now += DEFAULT_INTERVAL;
        let outcome = trap_vector(&mut s, &mut timer, &mut frame, TIMER_CAUSE, now);
        assert_eq!(outcome, TrapOutcome::Resume);
        assert_state_invariant(&s);
        let resumed = s.current();
        if counters[resumed] > 0 {
            assert_eq!(frame.reg(11), 0x100 + resumed);
        }
        assert_eq!(timer.mtimecmp(), now + DEFAULT_INTERVAL);
    }
    // Both tasks made progress, alternating fairly.
    assert_eq!(counters[0], 5);
    assert_eq!(counters[1], 5);
}

#[test]
fn timer_rearm_tracks_fresh_clock() {
    let mut t = Timer::new();
    assert!(!t.armed());
    assert_eq!(t.interval(), DEFAULT_INTERVAL);
    let first = t.init(50);
    assert!(t.armed());
    assert_eq!(first, 50 + DEFAULT_INTERVAL);
    assert_eq!(t.mtimecmp(), 50 + DEFAULT_INTERVAL);

    // Each tick is late by a different overrun; the deadline after every tick
    // is relative to the fresh clock reading, never to the missed deadline.
    let mut clock = 50u64;
    for overrun in [0u64, 12_345, 1, 999_999, 7] {
        clock += DEFAULT_INTERVAL + overrun;
        let deadline = t.handle_interrupt(clock);
        assert_eq!(deadline, clock + DEFAULT_INTERVAL);
        assert_eq!(t.mtimecmp(), clock + DEFAULT_INTERVAL);
    }
}

#[test]
fn set_next_timeout_rearms() {
    let mut t = Timer::new();
    t.init(0);
    let d = t.set_next_timeout(777);
    assert_eq!(d, 777 + DEFAULT_INTERVAL);
    assert_eq!(t.mtimecmp(), 777 + DEFAULT_INTERVAL);
}

#[test]
fn frame_copy_and_reset() {
    let mut a = TrapFrame::new();
    for r in 0..NUM_REGS {
        a.set_reg(r, 1000 + r);
    }
    a.sepc = 0xCAFE;
    a.mstatus = 0x88;
    let mut b = TrapFrame::new();
    b.copy_from(&a);
    for r in 0..NUM_REGS {
        assert_eq!(b.reg(r), 1000 + r);
    }
    assert_eq!(b.sepc, 0xCAFE);
    assert_eq!(b.mstatus, 0x88);
    b.reset();
    for r in 0..NUM_REGS {
        assert_eq!(b.reg(r), 0);
    }
    assert_eq!(b.sepc, 0);
    assert_eq!(b.mstatus, 0);
}

#[test]
fn save_and_restore_context() {
    let mut s = Scheduler::new();
    s.create_task(0x1000).unwrap();
    s.schedule();
    let mut frame = TrapFrame::new();
    frame.set_reg(3, 333);
    frame.sepc = 0x1004;
    s.save_context(&frame);
    assert_eq!(s.task(0).saved_context.reg(3), 333);
    assert_eq!(s.task(0).saved_context.sepc, 0x1004);
    let mut other = TrapFrame::new();
    s.restore_context(&mut other);
    assert_eq!(other.reg(3), 333);
    assert_eq!(other.sepc, 0x1004);
}

#[test]
fn blocked_task_is_not_selected() {
    // A Blocked slot is skipped by the scan; with every live task Blocked the
    // scheduler reports idle and a tick resumes the interrupted code.
    let mut s = Scheduler::new();
    s.create_task(0x1000).unwrap();
    s.create_task(0x2000).unwrap();
    assert_eq!(s.schedule(), Some(0));
    s.block_current();
    assert_eq!(s.current(), MAX_TASKS);
    assert!(matches!(s.task(0).state, TaskState::Blocked));
    // Task 0 is blocked, so task 1 is selected; once it runs, nothing else
    // is ready and the scheduler reports idle rather than re-selecting it.
    assert_eq!(s.schedule(), Some(1));
    assert_eq!(s.schedule(), None);
    assert!(matches!(s.task(1).state, TaskState::Running));
    s.block_current();
    // Nothing is ready at all: idle.
    assert_eq!(s.schedule(), None);
    // Unblocking makes a task selectable again.
    s.unblock_task(0);
    assert_eq!(s.schedule(), Some(0));
    assert_state_invariant(&s);
}

#[test]
fn uart_register_addresses() {
    let u = Uart::new(0x1001_0000);
    assert_eq!(u.base(), 0x1001_0000);
    assert_eq!(u.reg_address(UART_TXDATA), 0x1001_0000);
    assert_eq!(u.reg_address(UART_TXSTAT), 0x1001_0014);
}
